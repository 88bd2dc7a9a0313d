use feeder::actors::msg::{GetChannels, GetItems, GetUser, ReadAllItems, ReadItem};
use feeder::graphql::Query;
use feeder::models::User;
use feeder::models::NewReadItem;
use feeder::queries::channels::ChannelQuery;
use feeder::queries::items::ItemQuery;
use feeder::queries::DbError;
use feeder::server::{
    channels, empty_reply, get_user, graphiql_endpoint, graphql_reply, identity, identity_name,
    items, json_reply, read, read_all, Identity, Reply,
};

fn yuri() -> Identity {
    Identity { user: User { id: 7, name: "yuri".to_string() } }
}

fn err() -> DbError {
    DbError { message: "boom".to_string() }
}

#[test]
fn requests_are_made_by_yuri() {
    assert_eq!(identity_name(), "yuri");
    assert_eq!(get_user("yuri").name, "yuri");
}

#[test]
fn identity_is_the_user_found() {
    let user = User { id: 7, name: "yuri".to_string() };
    assert_eq!(identity("yuri", Ok(user.clone())), Ok(Identity { user }));
}

#[test]
fn identity_fails_when_the_user_cannot_be_found() {
    assert_eq!(identity("yuri", Err(err())), Err("Cannot find user yuri".to_string()));
}

#[test]
fn routes_send_the_requester() {
    let me = yuri();
    assert_eq!(channels(&me), GetChannels { user_id: 7 });
    assert_eq!(read(33, &me), ReadItem { item_id: 33, user_id: 7 });
    assert_eq!(read_all(&me), ReadAllItems { user_id: 7 });
}

#[test]
fn items_route_overrides_the_user() {
    let asked = GetItems { user_id: 0, from_id: 1, to_id: 50, max_items: 20 };
    assert_eq!(
        items(asked, &yuri()),
        GetItems { user_id: 7, from_id: 1, to_id: 50, max_items: 20 }
    );
}

#[test]
fn query_outcomes_become_replies() {
    assert_eq!(json_reply(Ok(vec![1, 2])), Reply::Json(vec![1, 2]));
    assert_eq!(json_reply::<Vec<i32>>(Err(err())), Reply::InternalServerError);
    assert_eq!(empty_reply(Ok(())), Reply::Empty);
    assert_eq!(empty_reply(Err(err())), Reply::InternalServerError);
}

#[test]
fn graphql_outcomes_become_replies() {
    assert_eq!(
        graphql_reply::<()>(Ok("{\"data\":null}".to_string())),
        Reply::Body("{\"data\":null}".to_string())
    );
    assert_eq!(graphql_reply(Err(())), Reply::<String>::InternalServerError);
}

#[test]
fn graphiql_queries_the_local_endpoint() {
    assert_eq!(graphiql_endpoint(), "http://127.0.0.1:8888/graphql");
}

#[test]
fn graphql_items_are_those_of_the_requester() {
    let user = User { id: 12, name: "z".to_string() };
    assert_eq!(Query.items(&user), ItemQuery::SubscribedBy(12));
}

#[test]
fn worker_messages_name_their_queries() {
    assert_eq!(GetUser { name: "ann".to_string() }.new_user().name, "ann");
    assert_eq!(GetChannels { user_id: 3 }.query(), ChannelQuery::SubscribedBy(3));
    let gi = GetItems { user_id: 4, from_id: 1, to_id: 2, max_items: 3 };
    assert_eq!(gi.query(), ItemQuery::SubscribedBy(4));
    assert_eq!(ReadItem { item_id: 9, user_id: 4 }.mark(), NewReadItem { user_id: 4, item_id: 9 });
    let op = ReadAllItems { user_id: 4 }.start();
    assert_eq!((op.user_id, op.unread.len(), op.next), (4, 0, 0));
}
