use feeder::models::{
    Channel, Item, NewChannel, NewItem, NewReadItem, NewSubscription, NewUser, ReadItem, Timestamp,
    UserItem,
};
use feeder::queries::channels::{self, ChannelQuery};
use feeder::queries::items::{self, ItemQuery};
use feeder::queries::read_items::{self, ReadAllStep, ReadItemQuery};
use feeder::queries::subscriptions::{self, SubscriptionQuery};
use feeder::queries::users::{self, UserQuery};
use feeder::queries::{found_or_insert, DbError, Next};

fn err(m: &str) -> DbError {
    DbError { message: m.to_string() }
}

fn when() -> Timestamp {
    Timestamp { secs: 1_055_217_600, nanos: 0 }
}

fn item_row(id: i32, guid: Option<&str>) -> Item {
    Item {
        id,
        channel_id: 3,
        title: "T".to_string(),
        link: "http://l".to_string(),
        description: "D".to_string(),
        pub_date: when(),
        guid: guid.map(|g| g.to_string()),
    }
}

#[test]
fn get_looks_up_by_id() {
    assert_eq!(channels::get(4), ChannelQuery::ById(4));
}

#[test]
fn channel_get_or_create_looks_up_by_link() {
    let n = NewChannel {
        title: "t",
        link: "http://example.org/",
        description: "d",
        source: "http://example.org/rss",
        image: None,
        ttl: Some(60),
    };
    assert_eq!(channels::get_or_create(&n), ChannelQuery::ByLink("http://example.org/"));
}

#[test]
fn channels_of_a_user() {
    assert_eq!(channels::get_all_for(9), ChannelQuery::SubscribedBy(9));
}

#[test]
fn user_get_or_create_looks_up_by_name() {
    assert_eq!(users::get_or_create(&NewUser { name: "ann" }), UserQuery::ByName("ann"));
}

#[test]
fn subscription_get_or_create_looks_up_user_and_channel() {
    let n = NewSubscription { user_id: 1, channel_id: 2 };
    assert_eq!(
        subscriptions::get_or_create(&n),
        SubscriptionQuery { user_id: 1, channel_id: 2 }
    );
}

#[test]
fn read_item_get_or_create_looks_up_user_and_item() {
    let n = NewReadItem { user_id: 5, item_id: 6 };
    assert_eq!(read_items::get_or_create(&n), ReadItemQuery { user_id: 5, item_id: 6 });
}

#[test]
fn found_row_is_the_result() {
    let c = Channel {
        id: 1,
        title: "t".to_string(),
        link: "l".to_string(),
        description: "d".to_string(),
        source: "s".to_string(),
        image: None,
        ttl: None,
    };
    assert_eq!(found_or_insert(Ok(Some(c.clone()))), Next::Done(Ok(c)));
}

#[test]
fn missing_row_is_inserted() {
    assert_eq!(found_or_insert::<i32>(Ok(None)), Next::Insert);
}

#[test]
fn failed_lookup_ends_get_or_create() {
    assert_eq!(found_or_insert::<i32>(Err(err("down"))), Next::Done(Err(err("down"))));
}

#[test]
fn item_with_guid_is_known_by_guid() {
    let n = NewItem {
        channel_id: 3,
        title: "T",
        link: "http://l",
        description: "D",
        pub_date: when(),
        guid: Some("g-1"),
    };
    assert_eq!(items::insert_if_new(&n), ItemQuery::ByGuid("g-1"));
}

#[test]
fn item_without_guid_is_known_by_content() {
    let n = NewItem {
        channel_id: 3,
        title: "T",
        link: "http://l",
        description: "D",
        pub_date: when(),
        guid: None,
    };
    assert_eq!(
        items::insert_if_new(&n),
        ItemQuery::ByContent { channel_id: 3, title: "T", description: "D" }
    );
}

#[test]
fn known_item_is_not_inserted_again() {
    assert_eq!(items::new_or_none(Ok(Some(item_row(1, Some("g"))))), Next::Done(Ok(None)));
}

#[test]
fn unknown_item_is_inserted() {
    assert_eq!(items::new_or_none(Ok(None)), Next::Insert);
}

#[test]
fn failed_item_lookup_ends_insert_if_new() {
    assert_eq!(items::new_or_none(Err(err("x"))), Next::Done(Err(err("x"))));
}

#[test]
fn inserted_item_is_reported() {
    assert_eq!(items::inserted(Ok(item_row(8, None))), Ok(Some(item_row(8, None))));
    assert_eq!(items::inserted(Err(err("dup"))), Err(err("dup")));
}

#[test]
fn items_of_a_user() {
    assert_eq!(items::get_all_for(2), ItemQuery::SubscribedBy(2));
}

#[test]
fn user_items_flag_read_rows() {
    let rows = vec![
        (item_row(1, None), None),
        (item_row(2, Some("b")), Some(ReadItem { id: 10, user_id: 2, item_id: 2 })),
        (item_row(3, None), None),
    ];
    let got = items::user_items(rows);
    assert_eq!(
        got,
        vec![
            UserItem { item: item_row(1, None), read: false },
            UserItem { item: item_row(2, Some("b")), read: true },
            UserItem { item: item_row(3, None), read: false },
        ]
    );
}

#[test]
fn user_items_of_nothing() {
    assert_eq!(items::user_items(vec![]), vec![]);
}

#[test]
fn user_item_fields() {
    let u = UserItem { item: item_row(12, None), read: true };
    assert_eq!(u.id(), 12);
    assert_eq!(u.title(), "T");
    assert!(u.is_read());
}

#[test]
fn read_marks_one_item() {
    assert_eq!(read_items::read(4, 77), NewReadItem { user_id: 4, item_id: 77 });
    assert_eq!(read_items::read_done(Ok(ReadItem { id: 1, user_id: 4, item_id: 77 })), Ok(()));
    assert_eq!(read_items::read_done(Err(err("no"))), Err(err("no")));
}

#[test]
fn read_all_marks_every_unread_item_in_order() {
    let mut r = read_items::read_all(5);
    assert_eq!(r.query(), ItemQuery::NeverRead);
    let mut marked = Vec::new();
    let mut step = r.on_unread(Ok(vec![30, 10, 20]));
    let mut id = 100;
    loop {
        match step {
            ReadAllStep::Insert(mark) => {
                marked.push(mark);
                id += 1;
                step = r.on_inserted(Ok(ReadItem { id, user_id: mark.user_id, item_id: mark.item_id }));
            }
            ReadAllStep::Finish(res) => {
                assert_eq!(res, Ok(()));
                break;
            }
        }
    }
    assert_eq!(
        marked,
        vec![
            NewReadItem { user_id: 5, item_id: 30 },
            NewReadItem { user_id: 5, item_id: 10 },
            NewReadItem { user_id: 5, item_id: 20 },
        ]
    );
}

#[test]
fn read_all_with_nothing_unread_finishes() {
    let mut r = read_items::read_all(5);
    assert_eq!(r.on_unread(Ok(vec![])), ReadAllStep::Finish(Ok(())));
}

#[test]
fn read_all_stops_at_failed_lookup() {
    let mut r = read_items::read_all(5);
    assert_eq!(r.on_unread(Err(err("lookup"))), ReadAllStep::Finish(Err(err("lookup"))));
}

#[test]
fn read_all_stops_at_failed_insert() {
    let mut r = read_items::read_all(5);
    assert_eq!(
        r.on_unread(Ok(vec![1, 2])),
        ReadAllStep::Insert(NewReadItem { user_id: 5, item_id: 1 })
    );
    assert_eq!(r.on_inserted(Err(err("insert"))), ReadAllStep::Finish(Err(err("insert"))));
    assert_eq!(r.next, 0);
}
