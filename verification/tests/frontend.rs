use feeder::frontend::app::{Click, ItemDetails, Model, Msg};
use feeder::frontend::feeder::{FeederService, Method, Request, Resource};
use feeder::frontend::{Channel, Item, BASE_URL};

fn chan(id: i32, title: &str) -> Channel {
    Channel {
        id,
        title: title.to_string(),
        link: "l".to_string(),
        description: "d".to_string(),
        source: "s".to_string(),
        language: None,
        copyright: None,
        pub_date: None,
        image: None,
        ttl: None,
    }
}

fn item(id: i32, title: Option<&str>) -> Item {
    Item {
        id,
        channel_id: 1,
        title: title.map(|t| t.to_string()),
        link: Some("http://x/1".to_string()),
        description: Some("<p>hi</p>".to_string()),
        author: None,
        guid: Some("g".to_string()),
        pub_date: None,
    }
}

#[test]
fn base_url_is_local_server() {
    assert_eq!(BASE_URL, "http://localhost:8888");
}

#[test]
fn channels_request() {
    let mut f = FeederService::new();
    assert_eq!(
        f.channels(),
        Request {
            method: Method::Get,
            url: "http://localhost:8888/channels".to_string(),
            resource: Resource::Channels
        }
    );
}

#[test]
fn items_request() {
    let mut f = FeederService::new();
    assert_eq!(f.items(42).url, "http://localhost:8888/items/42");
    assert_eq!(f.items(-3).url, "http://localhost:8888/items/-3");
    assert_eq!(f.items(0).resource, Resource::Items);
}

#[test]
fn new_page_is_empty() {
    let m = Model::create();
    assert!(m.channels.is_empty() && m.items.is_empty());
    assert_eq!(m.current_item, None);
    assert_eq!(m.task, None);
}

#[test]
fn fetching_channels_makes_the_request() {
    let mut m = Model::create();
    let mut f = FeederService::new();
    let u = m.update(Msg::FetchChannels, &mut f);
    assert!(u.render);
    let expected = f.channels();
    assert_eq!(u.fetch, Some(expected.copy()));
    assert_eq!(m.task, Some(expected));
}

#[test]
fn fetching_items_makes_the_request() {
    let mut m = Model::create();
    let mut f = FeederService::new();
    let u = m.update(Msg::FetchItems(5), &mut f);
    assert!(u.render);
    assert_eq!(u.fetch.unwrap().url, "http://localhost:8888/items/5");
    assert_eq!(m.task.unwrap().resource, Resource::Items);
}

#[test]
fn arrived_lists_replace_the_shown_ones() {
    let mut m = Model::create();
    let mut f = FeederService::new();
    let u = m.update(Msg::ChannelsReady(Ok(vec![chan(1, "a"), chan(2, "b")])), &mut f);
    assert!(u.render);
    assert_eq!(u.fetch, None);
    assert_eq!(m.channels, vec![chan(1, "a"), chan(2, "b")]);
    m.update(Msg::ItemsReady(Ok(vec![item(9, Some("x"))])), &mut f);
    assert_eq!(m.items, vec![item(9, Some("x"))]);
    m.update(Msg::ItemsReady(Ok(vec![])), &mut f);
    assert!(m.items.is_empty());
}

#[test]
fn unreadable_lists_change_nothing() {
    let mut m = Model::create();
    let mut f = FeederService::new();
    m.update(Msg::ChannelsReady(Ok(vec![chan(1, "a")])), &mut f);
    let u = m.update(Msg::ChannelsReady(Err(())), &mut f);
    assert!(u.render);
    assert_eq!(m.channels, vec![chan(1, "a")]);
    m.update(Msg::ItemsReady(Err(())), &mut f);
    assert!(m.items.is_empty());
}

#[test]
fn clicking_an_item_toggles_its_details() {
    let mut m = Model::create();
    let mut f = FeederService::new();
    m.update(Msg::Details(1), &mut f);
    assert_eq!(m.current_item, Some(1));
    m.update(Msg::Details(0), &mut f);
    assert_eq!(m.current_item, Some(0));
    let u = m.update(Msg::Details(0), &mut f);
    assert!(u.render);
    assert_eq!(m.current_item, None);
}

#[test]
fn page_lists_channels_and_items() {
    let mut m = Model::create();
    let mut f = FeederService::new();
    m.update(Msg::ChannelsReady(Ok(vec![chan(4, "Four"), chan(8, "Eight")])), &mut f);
    m.update(Msg::ItemsReady(Ok(vec![item(1, Some("One")), item(2, None)])), &mut f);
    let page = m.view();
    assert_eq!(page.header, "Feeder");
    assert_eq!(page.footer, "footer");
    assert_eq!(page.nav.len(), 2);
    assert_eq!(page.nav[0].title, "Four");
    assert_eq!(page.nav[1].on_click, Click::FetchItems(8));
    assert_eq!(page.nav[1].on_click.message(), Msg::FetchItems(8));
    assert_eq!(page.details, None);
    assert_eq!(page.rows.len(), 2);
    assert_eq!(page.rows[0].title, "One");
    assert_eq!(page.rows[1].title, "");
    assert_eq!(page.rows[1].on_click, Click::Details(1));
    assert_eq!(page.rows[1].on_click.message(), Msg::Details(1));
}

#[test]
fn page_shows_open_item_with_defaults() {
    let mut m = Model::create();
    let mut f = FeederService::new();
    m.update(Msg::ItemsReady(Ok(vec![item(1, Some("One")), item(2, None)])), &mut f);
    m.update(Msg::Details(1), &mut f);
    assert_eq!(
        m.view().details,
        Some(ItemDetails {
            title: "link".to_string(),
            link: "http://x/1".to_string(),
            description: "<p>hi</p>".to_string(),
            author: String::new(),
            guid: "g".to_string(),
            pub_date: String::new(),
        })
    );
    m.update(Msg::Details(0), &mut f);
    assert_eq!(m.view().details.unwrap().title, "One");
}
