use feeder::feed::{
    count_inserted, date_or_now, new_channel, new_item, owner, parse_feed, pub_date, subscription, FeedChannel,
    FeedItem,
};
use feeder::models::{Channel, Item, NewChannel, NewItem, NewSubscription, Timestamp, User};

fn s(t: &str) -> Option<String> {
    Some(t.to_string())
}

fn channel(ttl: Option<&str>, image: Option<&str>) -> FeedChannel {
    FeedChannel {
        title: "Example".to_string(),
        link: "http://example.org/".to_string(),
        description: "An example feed".to_string(),
        image: image.map(|i| i.to_string()),
        ttl: ttl.map(|t| t.to_string()),
        items: vec![],
    }
}

fn entry() -> FeedItem {
    FeedItem {
        title: s("Title"),
        link: s("http://example.org/1"),
        description: s("Body"),
        guid: s("urn:1"),
        pub_date: s("Tue, 10 Jun 2003 04:00:00 GMT"),
    }
}

const NOW: Timestamp = Timestamp { secs: 1_700_000_000, nanos: 5 };

#[test]
fn channel_from_feed() {
    let feed = channel(Some("60"), Some("http://example.org/logo.png"));
    assert_eq!(
        new_channel(&feed, "http://example.org/rss"),
        Some(NewChannel {
            title: "Example",
            link: "http://example.org/",
            description: "An example feed",
            source: "http://example.org/rss",
            image: Some("http://example.org/logo.png"),
            ttl: Some(60),
        })
    );
}

#[test]
fn channel_without_ttl_or_image() {
    let feed = channel(None, None);
    let c = new_channel(&feed, "src").unwrap();
    assert_eq!(c.ttl, None);
    assert_eq!(c.image, None);
    assert_eq!(c.source, "src");
}

#[test]
fn channel_with_bad_ttl_is_refused() {
    assert_eq!(new_channel(&channel(Some("sixty"), None), "src"), None);
    assert_eq!(new_channel(&channel(Some(""), None), "src"), None);
    assert_eq!(new_channel(&channel(Some("99999999999"), None), "src"), None);
}

#[test]
fn item_from_feed_entry() {
    let e = entry();
    assert_eq!(
        new_item(7, &e, NOW),
        Some(NewItem {
            channel_id: 7,
            title: "Title",
            link: "http://example.org/1",
            description: "Body",
            pub_date: Timestamp { secs: 1_055_217_600, nanos: 0 },
            guid: Some("urn:1"),
        })
    );
}

#[test]
fn item_date_is_taken_in_utc() {
    let mut e = entry();
    e.pub_date = s("Tue, 10 Jun 2003 04:00:00 -0700");
    assert_eq!(new_item(7, &e, NOW).unwrap().pub_date, Timestamp { secs: 1_055_242_800, nanos: 0 });
}

#[test]
fn item_without_date_is_dated_now() {
    let mut e = entry();
    e.pub_date = None;
    assert_eq!(new_item(7, &e, NOW).unwrap().pub_date, NOW);
}

#[test]
fn item_with_bad_date_is_dated_now() {
    let mut e = entry();
    e.pub_date = s("yesterday");
    assert_eq!(new_item(7, &e, NOW).unwrap().pub_date, NOW);
    assert_eq!(pub_date(&s("2003-06-10T04:00:00Z"), NOW), NOW);
}

#[test]
fn item_without_guid() {
    let mut e = entry();
    e.guid = None;
    assert_eq!(new_item(7, &e, NOW).unwrap().guid, None);
}

#[test]
fn incomplete_entries_are_skipped() {
    let mut e = entry();
    e.title = None;
    assert_eq!(new_item(7, &e, NOW), None);
    let mut e = entry();
    e.link = None;
    assert_eq!(new_item(7, &e, NOW), None);
    let mut e = entry();
    e.description = None;
    assert_eq!(new_item(7, &e, NOW), None);
}

#[test]
fn new_channels_are_subscribed_for_the_owner() {
    assert_eq!(owner().name, "yuri");
    let user = User { id: 3, name: "yuri".to_string() };
    let c = Channel {
        id: 11,
        title: "t".to_string(),
        link: "l".to_string(),
        description: "d".to_string(),
        source: "s".to_string(),
        image: None,
        ttl: None,
    };
    assert_eq!(subscription(&user, &c), NewSubscription { user_id: 3, channel_id: 11 });
}

const DOC: &str = r#"<?xml version="1.0"?>
<rss version="2.0"><channel>
<title>Example</title><link>http://example.org/</link><description>An example feed</description>
<ttl>60</ttl>
<image><url>http://example.org/logo.png</url><title>Example</title><link>http://example.org/</link></image>
<item><title>Title</title><link>http://example.org/1</link><description>Body</description>
<guid>urn:1</guid><pubDate>Tue, 10 Jun 2003 04:00:00 GMT</pubDate></item>
<item><title>Second</title></item>
</channel></rss>"#;

#[test]
fn feed_document_is_parsed() {
    let mut expected = channel(Some("60"), Some("http://example.org/logo.png"));
    expected.items = vec![
        entry(),
        FeedItem { title: s("Second"), link: None, description: None, guid: None, pub_date: None },
    ];
    assert_eq!(parse_feed(DOC.as_bytes()), Some(expected));
}

#[test]
fn parsed_feed_gives_channel_and_items() {
    let feed = parse_feed(DOC.as_bytes()).unwrap();
    let c = new_channel(&feed, "http://example.org/rss").unwrap();
    assert_eq!(c.ttl, Some(60));
    assert_eq!(c.title, "Example");
    assert_eq!(new_item(2, &feed.items[0], NOW).unwrap().pub_date.secs, 1_055_217_600);
    assert_eq!(new_item(2, &feed.items[1], NOW), None);
}

#[test]
fn non_feeds_are_refused() {
    assert_eq!(parse_feed(b"not xml at all"), None);
    assert_eq!(parse_feed(b"<html><body/></html>"), None);
    assert_eq!(parse_feed(b""), None);
}

#[test]
fn stored_items_are_counted() {
    let row = Item {
        id: 1,
        channel_id: 2,
        title: "t".to_string(),
        link: "l".to_string(),
        description: "d".to_string(),
        pub_date: NOW,
        guid: None,
    };
    assert_eq!(count_inserted(4, &Some(row)), 5);
    assert_eq!(count_inserted(4, &None), 4);
}

#[test]
fn parsed_date_or_now() {
    assert_eq!(date_or_now(Some((1_055_217_600, 7)), NOW), Timestamp { secs: 1_055_217_600, nanos: 7 });
    assert_eq!(date_or_now(None, NOW), NOW);
}
