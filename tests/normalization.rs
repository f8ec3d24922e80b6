use feedsync::detect::detect;
use feedsync::error::AppError;
use feedsync::models::{
    AtomContent, AtomEntry, AtomFeed, Feed, FeedItem, FeedSource, FeedType, RssChannel, RssItem,
    Timestamp,
};
use feedsync::normalize::rss_source_updated_at;
use feedsync::pipeline::feed_from_fetch;

fn s(v: &str) -> String {
    v.to_string()
}

fn rss_item(title: Option<&str>, link: Option<&str>) -> RssItem {
    RssItem {
        title: title.map(s),
        link: link.map(s),
        description: None,
        content: None,
    }
}

fn channel(items: Vec<RssItem>, date: Option<&str>) -> RssChannel {
    RssChannel {
        title: s("Example"),
        link: s("http://example.com"),
        last_build_date: date.map(s),
        items,
    }
}

fn entry(title: &str, links: Vec<&str>) -> AtomEntry {
    AtomEntry {
        title: s(title),
        links: links.into_iter().map(s).collect(),
        summary: None,
        content: None,
    }
}

fn atom(links: Vec<&str>, entries: Vec<AtomEntry>) -> AtomFeed {
    AtomFeed {
        title: s("Atom Example"),
        links: links.into_iter().map(s).collect(),
        updated: Timestamp { seconds: 1672560000, nanos: 0, offset_seconds: 7200 },
        entries,
    }
}

const RSS_DOC: &str = r#"<?xml version="1.0"?>
<rss version="2.0"><channel>
<title>Example</title><link>http://example.com</link><description>d</description>
<lastBuildDate>2023-01-01T10:00:00+02:00</lastBuildDate>
<item><title>A</title><link>http://example.com/a</link><description>sum</description></item>
<item><title>No link</title></item>
</channel></rss>"#;

const ATOM_DOC: &str = r#"<?xml version="1.0" encoding="utf-8"?>
<feed xmlns="http://www.w3.org/2005/Atom">
<title>Atom Example</title>
<link href="http://example.org/"/>
<updated>2023-01-01T10:00:00+02:00</updated>
<id>urn:uuid:60a76c80-d399-11d9-b93C-0003939e0af6</id>
<entry>
<title>First</title><link href="http://example.org/1"/>
<id>urn:uuid:1</id><updated>2023-01-01T10:00:00Z</updated>
<summary>short</summary><content>body</content>
</entry>
<entry><title>Unlinked</title><id>urn:uuid:2</id><updated>2023-01-01T10:00:00Z</updated></entry>
</feed>"#;

#[test]
fn rss_scenario_example_channel() {
    let ch = channel(vec![rss_item(Some("A"), Some("http://example.com/a"))], None);
    let feed = Feed::try_from(FeedSource::Rss(ch)).unwrap();
    assert_eq!(feed.title, "Example");
    assert_eq!(feed.url, "http://example.com");
    assert_eq!(feed.feed_type, FeedType::Rss);
    assert_eq!(feed.source_updated_at, None);
    assert_eq!(feed.feed_items.len(), 1);
    assert_eq!(feed.feed_items[0].title, "A");
    assert_eq!(feed.feed_items[0].url, "http://example.com/a");
    assert_eq!(feed.feed_items[0].summary, None);
    assert_eq!(feed.feed_items[0].content, None);
}

#[test]
fn rss_feed_has_rss_type_and_id() {
    let feed = Feed::from_rss(&channel(vec![], None));
    assert_eq!(feed.feed_type, FeedType::Rss);
    assert_eq!(feed.id.len(), 36);
    assert!(feed.feed_items.is_empty());
}

#[test]
fn rss_incomplete_items_are_dropped() {
    let ch = channel(
        vec![
            rss_item(None, Some("http://example.com/1")),
            rss_item(Some("keep 1"), Some("http://example.com/2")),
            rss_item(Some("no link"), None),
            rss_item(None, None),
            rss_item(Some("keep 2"), Some("http://example.com/3")),
        ],
        None,
    );
    let feed = Feed::try_from(FeedSource::Rss(ch)).unwrap();
    let titles: Vec<&str> = feed.feed_items.iter().map(|i| i.title.as_str()).collect();
    assert_eq!(titles, vec!["keep 1", "keep 2"]);
    assert_eq!(feed.feed_items[1].url, "http://example.com/3");
}

#[test]
fn rss_item_errors() {
    let untitled = FeedItem::try_from_rss(&rss_item(None, Some("u"))).unwrap_err();
    assert_eq!(untitled.message(), "Failed to parse source as feed. Details: Rss item doesn't have a title");
    let unlinked = FeedItem::try_from_rss(&rss_item(Some("t"), None)).unwrap_err();
    assert_eq!(unlinked.message(), "Failed to parse source as feed. Details: Rss item doesn't have a url");
}

#[test]
fn rss_item_keeps_summary_and_content() {
    let item = RssItem {
        title: Some(s("t")),
        link: Some(s("l")),
        description: Some(s("d")),
        content: Some(s("c")),
    };
    let fi = FeedItem::try_from_rss(&item).unwrap();
    assert_eq!(fi.summary.as_deref(), Some("d"));
    assert_eq!(fi.content.as_deref(), Some("c"));
    assert_eq!(fi.id.len(), 36);
}

#[test]
fn rss_date_parses_rfc3339() {
    let ch = channel(vec![], Some("2023-01-01T10:00:00+02:00"));
    let ts = rss_source_updated_at(&ch).unwrap();
    assert_eq!(ts, Timestamp { seconds: 1672560000, nanos: 0, offset_seconds: 7200 });
    let feed = Feed::from_rss(&ch);
    assert_eq!(feed.source_updated_at, Some(ts));
}

#[test]
fn rss_unparseable_date_is_dropped() {
    let ch = channel(vec![], Some("Sun, 01 Jan 2023 10:00:00 +0000x"));
    assert_eq!(rss_source_updated_at(&ch), None);
    let feed = Feed::try_from(FeedSource::Rss(ch)).unwrap();
    assert_eq!(feed.source_updated_at, None);
}

#[test]
fn atom_with_link_normalizes() {
    let mut first = entry("First", vec!["http://example.org/1", "http://example.org/alt"]);
    first.summary = Some(s("short"));
    first.content = Some(AtomContent { value: Some(s("body")) });
    let mut second = entry("Second", vec!["http://example.org/2"]);
    second.content = Some(AtomContent { value: None });
    let a = atom(
        vec!["http://example.org/", "http://example.org/other"],
        vec![first, entry("Unlinked", vec![]), second],
    );
    let feed = Feed::try_from(FeedSource::Atom(a)).unwrap();
    assert_eq!(feed.feed_type, FeedType::Atom);
    assert_eq!(feed.url, "http://example.org/");
    assert_eq!(feed.title, "Atom Example");
    assert_eq!(
        feed.source_updated_at,
        Some(Timestamp { seconds: 1672560000, nanos: 0, offset_seconds: 7200 })
    );
    assert_eq!(feed.feed_items.len(), 2);
    assert_eq!(feed.feed_items[0].url, "http://example.org/1");
    assert_eq!(feed.feed_items[0].summary.as_deref(), Some("short"));
    assert_eq!(feed.feed_items[0].content.as_deref(), Some("body"));
    assert_eq!(feed.feed_items[1].title, "Second");
    assert_eq!(feed.feed_items[1].content, None);
}

#[test]
fn atom_without_link_fails() {
    let err = Feed::try_from(FeedSource::Atom(atom(vec![], vec![entry("x", vec!["l"])]))).unwrap_err();
    assert!(matches!(&err, AppError::ParseFeedError(d) if d == "Unable to find a link in an atom entry"));
    assert_eq!(err.status_code(), 400);
}

#[test]
fn atom_entry_without_link_fails() {
    let err = FeedItem::try_from_atom(&entry("x", vec![])).unwrap_err();
    assert!(matches!(&err, AppError::ParseFeedError(d) if d == "Unable to find a link in an atom entry"));
}

#[test]
fn normalizing_twice_agrees_but_ids_differ() {
    let ch = channel(vec![rss_item(Some("A"), Some("http://example.com/a"))], None);
    let f1 = Feed::from_rss(&ch);
    let f2 = Feed::from_rss(&ch);
    assert_eq!(f1.title, f2.title);
    assert_eq!(f1.url, f2.url);
    assert_eq!(f1.feed_type, f2.feed_type);
    assert_eq!(f1.feed_items[0].title, f2.feed_items[0].title);
    assert_eq!(f1.feed_items[0].url, f2.feed_items[0].url);
    assert_ne!(f1.id, f2.id);
    assert_ne!(f1.feed_items[0].id, f2.feed_items[0].id);
}

#[test]
fn detect_reads_rss() {
    match detect(RSS_DOC.as_bytes()).unwrap() {
        FeedSource::Rss(ch) => {
            assert_eq!(ch.title, "Example");
            assert_eq!(ch.link, "http://example.com");
            assert_eq!(ch.items.len(), 2);
            assert_eq!(ch.items[0].title.as_deref(), Some("A"));
            assert_eq!(ch.items[0].description.as_deref(), Some("sum"));
            assert_eq!(ch.items[1].link, None);
        }
        FeedSource::Atom(_) => panic!("expected an RSS channel"),
    }
}

#[test]
fn detect_reads_atom() {
    match detect(ATOM_DOC.as_bytes()).unwrap() {
        FeedSource::Atom(a) => {
            assert_eq!(a.title, "Atom Example");
            assert_eq!(a.links, vec![s("http://example.org/")]);
            assert_eq!(a.updated, Timestamp { seconds: 1672560000, nanos: 0, offset_seconds: 7200 });
            assert_eq!(a.entries.len(), 2);
            assert_eq!(a.entries[0].summary.as_deref(), Some("short"));
            assert_eq!(a.entries[0].content.as_ref().unwrap().value.as_deref(), Some("body"));
            assert!(a.entries[1].links.is_empty());
        }
        FeedSource::Rss(_) => panic!("expected an Atom feed"),
    }
}

#[test]
fn detect_rejects_malformed_bytes() {
    let err = detect(b"this is not a feed").unwrap_err();
    assert!(matches!(&err, AppError::ParseFeedError(d) if d == "Couldn't parse as neither atom nor rss feed"));
    assert_eq!(
        err.message(),
        "Failed to parse source as feed. Details: Couldn't parse as neither atom nor rss feed"
    );
}

#[test]
fn pipeline_malformed_bytes_give_detection_error() {
    let err = feed_from_fetch(Ok(b"<html><body>nope</body></html>".to_vec())).unwrap_err();
    assert!(matches!(&err, AppError::ParseFeedError(d) if d == "Couldn't parse as neither atom nor rss feed"));
    assert_eq!(err.status_code(), 400);
}

#[test]
fn pipeline_transport_error_gives_fetch_error() {
    let err = feed_from_fetch(Err(s("operation timed out"))).unwrap_err();
    assert!(matches!(&err, AppError::FetchFeedError(c) if c == "operation timed out"));
    assert_eq!(err.message(), "Failed to fetch the rss feed.");
    assert_eq!(err.status_code(), 400);
}

#[test]
fn pipeline_normalizes_rss_document() {
    let feed = feed_from_fetch(Ok(RSS_DOC.as_bytes().to_vec())).unwrap();
    assert_eq!(feed.feed_type, FeedType::Rss);
    assert_eq!(feed.title, "Example");
    assert_eq!(
        feed.source_updated_at,
        Some(Timestamp { seconds: 1672560000, nanos: 0, offset_seconds: 7200 })
    );
    assert_eq!(feed.feed_items.len(), 1);
    assert_eq!(feed.feed_items[0].url, "http://example.com/a");
}

#[test]
fn pipeline_normalizes_atom_document() {
    let feed = feed_from_fetch(Ok(ATOM_DOC.as_bytes().to_vec())).unwrap();
    assert_eq!(feed.feed_type, FeedType::Atom);
    assert_eq!(feed.url, "http://example.org/");
    assert_eq!(feed.feed_items.len(), 1);
    assert_eq!(feed.feed_items[0].title, "First");
    assert!(feed.source_updated_at.is_some());
}
