use vstd::prelude::*;

verus! {

/// A point in time with the UTC offset it was written in.
#[derive(Debug, Clone, Copy, PartialEq, Eq, Structural)]
pub struct Timestamp {
    /// Seconds since the Unix epoch (UTC).
    pub seconds: i64,
    /// Nanoseconds past `seconds`.
    pub nanos: u32,
    /// The offset east of UTC, in seconds.
    pub offset_seconds: i32,
}

/// The dialect a feed was read from.
#[derive(Debug, Clone, Copy, PartialEq, Eq, Structural)]
pub enum FeedType {
    Atom,
    Rss,
}

/// One item of an RSS channel, with the fields normalization reads.
#[derive(Debug)]
pub struct RssItem {
    pub title: Option<String>,
    pub link: Option<String>,
    pub description: Option<String>,
    pub content: Option<String>,
}

/// An RSS channel, with the fields normalization reads.
#[derive(Debug)]
pub struct RssChannel {
    pub title: String,
    pub link: String,
    pub last_build_date: Option<String>,
    pub items: Vec<RssItem>,
}

/// The content block of an Atom entry; its value is optional in turn.
#[derive(Debug)]
pub struct AtomContent {
    pub value: Option<String>,
}

/// One entry of an Atom feed; `links` holds the `href` of each link, in order.
#[derive(Debug)]
pub struct AtomEntry {
    pub title: String,
    pub links: Vec<String>,
    pub summary: Option<String>,
    pub content: Option<AtomContent>,
}

/// An Atom feed; `links` holds the `href` of each link, in order.
#[derive(Debug)]
pub struct AtomFeed {
    pub title: String,
    pub links: Vec<String>,
    pub updated: Timestamp,
    pub entries: Vec<AtomEntry>,
}

/// A parsed source document: exactly one of the two dialects.
#[derive(Debug)]
pub enum FeedSource {
    Atom(AtomFeed),
    Rss(RssChannel),
}

/// One normalized entry of a feed.
#[derive(Debug)]
pub struct FeedItem {
    pub id: String,
    pub title: String,
    pub url: String,
    pub summary: Option<String>,
    /// The full body; kept in memory only, never serialized.
    pub content: Option<String>,
}

/// A normalized feed.
#[derive(Debug)]
pub struct Feed {
    pub id: String,
    pub title: String,
    pub url: String,
    pub source_updated_at: Option<Timestamp>,
    pub feed_type: FeedType,
    pub feed_items: Vec<FeedItem>,
}

/// What a feed item holds, its identifier aside.
pub struct ItemView {
    pub title: Seq<char>,
    pub url: Seq<char>,
    pub summary: Option<Seq<char>>,
    pub content: Option<Seq<char>>,
}

/// What a feed holds, identifiers aside.
pub struct FeedView {
    pub title: Seq<char>,
    pub url: Seq<char>,
    pub source_updated_at: Option<Timestamp>,
    pub feed_type: FeedType,
    pub items: Seq<ItemView>,
}

/// The length of an identifier in its hyphenated form.
pub const ID_LEN: usize = 36;

/// The characters of an optional string.
pub open spec fn opt_chars(o: Option<String>) -> Option<Seq<char>> {
    match o {
        Some(s) => Some(s@),
        None => None,
    }
}

/// What a sequence of feed items holds, identifiers aside.
pub open spec fn item_views(s: Seq<FeedItem>) -> Seq<ItemView> {
    s.map_values(|i: FeedItem| i@)
}

impl View for FeedItem {
    type V = ItemView;

    open spec fn view(&self) -> ItemView {
        ItemView {
            title: self.title@,
            url: self.url@,
            summary: opt_chars(self.summary),
            content: opt_chars(self.content),
        }
    }
}

impl View for Feed {
    type V = FeedView;

    open spec fn view(&self) -> FeedView {
        FeedView {
            title: self.title@,
            url: self.url@,
            source_updated_at: self.source_updated_at,
            feed_type: self.feed_type,
            items: item_views(self.feed_items@),
        }
    }
}

/// Every identifier in the feed, its own and its items', is a fresh one.
pub open spec fn ids_well_formed(f: Feed) -> bool {
    &&& f.id@.len() == ID_LEN
    &&& forall|k: int| 0 <= k < f.feed_items@.len() ==> (#[trigger] f.feed_items@[k]).id@.len() == ID_LEN
}

/// Copies an optional string.
pub fn clone_opt(o: &Option<String>) -> (r: Option<String>)
    ensures
        opt_chars(r) == opt_chars(*o),
{
    match o {
        Some(s) => Some(s.clone()),
        None => None,
    }
}

} // verus!
