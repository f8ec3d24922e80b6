use crate::error::AppError;
use crate::models::{
    clone_opt, ids_well_formed, item_views, opt_chars, AtomEntry, AtomFeed, Feed, FeedItem, FeedSource, FeedType,
    FeedView, ItemView, RssChannel, RssItem, Timestamp, ID_LEN,
};
use crate::sources::{fresh_id, parse_datetime, parsed_datetime};
use vstd::prelude::*;

verus! {

/// The details of the error for an RSS item without a title.
pub open spec fn rss_item_untitled() -> Seq<char> {
    "Rss item doesn't have a title"@
}

/// The details of the error for an RSS item without a link.
pub open spec fn rss_item_unlinked() -> Seq<char> {
    "Rss item doesn't have a url"@
}

/// The details of the error for an Atom feed or entry without a link.
pub open spec fn atom_unlinked() -> Seq<char> {
    "Unable to find a link in an atom entry"@
}

/// The feed item an RSS item becomes: present exactly when it has both a
/// title and a link.
pub open spec fn rss_item_view(i: RssItem) -> Option<ItemView> {
    match (i.title, i.link) {
        (Some(t), Some(l)) => Some(
            ItemView {
                title: t@,
                url: l@,
                summary: opt_chars(i.description),
                content: opt_chars(i.content),
            },
        ),
        _ => None,
    }
}

/// The feed item an Atom entry becomes: present exactly when it has a link,
/// whose first `href` is the item's url.
pub open spec fn atom_entry_view(e: AtomEntry) -> Option<ItemView> {
    if e.links@.len() == 0 {
        None
    } else {
        Some(
            ItemView {
                title: e.title@,
                url: e.links@[0]@,
                summary: opt_chars(e.summary),
                content: match e.content {
                    Some(c) => opt_chars(c.value),
                    None => None,
                },
            },
        )
    }
}

/// The items of a channel that convert, converted, in source order.
pub open spec fn rss_items_view(s: Seq<RssItem>) -> Seq<ItemView> {
    s.filter_map(|i: RssItem| rss_item_view(i))
}

/// The entries of a feed that convert, converted, in source order.
pub open spec fn atom_entries_view(s: Seq<AtomEntry>) -> Seq<ItemView> {
    s.filter_map(|e: AtomEntry| atom_entry_view(e))
}

/// A timestamp from the parts chrono reports.
pub open spec fn timestamp_of(p: Option<(i64, u32, i32)>) -> Option<Timestamp> {
    match p {
        Some((s, n, o)) => Some(Timestamp { seconds: s, nanos: n, offset_seconds: o }),
        None => None,
    }
}

/// The update time of a channel: its last build date where that parses,
/// else none.
pub open spec fn rss_updated_at(ch: RssChannel) -> Option<Timestamp> {
    match ch.last_build_date {
        Some(d) => timestamp_of(parsed_datetime(d@)),
        None => None,
    }
}

/// The feed a channel becomes, given its update time.
pub open spec fn rss_feed_view(ch: RssChannel, updated: Option<Timestamp>) -> FeedView {
    FeedView {
        title: ch.title@,
        url: ch.link@,
        source_updated_at: updated,
        feed_type: FeedType::Rss,
        items: rss_items_view(ch.items@),
    }
}

/// The feed an Atom document becomes, or `None` where it has no link.
pub open spec fn atom_feed_view(a: AtomFeed) -> Option<FeedView> {
    if a.links@.len() == 0 {
        None
    } else {
        Some(
            FeedView {
                title: a.title@,
                url: a.links@[0]@,
                source_updated_at: Some(a.updated),
                feed_type: FeedType::Atom,
                items: atom_entries_view(a.entries@),
            },
        )
    }
}

/// The feed a source document becomes, or `None` where it cannot become one.
pub open spec fn normalized_view(src: FeedSource) -> Option<FeedView> {
    match src {
        FeedSource::Rss(ch) => Some(rss_feed_view(ch, rss_updated_at(ch))),
        FeedSource::Atom(a) => atom_feed_view(a),
    }
}

/// `r` is what normalizing `src` may return: the feed `src` becomes, with
/// fresh identifiers, or the missing-link error where there is none.
pub open spec fn normalizes_to(src: FeedSource, r: Result<Feed, AppError>) -> bool {
    match normalized_view(src) {
        Some(v) => r is Ok && r->Ok_0@ == v && ids_well_formed(r->Ok_0),
        None => r is Err && r->Err_0.is_parse_error(atom_unlinked()),
    }
}

fn timestamp_from(p: Option<(i64, u32, i32)>) -> (r: Option<Timestamp>)
    ensures
        r == timestamp_of(p),
{
    match p {
        Some((s, n, o)) => Some(Timestamp { seconds: s, nanos: n, offset_seconds: o }),
        None => None,
    }
}

/// The update time of a channel; a date that does not parse is dropped.
pub fn rss_source_updated_at(ch: &RssChannel) -> (r: Option<Timestamp>)
    ensures
        r == rss_updated_at(*ch),
{
    match &ch.last_build_date {
        Some(d) => timestamp_from(parse_datetime(d.as_str())),
        None => None,
    }
}

impl FeedItem {
    /// Converts an RSS item; fails where its title or its link is missing.
    pub fn try_from_rss(item: &RssItem) -> (r: Result<FeedItem, AppError>)
        ensures
            match rss_item_view(*item) {
                Some(v) => r is Ok && r->Ok_0@ == v && r->Ok_0.id@.len() == ID_LEN,
                None => r is Err && (if item.title is None {
                    r->Err_0.is_parse_error(rss_item_untitled())
                } else {
                    r->Err_0.is_parse_error(rss_item_unlinked())
                }),
            },
    {
        let title = match &item.title {
            Some(t) => t.clone(),
            None => {
                return Err(
                    AppError::ParseFeedError(String::from_str("Rss item doesn't have a title")),
                );
            },
        };
        let url = match &item.link {
            Some(l) => l.clone(),
            None => {
                return Err(
                    AppError::ParseFeedError(String::from_str("Rss item doesn't have a url")),
                );
            },
        };
        Ok(
            FeedItem {
                id: fresh_id(),
                title,
                url,
                summary: clone_opt(&item.description),
                content: clone_opt(&item.content),
            },
        )
    }

    /// Converts an Atom entry; fails where it has no link.
    pub fn try_from_atom(entry: &AtomEntry) -> (r: Result<FeedItem, AppError>)
        ensures
            match atom_entry_view(*entry) {
                Some(v) => r is Ok && r->Ok_0@ == v && r->Ok_0.id@.len() == ID_LEN,
                None => r is Err && r->Err_0.is_parse_error(atom_unlinked()),
            },
    {
        if entry.links.len() == 0 {
            return Err(
                AppError::ParseFeedError(String::from_str("Unable to find a link in an atom entry")),
            );
        }
        let content = match &entry.content {
            Some(c) => clone_opt(&c.value),
            None => None,
        };
        Ok(
            FeedItem {
                id: fresh_id(),
                title: entry.title.clone(),
                url: entry.links[0].clone(),
                summary: clone_opt(&entry.summary),
                content,
            },
        )
    }
}

impl Feed {
    /// Normalizes a channel whose update time is already known; items
    /// without a title or a link are left out, the rest keep their order.
    pub fn from_rss_dated(ch: &RssChannel, updated: Option<Timestamp>) -> (f: Feed)
        ensures
            f@ == rss_feed_view(*ch, updated),
            ids_well_formed(f),
    {
        let mut items: Vec<FeedItem> = Vec::new();
        let mut i: usize = 0;
        while i < ch.items.len()
            invariant
                i <= ch.items@.len(),
                item_views(items@) == rss_items_view(ch.items@.take(i as int)),
                forall|k: int| 0 <= k < items@.len() ==> (#[trigger] items@[k]).id@.len() == ID_LEN,
            decreases ch.items@.len() - i,
        {
            let converted = FeedItem::try_from_rss(&ch.items[i]);
            proof {
                assert(ch.items@.take(i + 1).drop_last() =~= ch.items@.take(i as int));
            }
            match converted {
                Ok(fi) => {
                    proof {
                        assert(item_views(items@.push(fi)) =~= item_views(items@).push(fi@));
                    }
                    items.push(fi);
                },
                Err(_) => {},
            }
            i += 1;
        }
        proof {
            assert(ch.items@.take(ch.items@.len() as int) =~= ch.items@);
        }
        Feed {
            id: fresh_id(),
            title: ch.title.clone(),
            url: ch.link.clone(),
            source_updated_at: updated,
            feed_type: FeedType::Rss,
            feed_items: items,
        }
    }

    /// Normalizes an RSS channel; this never fails.
    pub fn from_rss(ch: &RssChannel) -> (f: Feed)
        ensures
            f@ == rss_feed_view(*ch, rss_updated_at(*ch)),
            ids_well_formed(f),
    {
        let updated = rss_source_updated_at(ch);
        Feed::from_rss_dated(ch, updated)
    }

    /// Normalizes an Atom feed; fails where the feed has no link. Entries
    /// without a link are left out, the rest keep their order.
    pub fn try_from_atom(a: &AtomFeed) -> (r: Result<Feed, AppError>)
        ensures
            match atom_feed_view(*a) {
                Some(v) => r is Ok && r->Ok_0@ == v && ids_well_formed(r->Ok_0),
                None => r is Err && r->Err_0.is_parse_error(atom_unlinked()),
            },
    {
        if a.links.len() == 0 {
            return Err(
                AppError::ParseFeedError(String::from_str("Unable to find a link in an atom entry")),
            );
        }
        let mut items: Vec<FeedItem> = Vec::new();
        let mut i: usize = 0;
        while i < a.entries.len()
            invariant
                i <= a.entries@.len(),
                item_views(items@) == atom_entries_view(a.entries@.take(i as int)),
                forall|k: int| 0 <= k < items@.len() ==> (#[trigger] items@[k]).id@.len() == ID_LEN,
            decreases a.entries@.len() - i,
        {
            let converted = FeedItem::try_from_atom(&a.entries[i]);
            proof {
                assert(a.entries@.take(i + 1).drop_last() =~= a.entries@.take(i as int));
            }
            match converted {
                Ok(fi) => {
                    proof {
                        assert(item_views(items@.push(fi)) =~= item_views(items@).push(fi@));
                    }
                    items.push(fi);
                },
                Err(_) => {},
            }
            i += 1;
        }
        proof {
            assert(a.entries@.take(a.entries@.len() as int) =~= a.entries@);
        }
        Ok(
            Feed {
                id: fresh_id(),
                title: a.title.clone(),
                url: a.links[0].clone(),
                source_updated_at: Some(a.updated),
                feed_type: FeedType::Atom,
                feed_items: items,
            },
        )
    }

    /// Normalizes a source document of either dialect.
    pub fn try_from(src: FeedSource) -> (r: Result<Feed, AppError>)
        ensures
            normalizes_to(src, r),
    {
        match src {
            FeedSource::Atom(a) => Feed::try_from_atom(&a),
            FeedSource::Rss(ch) => Ok(Feed::from_rss(&ch)),
        }
    }
}

} // verus!
