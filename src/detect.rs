use crate::error::AppError;
use crate::models::{AtomContent, AtomEntry, AtomFeed, FeedSource, RssChannel, RssItem};
use crate::sources::{atom_accepts, atom_updated, read_atom, read_rss, rss_accepts};
use vstd::prelude::*;

verus! {

/// The details of the error for bytes that neither dialect accepts.
pub open spec fn unparseable() -> Seq<char> {
    "Couldn't parse as neither atom nor rss feed"@
}

fn owned_opt(o: Option<&str>) -> (r: Option<String>)
    ensures
        r is Some <==> o is Some,
        o is Some ==> r->0@ == o->0@,
{
    match o {
        Some(s) => Some(s.to_owned()),
        None => None,
    }
}

fn rss_item_model(i: &rss::Item) -> (r: RssItem) {
    RssItem {
        title: owned_opt(i.title()),
        link: owned_opt(i.link()),
        description: owned_opt(i.description()),
        content: owned_opt(i.content()),
    }
}

fn rss_channel_model(c: &rss::Channel) -> (r: RssChannel) {
    let source = c.items();
    let mut items: Vec<RssItem> = Vec::new();
    let mut i: usize = 0;
    while i < source.len()
        invariant
            i <= source@.len(),
            items@.len() == i,
        decreases source@.len() - i,
    {
        items.push(rss_item_model(&source[i]));
        i += 1;
    }
    RssChannel {
        title: c.title().to_owned(),
        link: c.link().to_owned(),
        last_build_date: owned_opt(c.last_build_date()),
        items,
    }
}

fn link_hrefs(links: &[atom_syndication::Link]) -> (r: Vec<String>)
    ensures
        r@.len() == links@.len(),
{
    let mut hrefs: Vec<String> = Vec::new();
    let mut i: usize = 0;
    while i < links.len()
        invariant
            i <= links@.len(),
            hrefs@.len() == i,
        decreases links@.len() - i,
    {
        hrefs.push(links[i].href().to_owned());
        i += 1;
    }
    hrefs
}

fn atom_entry_model(e: &atom_syndication::Entry) -> (r: AtomEntry) {
    let summary = match e.summary() {
        Some(t) => Some(t.as_str().to_owned()),
        None => None,
    };
    let content = match e.content() {
        Some(c) => Some(AtomContent { value: owned_opt(c.value()) }),
        None => None,
    };
    AtomEntry {
        title: e.title().as_str().to_owned(),
        links: link_hrefs(e.links()),
        summary,
        content,
    }
}

fn atom_feed_model(f: &atom_syndication::Feed) -> (r: AtomFeed) {
    let source = f.entries();
    let mut entries: Vec<AtomEntry> = Vec::new();
    let mut i: usize = 0;
    while i < source.len()
        invariant
            i <= source@.len(),
            entries@.len() == i,
        decreases source@.len() - i,
    {
        entries.push(atom_entry_model(&source[i]));
        i += 1;
    }
    AtomFeed {
        title: f.title().as_str().to_owned(),
        links: link_hrefs(f.links()),
        updated: atom_updated(f),
        entries,
    }
}

/// Reads bytes as a feed document: as an RSS channel where the RSS reader
/// accepts them, and only otherwise as an Atom feed.
pub fn detect(bytes: &[u8]) -> (r: Result<FeedSource, AppError>)
    ensures
        rss_accepts(bytes@) ==> r matches Ok(FeedSource::Rss(_)),
        !rss_accepts(bytes@) && atom_accepts(bytes@) ==> r matches Ok(FeedSource::Atom(_)),
        !rss_accepts(bytes@) && !atom_accepts(bytes@) ==> r is Err && r->Err_0.is_parse_error(
            unparseable(),
        ),
{
    if let Some(channel) = read_rss(bytes) {
        return Ok(FeedSource::Rss(rss_channel_model(&channel)));
    }
    if let Some(feed) = read_atom(bytes) {
        return Ok(FeedSource::Atom(atom_feed_model(&feed)));
    }
    Err(AppError::ParseFeedError(String::from_str("Couldn't parse as neither atom nor rss feed")))
}

} // verus!
