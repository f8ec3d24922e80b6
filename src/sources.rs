use crate::models::{ID_LEN, Timestamp};
use atom_syndication::Feed as AtomDocument;
use vstd::prelude::*;

verus! {

/// Relies on uuid::Uuid::new_v4 and its hyphenated form, which is always
/// `Hyphenated::LENGTH` (36) characters long.
#[verifier::external_body]
pub(crate) fn fresh_id() -> (r: String)
    ensures
        r@.len() == ID_LEN,
{
    uuid::Uuid::new_v4().hyphenated().to_string()
}

/// What chrono's `str::parse::<DateTime<FixedOffset>>` makes of a string:
/// seconds since the epoch, nanoseconds and UTC offset, or `None` where it
/// rejects the string.
pub uninterp spec fn parsed_datetime(s: Seq<char>) -> Option<(i64, u32, i32)>;

/// Relies on chrono's `FromStr` for `DateTime<FixedOffset>`, whose result
/// depends on the string alone.
#[verifier::external_body]
pub(crate) fn parse_datetime(s: &str) -> (r: Option<(i64, u32, i32)>)
    ensures
        r == parsed_datetime(s@),
{
    s.parse::<chrono::DateTime<chrono::FixedOffset>>().ok().map(
        |d| (d.timestamp(), d.timestamp_subsec_nanos(), d.offset().local_minus_utc()),
    )
}

/// Whether rss's `Channel::read_from` accepts the bytes as a channel.
pub uninterp spec fn rss_accepts(b: Seq<u8>) -> bool;

/// Whether atom_syndication's `Feed::read_from` accepts the bytes as a feed.
pub uninterp spec fn atom_accepts(b: Seq<u8>) -> bool;

/// Relies on rss::Channel::read_from, a parser whose outcome depends on
/// the bytes alone.
#[verifier::external_body]
pub(crate) fn read_rss(b: &[u8]) -> (r: Option<rss::Channel>)
    ensures
        r is Some <==> rss_accepts(b@),
{
    rss::Channel::read_from(b).ok()
}

/// Relies on atom_syndication::Feed::read_from, a parser whose outcome
/// depends on the bytes alone.
#[verifier::external_body]
pub(crate) fn read_atom(b: &[u8]) -> (r: Option<AtomDocument>)
    ensures
        r is Some <==> atom_accepts(b@),
{
    AtomDocument::read_from(b).ok()
}

/// Relies on atom_syndication::Feed::updated and chrono's accessors of the
/// `DateTime<FixedOffset>` it returns.
#[verifier::external_body]
pub(crate) fn atom_updated(f: &AtomDocument) -> (r: Timestamp) {
    let d = f.updated();
    Timestamp {
        seconds: d.timestamp(),
        nanos: d.timestamp_subsec_nanos(),
        offset_seconds: d.offset().local_minus_utc(),
    }
}

/// rss's channel, read through its getters.
#[verifier::external_type_specification]
#[verifier::external_body]
pub struct ExRssChannel(rss::Channel);

/// rss's item, read through its getters.
#[verifier::external_type_specification]
#[verifier::external_body]
pub struct ExRssItem(rss::Item);

/// atom_syndication's feed, read through its getters.
#[verifier::external_type_specification]
#[verifier::external_body]
pub struct ExAtomFeed(AtomDocument);

/// atom_syndication's entry, read through its getters.
#[verifier::external_type_specification]
#[verifier::external_body]
pub struct ExAtomEntry(atom_syndication::Entry);

/// atom_syndication's link, read through its getters.
#[verifier::external_type_specification]
#[verifier::external_body]
pub struct ExAtomLink(atom_syndication::Link);

/// atom_syndication's text construct, read through its getters.
#[verifier::external_type_specification]
#[verifier::external_body]
pub struct ExAtomText(atom_syndication::Text);

/// atom_syndication's content block, read through its getters.
#[verifier::external_type_specification]
#[verifier::external_body]
pub struct ExAtomContent(atom_syndication::Content);

/// Relies on rss::Channel::title, the channel's title.
pub assume_specification<'a>[ rss::Channel::title ](c: &'a rss::Channel) -> &'a str;

/// Relies on rss::Channel::link, the channel's link.
pub assume_specification<'a>[ rss::Channel::link ](c: &'a rss::Channel) -> &'a str;

/// Relies on rss::Channel::last_build_date, the raw date string if any.
pub assume_specification<'a>[ rss::Channel::last_build_date ](c: &'a rss::Channel) -> Option<
    &'a str,
>;

/// Relies on rss::Channel::items, the items in document order.
pub assume_specification<'a>[ rss::Channel::items ](c: &'a rss::Channel) -> &'a [rss::Item];

/// Relies on rss::Item::title.
pub assume_specification<'a>[ rss::Item::title ](i: &'a rss::Item) -> Option<&'a str>;

/// Relies on rss::Item::link.
pub assume_specification<'a>[ rss::Item::link ](i: &'a rss::Item) -> Option<&'a str>;

/// Relies on rss::Item::description.
pub assume_specification<'a>[ rss::Item::description ](i: &'a rss::Item) -> Option<&'a str>;

/// Relies on rss::Item::content.
pub assume_specification<'a>[ rss::Item::content ](i: &'a rss::Item) -> Option<&'a str>;

/// Relies on atom_syndication::Feed::title.
pub assume_specification<'a>[ AtomDocument::title ](
    f: &'a AtomDocument,
) -> &'a atom_syndication::Text;

/// Relies on atom_syndication::Feed::links, in document order.
pub assume_specification<'a>[ AtomDocument::links ](
    f: &'a AtomDocument,
) -> &'a [atom_syndication::Link];

/// Relies on atom_syndication::Feed::entries, in document order.
pub assume_specification<'a>[ AtomDocument::entries ](
    f: &'a AtomDocument,
) -> &'a [atom_syndication::Entry];

/// Relies on atom_syndication::Entry::title.
pub assume_specification<'a>[ atom_syndication::Entry::title ](
    e: &'a atom_syndication::Entry,
) -> &'a atom_syndication::Text;

/// Relies on atom_syndication::Entry::links, in document order.
pub assume_specification<'a>[ atom_syndication::Entry::links ](
    e: &'a atom_syndication::Entry,
) -> &'a [atom_syndication::Link];

/// Relies on atom_syndication::Entry::summary.
pub assume_specification<'a>[ atom_syndication::Entry::summary ](
    e: &'a atom_syndication::Entry,
) -> Option<&'a atom_syndication::Text>;

/// Relies on atom_syndication::Entry::content.
pub assume_specification<'a>[ atom_syndication::Entry::content ](
    e: &'a atom_syndication::Entry,
) -> Option<&'a atom_syndication::Content>;

/// Relies on atom_syndication::Link::href.
pub assume_specification<'a>[ atom_syndication::Link::href ](
    l: &'a atom_syndication::Link,
) -> &'a str;

/// Relies on atom_syndication::Text::as_str, the text's value.
pub assume_specification<'a>[ atom_syndication::Text::as_str ](
    t: &'a atom_syndication::Text,
) -> &'a str;

/// Relies on atom_syndication::Content::value.
pub assume_specification<'a>[ atom_syndication::Content::value ](
    c: &'a atom_syndication::Content,
) -> Option<&'a str>;

} // verus!
