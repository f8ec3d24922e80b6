use crate::error::AppError;
use crate::models::{AtomFeed, Feed, FeedSource, FeedType, RssChannel, RssItem};
use crate::normalize::{atom_unlinked, normalizes_to, rss_item_view, rss_items_view};
use vstd::prelude::*;

verus! {

/// Whether an RSS item has both a title and a link.
pub open spec fn rss_item_complete(i: RssItem) -> bool {
    i.title is Some && i.link is Some
}

/// Every RSS channel normalizes, to a feed of the RSS type with an identifier.
pub proof fn lemma_rss_always_normalizes(ch: RssChannel, r: Result<Feed, AppError>)
    requires
        normalizes_to(FeedSource::Rss(ch), r),
    ensures
        r is Ok,
        r->Ok_0.feed_type == FeedType::Rss,
        r->Ok_0.id@.len() > 0,
{
}

/// An Atom document with a link normalizes, to a feed of the Atom type whose
/// update time is set.
pub proof fn lemma_linked_atom_normalizes(a: AtomFeed, r: Result<Feed, AppError>)
    requires
        a.links@.len() > 0,
        normalizes_to(FeedSource::Atom(a), r),
    ensures
        r is Ok,
        r->Ok_0.feed_type == FeedType::Atom,
        r->Ok_0.source_updated_at is Some,
{
}

/// An Atom document without a link yields the missing-link error and no feed.
pub proof fn lemma_unlinked_atom_fails(a: AtomFeed, r: Result<Feed, AppError>)
    requires
        a.links@.len() == 0,
        normalizes_to(FeedSource::Atom(a), r),
    ensures
        r is Err,
        r->Err_0.is_parse_error(atom_unlinked()),
{
}

/// The items of a normalized channel are exactly its complete items, in
/// order: an item without a title or a link is left out.
pub proof fn lemma_incomplete_rss_items_dropped(items: Seq<RssItem>)
    ensures
        rss_items_view(items) == items.filter(|i: RssItem| rss_item_complete(i)).map_values(
            |i: RssItem| rss_item_view(i)->0,
        ),
    decreases items.len(),
{
    reveal(Seq::filter);
    let view = |i: RssItem| rss_item_view(i)->0;
    let complete = |i: RssItem| rss_item_complete(i);
    if items.len() == 0 {
        assert(rss_items_view(items) =~= items.filter(complete).map_values(view));
    } else {
        lemma_incomplete_rss_items_dropped(items.drop_last());
        let kept = items.drop_last().filter(complete);
        assert(items.drop_last().filter_map(|i: RssItem| rss_item_view(i)) == rss_items_view(
            items.drop_last(),
        ));
        if rss_item_complete(items.last()) {
            assert(items.filter(complete) == kept.push(items.last()));
            assert(rss_items_view(items) == rss_items_view(items.drop_last()) + seq![
                view(items.last()),
            ]);
            assert(kept.push(items.last()).map_values(view) =~= kept.map_values(view).push(
                view(items.last()),
            ));
            assert(rss_items_view(items) =~= items.filter(complete).map_values(view));
        } else {
            assert(items.filter(complete) == kept);
            assert(rss_items_view(items) == rss_items_view(items.drop_last()));
            assert(rss_items_view(items) =~= items.filter(complete).map_values(view));
        }
    }
}

/// Normalization depends on the document alone: two normalizations of one
/// document agree on success and on everything but the identifiers.
pub proof fn lemma_normalization_deterministic(
    src: FeedSource,
    r1: Result<Feed, AppError>,
    r2: Result<Feed, AppError>,
)
    requires
        normalizes_to(src, r1),
        normalizes_to(src, r2),
    ensures
        r1 is Ok <==> r2 is Ok,
        r1 is Ok ==> r1->Ok_0@ == r2->Ok_0@,
        r1 is Err ==> r1->Err_0.message_spec() == r2->Err_0.message_spec(),
{
}

} // verus!
