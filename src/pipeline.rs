use crate::detect::{detect, unparseable};
use crate::error::AppError;
use crate::models::{ids_well_formed, Feed, FeedType};
use crate::sources::{atom_accepts, rss_accepts};
use crate::normalize::atom_unlinked;
use vstd::prelude::*;

verus! {

/// Turns the outcome of fetching a feed's URL into a normalized feed: a
/// transport failure becomes a fetch error carrying its cause, and fetched
/// bytes are detected and then normalized, stopping at the first failure.
pub fn feed_from_fetch(fetched: Result<Vec<u8>, String>) -> (r: Result<Feed, AppError>)
    ensures
        fetched is Err ==> r is Err && r->Err_0.is_fetch_error(fetched->Err_0@),
        fetched is Ok ==> {
            let b = fetched->Ok_0@;
            &&& rss_accepts(b) ==> r is Ok && r->Ok_0.feed_type == FeedType::Rss
                && ids_well_formed(r->Ok_0)
            &&& !rss_accepts(b) && atom_accepts(b) ==> (r is Ok && r->Ok_0.feed_type
                == FeedType::Atom && r->Ok_0.source_updated_at is Some && ids_well_formed(
                r->Ok_0,
            )) || (r is Err && r->Err_0.is_parse_error(atom_unlinked()))
            &&& !rss_accepts(b) && !atom_accepts(b) ==> r is Err && r->Err_0.is_parse_error(
                unparseable(),
            )
        },
{
    match fetched {
        Err(cause) => Err(AppError::FetchFeedError(cause)),
        Ok(bytes) => match detect(bytes.as_slice()) {
            Ok(source) => Feed::try_from(source),
            Err(e) => Err(e),
        },
    }
}

} // verus!
