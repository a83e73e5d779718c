//! Listings of a user's media for browsing: newest first, page by page,
//! each media with the object key of its preview.

use crate::catalog::{DbManager, Media};
use crate::pages::{
    lemma_newest_first, newest_first, order_newest_first, page_bounds, page_of, page_start,
};
use crate::sync::{is_live, lemma_selected};
use crate::text::{str_eq, text_of};
use vstd::prelude::*;

verus! {

/// The capture times of rows.
pub open spec fn times_of(rows: Seq<Media>) -> Seq<i64> {
    rows.map_values(|m: Media| m.created_at)
}

/// The rows in the order in which they are listed: by capture time, newest
/// first.
pub open spec fn listed(rows: Seq<Media>) -> Seq<Media> {
    newest_first(times_of(rows), rows.len() as int).map_values(|k: int| rows[k])
}

/// What a listing shows of a row: its id, and the object key of its preview
/// if it has one.
pub open spec fn shown(m: Media) -> (Seq<char>, Option<Seq<char>>) {
    (m.id@, text_of(m.preview_id))
}

/// What a list of answers says.
pub open spec fn entries(answers: Seq<(String, Option<String>)>) -> Seq<
    (Seq<char>, Option<Seq<char>>),
> {
    answers.map_values(|a: (String, Option<String>)| (a.0@, text_of(a.1)))
}

/// The page of the listing of `rows`.
pub open spec fn listing_page(rows: Seq<Media>, page: u64, page_size: u64) -> Seq<
    (Seq<char>, Option<Seq<char>>),
> {
    page_of(listed(rows), page, page_size).map_values(|m: Media| shown(m))
}

/// Selects the live media of `user`.
pub open spec fn keep_live(user: Seq<char>) -> spec_fn(Media) -> Option<Media> {
    |m: Media|
        if is_live(m, user) {
            Some(m)
        } else {
            None
        }
}

/// The rows at `positions` of `media`.
pub open spec fn rows_at(media: Seq<Media>, positions: Seq<usize>) -> Seq<Media> {
    positions.map_values(|i: usize| media[i as int])
}

impl DbManager {
    /// Lists a page of the media at `positions`, newest first.
    pub fn list_page(&self, positions: &Vec<usize>, page: u64, page_size: u64) -> (answers: Vec<
        (String, Option<String>),
    >)
        requires
            forall|k: int| 0 <= k < positions@.len() ==> #[trigger] positions@[k] < self.media@.len(),
        ensures
            entries(answers@) == listing_page(rows_at(self.media@, positions@), page, page_size),
            answers@.len() <= page_size,
    {
        let ghost rows = rows_at(self.media@, positions@);
        let mut times: Vec<i64> = Vec::new();
        let mut i: usize = 0;
        while i < positions.len()
            invariant
                0 <= i <= positions@.len(),
                rows == rows_at(self.media@, positions@),
                forall|k: int|
                    0 <= k < positions@.len() ==> #[trigger] positions@[k] < self.media@.len(),
                times@ == times_of(rows).take(i as int),
            decreases positions@.len() - i,
        {
            times.push(self.media[positions[i]].created_at);
            assert(times@ =~= times_of(rows).take(i + 1));
            i += 1;
        }
        assert(times@ =~= times_of(rows));
        let order = order_newest_first(&times);
        let (start, end) = page_bounds(order.len(), page, page_size);
        let ghost listing = listed(rows);
        assert(listing.len() == order@.len());
        let mut answers: Vec<(String, Option<String>)> = Vec::new();
        let mut k: usize = start;
        assert(entries(answers@) =~= listing.subrange(start as int, k as int).map_values(
            |m: Media| shown(m),
        ));
        while k < end
            invariant
                start <= k <= end <= order@.len(),
                rows == rows_at(self.media@, positions@),
                listing == listed(rows),
                listing.len() == order@.len(),
                order@.len() == positions@.len(),
                order@.map_values(|i: usize| i as int) == newest_first(
                    times_of(rows),
                    rows.len() as int,
                ),
                forall|j: int| 0 <= j < order@.len() ==> #[trigger] order@[j] < positions@.len(),
                forall|j: int|
                    0 <= j < positions@.len() ==> #[trigger] positions@[j] < self.media@.len(),
                entries(answers@) == listing.subrange(start as int, k as int).map_values(
                    |m: Media| shown(m),
                ),
            decreases end - k,
        {
            let m = &self.media[positions[order[k]]];
            proof {
                assert(order@.map_values(|i: usize| i as int)[k as int] == order@[k as int] as int);
                assert(listing[k as int] == rows[order@[k as int] as int]);
                assert(rows[order@[k as int] as int] == *m);
            }
            let preview = match &m.preview_id {
                Some(key) => Some(key.clone()),
                None => None,
            };
            let ghost before = answers@;
            let answer = (m.id.clone(), preview);
            answers.push(answer);
            assert(entries(answers@) =~= entries(before).push(shown(*m)));
            assert(listing.subrange(start as int, k + 1).map_values(|m: Media| shown(m))
                =~= listing.subrange(start as int, k as int).map_values(|m: Media| shown(m)).push(
                shown(listing[k as int]),
            ));
            k += 1;
        }
        answers
    }

    /// Lists a page of the user's live media, newest first, each with the
    /// object key of its preview.
    pub fn get_previews(&self, user_id: &str, page: u64, page_size: u64) -> (answers: Vec<
        (String, Option<String>),
    >)
        ensures
            entries(answers@) == listing_page(
                self.media@.filter_map(keep_live(user_id@)),
                page,
                page_size,
            ),
            answers@.len() <= page_size,
    {
        let ghost keep = keep_live(user_id@);
        let mut positions: Vec<usize> = Vec::new();
        let mut i: usize = 0;
        assert(rows_at(self.media@, positions@) =~= self.media@.take(0).filter_map(keep));
        while i < self.media.len()
            invariant
                0 <= i <= self.media@.len(),
                keep == keep_live(user_id@),
                forall|k: int| 0 <= k < positions@.len() ==> #[trigger] positions@[k] < i,
                rows_at(self.media@, positions@) == self.media@.take(i as int).filter_map(keep),
            decreases self.media@.len() - i,
        {
            proof {
                self.media@.lemma_filter_map_take_succ(keep, i as int);
            }
            let m = &self.media[i];
            if str_eq(m.user_id.as_str(), user_id) && !m.deleted {
                let ghost before = positions@;
                positions.push(i);
                assert(rows_at(self.media@, positions@) =~= rows_at(self.media@, before).push(
                    self.media@[i as int],
                ));
            }
            i += 1;
        }
        assert(self.media@.take(self.media@.len() as int) == self.media@);
        self.list_page(&positions, page, page_size)
    }
}

/// Every entry of a page of a listing shows one of the listed rows.
pub proof fn lemma_page_shows_rows(rows: Seq<Media>, page: u64, page_size: u64, k: int) -> (j: int)
    requires
        0 <= k < listing_page(rows, page, page_size).len(),
    ensures
        0 <= j < rows.len(),
        listing_page(rows, page, page_size)[k] == shown(rows[j]),
{
    lemma_newest_first(times_of(rows), rows.len() as int);
    let order = newest_first(times_of(rows), rows.len() as int);
    let start = page_start(rows.len() as int, page, page_size);
    assert(listed(rows).len() == rows.len());
    order[start + k]
}

/// Access scoping of the listings. Where a listing selects only live media
/// of a user, every entry of every page of it shows a live media of that
/// user. The listings of previews, of a cluster and of a person select so.
pub proof fn lemma_listing_is_scoped<A>(
    source: Seq<A>,
    select: spec_fn(A) -> Option<Media>,
    user: Seq<char>,
    page: u64,
    page_size: u64,
    k: int,
) -> (m: Media)
    requires
        forall|a: A| (#[trigger] select(a)) matches Some(m) ==> is_live(m, user),
        0 <= k < listing_page(source.filter_map(select), page, page_size).len(),
    ensures
        is_live(m, user),
        listing_page(source.filter_map(select), page, page_size)[k] == shown(m),
{
    let rows = source.filter_map(select);
    let j = lemma_page_shows_rows(rows, page, page_size, k);
    assert(rows.contains(rows[j]));
    lemma_selected(source, select, rows[j]);
    let i = choose|i: int| 0 <= i < source.len() && select(#[trigger] source[i]) == Some(rows[j]);
    assert(select(source[i]) is Some);
    rows[j]
}

} // verus!
