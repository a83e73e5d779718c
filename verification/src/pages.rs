//! Pages of a listing: the order in which rows are listed, and the slice of
//! the listing that a page holds.
//!
//! Listings are ordered by a time, newest first. Rows with the same time
//! keep the order in which they were selected.

use vstd::prelude::*;

verus! {

/// The page that is listed when none is named.
pub const DEFAULT_PAGE: u64 = 1;

/// The number of rows on a page when none is named.
pub const DEFAULT_PAGE_SIZE: u64 = 10;

/// The largest number of rows on a page.
pub const MAX_PAGE_SIZE: u64 = 30;

/// What a request says of the page it wants.
pub struct Pagination {
    pub page: Option<u64>,
    pub page_size: Option<u64>,
}

/// The page that a request means: the first where none or page 0 is named.
pub open spec fn resolved_page(page: Option<u64>) -> u64 {
    match page {
        Some(p) => if p < 1 {
            1
        } else {
            p
        },
        None => DEFAULT_PAGE,
    }
}

/// The page size that a request means: 10 where none is named, and never
/// less than 1 nor more than 30.
pub open spec fn resolved_page_size(page_size: Option<u64>) -> u64 {
    match page_size {
        Some(s) => if s < 1 {
            1
        } else if s > MAX_PAGE_SIZE {
            MAX_PAGE_SIZE
        } else {
            s
        },
        None => DEFAULT_PAGE_SIZE,
    }
}

impl Pagination {
    /// The page and the page size that the request means.
    pub fn resolve(&self) -> (resolved: (u64, u64))
        ensures
            resolved.0 == resolved_page(self.page),
            resolved.1 == resolved_page_size(self.page_size),
            resolved.0 >= 1,
            1 <= resolved.1 <= MAX_PAGE_SIZE,
    {
        let page = match self.page {
            Some(p) => if p < 1 {
                1
            } else {
                p
            },
            None => DEFAULT_PAGE,
        };
        let page_size = match self.page_size {
            Some(s) => if s < 1 {
                1
            } else if s > MAX_PAGE_SIZE {
                MAX_PAGE_SIZE
            } else {
                s
            },
            None => DEFAULT_PAGE_SIZE,
        };
        (page, page_size)
    }
}

/// Where the page starts in a listing of `len` rows: after the rows of the
/// pages before it, or at the end if the listing is shorter. Pages are
/// numbered from 1; page 0 is the first page.
pub open spec fn page_start(len: int, page: u64, page_size: u64) -> int {
    let offset = if page < 1 {
        0
    } else {
        (page - 1) * page_size
    };
    if offset < len {
        offset
    } else {
        len
    }
}

/// Where the page ends in a listing of `len` rows.
pub open spec fn page_end(len: int, page: u64, page_size: u64) -> int {
    let start = page_start(len, page, page_size);
    if start + page_size < len {
        start + page_size
    } else {
        len
    }
}

/// The rows of `listing` that are on the page.
pub open spec fn page_of<T>(listing: Seq<T>, page: u64, page_size: u64) -> Seq<T> {
    listing.subrange(
        page_start(listing.len() as int, page, page_size),
        page_end(listing.len() as int, page, page_size),
    )
}

/// Where the page starts and ends in a listing of `len` rows.
pub fn page_bounds(len: usize, page: u64, page_size: u64) -> (bounds: (usize, usize))
    ensures
        bounds.0 == page_start(len as int, page, page_size),
        bounds.1 == page_end(len as int, page, page_size),
        bounds.0 <= bounds.1 <= len,
        bounds.1 - bounds.0 <= page_size,
{
    let before: u64 = if page < 1 {
        0
    } else {
        page - 1
    };
    let start: usize = match before.checked_mul(page_size) {
        Some(offset) => if offset < len as u64 {
            offset as usize
        } else {
            len
        },
        None => {
            assert(before * page_size > u64::MAX);
            len
        },
    };
    let room: usize = len - start;
    let end: usize = if page_size < room as u64 {
        start + page_size as usize
    } else {
        len
    };
    (start, end)
}

/// The place of the row `i` in an order of rows by their times: behind
/// every row that is at least as new.
pub open spec fn placed(times: Seq<i64>, order: Seq<int>, i: int) -> Seq<int>
    decreases order.len(),
{
    if order.len() == 0 {
        seq![i]
    } else if times[order.last()] >= times[i] {
        order.push(i)
    } else {
        placed(times, order.drop_last(), i).push(order.last())
    }
}

/// The first `n` rows, newest first. Rows with the same time stay in the
/// order in which they stand.
pub open spec fn newest_first(times: Seq<i64>, n: int) -> Seq<int>
    decreases n,
{
    if n <= 0 {
        Seq::empty()
    } else {
        placed(times, newest_first(times, n - 1), n - 1)
    }
}

/// Whether `order` lists rows of `times` newest first.
pub open spec fn is_newest_first(times: Seq<i64>, order: Seq<int>) -> bool {
    &&& forall|k: int| 0 <= k < order.len() ==> 0 <= #[trigger] order[k] < times.len()
    &&& forall|a: int, b: int|
        0 <= a < b < order.len() ==> times[#[trigger] order[a]] >= times[#[trigger] order[b]]
}

/// Placing a row at position `at` of an order is what `placed` does, if
/// the rows before `at` are at least as new as the row and the rows from
/// `at` on are older.
pub proof fn lemma_placed_at(times: Seq<i64>, order: Seq<int>, i: int, at: int)
    requires
        0 <= at <= order.len(),
        forall|k: int| at <= k < order.len() ==> times[#[trigger] order[k]] < times[i],
        at > 0 ==> times[order[at - 1]] >= times[i],
    ensures
        placed(times, order, i) == order.insert(at, i),
    decreases order.len(),
{
    if order.len() == 0 {
        assert(order.insert(0, i) =~= seq![i]);
    } else if at == order.len() {
        assert(order.insert(at, i) =~= order.push(i));
    } else {
        let init = order.drop_last();
        assert(times[order[order.len() - 1]] < times[i]);
        assert forall|k: int| at <= k < init.len() implies times[#[trigger] init[k]]
            < times[i] by {
            assert(init[k] == order[k]);
        }
        if at > 0 {
            assert(init[at - 1] == order[at - 1]);
        }
        lemma_placed_at(times, init, i, at);
        assert(init.insert(at, i).push(order.last()) =~= order.insert(at, i));
    }
}

/// Placing a row keeps an order newest first, and adds the row to it.
pub proof fn lemma_placed(times: Seq<i64>, order: Seq<int>, i: int)
    requires
        is_newest_first(times, order),
        0 <= i < times.len(),
    ensures
        is_newest_first(times, placed(times, order, i)),
        placed(times, order, i).len() == order.len() + 1,
        placed(times, order, i).to_multiset() == order.to_multiset().insert(i),
    decreases order.len(),
{
    broadcast use vstd::seq_lib::group_to_multiset_ensures;

    if order.len() == 0 {
        assert(order =~= Seq::<int>::empty());
        assert(seq![i] =~= Seq::<int>::empty().push(i));
    } else if times[order.last()] >= times[i] {
        let result = order.push(i);
        assert forall|a: int, b: int| 0 <= a < b < result.len() implies times[#[trigger] result[a]]
            >= times[#[trigger] result[b]] by {
            if b == order.len() {
                if a < order.len() - 1 {
                    assert(times[order[a]] >= times[order[order.len() - 1]]);
                }
            }
        }
    } else {
        let init = order.drop_last();
        let last = order.last();
        assert(order =~= init.push(last));
        assert forall|a: int, b: int| 0 <= a < b < init.len() implies times[#[trigger] init[a]]
            >= times[#[trigger] init[b]] by {
            assert(init[a] == order[a] && init[b] == order[b]);
        }
        assert forall|k: int| 0 <= k < init.len() implies 0 <= #[trigger] init[k]
            < times.len() by {
            assert(init[k] == order[k]);
        }
        lemma_placed(times, init, i);
        let inner = placed(times, init, i);
        let result = inner.push(last);
        assert forall|a: int, b: int| 0 <= a < b < result.len() implies times[#[trigger] result[a]]
            >= times[#[trigger] result[b]] by {
            if b == inner.len() {
                assert(inner.to_multiset().count(inner[a]) > 0);
                if inner[a] != i {
                    assert(init.to_multiset().count(inner[a]) > 0);
                    assert(init.contains(inner[a]));
                    let k = choose|k: int| 0 <= k < init.len() && init[k] == inner[a];
                    assert(order[k] == inner[a]);
                    assert(times[order[k]] >= times[order[order.len() - 1]]);
                }
            }
        }
        assert(result.to_multiset() =~= order.to_multiset().insert(i));
    }
}

/// The order `newest_first` is newest first, and lists each of the first
/// `n` rows exactly once.
pub proof fn lemma_newest_first(times: Seq<i64>, n: int)
    requires
        0 <= n <= times.len(),
    ensures
        is_newest_first(times, newest_first(times, n)),
        newest_first(times, n).len() == n,
        forall|i: int|
            #![trigger newest_first(times, n).to_multiset().count(i)]
            newest_first(times, n).to_multiset().count(i) == if 0 <= i < n {
                1nat
            } else {
                0nat
            },
    decreases n,
{
    broadcast use vstd::seq_lib::group_to_multiset_ensures;

    if n > 0 {
        lemma_newest_first(times, n - 1);
        lemma_placed(times, newest_first(times, n - 1), n - 1);
    } else {
        assert(newest_first(times, n) =~= Seq::<int>::empty());
    }
}

/// Orders rows by their times, newest first; rows with the same time stay
/// in the order in which they stand. The result lists the positions of the
/// rows.
pub fn order_newest_first(times: &Vec<i64>) -> (order: Vec<usize>)
    ensures
        order@.map_values(|i: usize| i as int) == newest_first(times@, times@.len() as int),
        order@.len() == times@.len(),
        forall|k: int| 0 <= k < order@.len() ==> #[trigger] order@[k] < times@.len(),
{
    let mut order: Vec<usize> = Vec::new();
    let mut n: usize = 0;
    assert(order@.map_values(|i: usize| i as int) =~= newest_first(times@, 0));
    while n < times.len()
        invariant
            0 <= n <= times@.len(),
            order@.len() == n,
            order@.map_values(|i: usize| i as int) == newest_first(times@, n as int),
            forall|k: int| 0 <= k < order@.len() ==> #[trigger] order@[k] < times@.len(),
        decreases times@.len() - n,
    {
        let ghost before = order@.map_values(|i: usize| i as int);
        let mut at: usize = order.len();
        while at > 0 && times[order[at - 1]] < times[n]
            invariant
                0 <= at <= order@.len(),
                n < times@.len(),
                before == order@.map_values(|i: usize| i as int),
                forall|k: int| 0 <= k < order@.len() ==> #[trigger] order@[k] < times@.len(),
                forall|k: int| at <= k < before.len() ==> times@[#[trigger] before[k]] < times@[n as int],
            decreases at,
        {
            assert(before[at - 1] == order@[at - 1] as int);
            at -= 1;
        }
        proof {
            if at > 0 {
                assert(before[at - 1] == order@[at - 1] as int);
            }
            lemma_placed_at(times@, before, n as int, at as int);
        }
        order.insert(at, n);
        assert(order@.map_values(|i: usize| i as int) =~= before.insert(at as int, n as int));
        n += 1;
    }
    order
}

} // verus!
