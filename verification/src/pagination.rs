//! Page-slicing decorator: clamping of caller-supplied paging input, the
//! windowed count-before-slice round trip, and assembly of the typed page.

use vstd::prelude::*;
use vstd::arithmetic::div_mod::{lemma_basic_div, lemma_div_plus_one};
use vstd::assert_seqs_equal;

verus! {

/// Rows returned per page when the caller gives none, or an invalid count.
pub const DEFAULT_PER_PAGE: i64 = 10;

/// Largest number of rows one page may hold; larger requests clamp to it.
pub const MAX_PER_PAGE: i64 = 50;

/// Effective page number: at least 1, with 1 for absent or invalid input.
pub open spec fn spec_clamp_page(page: Option<i64>) -> i64 {
    match page {
        Some(p) => if p >= 1 {
            p
        } else {
            1
        },
        None => 1,
    }
}

/// Effective page size: absent or non-positive input falls back to the
/// default, oversized input clamps to the ceiling.
pub open spec fn spec_clamp_per_page(per_page: Option<i64>) -> i64 {
    match per_page {
        Some(p) => if p < 1 {
            DEFAULT_PER_PAGE
        } else if p > MAX_PER_PAGE {
            MAX_PER_PAGE
        } else {
            p
        },
        None => DEFAULT_PER_PAGE,
    }
}

pub fn clamp_page(page: Option<i64>) -> (r: i64)
    ensures
        r == spec_clamp_page(page),
{
    match page {
        Some(p) => if p >= 1 {
            p
        } else {
            1
        },
        None => 1,
    }
}

pub fn clamp_per_page(per_page: Option<i64>) -> (r: i64)
    ensures
        r == spec_clamp_per_page(per_page),
{
    match per_page {
        Some(p) => if p < 1 {
            DEFAULT_PER_PAGE
        } else if p > MAX_PER_PAGE {
            MAX_PER_PAGE
        } else {
            p
        },
        None => DEFAULT_PER_PAGE,
    }
}

/// Ceiling division `total / per_page` for nonnegative totals.
pub open spec fn spec_ceil_div(total: int, per_page: int) -> int
    recommends
        total >= 0,
        per_page >= 1,
{
    (total + per_page - 1) / per_page
}

/// The page of `rows` that starts at `offset`, at most `per_page` rows long.
pub open spec fn spec_page_slice<R>(rows: Seq<R>, per_page: int, offset: int) -> Seq<R>
    recommends
        per_page >= 1,
        offset >= 0,
{
    if offset >= rows.len() {
        Seq::empty()
    } else if offset + per_page >= rows.len() {
        rows.subrange(offset, rows.len() as int)
    } else {
        rows.subrange(offset, offset + per_page)
    }
}

/// Offset of the first row of `page`, saturating at the largest value the
/// store accepts. Any offset at or past the end of the relation selects the
/// same empty page, so saturation never changes what a caller can observe.
pub open spec fn spec_offset(page: i64, per_page: i64) -> int
    recommends
        page >= 1,
        per_page >= 1,
{
    if (page - 1) * per_page <= i64::MAX as int {
        (page - 1) * per_page
    } else {
        i64::MAX as int
    }
}

/// One page of typed rows together with the paging totals.
pub struct PaginatedResults<U> {
    pub results: Vec<U>,
    pub page: i64,
    pub total_pages: i64,
    pub total_results: i64,
}

/// A not-yet-executed query together with the page window to slice from it.
pub struct Paginated<T> {
    pub query: T,
    pub page: i64,
    pub per_page: i64,
    pub offset: i64,
}

/// Wraps any composable query value with a page window.
pub trait Paginate: Sized {
    /// Attach an explicit page window to the query.
    fn paginate(self, page: i64, per_page: i64) -> (r: Paginated<Self>)
        requires
            page >= 1,
            per_page >= 1,
        ensures
            r.query == self,
            r.page == page,
            r.per_page == per_page,
            r.offset == spec_offset(page, per_page),
            r.offset >= 0,
    ;

    /// Attach a page window built from caller-supplied, possibly absent or
    /// invalid paging input, clamped to the effective page and page size.
    fn paginate_safe(self, page: Option<i64>, per_page: Option<i64>) -> (r: Paginated<Self>)
        ensures
            r.query == self,
            r.page == spec_clamp_page(page),
            r.per_page == spec_clamp_per_page(per_page),
            r.offset == spec_offset(spec_clamp_page(page), spec_clamp_per_page(per_page)),
            r.offset >= 0,
    ;
}

impl<T> Paginate for T {
    fn paginate(self, page: i64, per_page: i64) -> (r: Paginated<Self>) {
        let offset = match (page - 1).checked_mul(per_page) {
            Some(o) => o,
            None => i64::MAX,
        };
        Paginated { query: self, page, per_page, offset }
    }

    fn paginate_safe(self, page: Option<i64>, per_page: Option<i64>) -> (r: Paginated<Self>) {
        let page = clamp_page(page);
        let per_page = clamp_per_page(per_page);
        self.paginate(page, per_page)
    }
}

/// Ceiling division on machine integers.
pub fn ceil_div_i64(total: i64, per_page: i64) -> (r: i64)
    requires
        total >= 0,
        per_page >= 1,
    ensures
        r == spec_ceil_div(total as int, per_page as int),
{
    if total == 0 {
        proof {
            lemma_basic_div(per_page - 1, per_page as int);
        }
        0
    } else {
        let q = (total - 1) / per_page;
        proof {
            lemma_div_plus_one(total - 1, per_page as int);
        }
        q + 1
    }
}

/// In-memory model of the store's windowed round trip: one `(row, total)`
/// pair for each row of the requested page, where the total is the length of
/// the full relation, counted before the slice is applied.
pub fn execute_windowed<R>(rows: Vec<R>, per_page: i64, offset: i64) -> (pairs: Vec<(R, i64)>)
    requires
        per_page >= 1,
        offset >= 0,
        rows@.len() <= i64::MAX,
    ensures
        pairs@.len() == spec_page_slice(rows@, per_page as int, offset as int).len(),
        forall|i: int|
            0 <= i < pairs@.len() ==> (#[trigger] pairs@[i]).0 == spec_page_slice(
                rows@,
                per_page as int,
                offset as int,
            )[i] && pairs@[i].1 == rows@.len(),
{
    let ghost rows0 = rows@;
    let mut rows = rows;
    let total_usize = rows.len();
    let total = total_usize as i64;
    let mut pairs: Vec<(R, i64)> = Vec::new();
    if offset < total {
        let start = offset as usize;
        let avail = total_usize - start;
        let take: usize = if per_page < avail as i64 {
            per_page as usize
        } else {
            avail
        };
        let mut k: usize = 0;
        while k < take
            invariant
                k <= take,
                start + take <= total_usize,
                total_usize == rows0.len(),
                total_usize <= i64::MAX,
                total as int == total_usize as int,
                rows@ == rows0.subrange(0, start as int) + rows0.subrange(
                    start + k,
                    total_usize as int,
                ),
                pairs@.len() == k,
                forall|i: int|
                    0 <= i < k ==> (#[trigger] pairs@[i]).0 == rows0[start + i] && pairs@[i].1
                        == total_usize,
            decreases take - k,
        {
            assert(rows@.len() == total_usize - k);
            assert(rows@[start as int] == rows0[start + k]);
            let r = rows.remove(start);
            pairs.push((r, total));
            proof {
                assert_seqs_equal!(
                    rows@ == rows0.subrange(0, start as int)
                        + rows0.subrange(start + k + 1, total_usize as int)
                );
            }
            k += 1;
        }
        proof {
            let page = spec_page_slice(rows0, per_page as int, offset as int);
            assert(page.len() == take);
            assert(forall|i: int| 0 <= i < take ==> page[i] == rows0[start + i]);
        }
    }
    pairs
}

/// Turn the `(row, total)` pairs of one round trip into the typed page.
/// The total is read from the first pair; when the round trip returned no
/// rows the total falls back to zero, so the composed engine restores the
/// pre-slice total itself (`Paginated::load_paginated`).
pub fn assemble<U>(records: Vec<(U, i64)>, page: i64, per_page: i64) -> (res: PaginatedResults<U>)
    requires
        per_page >= 1,
        forall|i: int| 0 <= i < records@.len() ==> (#[trigger] records@[i]).1 == records@[0].1,
        records@.len() > 0 ==> records@[0].1 >= records@.len(),
    ensures
        res.page == page,
        res.results@.len() == records@.len(),
        forall|i: int| 0 <= i < records@.len() ==> res.results@[i] == (#[trigger] records@[i]).0,
        res.total_results == if records@.len() == 0 {
            0int
        } else {
            records@[0].1 as int
        },
        res.total_pages == spec_ceil_div(res.total_results as int, per_page as int),
{
    let ghost records0 = records@;
    let mut records = records;
    let total: i64 = if records.len() == 0 {
        0
    } else {
        let first: &(U, i64) = &records[0];
        first.1
    };
    let total_pages = ceil_div_i64(total, per_page);
    let mut results: Vec<U> = Vec::new();
    while records.len() > 0
        invariant
            results@.len() + records@.len() == records0.len(),
            records@ == records0.subrange(results@.len() as int, records0.len() as int),
            forall|i: int|
                0 <= i < results@.len() ==> results@[i] == (#[trigger] records0[i]).0,
        decreases records@.len(),
    {
        let pair = records.remove(0);
        proof {
            assert_seqs_equal!(
                records@ == records0.subrange(results@.len() + 1int, records0.len() as int)
            );
        }
        results.push(pair.0);
    }
    PaginatedResults { results, page, total_pages, total_results: total }
}

impl<R> Paginated<Vec<R>> {
    /// Execute the windowed round trip against an in-memory relation and
    /// assemble the typed page. The total match count is taken from the full
    /// relation before the slice is applied, so an offset at or past the last
    /// row still reports the true count alongside an empty page.
    pub fn load_paginated(self) -> (res: PaginatedResults<R>)
        requires
            self.page >= 1,
            self.per_page >= 1,
            self.offset >= 0,
            self.query@.len() <= i64::MAX,
        ensures
            res.page == self.page,
            res.total_results == self.query@.len(),
            res.total_pages == spec_ceil_div(self.query@.len() as int, self.per_page as int),
            res.results@ == spec_page_slice(self.query@, self.per_page as int, self.offset as int),
            res.results@.len() <= self.per_page,
            self.offset >= self.query@.len() ==> res.results@.len() == 0,
    {
        let ghost rows0 = self.query@;
        let Paginated { query, page, per_page, offset } = self;
        let total = query.len() as i64;
        let pairs = execute_windowed(query, per_page, offset);
        let ghost pairs0 = pairs@;
        let ghost page_seq = spec_page_slice(rows0, per_page as int, offset as int);
        let mut res = assemble(pairs, page, per_page);
        if res.results.len() == 0 {
            res.total_results = total;
            res.total_pages = ceil_div_i64(total, per_page);
        }
        proof {
            assert forall|i: int| 0 <= i < page_seq.len() implies res.results@[i] == page_seq[i] by {
                assert(pairs0[i].0 == page_seq[i]);
            }
            assert_seqs_equal!(res.results@ == page_seq);
        }
        res
    }
}

/// The store-side shape of the windowed round trip: the inner relation's
/// query text wrapped so that the window count is computed over the full
/// inner row set before the outer slice, with the page size and the offset
/// left as the two bind parameters.
pub fn windowed_sql(inner: &str) -> (sql: String)
    ensures
        sql@ == "SELECT *, COUNT(*) OVER () FROM ("@ + inner@ + ") t LIMIT $1 OFFSET $2"@,
{
    let sql = "SELECT *, COUNT(*) OVER () FROM (".to_owned().concat(inner).concat(
        ") t LIMIT $1 OFFSET $2",
    );
    proof {
        assert_seqs_equal!(
            sql@ == "SELECT *, COUNT(*) OVER () FROM ("@ + inner@ + ") t LIMIT $1 OFFSET $2"@
        );
    }
    sql
}

/// A page is never longer than the requested page size.
pub proof fn lemma_page_len_bound<R>(rows: Seq<R>, per_page: int, offset: int)
    requires
        per_page >= 1,
        offset >= 0,
    ensures
        spec_page_slice(rows, per_page, offset).len() <= per_page,
{
}

/// The page count is the ceiling of `total / per_page`, and it is zero
/// exactly when nothing matched.
pub proof fn lemma_total_pages_zero_iff_empty(total: int, per_page: int)
    requires
        total >= 0,
        per_page >= 1,
    ensures
        spec_ceil_div(total, per_page) == 0 <==> total == 0,
        spec_ceil_div(total, per_page) >= 0,
{
    if total == 0 {
        lemma_basic_div(per_page - 1, per_page);
    } else {
        lemma_div_plus_one(total - 1, per_page);
        vstd::arithmetic::div_mod::lemma_div_pos_is_pos(total - 1, per_page);
    }
}

/// An offset at or past the total match count yields an empty page, while
/// the total reported by the round trip still reflects the full match count,
/// because it is computed before the slice.
pub proof fn lemma_empty_page_past_end<R>(rows: Seq<R>, per_page: int, offset: int)
    requires
        per_page >= 1,
        offset >= rows.len(),
    ensures
        spec_page_slice(rows, per_page, offset).len() == 0,
{
}

} // verus!
