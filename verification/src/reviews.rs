//! The review listing engine: composition of optional equality filters,
//! resolution of the caller's sort token, and the windowed page round trip,
//! executed against an in-memory relation.

use vstd::prelude::*;
use vstd::assert_seqs_equal;

use crate::errors::StoreError;
use crate::models::{EditReview, MediaCategory, NewReview, Review, WatchStatus};
use crate::models::{spec_apply_edit, spec_season_column};
use crate::pagination::{
    spec_ceil_div, spec_clamp_page, spec_clamp_per_page, spec_offset, spec_page_slice, Paginate,
    PaginatedResults,
};
use crate::sorting::{sort_rows, spec_sort_by, SortDir, SortableBy};
use crate::sorting::{lemma_sort_by_len, lemma_sort_by_multiset};

verus! {

/// The closed set of sort tokens a review listing accepts.
#[derive(Clone, Copy, Debug, PartialEq, Eq, Structural)]
pub enum SortBy {
    TmdbIdAsc,
    TmdbIdDesc,
    CreatedAtAsc,
    CreatedAtDesc,
    UpdatedAtAsc,
    UpdatedAtDesc,
}

/// The review columns a listing can order by.
#[derive(Clone, Copy, Debug, PartialEq, Eq, Structural)]
pub enum ReviewSortField {
    TmdbId,
    CreatedAt,
    UpdatedAt,
}

/// One concrete ordering clause over review rows.
#[derive(Clone, Copy, Debug, PartialEq, Eq, Structural)]
pub struct ReviewOrder {
    pub field: ReviewSortField,
    pub dir: SortDir,
}

/// The sort key a review row presents for an ordering column.
pub open spec fn spec_review_sort_key(field: ReviewSortField, r: Review) -> int {
    match field {
        ReviewSortField::TmdbId => r.tmdb_id as int,
        ReviewSortField::CreatedAt => r.created_at as int,
        ReviewSortField::UpdatedAt => r.updated_at as int,
    }
}

impl SortableBy<ReviewOrder> for Review {
    open spec fn le(o: ReviewOrder, a: Review, b: Review) -> bool {
        match o.dir {
            SortDir::Asc => spec_review_sort_key(o.field, a) <= spec_review_sort_key(o.field, b),
            SortDir::Desc => spec_review_sort_key(o.field, b) <= spec_review_sort_key(o.field, a),
        }
    }

    fn le_exec(o: &ReviewOrder, a: &Review, b: &Review) -> (r: bool) {
        let ka: i64 = match o.field {
            ReviewSortField::TmdbId => a.tmdb_id as i64,
            ReviewSortField::CreatedAt => a.created_at,
            ReviewSortField::UpdatedAt => a.updated_at,
        };
        let kb: i64 = match o.field {
            ReviewSortField::TmdbId => b.tmdb_id as i64,
            ReviewSortField::CreatedAt => b.created_at,
            ReviewSortField::UpdatedAt => b.updated_at,
        };
        match o.dir {
            SortDir::Asc => ka <= kb,
            SortDir::Desc => kb <= ka,
        }
    }
}

/// The ordering clause a recognized sort token selects.
pub open spec fn spec_order_of(sort_by: SortBy) -> ReviewOrder {
    match sort_by {
        SortBy::TmdbIdAsc => ReviewOrder { field: ReviewSortField::TmdbId, dir: SortDir::Asc },
        SortBy::TmdbIdDesc => ReviewOrder { field: ReviewSortField::TmdbId, dir: SortDir::Desc },
        SortBy::CreatedAtAsc => ReviewOrder {
            field: ReviewSortField::CreatedAt,
            dir: SortDir::Asc,
        },
        SortBy::CreatedAtDesc => ReviewOrder {
            field: ReviewSortField::CreatedAt,
            dir: SortDir::Desc,
        },
        SortBy::UpdatedAtAsc => ReviewOrder {
            field: ReviewSortField::UpdatedAt,
            dir: SortDir::Asc,
        },
        SortBy::UpdatedAtDesc => ReviewOrder {
            field: ReviewSortField::UpdatedAt,
            dir: SortDir::Desc,
        },
    }
}

/// The fixed default ordering of review listings: most recently updated
/// first. It is applied whenever the caller supplies no recognized token,
/// so that repeated listings always agree on their page boundaries.
pub open spec fn spec_default_review_order() -> ReviewOrder {
    ReviewOrder { field: ReviewSortField::UpdatedAt, dir: SortDir::Desc }
}

/// The ordering clause an optional sort token resolves to.
pub open spec fn spec_resolve_sort(sort_by: Option<SortBy>) -> ReviewOrder {
    match sort_by {
        Some(s) => spec_order_of(s),
        None => spec_default_review_order(),
    }
}

pub fn resolve_sort(sort_by: Option<SortBy>) -> (o: ReviewOrder)
    ensures
        o == spec_resolve_sort(sort_by),
{
    match sort_by {
        Some(SortBy::TmdbIdAsc) => ReviewOrder { field: ReviewSortField::TmdbId, dir: SortDir::Asc },
        Some(SortBy::TmdbIdDesc) => ReviewOrder {
            field: ReviewSortField::TmdbId,
            dir: SortDir::Desc,
        },
        Some(SortBy::CreatedAtAsc) => ReviewOrder {
            field: ReviewSortField::CreatedAt,
            dir: SortDir::Asc,
        },
        Some(SortBy::CreatedAtDesc) => ReviewOrder {
            field: ReviewSortField::CreatedAt,
            dir: SortDir::Desc,
        },
        Some(SortBy::UpdatedAtAsc) => ReviewOrder {
            field: ReviewSortField::UpdatedAt,
            dir: SortDir::Asc,
        },
        Some(SortBy::UpdatedAtDesc) => ReviewOrder {
            field: ReviewSortField::UpdatedAt,
            dir: SortDir::Desc,
        },
        None => ReviewOrder { field: ReviewSortField::UpdatedAt, dir: SortDir::Desc },
    }
}

/// Which token, if any, a raw sort string denotes.
pub open spec fn spec_parse_sort_token(t: Seq<char>) -> Option<SortBy> {
    if t == "tmdb_id.asc"@ {
        Some(SortBy::TmdbIdAsc)
    } else if t == "tmdb_id.desc"@ {
        Some(SortBy::TmdbIdDesc)
    } else if t == "created_at.asc"@ {
        Some(SortBy::CreatedAtAsc)
    } else if t == "created_at.desc"@ {
        Some(SortBy::CreatedAtDesc)
    } else if t == "updated_at.asc"@ {
        Some(SortBy::UpdatedAtAsc)
    } else if t == "updated_at.desc"@ {
        Some(SortBy::UpdatedAtDesc)
    } else {
        None
    }
}

/// Parse a raw sort string; anything outside the closed set yields `None`
/// and therefore the fixed default ordering.
pub fn parse_sort_token(token: &str) -> (r: Option<SortBy>)
    ensures
        r == spec_parse_sort_token(token@),
{
    let t: String = token.to_owned();
    if t == "tmdb_id.asc".to_owned() {
        Some(SortBy::TmdbIdAsc)
    } else if t == "tmdb_id.desc".to_owned() {
        Some(SortBy::TmdbIdDesc)
    } else if t == "created_at.asc".to_owned() {
        Some(SortBy::CreatedAtAsc)
    } else if t == "created_at.desc".to_owned() {
        Some(SortBy::CreatedAtDesc)
    } else if t == "updated_at.asc".to_owned() {
        Some(SortBy::UpdatedAtAsc)
    } else if t == "updated_at.desc".to_owned() {
        Some(SortBy::UpdatedAtDesc)
    } else {
        None
    }
}

/// One present filter: each contributes exactly one equality predicate.
#[derive(Clone, Copy, Debug, PartialEq, Eq, Structural)]
pub enum ReviewFilter {
    UserId(i32),
    Category(MediaCategory),
    TmdbId(i32),
    Season(i32),
    Status(WatchStatus),
    FunBefore(bool),
    FunDuring(bool),
    FunAfter(bool),
}

/// Raw listing parameters of a review listing request.
#[derive(Clone, Copy, Debug)]
pub struct ReviewsQuery {
    pub page: Option<i64>,
    pub per_page: Option<i64>,
    pub sort_by: Option<SortBy>,
    pub user_id: Option<i32>,
    pub category: Option<MediaCategory>,
    pub tmdb_id: Option<i32>,
    pub season: Option<i32>,
    pub status: Option<WatchStatus>,
    pub fun_before: Option<bool>,
    pub fun_during: Option<bool>,
    pub fun_after: Option<bool>,
}

/// Whether a row satisfies one filter's equality predicate.
pub open spec fn spec_filter_matches(f: ReviewFilter, r: Review) -> bool {
    match f {
        ReviewFilter::UserId(v) => r.user_id == v,
        ReviewFilter::Category(v) => r.category == v,
        ReviewFilter::TmdbId(v) => r.tmdb_id == v,
        ReviewFilter::Season(v) => r.season == v,
        ReviewFilter::Status(v) => r.status == v,
        ReviewFilter::FunBefore(v) => r.fun_before == v,
        ReviewFilter::FunDuring(v) => r.fun_during == v,
        ReviewFilter::FunAfter(v) => r.fun_after == v,
    }
}

/// Whether a row satisfies every filter of a composed filter list.
pub open spec fn spec_matches_all(fs: Seq<ReviewFilter>, r: Review) -> bool {
    forall|i: int| 0 <= i < fs.len() ==> spec_filter_matches(#[trigger] fs[i], r)
}

/// The filter list a raw query composes: one entry for each present field,
/// in the fixed field order; absent fields contribute nothing.
pub open spec fn spec_filters_of(q: ReviewsQuery) -> Seq<ReviewFilter> {
    let s = Seq::<ReviewFilter>::empty();
    let s = match q.user_id {
        Some(v) => s.push(ReviewFilter::UserId(v)),
        None => s,
    };
    let s = match q.category {
        Some(v) => s.push(ReviewFilter::Category(v)),
        None => s,
    };
    let s = match q.tmdb_id {
        Some(v) => s.push(ReviewFilter::TmdbId(v)),
        None => s,
    };
    let s = match q.season {
        Some(v) => s.push(ReviewFilter::Season(v)),
        None => s,
    };
    let s = match q.status {
        Some(v) => s.push(ReviewFilter::Status(v)),
        None => s,
    };
    let s = match q.fun_before {
        Some(v) => s.push(ReviewFilter::FunBefore(v)),
        None => s,
    };
    let s = match q.fun_during {
        Some(v) => s.push(ReviewFilter::FunDuring(v)),
        None => s,
    };
    let s = match q.fun_after {
        Some(v) => s.push(ReviewFilter::FunAfter(v)),
        None => s,
    };
    s
}

/// Compose the present filters of a raw query into one filter list.
pub fn compose_filters(q: &ReviewsQuery) -> (fs: Vec<ReviewFilter>)
    ensures
        fs@ == spec_filters_of(*q),
{
    let mut fs: Vec<ReviewFilter> = Vec::new();
    if let Some(v) = q.user_id {
        fs.push(ReviewFilter::UserId(v));
    }
    if let Some(v) = q.category {
        fs.push(ReviewFilter::Category(v));
    }
    if let Some(v) = q.tmdb_id {
        fs.push(ReviewFilter::TmdbId(v));
    }
    if let Some(v) = q.season {
        fs.push(ReviewFilter::Season(v));
    }
    if let Some(v) = q.status {
        fs.push(ReviewFilter::Status(v));
    }
    if let Some(v) = q.fun_before {
        fs.push(ReviewFilter::FunBefore(v));
    }
    if let Some(v) = q.fun_during {
        fs.push(ReviewFilter::FunDuring(v));
    }
    if let Some(v) = q.fun_after {
        fs.push(ReviewFilter::FunAfter(v));
    }
    fs
}

/// Whether a row satisfies one filter.
pub fn filter_matches(f: &ReviewFilter, r: &Review) -> (b: bool)
    ensures
        b == spec_filter_matches(*f, *r),
{
    match f {
        ReviewFilter::UserId(v) => r.user_id == *v,
        ReviewFilter::Category(v) => r.category == *v,
        ReviewFilter::TmdbId(v) => r.tmdb_id == *v,
        ReviewFilter::Season(v) => r.season == *v,
        ReviewFilter::Status(v) => r.status == *v,
        ReviewFilter::FunBefore(v) => r.fun_before == *v,
        ReviewFilter::FunDuring(v) => r.fun_during == *v,
        ReviewFilter::FunAfter(v) => r.fun_after == *v,
    }
}

/// Whether a row satisfies every filter of the list.
pub fn matches_all(filters: &Vec<ReviewFilter>, r: &Review) -> (b: bool)
    ensures
        b == spec_matches_all(filters@, *r),
{
    let mut i: usize = 0;
    while i < filters.len()
        invariant
            i <= filters@.len(),
            forall|j: int| 0 <= j < i ==> spec_filter_matches(#[trigger] filters@[j], *r),
        decreases filters@.len() - i,
    {
        if !filter_matches(&filters[i], r) {
            return false;
        }
        i += 1;
    }
    true
}

/// The rows that satisfy every filter, kept in their given order.
pub open spec fn spec_filter_rows(rows: Seq<Review>, fs: Seq<ReviewFilter>) -> Seq<Review> {
    rows.filter(|r: Review| spec_matches_all(fs, r))
}

/// Apply a composed filter list to an in-memory relation.
pub fn filter_rows(rows: Vec<Review>, filters: &Vec<ReviewFilter>) -> (out: Vec<Review>)
    ensures
        out@ == spec_filter_rows(rows@, filters@),
{
    let ghost rows0 = rows@;
    let ghost pred = |r: Review| spec_matches_all(filters@, r);
    let mut rows = rows;
    let mut out: Vec<Review> = Vec::new();
    let ghost mut k: int = 0;
    proof {
        reveal(Seq::filter);
        assert(rows0.subrange(0, 0).filter(pred) =~= Seq::<Review>::empty());
    }
    while rows.len() > 0
        invariant
            0 <= k <= rows0.len(),
            rows@ == rows0.subrange(k, rows0.len() as int),
            out@ == rows0.subrange(0, k).filter(pred),
            pred == (|r: Review| spec_matches_all(filters@, r)),
        decreases rows@.len(),
    {
        let r = rows.remove(0);
        assert(r == rows0[k]);
        let keep = matches_all(filters, &r);
        proof {
            reveal(Seq::filter);
            let upto = rows0.subrange(0, k + 1);
            assert_seqs_equal!(upto.drop_last() == rows0.subrange(0, k));
            assert(upto.last() == rows0[k]);
            assert(upto.filter(pred) == if pred(rows0[k]) {
                rows0.subrange(0, k).filter(pred).push(rows0[k])
            } else {
                rows0.subrange(0, k).filter(pred)
            });
        }
        if keep {
            out.push(r);
        }
        proof {
            assert_seqs_equal!(rows@ == rows0.subrange(k + 1, rows0.len() as int));
            k = k + 1;
        }
    }
    proof {
        assert_seqs_equal!(rows0.subrange(0, rows0.len() as int) == rows0);
    }
    out
}

/// The full ordered listing a raw query denotes, before page slicing:
/// the matching rows, stably sorted by the resolved ordering.
pub open spec fn spec_reviews_listing(rows: Seq<Review>, q: ReviewsQuery) -> Seq<Review> {
    spec_sort_by(spec_resolve_sort(q.sort_by), spec_filter_rows(rows, spec_filters_of(q)))
}

/// List reviews from an in-memory relation: compose the present filters,
/// resolve the sort token, and return one page together with the total
/// match count, which is computed before the page slice.
pub fn get_all_reviews(rows: Vec<Review>, params: ReviewsQuery) -> (res: PaginatedResults<Review>)
    requires
        rows@.len() <= i64::MAX,
    ensures
        res.page == spec_clamp_page(params.page),
        res.total_results == spec_filter_rows(rows@, spec_filters_of(params)).len(),
        res.total_pages == spec_ceil_div(
            spec_filter_rows(rows@, spec_filters_of(params)).len() as int,
            spec_clamp_per_page(params.per_page) as int,
        ),
        res.results@ == spec_page_slice(
            spec_reviews_listing(rows@, params),
            spec_clamp_per_page(params.per_page) as int,
            spec_offset(spec_clamp_page(params.page), spec_clamp_per_page(params.per_page)),
        ),
        res.results@.len() <= spec_clamp_per_page(params.per_page),
{
    let ghost rows0 = rows@;
    let filters = compose_filters(&params);
    let filtered = filter_rows(rows, &filters);
    let order = resolve_sort(params.sort_by);
    proof {
        broadcast use vstd::seq_lib::group_filter_ensures;

        assert(filtered@.len() <= rows0.len());
    }
    let sorted = sort_rows(&order, filtered);
    proof {
        lemma_sort_by_len(order, spec_filter_rows(rows0, filters@));
    }
    sorted.paginate_safe(params.page, params.per_page).load_paginated()
}

/// Build the review row to insert for a user: the review starts with empty
/// text and all enjoyment flags unset.
pub fn create_review_for_user(idx: i32, input_review: InputReview) -> (r: NewReview<'static>)
    ensures
        r.user_id == idx,
        r.tmdb_id == input_review.tmdb_id,
        r.category == input_review.category,
        r.season == input_review.season,
        r.status == input_review.status,
        r.text@.len() == 0,
        r.fun_before == false,
        r.fun_during == false,
        r.fun_after == false,
{
    proof {
        reveal_strlit("");
    }
    NewReview {
        user_id: idx,
        tmdb_id: input_review.tmdb_id,
        category: input_review.category,
        season: input_review.season,
        status: input_review.status,
        text: "",
        fun_before: false,
        fun_during: false,
        fun_after: false,
    }
}

/// A new review as a request supplies it.
#[derive(Clone, Copy, Debug)]
pub struct InputReview {
    pub tmdb_id: i32,
    pub category: MediaCategory,
    pub status: WatchStatus,
    pub season: Option<i32>,
}

/// The composite key a review update or delete addresses. A missing season
/// stands for a review of the whole film or show.
#[derive(Clone, Copy, Debug)]
pub struct ReviewKey {
    pub user_id: i32,
    pub tmdb_id: i32,
    pub category: MediaCategory,
    pub season: Option<i32>,
}

/// Whether a stored row is the one a key addresses; the absent season is
/// compared through its stored marker column.
pub open spec fn spec_key_matches(k: ReviewKey, r: Review) -> bool {
    &&& r.user_id == k.user_id
    &&& r.tmdb_id == k.tmdb_id
    &&& r.category == k.category
    &&& r.season == spec_season_column(k.season)
}

pub fn key_matches(k: &ReviewKey, r: &Review) -> (b: bool)
    ensures
        b == spec_key_matches(*k, *r),
{
    let season = crate::models::season_to_column(k.season);
    r.user_id == k.user_id && r.tmdb_id == k.tmdb_id && r.category == k.category && r.season
        == season
}

/// Filter composition is order-independent: two composed filter lists that
/// hold the same filters, in whatever order, select exactly the same rows,
/// in the same order.
pub proof fn lemma_filter_order_independent(
    rows: Seq<Review>,
    fs1: Seq<ReviewFilter>,
    fs2: Seq<ReviewFilter>,
)
    requires
        fs1.to_multiset() == fs2.to_multiset(),
    ensures
        spec_filter_rows(rows, fs1) == spec_filter_rows(rows, fs2),
{
    broadcast use vstd::seq_lib::group_to_multiset_ensures;

    assert forall|r: Review| #[trigger] spec_matches_all(fs1, r) == spec_matches_all(fs2, r) by {
        if spec_matches_all(fs1, r) {
            assert forall|j: int| 0 <= j < fs2.len() implies spec_filter_matches(
                #[trigger] fs2[j],
                r,
            ) by {
                assert(fs2.contains(fs2[j]));
                assert(fs2.to_multiset().count(fs2[j]) > 0);
                assert(fs1.to_multiset().count(fs2[j]) > 0);
                assert(fs1.contains(fs2[j]));
                let i = choose|i: int| 0 <= i < fs1.len() && fs1[i] == fs2[j];
                assert(spec_filter_matches(fs1[i], r));
            }
        }
        if spec_matches_all(fs2, r) {
            assert forall|j: int| 0 <= j < fs1.len() implies spec_filter_matches(
                #[trigger] fs1[j],
                r,
            ) by {
                assert(fs1.contains(fs1[j]));
                assert(fs1.to_multiset().count(fs1[j]) > 0);
                assert(fs2.to_multiset().count(fs1[j]) > 0);
                assert(fs2.contains(fs1[j]));
                let i = choose|i: int| 0 <= i < fs2.len() && fs2[i] == fs1[j];
                assert(spec_filter_matches(fs2[i], r));
            }
        }
    }
    lemma_filter_congruence(
        rows,
        |r: Review| spec_matches_all(fs1, r),
        |r: Review| spec_matches_all(fs2, r),
    );
}

/// Filtering by predicates that agree on every row gives the same rows.
proof fn lemma_filter_congruence<A>(s: Seq<A>, p1: spec_fn(A) -> bool, p2: spec_fn(A) -> bool)
    requires
        forall|x: A| #[trigger] p1(x) == p2(x),
    ensures
        s.filter(p1) == s.filter(p2),
    decreases s.len(),
{
    reveal(Seq::filter);
    if s.len() > 0 {
        lemma_filter_congruence(s.drop_last(), p1, p2);
    }
}

/// An absent sort token, and every raw sort string outside the closed set,
/// resolves to the one fixed default ordering of review listings; repeated
/// listings with such input therefore order and page their rows alike.
pub proof fn lemma_unrecognized_sort_defaults(token: Seq<char>)
    requires
        spec_parse_sort_token(token) is None,
    ensures
        spec_resolve_sort(spec_parse_sort_token(token)) == spec_default_review_order(),
        spec_resolve_sort(None) == spec_default_review_order(),
{
}

/// Update the review row a key addresses in an in-memory relation: the
/// first matching row takes the edit and its new value is returned; every
/// other row stays untouched; a key that matches no row is reported as
/// such and changes nothing.
pub fn update_review(
    rows: &mut Vec<Review>,
    user_id_v: i32,
    tmdb_id_v: i32,
    category_v: MediaCategory,
    season_v: Option<i32>,
    edits: EditReview,
) -> (r: Result<Review, StoreError>)
    ensures
        r is Ok <==> (exists|j: int|
            0 <= j < old(rows)@.len() && spec_key_matches(
                (ReviewKey {
                    user_id: user_id_v,
                    tmdb_id: tmdb_id_v,
                    category: category_v,
                    season: season_v,
                }),
                #[trigger] old(rows)@[j],
            )),
        r is Err ==> final(rows)@ == old(rows)@ && r == Err::<Review, StoreError>(
            StoreError::NotFound,
        ),
        r is Ok ==> (exists|j: int|
            {
                &&& 0 <= j < old(rows)@.len()
                &&& spec_key_matches(
                    (ReviewKey {
                        user_id: user_id_v,
                        tmdb_id: tmdb_id_v,
                        category: category_v,
                        season: season_v,
                    }),
                    (#[trigger] old(rows)@[j]),
                )
                &&& forall|i: int|
                    0 <= i < j ==> !spec_key_matches(
                        (ReviewKey {
                            user_id: user_id_v,
                            tmdb_id: tmdb_id_v,
                            category: category_v,
                            season: season_v,
                        }),
                        #[trigger] old(rows)@[i],
                    )
                &&& final(rows)@ == old(rows)@.update(
                    j,
                    spec_apply_edit(old(rows)@[j], edits),
                )
                &&& r == Ok::<Review, StoreError>(spec_apply_edit(old(rows)@[j], edits))
            }),
{
    let key = ReviewKey {
        user_id: user_id_v,
        tmdb_id: tmdb_id_v,
        category: category_v,
        season: season_v,
    };
    let mut i: usize = 0;
    while i < rows.len()
        invariant
            i <= rows@.len(),
            rows@ == old(rows)@,
            key == (ReviewKey {
                user_id: user_id_v,
                tmdb_id: tmdb_id_v,
                category: category_v,
                season: season_v,
            }),
            forall|p: int| 0 <= p < i ==> !spec_key_matches(key, #[trigger] old(rows)@[p]),
        decreases rows@.len() - i,
    {
        if key_matches(&key, &rows[i]) {
            let ghost j = i as int;
            let mut row = rows.remove(i);
            crate::models::apply_edit(&mut row, &edits);
            let updated = row.clone();
            rows.insert(i, row);
            proof {
                assert(spec_key_matches(key, old(rows)@[j]));
                assert_seqs_equal!(
                    rows@ == old(rows)@.update(j, spec_apply_edit(old(rows)@[j], edits))
                );
                assert(updated == spec_apply_edit(old(rows)@[j], edits));
            }
            return Ok(updated);
        }
        i += 1;
    }
    Err(StoreError::NotFound)
}

/// Delete every review row a key addresses from an in-memory relation,
/// and say how many rows went.
pub fn delete_review(
    rows: &mut Vec<Review>,
    user_id_v: i32,
    tmdb_id_v: i32,
    category_v: MediaCategory,
    season_v: Option<i32>,
) -> (deleted: usize)
    ensures
        final(rows)@ == old(rows)@.filter(
            (|r: Review|
                !spec_key_matches(
                    ReviewKey {
                        user_id: user_id_v,
                        tmdb_id: tmdb_id_v,
                        category: category_v,
                        season: season_v,
                    },
                    r,
                )),
        ),
        deleted + final(rows)@.len() == old(rows)@.len(),
{
    let key = ReviewKey {
        user_id: user_id_v,
        tmdb_id: tmdb_id_v,
        category: category_v,
        season: season_v,
    };
    let ghost pred = (|r: Review|
        !spec_key_matches(
            ReviewKey {
                user_id: user_id_v,
                tmdb_id: tmdb_id_v,
                category: category_v,
                season: season_v,
            },
            r,
        ));
    let mut taken: Vec<Review> = Vec::new();
    core::mem::swap(rows, &mut taken);
    let ghost rows0 = taken@;
    let total = taken.len();
    let ghost mut k: int = 0;
    proof {
        reveal(Seq::filter);
        assert(rows0.subrange(0, 0).filter(pred) =~= Seq::<Review>::empty());
    }
    while taken.len() > 0
        invariant
            0 <= k <= rows0.len(),
            taken@ == rows0.subrange(k, rows0.len() as int),
            rows@ == rows0.subrange(0, k).filter(pred),
            key == (ReviewKey {
                user_id: user_id_v,
                tmdb_id: tmdb_id_v,
                category: category_v,
                season: season_v,
            }),
            pred == (|r: Review|
                !spec_key_matches(
                    ReviewKey {
                        user_id: user_id_v,
                        tmdb_id: tmdb_id_v,
                        category: category_v,
                        season: season_v,
                    },
                    r,
                )),
        decreases taken@.len(),
    {
        let row = taken.remove(0);
        assert(row == rows0[k]);
        let goes = key_matches(&key, &row);
        proof {
            reveal(Seq::filter);
            let upto = rows0.subrange(0, k + 1);
            assert_seqs_equal!(upto.drop_last() == rows0.subrange(0, k));
            assert(upto.last() == rows0[k]);
            assert(upto.filter(pred) == if pred(rows0[k]) {
                rows0.subrange(0, k).filter(pred).push(rows0[k])
            } else {
                rows0.subrange(0, k).filter(pred)
            });
        }
        if !goes {
            rows.push(row);
        }
        proof {
            assert_seqs_equal!(taken@ == rows0.subrange(k + 1, rows0.len() as int));
            k = k + 1;
        }
    }
    proof {
        assert_seqs_equal!(rows0.subrange(0, rows0.len() as int) == rows0);
        broadcast use vstd::seq_lib::group_filter_ensures;

        assert(rows@.len() <= rows0.len());
    }
    total - rows.len()
}

/// Every review ordering clause orders each pair of rows one way or the
/// other, and does so transitively.
pub proof fn lemma_review_order_total(o: ReviewOrder)
    ensures
        crate::sorting::spec_total_order::<ReviewOrder, Review>(o),
{
}

/// The rows of a review listing stand in the resolved order.
pub proof fn lemma_reviews_listing_ordered(rows: Seq<Review>, q: ReviewsQuery)
    ensures
        crate::sorting::spec_sorted_by(
            spec_resolve_sort(q.sort_by),
            spec_reviews_listing(rows, q),
        ),
{
    lemma_review_order_total(spec_resolve_sort(q.sort_by));
    crate::sorting::lemma_sort_by_ordered(
        spec_resolve_sort(q.sort_by),
        spec_filter_rows(rows, spec_filters_of(q)),
    );
}

/// A listing holds exactly the matching rows, rearranged by the resolved
/// ordering and nothing else.
pub proof fn lemma_listing_is_permutation_of_matches(rows: Seq<Review>, q: ReviewsQuery)
    ensures
        spec_reviews_listing(rows, q).to_multiset() == spec_filter_rows(
            rows,
            spec_filters_of(q),
        ).to_multiset(),
{
    lemma_sort_by_multiset(spec_resolve_sort(q.sort_by), spec_filter_rows(rows, spec_filters_of(q)));
}

} // verus!
