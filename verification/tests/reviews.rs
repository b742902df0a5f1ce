use filmlog::errors::StoreError;
use filmlog::models::{EditReview, MediaCategory, Review, WatchStatus};
use filmlog::reviews::{
    compose_filters, create_review_for_user, delete_review, filter_rows, get_all_reviews,
    key_matches, matches_all, parse_sort_token, resolve_sort, update_review, InputReview,
    ReviewFilter, ReviewKey, ReviewOrder, ReviewSortField, ReviewsQuery, SortBy,
};
use filmlog::sorting::SortDir;

fn mk_review(user_id: i32, tmdb_id: i32, updated_at: i64) -> Review {
    Review {
        user_id,
        tmdb_id,
        category: MediaCategory::Film,
        status: WatchStatus::Completed,
        text: String::new(),
        fun_before: false,
        fun_during: false,
        fun_after: false,
        created_at: 0,
        updated_at,
        season: -1,
    }
}

fn empty_query() -> ReviewsQuery {
    ReviewsQuery {
        page: None,
        per_page: None,
        sort_by: None,
        user_id: None,
        category: None,
        tmdb_id: None,
        season: None,
        status: None,
        fun_before: None,
        fun_during: None,
        fun_after: None,
    }
}

fn twelve_matching_rows() -> Vec<Review> {
    let mut rows = Vec::new();
    for i in 0..12 {
        rows.push(mk_review(1, 100 + i, 1000 - i as i64));
    }
    // rows of another user that the filter must leave out
    for i in 0..5 {
        rows.push(mk_review(2, 200 + i, 500));
    }
    rows
}

#[test]
fn twelve_matches_first_page() {
    let mut q = empty_query();
    q.user_id = Some(1);
    q.page = Some(1);
    q.per_page = Some(5);
    let res = get_all_reviews(twelve_matching_rows(), q);
    assert_eq!(res.results.len(), 5);
    assert_eq!(res.total_results, 12);
    assert_eq!(res.total_pages, 3);
    assert!(res.results.iter().all(|r| r.user_id == 1));
}

#[test]
fn twelve_matches_third_page() {
    let mut q = empty_query();
    q.user_id = Some(1);
    q.page = Some(3);
    q.per_page = Some(5);
    let res = get_all_reviews(twelve_matching_rows(), q);
    assert_eq!(res.results.len(), 2);
    assert_eq!(res.total_results, 12);
    assert_eq!(res.total_pages, 3);
}

#[test]
fn twelve_matches_fourth_page_is_empty_with_true_total() {
    let mut q = empty_query();
    q.user_id = Some(1);
    q.page = Some(4);
    q.per_page = Some(5);
    let res = get_all_reviews(twelve_matching_rows(), q);
    assert_eq!(res.results.len(), 0);
    assert_eq!(res.total_results, 12);
    assert_eq!(res.total_pages, 3);
}

#[test]
fn no_matches_gives_empty_page_and_zero_totals() {
    let mut q = empty_query();
    q.user_id = Some(99);
    q.page = Some(2);
    q.per_page = Some(7);
    let res = get_all_reviews(twelve_matching_rows(), q);
    assert_eq!(res.results.len(), 0);
    assert_eq!(res.total_results, 0);
    assert_eq!(res.total_pages, 0);
}

#[test]
fn invalid_paging_input_is_clamped_through_the_engine() {
    let mut q = empty_query();
    q.user_id = Some(1);
    q.page = Some(-3);
    q.per_page = Some(0);
    let res = get_all_reviews(twelve_matching_rows(), q);
    assert_eq!(res.page, 1);
    assert_eq!(res.results.len(), 10);
    assert_eq!(res.total_results, 12);
    assert_eq!(res.total_pages, 2);
}

#[test]
fn oversized_per_page_is_clamped_to_the_ceiling() {
    let mut q = empty_query();
    q.user_id = Some(1);
    q.per_page = Some(500);
    let res = get_all_reviews(twelve_matching_rows(), q);
    assert_eq!(res.results.len(), 12);
    assert_eq!(res.total_pages, 1);
}

#[test]
fn filters_compose_in_field_order() {
    let mut q = empty_query();
    q.status = Some(WatchStatus::Watching);
    q.user_id = Some(3);
    let fs = compose_filters(&q);
    assert_eq!(
        fs,
        vec![ReviewFilter::UserId(3), ReviewFilter::Status(WatchStatus::Watching)]
    );
}

#[test]
fn filter_order_does_not_change_the_selected_rows() {
    let rows = twelve_matching_rows();
    let one_way = vec![
        ReviewFilter::UserId(1),
        ReviewFilter::Category(MediaCategory::Film),
        ReviewFilter::Status(WatchStatus::Completed),
    ];
    let other_way = vec![
        ReviewFilter::Status(WatchStatus::Completed),
        ReviewFilter::UserId(1),
        ReviewFilter::Category(MediaCategory::Film),
    ];
    let a = filter_rows(rows.clone(), &one_way);
    let b = filter_rows(rows, &other_way);
    assert_eq!(a, b);
    assert_eq!(a.len(), 12);
}

#[test]
fn matches_all_checks_every_filter() {
    let r = mk_review(1, 100, 0);
    let fs = vec![ReviewFilter::UserId(1), ReviewFilter::TmdbId(100)];
    assert!(matches_all(&fs, &r));
    let fs = vec![ReviewFilter::UserId(1), ReviewFilter::TmdbId(101)];
    assert!(!matches_all(&fs, &r));
    assert!(matches_all(&Vec::new(), &r));
}

#[test]
fn boolean_filters_match_their_flag() {
    let mut r = mk_review(1, 100, 0);
    r.fun_during = true;
    assert!(matches_all(&vec![ReviewFilter::FunDuring(true)], &r));
    assert!(!matches_all(&vec![ReviewFilter::FunBefore(true)], &r));
    assert!(matches_all(&vec![ReviewFilter::FunAfter(false)], &r));
}

#[test]
fn default_order_is_most_recently_updated_first() {
    let mut q = empty_query();
    q.user_id = Some(1);
    q.per_page = Some(50);
    let res = get_all_reviews(twelve_matching_rows(), q);
    let stamps: Vec<i64> = res.results.iter().map(|r| r.updated_at).collect();
    let mut sorted = stamps.clone();
    sorted.sort_by(|a, b| b.cmp(a));
    assert_eq!(stamps, sorted);
}

#[test]
fn repeated_default_listings_page_alike() {
    let mut q = empty_query();
    q.per_page = Some(5);
    q.page = Some(2);
    let first = get_all_reviews(twelve_matching_rows(), q);
    let second = get_all_reviews(twelve_matching_rows(), q);
    assert_eq!(first.results, second.results);
}

#[test]
fn recognized_sort_tokens_parse() {
    assert_eq!(parse_sort_token("tmdb_id.asc"), Some(SortBy::TmdbIdAsc));
    assert_eq!(parse_sort_token("tmdb_id.desc"), Some(SortBy::TmdbIdDesc));
    assert_eq!(parse_sort_token("created_at.asc"), Some(SortBy::CreatedAtAsc));
    assert_eq!(parse_sort_token("created_at.desc"), Some(SortBy::CreatedAtDesc));
    assert_eq!(parse_sort_token("updated_at.asc"), Some(SortBy::UpdatedAtAsc));
    assert_eq!(parse_sort_token("updated_at.desc"), Some(SortBy::UpdatedAtDesc));
}

#[test]
fn unrecognized_sort_tokens_parse_to_none() {
    assert_eq!(parse_sort_token(""), None);
    assert_eq!(parse_sort_token("tmdb_id"), None);
    assert_eq!(parse_sort_token("tmdb_id.ascending"), None);
    assert_eq!(parse_sort_token("name.asc"), None);
}

#[test]
fn absent_token_resolves_to_the_default_order() {
    assert_eq!(
        resolve_sort(None),
        ReviewOrder { field: ReviewSortField::UpdatedAt, dir: SortDir::Desc }
    );
    assert_eq!(resolve_sort(parse_sort_token("bogus")), resolve_sort(None));
}

#[test]
fn explicit_sort_orders_by_tmdb_id() {
    let mut q = empty_query();
    q.sort_by = Some(SortBy::TmdbIdAsc);
    q.per_page = Some(50);
    let res = get_all_reviews(twelve_matching_rows(), q);
    let ids: Vec<i32> = res.results.iter().map(|r| r.tmdb_id).collect();
    let mut sorted = ids.clone();
    sorted.sort();
    assert_eq!(ids, sorted);
}

#[test]
fn new_review_starts_empty_and_unflagged() {
    let input = InputReview {
        tmdb_id: 42,
        category: MediaCategory::Show,
        status: WatchStatus::PlanToWatch,
        season: Some(2),
    };
    let r = create_review_for_user(7, input);
    assert_eq!(r.user_id, 7);
    assert_eq!(r.tmdb_id, 42);
    assert_eq!(r.category, MediaCategory::Show);
    assert_eq!(r.status, WatchStatus::PlanToWatch);
    assert_eq!(r.season, Some(2));
    assert_eq!(r.text, "");
    assert!(!r.fun_before && !r.fun_during && !r.fun_after);
}

#[test]
fn update_edits_the_addressed_row_in_place() {
    let mut rows = vec![mk_review(1, 100, 0), mk_review(1, 101, 0), mk_review(2, 100, 0)];
    let edits = EditReview {
        status: Some(WatchStatus::Dropped),
        text: Some("meh".to_string()),
        fun_before: None,
        fun_during: None,
        fun_after: None,
    };
    let updated = update_review(&mut rows, 1, 101, MediaCategory::Film, None, edits)
        .expect("the row exists");
    assert_eq!(updated.status, WatchStatus::Dropped);
    assert_eq!(updated.text, "meh");
    assert_eq!(rows.len(), 3);
    assert_eq!(rows[1], updated);
    assert_eq!(rows[0], mk_review(1, 100, 0));
    assert_eq!(rows[2], mk_review(2, 100, 0));
}

#[test]
fn update_of_a_missing_row_reports_not_found() {
    let mut rows = vec![mk_review(1, 100, 0)];
    let edits = EditReview {
        status: None,
        text: None,
        fun_before: None,
        fun_during: None,
        fun_after: None,
    };
    let r = update_review(&mut rows, 9, 100, MediaCategory::Film, None, edits);
    assert!(matches!(r, Err(StoreError::NotFound)));
    assert_eq!(rows, vec![mk_review(1, 100, 0)]);
}

#[test]
fn delete_removes_the_addressed_rows_and_counts_them() {
    let mut rows = vec![mk_review(1, 100, 0), mk_review(1, 101, 0), mk_review(2, 100, 0)];
    let deleted = delete_review(&mut rows, 1, 100, MediaCategory::Film, None);
    assert_eq!(deleted, 1);
    assert_eq!(rows, vec![mk_review(1, 101, 0), mk_review(2, 100, 0)]);
    let deleted = delete_review(&mut rows, 7, 7, MediaCategory::Show, Some(1));
    assert_eq!(deleted, 0);
    assert_eq!(rows.len(), 2);
}

#[test]
fn key_with_no_season_addresses_the_marker_row() {
    let key = ReviewKey { user_id: 1, tmdb_id: 100, category: MediaCategory::Film, season: None };
    let row = mk_review(1, 100, 0);
    assert!(key_matches(&key, &row));
    let mut seasoned = mk_review(1, 100, 0);
    seasoned.season = 2;
    assert!(!key_matches(&key, &seasoned));
    let key2 = ReviewKey {
        user_id: 1,
        tmdb_id: 100,
        category: MediaCategory::Film,
        season: Some(2),
    };
    assert!(key_matches(&key2, &seasoned));
    assert!(!key_matches(&key2, &row));
}
