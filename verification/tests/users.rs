use filmlog::errors::StoreError;
use filmlog::models::{AuthenticatedUser, User};
use filmlog::users::{
    apply_update, create_user, delete_user_by_id, find_auth_user_by_email, find_auth_user_by_id,
    find_user_by_id, get_all_users, parse_sort_token, resolve_sort, update_auth_user_by_id,
    InputUser, QueryParams, SortBy, UpdateUser, UserOrder, UserSortField,
};
use filmlog::sorting::{str_le, SortDir};

fn mk_user(id: i32, name: &str) -> User {
    User {
        id,
        name: name.to_string(),
        email: format!("{}@example.net", name),
        hash: String::new(),
        created_at: id as i64 * 10,
        updated_at: 0,
    }
}

fn mk_auth_user(id: i32, email: &str) -> AuthenticatedUser {
    AuthenticatedUser {
        id,
        name: format!("user{}", id),
        email: email.to_string(),
        hash: "stored".to_string(),
        created_at: 0,
        updated_at: 0,
    }
}

fn params(page: Option<i64>, per_page: Option<i64>, sort_by: Option<SortBy>) -> QueryParams {
    QueryParams { page, per_page, sort_by }
}

#[test]
fn users_default_listing_orders_by_id() {
    let rows = vec![mk_user(3, "carol"), mk_user(1, "alice"), mk_user(2, "bob")];
    let res = get_all_users(rows, params(None, None, None));
    let ids: Vec<i32> = res.results.iter().map(|u| u.id).collect();
    assert_eq!(ids, vec![1, 2, 3]);
    assert_eq!(res.total_results, 3);
    assert_eq!(res.total_pages, 1);
    assert_eq!(res.page, 1);
}

#[test]
fn users_sort_by_name_descending() {
    let rows = vec![mk_user(1, "alice"), mk_user(2, "carol"), mk_user(3, "bob")];
    let res = get_all_users(rows, params(None, None, Some(SortBy::NameDesc)));
    let names: Vec<String> = res.results.iter().map(|u| u.name.clone()).collect();
    assert_eq!(names, vec!["carol", "bob", "alice"]);
}

#[test]
fn users_pagination_totals() {
    let rows: Vec<User> = (1..=12).map(|i| mk_user(i, "x")).collect();
    let res = get_all_users(rows, params(Some(3), Some(5), None));
    assert_eq!(res.results.len(), 2);
    assert_eq!(res.total_results, 12);
    assert_eq!(res.total_pages, 3);
}

#[test]
fn user_sort_tokens_parse() {
    assert_eq!(parse_sort_token("id.asc"), Some(SortBy::IdAsc));
    assert_eq!(parse_sort_token("id.desc"), Some(SortBy::IdDesc));
    assert_eq!(parse_sort_token("name.asc"), Some(SortBy::NameAsc));
    assert_eq!(parse_sort_token("name.desc"), Some(SortBy::NameDesc));
    assert_eq!(parse_sort_token("created_at.asc"), Some(SortBy::CreatedAtAsc));
    assert_eq!(parse_sort_token("created_at.desc"), Some(SortBy::CreatedAtDesc));
    assert_eq!(parse_sort_token("updated_at.asc"), Some(SortBy::UpdatedAtAsc));
    assert_eq!(parse_sort_token("updated_at.desc"), Some(SortBy::UpdatedAtDesc));
    assert_eq!(parse_sort_token("tmdb_id.asc"), None);
}

#[test]
fn user_unrecognized_token_resolves_to_id_ascending() {
    assert_eq!(
        resolve_sort(parse_sort_token("anything")),
        UserOrder { field: UserSortField::Id, dir: SortDir::Asc }
    );
    assert_eq!(resolve_sort(None), UserOrder { field: UserSortField::Id, dir: SortDir::Asc });
}

#[test]
fn lexicographic_order_on_names() {
    assert!(str_le("abc", "abd"));
    assert!(!str_le("abd", "abc"));
    assert!(str_le("ab", "abc"));
    assert!(!str_le("abc", "ab"));
    assert!(str_le("", "a"));
    assert!(str_le("same", "same"));
}

#[test]
fn find_by_email_returns_the_first_match() {
    let rows = vec![
        mk_auth_user(1, "a@example.net"),
        mk_auth_user(2, "b@example.net"),
        mk_auth_user(3, "b@example.net"),
    ];
    let found = find_auth_user_by_email(&rows, "b@example.net");
    assert_eq!(found.map(|u| u.id), Some(2));
}

#[test]
fn find_by_email_misses_cleanly() {
    let rows = vec![mk_auth_user(1, "a@example.net")];
    assert_eq!(find_auth_user_by_email(&rows, "zz@example.net"), None);
    assert_eq!(find_auth_user_by_email(&Vec::new(), "a@example.net"), None);
}

#[test]
fn present_update_fields_overwrite_the_account() {
    let mut u = mk_auth_user(5, "old@example.net");
    let update = UpdateUser { name: Some("newname".to_string()), email: None };
    apply_update(&mut u, &update);
    assert_eq!(u.name, "newname");
    assert_eq!(u.email, "old@example.net");
    assert_eq!(u.id, 5);
    assert_eq!(u.hash, "stored");
}

#[test]
fn find_by_id_returns_the_matching_row() {
    let rows = vec![mk_user(1, "alice"), mk_user(2, "bob")];
    assert_eq!(find_user_by_id(&rows, 2).map(|u| u.name), Some("bob".to_string()));
    assert_eq!(find_user_by_id(&rows, 9), None);
}

#[test]
fn find_auth_by_id_returns_the_matching_row() {
    let rows = vec![mk_auth_user(1, "a@example.net"), mk_auth_user(2, "b@example.net")];
    assert_eq!(find_auth_user_by_id(&rows, 1).map(|u| u.id), Some(1));
    assert_eq!(find_auth_user_by_id(&rows, 3), None);
}

#[test]
fn account_update_edits_the_addressed_row_in_place() {
    let mut rows = vec![mk_auth_user(1, "a@example.net"), mk_auth_user(2, "b@example.net")];
    let update = UpdateUser { name: None, email: Some("new@example.net".to_string()) };
    let updated = update_auth_user_by_id(&mut rows, 2, update).expect("the row exists");
    assert_eq!(updated.email, "new@example.net");
    assert_eq!(rows[1], updated);
    assert_eq!(rows[0], mk_auth_user(1, "a@example.net"));
}

#[test]
fn account_update_of_a_missing_row_reports_not_found() {
    let mut rows = vec![mk_auth_user(1, "a@example.net")];
    let update = UpdateUser { name: None, email: None };
    let r = update_auth_user_by_id(&mut rows, 9, update);
    assert!(matches!(r, Err(StoreError::NotFound)));
    assert_eq!(rows, vec![mk_auth_user(1, "a@example.net")]);
}

#[test]
fn account_delete_removes_the_row_and_counts_it() {
    let mut rows = vec![mk_user(1, "alice"), mk_user(2, "bob")];
    assert_eq!(delete_user_by_id(&mut rows, 1), 1);
    assert_eq!(rows, vec![mk_user(2, "bob")]);
    assert_eq!(delete_user_by_id(&mut rows, 1), 0);
    assert_eq!(rows.len(), 1);
}

#[test]
fn signup_hashes_the_password() {
    let input = InputUser {
        name: "alice".to_string(),
        email: "alice@example.net".to_string(),
        password: "hunter2".to_string(),
    };
    let rec = create_user(input, b"service secret").expect("signup should succeed");
    assert_eq!(rec.name, "alice");
    assert_eq!(rec.email, "alice@example.net");
    assert!(rec.hash.starts_with("$argon2"));
    assert_ne!(rec.hash, "hunter2");
}
