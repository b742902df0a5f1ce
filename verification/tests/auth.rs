use filmlog::auth::{can_modify_user, login, login_outcome, AuthData, UserId};
use filmlog::errors::{service_error_of_store, ServiceError, StoreError};
use filmlog::models::AuthenticatedUser;
use filmlog::utils::hash_password;

fn mk_auth_user(id: i32) -> AuthenticatedUser {
    AuthenticatedUser {
        id,
        name: "alice".to_string(),
        email: "alice@example.net".to_string(),
        hash: "stored".to_string(),
        created_at: 0,
        updated_at: 0,
    }
}

#[test]
fn login_with_unknown_email_is_not_found() {
    let r = login_outcome(None, false);
    assert_eq!(r.err().map(|e| e.status), Some(404));
}

#[test]
fn login_with_wrong_password_is_unauthorized() {
    let r = login_outcome(Some(mk_auth_user(4)), false);
    assert_eq!(r.err().map(|e| e.status), Some(401));
}

#[test]
fn login_with_matching_password_returns_the_user() {
    let r = login_outcome(Some(mk_auth_user(4)), true);
    assert_eq!(r.ok().map(|u| u.id), Some(4));
}

#[test]
fn login_checks_the_stored_hash() {
    let secret = b"service secret";
    let mut user = mk_auth_user(4);
    user.hash = hash_password("hunter2", secret).expect("hashing should succeed");
    let rows = vec![user];
    let good = AuthData { email: "alice@example.net".to_string(), password: "hunter2".to_string() };
    assert_eq!(login(&rows, &good, secret).ok().map(|u| u.id), Some(4));
    let bad = AuthData { email: "alice@example.net".to_string(), password: "hunter3".to_string() };
    assert_eq!(login(&rows, &bad, secret).err().map(|e| e.status), Some(401));
    let unknown = AuthData { email: "bob@example.net".to_string(), password: "hunter2".to_string() };
    assert_eq!(login(&rows, &unknown, secret).err().map(|e| e.status), Some(404));
}

#[test]
fn an_account_can_modify_itself() {
    assert!(can_modify_user(UserId(5), 5));
    assert!(!can_modify_user(UserId(5), 6));
}

#[test]
fn the_first_account_can_modify_anyone() {
    assert!(can_modify_user(UserId(1), 9));
}

#[test]
fn user_id_converts_both_ways() {
    let id = UserId::from(12);
    assert_eq!(id, UserId(12));
    assert_eq!(i32::from(id), 12);
}

#[test]
fn service_error_carries_status_and_message() {
    let e = ServiceError::new(418, "teapot".to_string());
    assert_eq!(e.status, 418);
    assert_eq!(e.message, "teapot");
}

#[test]
fn bare_service_error_has_the_stock_message() {
    let e = ServiceError::pls(401);
    assert_eq!(e.status, 401);
    assert_eq!(e.message, "L + Ratio");
}

#[test]
fn describe_prefixes_by_status() {
    assert_eq!(
        ServiceError::new(400, "x".to_string()).describe(),
        "i'm so sorry that you're stupid: x"
    );
    assert_eq!(
        ServiceError::new(401, "x".to_string()).describe(),
        "sir, i need to see your id: x"
    );
    assert_eq!(
        ServiceError::new(404, "x".to_string()).describe(),
        "out of stock. try again later: x"
    );
    assert_eq!(
        ServiceError::new(500, "x".to_string()).describe(),
        "internal server did an oopsie: x"
    );
}

#[test]
fn missing_rows_map_to_not_found() {
    let e = service_error_of_store(StoreError::NotFound);
    assert_eq!(e.status, 404);
}

#[test]
fn other_store_failures_map_to_opaque_500() {
    let e = service_error_of_store(StoreError::Other("connection lost".to_string()));
    assert_eq!(e.status, 500);
    assert_eq!(e.message, "connection lost");
}
