use filmlog::utils::{hash_password, verify_password};

#[test]
fn hashing_and_verifying_round_trips() {
    let secret = b"service secret";
    let hash = hash_password("hunter2", secret).expect("hashing should succeed");
    assert!(hash.starts_with("$argon2"));
    assert_eq!(verify_password("hunter2", &hash, secret), Ok(true));
}

#[test]
fn a_wrong_password_does_not_verify() {
    let secret = b"service secret";
    let hash = hash_password("hunter2", secret).expect("hashing should succeed");
    assert_eq!(verify_password("hunter3", &hash, secret), Ok(false));
}

#[test]
fn a_wrong_secret_does_not_verify() {
    let hash = hash_password("hunter2", b"service secret").expect("hashing should succeed");
    assert_eq!(verify_password("hunter2", &hash, b"other secret"), Ok(false));
}

#[test]
fn two_hashes_of_one_password_use_different_salts() {
    let secret = b"service secret";
    let h1 = hash_password("hunter2", secret).expect("hashing should succeed");
    let h2 = hash_password("hunter2", secret).expect("hashing should succeed");
    assert_ne!(h1, h2);
    assert_eq!(verify_password("hunter2", &h1, secret), Ok(true));
    assert_eq!(verify_password("hunter2", &h2, secret), Ok(true));
}
