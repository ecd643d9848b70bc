use file_share::endpoints::registration;
use file_share::models::AuthRequest;
use file_share::password::{check_password, hash_password};
use file_share::protocol::Request;

#[test]
fn hashed_password_checks_out() {
    let hash = hash_password("hunter42").expect("hashing works");
    assert!(hash.starts_with("$argon2id$"));
    assert_ne!(hash, "hunter42");
    assert_eq!(check_password("hunter42", &hash), Some(true));
}

#[test]
fn wrong_password_is_refused() {
    let hash = hash_password("hunter42").unwrap();
    assert_eq!(check_password("hunter43", &hash), Some(false));
    assert_eq!(check_password("", &hash), Some(false));
}

#[test]
fn salts_differ_between_hashes() {
    let a = hash_password("same").unwrap();
    let b = hash_password("same").unwrap();
    assert_ne!(a, b);
    assert_eq!(check_password("same", &a), Some(true));
    assert_eq!(check_password("same", &b), Some(true));
}

#[test]
fn malformed_hash_is_reported() {
    assert_eq!(check_password("hunter42", "not a hash"), None);
    assert_eq!(check_password("hunter42", ""), None);
}

#[test]
fn registration_carries_a_hash_not_the_password() {
    let req = registration(AuthRequest { username: "alice".to_string(), password: "pw1".to_string() })
        .expect("hashing works");
    match req {
        Request::Register { username, password_hash } => {
            assert_eq!(username, "alice");
            assert_ne!(password_hash, "pw1");
            assert_eq!(check_password("pw1", &password_hash), Some(true));
        }
        other => panic!("unexpected request {:?}", other),
    }
}
