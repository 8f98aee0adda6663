use auth_core::security::{get_hashed_password, password_accepted, verify_password, HASH_COST};

#[test]
fn cost_factor_is_six() {
    assert_eq!(HASH_COST, 6);
}

#[test]
fn hash_matches_its_password() {
    let hash = get_hashed_password("hunter2").unwrap();
    assert!(verify_password("hunter2", &hash));
}

#[test]
fn hash_is_a_bcrypt_hash_at_the_fixed_cost() {
    let hash = get_hashed_password("hunter2").unwrap();
    assert_ne!(hash, "hunter2");
    assert!(hash.starts_with("$2b$06$"));
    assert_eq!(hash.len(), 60);
}

#[test]
fn hash_does_not_match_another_password() {
    let hash = get_hashed_password("hunter2").unwrap();
    assert!(!verify_password("hunter3", &hash));
    assert!(!verify_password("", &hash));
}

#[test]
fn two_hashes_of_one_password_differ() {
    let first = get_hashed_password("hunter2").unwrap();
    let second = get_hashed_password("hunter2").unwrap();
    assert_ne!(first, second);
    assert!(verify_password("hunter2", &first));
    assert!(verify_password("hunter2", &second));
}

#[test]
fn known_hash_verifies() {
    let hash = "$2b$04$EGdrhbKUv8Oc9vGiXX0HQOxSg445d458Muh7DAHskb6QbtCvdxcie";
    assert!(verify_password("correctbatteryhorsestapler", hash));
    assert!(!verify_password("wrong", hash));
}

#[test]
fn malformed_hash_fails_closed() {
    assert!(!verify_password("hunter2", ""));
    assert!(!verify_password("hunter2", "hunter2"));
    assert!(!verify_password("hunter2", "$2a$04$tjARW6ZON3PhrAIRW2LG/u9a."));
}

#[test]
fn empty_password_can_be_hashed_and_verified() {
    let hash = get_hashed_password("").unwrap();
    assert!(verify_password("", &hash));
    assert!(!verify_password("x", &hash));
}

#[test]
fn only_a_confirmed_match_is_accepted() {
    assert!(password_accepted(Some(true)));
    assert!(!password_accepted(Some(false)));
    assert!(!password_accepted(None));
}
