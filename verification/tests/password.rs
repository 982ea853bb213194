use server::errors::AuthError;
use server::password::{hash_password, verify_password, DEFAULT_COST};

#[test]
fn hash_verifies_against_its_password() {
    let hash = hash_password("secret1", 4).unwrap();
    assert_ne!(hash, "secret1");
    assert_eq!(hash.len(), 60);
    assert!(hash.starts_with("$2b$04$"));
    assert_eq!(verify_password("secret1", &hash), Ok(true));
}

#[test]
fn hash_rejects_another_password() {
    let hash = hash_password("secret1", 4).unwrap();
    assert_eq!(verify_password("secret2", &hash), Ok(false));
    assert_eq!(verify_password("", &hash), Ok(false));
    assert_eq!(verify_password("SECRET1", &hash), Ok(false));
}

#[test]
fn hashes_of_one_password_differ() {
    let first = hash_password("secret1", 4).unwrap();
    let second = hash_password("secret1", 4).unwrap();
    assert_ne!(first, second);
    assert_eq!(verify_password("secret1", &first), Ok(true));
    assert_eq!(verify_password("secret1", &second), Ok(true));
}

#[test]
fn known_hash_verifies() {
    let hash = "$2b$04$EGdrhbKUv8Oc9vGiXX0HQOxSg445d458Muh7DAHskb6QbtCvdxcie";
    assert_eq!(verify_password("correctbatteryhorsestapler", hash), Ok(true));
    assert_eq!(verify_password("wrong", hash), Ok(false));
}

#[test]
fn corrupt_hash_is_a_failure_and_no_mismatch() {
    for corrupt in ["", "secret1", "$2b$04$short", "$9z$04$EGdrhbKUv8Oc9vGiXX0HQOxSg445d458Muh7DAHskb6QbtCvdxcie"] {
        assert_eq!(verify_password("secret1", corrupt), Err(AuthError::HashingFailure));
    }
}

#[test]
fn work_factor_out_of_range_is_a_failure() {
    assert_eq!(hash_password("secret1", 3), Err(AuthError::HashingFailure));
    assert_eq!(hash_password("secret1", 32), Err(AuthError::HashingFailure));
    assert!(hash_password("secret1", 5).unwrap().starts_with("$2b$05$"));
}

#[test]
fn hash_spells_its_work_factor() {
    for (cost, lead) in [(4u32, "$2b$04$"), (9, "$2b$09$"), (10, "$2b$10$")] {
        let hash = hash_password("secret1", cost).unwrap();
        assert_eq!(hash.len(), 60);
        assert!(hash.starts_with(lead), "{}", hash);
    }
}

#[test]
fn default_work_factor() {
    assert_eq!(DEFAULT_COST, 12);
}

#[test]
fn password_of_any_script_round_trips() {
    let hash = hash_password("пароль-密码", 4).unwrap();
    assert_eq!(verify_password("пароль-密码", &hash), Ok(true));
    assert_eq!(verify_password("пароль-密", &hash), Ok(false));
}
