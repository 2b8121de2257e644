use base64::Engine;
use greenlight_backend::crypto::CryptoService;
use greenlight_backend::error::AppError;
use greenlight_backend::jwt::Claims;
use greenlight_backend::lifecycle::{
    check_signup, complete_recovery, complete_registration, login, recover_node, register_node,
    registration_outcome, signup, stored_device_credentials, NodeRecoverRequest, NodeRegisterRequest,
};
use greenlight_backend::user::{CreateUserRequest, LoginRequest, User};

const PHRASE: &str = "abandon abandon abandon abandon abandon abandon abandon abandon abandon abandon abandon about";

fn signup_request(key: &str, password: &str) -> CreateUserRequest {
    CreateUserRequest { public_key: key.to_string(), password: password.to_string() }
}

fn fresh_user(password: &str) -> User {
    User {
        id: 42,
        public_key: "pk1".to_string(),
        password_hash: CryptoService::hash_password(password).unwrap(),
        encrypted_seed: None,
        encrypted_device_creds: None,
        created_at: 1_700_000_000,
        updated_at: 1_700_000_000,
    }
}

fn bare_user() -> User {
    User {
        id: 7,
        public_key: "pk7".to_string(),
        password_hash: "unused".to_string(),
        encrypted_seed: None,
        encrypted_device_creds: None,
        created_at: 1,
        updated_at: 1,
    }
}

#[test]
fn signup_scenario_gives_sealed_seed_and_session() {
    let req = signup_request("pk1", "password123");
    let m = signup(&req, false).unwrap();
    let frame = base64::engine::general_purpose::STANDARD.decode(&m.encrypted_seed).unwrap();
    assert!(frame.len() >= 44);
    let phrase = CryptoService::decrypt(&m.encrypted_seed, "password123").unwrap();
    assert_eq!(CryptoService::validate_mnemonic(&phrase).unwrap(), true);
    assert_eq!(CryptoService::verify_password("password123", &m.password_hash).unwrap(), true);
    let id: u128 = 0x0123_4567_89ab_cdef_0123_4567_89ab_cdef;
    let claims = Claims::issue(id, 1_700_000_000);
    assert_eq!(claims.user_id().unwrap(), id);
}

#[test]
fn signup_with_existing_key_is_conflict() {
    let r = signup(&signup_request("pk1", "password123"), true);
    assert!(matches!(r, Err(AppError::Conflict(_))));
    let r = check_signup(&signup_request("", "short"), true);
    assert!(matches!(r, Err(AppError::Conflict(_))));
}

#[test]
fn signup_validation_errors() {
    assert!(matches!(check_signup(&signup_request("", "password123"), false), Err(AppError::Validation(_))));
    assert!(matches!(check_signup(&signup_request("pk1", "passwor"), false), Err(AppError::Validation(_))));
    assert!(check_signup(&signup_request("pk1", "password"), false).is_ok());
    // eight characters, more than eight bytes
    assert!(check_signup(&signup_request("pk1", "pässwörd"), false).is_ok());
    // seven characters, more than eight bytes
    assert!(matches!(check_signup(&signup_request("pk1", "pässwör"), false), Err(AppError::Validation(_))));
}

#[test]
fn login_succeeds_with_right_password() {
    let u = fresh_user("password123");
    let req = LoginRequest { public_key: "pk1".to_string(), password: "password123".to_string() };
    assert_eq!(login(Some(&u), &req).unwrap(), 42);
}

#[test]
fn login_failures_look_alike() {
    let u = fresh_user("password123");
    let wrong = LoginRequest { public_key: "pk1".to_string(), password: "wrongpass1".to_string() };
    let missing = LoginRequest { public_key: "pk-missing".to_string(), password: "password123".to_string() };
    let e1 = login(Some(&u), &wrong).unwrap_err();
    let e2 = login(None, &missing).unwrap_err();
    assert!(matches!(e1, AppError::Authentication(_)));
    assert_eq!(e1, e2);
    assert_eq!(e1.message(), "Authentication error: Invalid credentials");
    assert_eq!(e1.to_response().0, e2.to_response().0);
    assert_eq!(e1.to_response().1.message, e2.to_response().1.message);
}

#[test]
fn login_with_corrupt_hash_is_crypto_error() {
    let mut u = fresh_user("password123");
    u.password_hash = "garbage".to_string();
    let req = LoginRequest { public_key: "pk1".to_string(), password: "password123".to_string() };
    assert!(matches!(login(Some(&u), &req), Err(AppError::Cryptography(_))));
}

#[test]
fn register_node_derives_seed() {
    let u = fresh_user("password123");
    let sealed = CryptoService::encrypt(PHRASE, "password123").unwrap();
    let req = NodeRegisterRequest { encrypted_seed: sealed, password: "password123".to_string() };
    let seed = register_node(Some(&u), &req).unwrap();
    assert_eq!(seed, CryptoService::mnemonic_to_seed(PHRASE).unwrap());
}

#[test]
fn register_node_errors() {
    let sealed = CryptoService::encrypt(PHRASE, "password123").unwrap();
    let req = NodeRegisterRequest { encrypted_seed: sealed.clone(), password: "password123".to_string() };
    assert!(matches!(register_node(None, &req), Err(AppError::NotFound(_))));
    let mut registered = bare_user();
    registered.encrypted_device_creds = Some("AQID".to_string());
    assert!(matches!(register_node(Some(&registered), &req), Err(AppError::Conflict(_))));
    let wrong = NodeRegisterRequest { encrypted_seed: sealed, password: "password124".to_string() };
    assert!(matches!(register_node(Some(&bare_user()), &wrong), Err(AppError::Cryptography(_))));
    let not_phrase = CryptoService::encrypt("just some words", "password123").unwrap();
    let bad = NodeRegisterRequest { encrypted_seed: not_phrase, password: "password123".to_string() };
    assert!(matches!(register_node(Some(&bare_user()), &bad), Err(AppError::Validation(_))));
}

#[test]
fn recover_node_ignores_existing_credential() {
    let sealed = CryptoService::encrypt(PHRASE, "password123").unwrap();
    let req = NodeRecoverRequest { encrypted_seed: sealed, password: "password123".to_string() };
    assert_eq!(recover_node(&req).unwrap().len(), 64);
    let bad = NodeRecoverRequest { encrypted_seed: "AAAA".to_string(), password: "password123".to_string() };
    assert!(matches!(recover_node(&bad), Err(AppError::Cryptography(_))));
}

#[test]
fn concurrent_registrations_one_wins() {
    let mut u = bare_user();
    let first = complete_registration(&mut u, &[1, 2, 3], 100).unwrap();
    assert_eq!(first.encrypted_device_creds, "AQID");
    let second = complete_registration(&mut u, &[9, 9], 200);
    assert!(matches!(second, Err(AppError::Conflict(_))));
    assert_eq!(u.encrypted_device_creds, Some("AQID".to_string()));
    assert_eq!(u.updated_at, 100);
}

#[test]
fn conditional_write_outcome() {
    assert!(registration_outcome(1).is_ok());
    assert!(matches!(registration_outcome(0), Err(AppError::Conflict(_))));
}

#[test]
fn recovery_overwrites_credential() {
    let mut u = bare_user();
    complete_registration(&mut u, &[1, 2, 3], 100).unwrap();
    let r = complete_recovery(&mut u, &[4, 5, 6], 300);
    assert_eq!(r.encrypted_device_creds, "BAUG");
    assert_eq!(u.encrypted_device_creds, Some("BAUG".to_string()));
    assert_eq!(u.updated_at, 300);
    assert_eq!(u.id, 7);
}

#[test]
fn stored_credentials_for_node_queries() {
    assert!(matches!(stored_device_credentials(None), Err(AppError::NotFound(_))));
    let mut u = bare_user();
    assert!(matches!(stored_device_credentials(Some(&u)), Err(AppError::BadRequest(_))));
    u.encrypted_device_creds = Some("AQID".to_string());
    assert_eq!(stored_device_credentials(Some(&u)).unwrap(), vec![1, 2, 3]);
    u.encrypted_device_creds = Some("@@@".to_string());
    assert!(matches!(stored_device_credentials(Some(&u)), Err(AppError::Internal(_))));
}

#[test]
fn claims_issue_for_a_day() {
    let c = Claims::issue(5, 1000);
    assert_eq!(c.iat, 1000);
    assert_eq!(c.exp, 1000 + 86_400);
    assert_eq!(c.sub, "00000000-0000-0000-0000-000000000005");
    assert_eq!(c.user_id().unwrap(), 5);
}

#[test]
fn claims_with_bad_subject() {
    let c = Claims { sub: "not-a-uuid".to_string(), exp: 0, iat: 0 };
    assert!(matches!(c.user_id(), Err(AppError::Authentication(_))));
}

#[test]
fn claims_subject_is_hyphenated_lowercase() {
    let c = Claims::issue(0x0123_4567_89ab_cdef_fedc_ba98_7654_3210, 0);
    assert_eq!(c.sub, "01234567-89ab-cdef-fedc-ba9876543210");
}
