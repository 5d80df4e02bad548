//! Registration, login, password hashing and token validation, exercised
//! through the public handlers with the real bcrypt and jsonwebtoken
//! crates linked.

use job_board::errors::ApiError;
use job_board::handlers::auth::{LoginRequest, RegisterRequest, get_user_from_token, login, register};
use job_board::state::AppState;
use job_board::token::{TOKEN_LIFETIME_SECS, create_token, validate_token};

const NOW: u64 = 1_700_000_000;

fn state() -> AppState {
    AppState::new(b"test-secret".to_vec())
}

fn register_req(username: &str, email: &str, password: &str, role: &str) -> RegisterRequest {
    RegisterRequest {
        username: username.to_string(),
        email: email.to_string(),
        password: password.to_string(),
        role: role.to_string(),
    }
}

#[test]
fn register_then_login_roundtrip() {
    let mut st = state();
    let reg = register(&mut st, register_req("alice", "a@x.com", "pw", "employer"), NOW)
        .expect("registration on an empty store succeeds");
    let reg_claims = validate_token(st.secret_bytes(), &reg.token, NOW)
        .expect("a fresh registration token validates");
    assert_eq!(reg_claims.sub, "a@x.com");
    assert_eq!(reg_claims.exp, NOW + TOKEN_LIFETIME_SECS);

    let log = login(
        &st,
        &LoginRequest { email: "a@x.com".to_string(), password: "pw".to_string() },
        NOW + 10,
    )
    .expect("login with the registered credentials succeeds");
    let claims = validate_token(st.secret_bytes(), &log.token, NOW + 10)
        .expect("a fresh login token validates");
    assert_eq!(claims.sub, "a@x.com");
    assert_eq!(claims.exp, NOW + 10 + TOKEN_LIFETIME_SECS);
}

#[test]
fn login_rejects_wrong_password_and_unknown_email() {
    let mut st = state();
    register(&mut st, register_req("alice", "a@x.com", "pw", "employer"), NOW).unwrap();

    let wrong_pw = login(
        &st,
        &LoginRequest { email: "a@x.com".to_string(), password: "wrong".to_string() },
        NOW,
    );
    assert_eq!(wrong_pw.unwrap_err(), ApiError::Unauthenticated);

    let wrong_email = login(
        &st,
        &LoginRequest { email: "b@x.com".to_string(), password: "pw".to_string() },
        NOW,
    );
    assert_eq!(wrong_email.unwrap_err(), ApiError::Unauthenticated);
}

#[test]
fn register_conflict_on_duplicate_email() {
    let mut st = state();
    register(&mut st, register_req("alice", "a@x.com", "pw", "employer"), NOW).unwrap();
    let second = register(&mut st, register_req("alice2", "a@x.com", "pw2", "applicant"), NOW);
    let err = second.unwrap_err();
    assert_eq!(err, ApiError::Conflict);
    assert_eq!(err.status_code(), 500);
}

#[test]
fn stored_hash_is_salted_and_not_plaintext() {
    let mut st = state();
    register(&mut st, register_req("alice", "a@x.com", "pw", "employer"), NOW).unwrap();
    register(&mut st, register_req("bob", "b@x.com", "pw", "employer"), NOW).unwrap();
    let alice = st.users.find_by_email(&"a@x.com".to_string()).unwrap();
    let bob = st.users.find_by_email(&"b@x.com".to_string()).unwrap();
    assert_ne!(alice.password_hash, "pw");
    assert_ne!(bob.password_hash, "pw");
    // Two hashes of the same password differ because each carries its own
    // random salt.
    assert_ne!(alice.password_hash, bob.password_hash);
}

#[test]
fn token_validation_rejects_bad_tokens() {
    let mut st = state();
    register(&mut st, register_req("alice", "a@x.com", "pw", "employer"), NOW).unwrap();
    let secret = st.secret_bytes();

    let empty = validate_token(secret, &String::new(), NOW);
    assert_eq!(empty.unwrap_err(), ApiError::Unauthenticated);

    let garbage = validate_token(secret, &"not.a.token".to_string(), NOW);
    assert_eq!(garbage.unwrap_err(), ApiError::Unauthenticated);

    let foreign = create_token(b"another-secret", &"a@x.com".to_string(), NOW);
    let forged = validate_token(secret, &foreign, NOW);
    assert_eq!(forged.unwrap_err(), ApiError::Unauthenticated);

    let token = create_token(secret, &"a@x.com".to_string(), NOW);
    let expired = validate_token(secret, &token, NOW + TOKEN_LIFETIME_SECS);
    assert_eq!(expired.unwrap_err(), ApiError::Unauthenticated);
    let still_valid = validate_token(secret, &token, NOW + TOKEN_LIFETIME_SECS - 1);
    assert!(still_valid.is_ok());
}

#[test]
fn guard_resolves_token_to_user() {
    let mut st = state();
    let reg = register(&mut st, register_req("alice", "a@x.com", "pw", "employer"), NOW).unwrap();
    let user = get_user_from_token(&st, &reg.token, NOW).expect("a fresh token resolves");
    assert_eq!(user.email, "a@x.com");
    assert_eq!(user.username, "alice");
    assert_eq!(user.id, 1);

    let missing = get_user_from_token(&st, &String::new(), NOW);
    assert_eq!(missing.unwrap_err(), ApiError::Unauthenticated);

    let expired = get_user_from_token(&st, &reg.token, NOW + TOKEN_LIFETIME_SECS);
    assert_eq!(expired.unwrap_err(), ApiError::Unauthenticated);
}

#[test]
fn guard_rejects_unknown_subject() {
    let st = state();
    // A token signed with the right secret but for an email nobody carries.
    let token = create_token(st.secret_bytes(), &"ghost@x.com".to_string(), NOW);
    let r = get_user_from_token(&st, &token, NOW);
    assert_eq!(r.unwrap_err(), ApiError::Unauthenticated);
}

#[test]
fn error_status_codes() {
    assert_eq!(ApiError::Unauthenticated.status_code(), 401);
    assert_eq!(ApiError::Forbidden.status_code(), 403);
    assert_eq!(ApiError::NotFound.status_code(), 404);
    assert_eq!(ApiError::Conflict.status_code(), 500);
    assert_eq!(ApiError::Internal.status_code(), 500);
}
