use pcosew::errors::ApiError;
use pcosew::model::User;
use pcosew::store::MemStore;
use pcosew::token::{current_timestamp, verify_jwt};
use pcosew::validate::{LoginDto, RegisterDto};

fn reg(name: &str, email: &str, password: &str, role: &str) -> RegisterDto {
    RegisterDto {
        name: name.to_string(),
        email: email.to_string(),
        password: password.to_string(),
        role: role.to_string(),
    }
}

fn login_dto(email: &str, password: &str) -> LoginDto {
    LoginDto { email: email.to_string(), password: password.to_string() }
}

const SECRET: &str = "SECRET-REDACTED";
const TTL: i64 = 120;

#[test]
fn register_scenario_normalizes_email_and_issues_token() {
    let mut store = MemStore::new();
    let now = current_timestamp();
    let r = store
        .register(&reg("Ana", " Ana@Test.com ", "secret1", "cliente"), SECRET, TTL, now)
        .expect("registration should succeed");
    assert_eq!(r.user.email, "ana@test.com");
    assert_eq!(r.user.name, "Ana");
    assert_eq!(r.user.role, "cliente");
    assert_eq!(store.users.len(), 1);
    assert_eq!(store.users[0].email, "ana@test.com");

    let login = store
        .login(&login_dto("ana@test.com", "secret1"), SECRET, TTL, now)
        .expect("login should succeed");
    let claims = verify_jwt(&login.token, SECRET).expect("token should verify");
    assert_eq!(claims.role, "cliente");
    assert_eq!(claims.email, "ana@test.com");
    assert_eq!(claims.sub, r.user.id);
}

#[test]
fn distinct_emails_all_register_and_tokens_carry_their_ids() {
    let mut store = MemStore::new();
    let now = current_timestamp();
    let a = store
        .register(&reg("Ana", "ana@test.com", "secret1", "cliente"), SECRET, TTL, now)
        .expect("first registration");
    let b = store
        .register(&reg("Bruno", "BRUNO@test.com", "secret2", "colaborador"), SECRET, TTL, now)
        .expect("second registration");
    assert_ne!(a.user.id, b.user.id);
    let ca = verify_jwt(&a.token, SECRET).expect("first token");
    let cb = verify_jwt(&b.token, SECRET).expect("second token");
    assert_eq!(ca.sub, a.user.id);
    assert_eq!(cb.sub, b.user.id);
    assert_eq!(store.users.len(), 2);
}

#[test]
fn register_twice_with_case_and_whitespace_variants_conflicts() {
    let mut store = MemStore::new();
    let now = current_timestamp();
    store
        .register(&reg("Ana", "ana@test.com", "secret1", "cliente"), SECRET, TTL, now)
        .expect("first registration");
    let second = store.register(
        &reg("Ana", "  ANA@Test.COM \t", "secret1", "cliente"),
        SECRET,
        TTL,
        now,
    );
    match second {
        Err(ApiError::BadRequest(m)) => assert_eq!(m, "Email already registered"),
        other => panic!("expected a conflict, got {:?}", other.is_ok()),
    }
    assert_eq!(store.users.len(), 1);
}

#[test]
fn login_token_expiry_equals_issue_time_plus_ttl() {
    let mut store = MemStore::new();
    let now = current_timestamp();
    store
        .register(&reg("Ana", "ana@test.com", "secret1", "cliente"), SECRET, TTL, now)
        .expect("registration");
    let r = store
        .login(&login_dto("ana@test.com", "secret1"), SECRET, TTL, now)
        .expect("login");
    let claims = verify_jwt(&r.token, SECRET).expect("token should verify");
    assert_eq!(claims.exp as i64, now + 60 * TTL);
}

#[test]
fn login_failures_are_indistinguishable() {
    let mut store = MemStore::new();
    let now = current_timestamp();
    store
        .register(&reg("Ana", "ana@test.com", "secret1", "cliente"), SECRET, TTL, now)
        .expect("registration");
    // An account that never got a credential hash.
    store.users.push(User {
        id: "aaaaaaaaaaaaaaaaaaaaaaaa".to_string(),
        name: "Legacy".to_string(),
        email: "legacy@test.com".to_string(),
        role: "cliente".to_string(),
        password_hash: None,
        created_at: now,
    });

    let wrong_password = store.login(&login_dto("ana@test.com", "secret2"), SECRET, TTL, now);
    let unknown_email = store.login(&login_dto("nobody@test.com", "secret1"), SECRET, TTL, now);
    let no_hash = store.login(&login_dto("legacy@test.com", "secret1"), SECRET, TTL, now);

    let mut messages = Vec::new();
    for r in [wrong_password, unknown_email, no_hash] {
        match r {
            Err(ApiError::Unauthorized(m)) => messages.push(m),
            other => panic!("expected unauthorized, got ok={}", other.is_ok()),
        }
    }
    assert_eq!(messages[0], "Invalid credentials");
    assert_eq!(messages[0], messages[1]);
    assert_eq!(messages[1], messages[2]);
}

#[test]
fn registration_validation_errors_come_in_order() {
    let mut store = MemStore::new();
    let now = current_timestamp();
    let cases = [
        (reg(" A ", "ana@test.com", "secret1", "cliente"), "name too short"),
        (reg("Ana", "not-an-email", "secret1", "cliente"), "invalid email"),
        (reg("Ana", "ana@test.com", "12345", "cliente"), "password too short"),
        (reg("Ana", "ana@test.com", "secret1", "admin"), "role must be 'cliente' or 'colaborador'"),
    ];
    for (dto, expected) in cases {
        match store.register(&dto, SECRET, TTL, now) {
            Err(ApiError::BadRequest(m)) => assert_eq!(m, expected),
            other => panic!("expected 400 '{}', got ok={}", expected, other.is_ok()),
        }
    }
    assert_eq!(store.users.len(), 0);
}

#[test]
fn error_status_codes() {
    assert_eq!(ApiError::BadRequest("x".to_string()).status_code(), 400);
    assert_eq!(ApiError::Unauthorized("x".to_string()).status_code(), 401);
    assert_eq!(ApiError::NotFound("x".to_string()).status_code(), 404);
    assert_eq!(ApiError::Internal.status_code(), 500);
    assert_eq!(ApiError::Internal.message(), "Internal server error");
}
