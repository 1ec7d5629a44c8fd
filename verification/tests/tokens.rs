use pcosew::config::AppConfig;
use pcosew::errors::ApiError;
use pcosew::identity::{authenticate, parse_bearer};
use pcosew::ids::{fresh_object_id, parse_object_id};
use pcosew::password::{hash_password, verify_password};
use pcosew::text::normalize;
use pcosew::token::{TokenError, current_timestamp, sign_jwt, sign_jwt_at, verify_jwt};
use pcosew::validate::{is_valid_email, parse_visibility};

const SECRET: &str = "SECRET-REDACTED";

#[test]
fn sign_then_verify_round_trips_the_claims() {
    let now = current_timestamp();
    let exp = (now + 3600) as u64;
    let token = sign_jwt_at("user-1", "ana@test.com", "cliente", SECRET, exp);
    let claims = verify_jwt(&token, SECRET).expect("verification");
    assert_eq!(claims.sub, "user-1");
    assert_eq!(claims.email, "ana@test.com");
    assert_eq!(claims.role, "cliente");
    assert_eq!(claims.exp, exp);
}

#[test]
fn expired_tokens_fail_with_the_expiry_reason() {
    let now = current_timestamp();
    let token = sign_jwt_at("user-1", "ana@test.com", "cliente", SECRET, (now - 120) as u64);
    match verify_jwt(&token, SECRET) {
        Err(TokenError::Expired) => {},
        Err(TokenError::Invalid) => panic!("expected the expiry reason"),
        Ok(_) => panic!("expected a rejection"),
    }
    // Externally the rejection is generic.
    let header = format!("Bearer {}", token);
    match authenticate(Some(&header), SECRET) {
        Err(ApiError::Unauthorized(m)) => assert_eq!(m, "Invalid token"),
        other => panic!("expected 401, got ok={}", other.is_ok()),
    }
}

#[test]
fn tampered_and_garbage_tokens_are_invalid() {
    let now = current_timestamp();
    let token = sign_jwt_at("user-1", "ana@test.com", "cliente", SECRET, (now + 3600) as u64);
    match verify_jwt(&token, "other-secret") {
        Err(TokenError::Invalid) => {},
        other => panic!("expected invalid, got ok={}", other.is_ok()),
    }
    match verify_jwt("not.a.token", SECRET) {
        Err(TokenError::Invalid) => {},
        other => panic!("expected invalid, got ok={}", other.is_ok()),
    }
}

#[test]
fn sign_jwt_uses_the_clock_and_verifies() {
    let token = sign_jwt("user-1", "ana@test.com", "cliente", SECRET, 120);
    let claims = verify_jwt(&token, SECRET).expect("verification");
    let now = current_timestamp();
    let delta = claims.exp as i64 - now;
    assert!((60 * 120 - 5..=60 * 120 + 5).contains(&delta));
}

#[test]
fn bearer_headers_are_parsed_strictly() {
    assert_eq!(parse_bearer("Bearer abc.def.ghi").as_deref(), Some("abc.def.ghi"));
    assert_eq!(parse_bearer("Bearer   abc  ").as_deref(), Some("abc"));
    assert_eq!(parse_bearer("bearer abc"), None);
    assert_eq!(parse_bearer("Token abc"), None);
    assert_eq!(parse_bearer("Bearer"), None);
    match authenticate(None, SECRET) {
        Err(ApiError::Unauthorized(m)) => assert_eq!(m, "Missing Bearer token"),
        other => panic!("expected 401, got ok={}", other.is_ok()),
    }
}

#[test]
fn authentication_succeeds_on_a_fresh_token() {
    let now = current_timestamp();
    let token = sign_jwt_at("user-1", "ana@test.com", "cliente", SECRET, (now + 3600) as u64);
    let header = format!("Bearer {}", token);
    let user = authenticate(Some(&header), SECRET).expect("authentication");
    assert_eq!(user.user_id, "user-1");
    assert_eq!(user.email, "ana@test.com");
    assert_eq!(user.role, "cliente");
}

#[test]
fn password_hashing_round_trips_and_rejects_bad_input() {
    let hash = hash_password("secret1").expect("hashing");
    assert_eq!(hash.len(), 60);
    assert_eq!(verify_password("secret1", &hash).expect("verification"), true);
    assert_eq!(verify_password("secret2", &hash).expect("verification"), false);
    match verify_password("secret1", "not a bcrypt hash") {
        Err(ApiError::Internal) => {},
        other => panic!("expected internal error, got ok={}", other.is_ok()),
    }
    match hash_password("") {
        Err(ApiError::BadRequest(m)) => assert_eq!(m, "password must not be empty"),
        other => panic!("expected 400, got ok={}", other.is_ok()),
    }
    let long = "x".repeat(73);
    match hash_password(&long) {
        Err(ApiError::BadRequest(m)) => assert_eq!(m, "password too long"),
        other => panic!("expected 400, got ok={}", other.is_ok()),
    }
}

#[test]
fn object_ids_parse_exactly_on_24_hex_characters() {
    let id = fresh_object_id();
    assert_eq!(id.len(), 24);
    assert!(id.chars().all(|c| c.is_ascii_hexdigit() && !c.is_ascii_uppercase()));
    assert_eq!(parse_object_id(&id).as_deref(), Some(id.as_str()));
    assert_eq!(
        parse_object_id("0123456789ABCDEF01234567").as_deref(),
        Some("0123456789abcdef01234567")
    );
    assert_eq!(parse_object_id("0123456789abcdef0123456"), None);
    assert_eq!(parse_object_id("0123456789abcdef012345678"), None);
    assert_eq!(parse_object_id("0123456789abcdef0123456g"), None);
    assert_eq!(parse_object_id(""), None);
}

#[test]
fn normalization_trims_and_lowercases() {
    assert_eq!(normalize(" Ana@Test.com "), "ana@test.com");
    assert_eq!(normalize("\t ABC \r\n"), "abc");
    assert_eq!(normalize("already lower"), "already lower");
    assert_eq!(normalize(""), "");
    assert_eq!(normalize("   "), "");
}

#[test]
fn email_grammar_accepts_and_rejects() {
    assert!(is_valid_email("ana@test.com"));
    assert!(is_valid_email("a.b+c_d%e@sub-domain.example.org"));
    assert!(!is_valid_email("anatest.com"));
    assert!(!is_valid_email("@test.com"));
    assert!(!is_valid_email("ana@"));
    assert!(!is_valid_email("ana@testcom"));
    assert!(!is_valid_email("ana@.com"));
    assert!(!is_valid_email("ana@test.com."));
    assert!(!is_valid_email("ana@@test.com"));
    assert!(!is_valid_email("an a@test.com"));
}

#[test]
fn configured_lifetimes_are_clamped_into_range() {
    assert_eq!(AppConfig::clamp_lifetime(120), 120);
    assert_eq!(AppConfig::clamp_lifetime(-5), 0);
    assert_eq!(AppConfig::clamp_lifetime(i64::MAX), 0x7fff_ffff);
}

#[test]
fn visibility_values_are_normalized_and_restricted() {
    assert_eq!(parse_visibility("public").expect("valid"), "public");
    assert_eq!(parse_visibility(" PRIVATE ").expect("valid"), "private");
    match parse_visibility("hidden") {
        Err(ApiError::BadRequest(m)) => assert_eq!(m, "visibility must be public|private"),
        other => panic!("expected 400, got ok={}", other.is_ok()),
    }
}
