use book_service::credential::{
    has_default_params, hash_password, hash_with_salt, verify_password, HashingError,
};
use book_service::auth::{authenticate_at, bearer_token};
use book_service::text::{split_dots, strip_prefix_chars};
use book_service::token::{check_expiry, issue, validate_at, Claims, TokenError, SESSION_TTL_SECS};

const SECRET: &[u8] = b"test-signing-secret";

fn claims_at(now: u64) -> Claims {
    Claims::for_session("user-1".to_string(), Some("alice".to_string()), now)
}

#[test]
fn split_dots_gives_every_piece() {
    let parts = split_dots("a.bc..d");
    assert_eq!(parts, vec!["a", "bc", "", "d"]);
    assert_eq!(split_dots(""), vec![""]);
    assert_eq!(split_dots("."), vec!["", ""]);
}

#[test]
fn strip_prefix_keeps_the_rest() {
    let p = ['a', 'b'];
    assert_eq!(strip_prefix_chars("abc", &p), Some("c".to_string()));
    assert_eq!(strip_prefix_chars("ab", &p), Some(String::new()));
    assert_eq!(strip_prefix_chars("a", &p), None);
    assert_eq!(strip_prefix_chars("xbc", &p), None);
}

#[test]
fn hash_then_verify_accepts_the_secret() {
    let h = hash_password(b"pw1").unwrap();
    assert_eq!(verify_password(b"pw1", &h), Ok(true));
}

#[test]
fn hashing_twice_uses_fresh_salts() {
    let h1 = hash_password(b"same secret").unwrap();
    let h2 = hash_password(b"same secret").unwrap();
    assert_ne!(h1, h2);
    assert_eq!(verify_password(b"same secret", &h1), Ok(true));
    assert_eq!(verify_password(b"same secret", &h2), Ok(true));
}

#[test]
fn wrong_secret_is_refused() {
    let h = hash_password(b"pw2").unwrap();
    assert_eq!(verify_password(b"pw1", &h), Ok(false));
    assert_eq!(verify_password(b"", &h), Ok(false));
}

#[test]
fn unreadable_hash_is_malformed() {
    assert_eq!(verify_password(b"pw1", "not a hash"), Err(HashingError::Malformed));
    assert_eq!(verify_password(b"pw1", ""), Err(HashingError::Malformed));
}

#[test]
fn hash_with_salt_is_an_argon2id_phc_string() {
    let salt = [7u8; 16];
    let h = hash_with_salt(b"pw1", &salt).unwrap();
    assert!(h.starts_with("$argon2id$v=19$m=19456,t=2,p=1$"));
    assert_eq!(hash_with_salt(b"pw1", &salt).unwrap(), h);
    assert_ne!(hash_with_salt(b"pw1", &[8u8; 16]).unwrap(), h);
    assert_eq!(verify_password(b"pw1", &h), Ok(true));
}

#[test]
fn too_short_salt_is_rejected() {
    assert_eq!(hash_with_salt(b"pw1", &[1u8]), Err(HashingError::Rejected));
    assert_eq!(hash_with_salt(b"pw1", &[1u8, 2]), Err(HashingError::Rejected));
    assert_eq!(hash_with_salt(b"pw1", &[1u8, 2, 3]), Err(HashingError::Rejected));
    assert!(hash_with_salt(b"pw1", &[1u8; 8]).is_ok());
}

#[test]
fn too_long_salt_is_rejected() {
    assert!(hash_with_salt(b"pw1", &[9u8; 48]).is_ok());
    assert_eq!(hash_with_salt(b"pw1", &[9u8; 49]), Err(HashingError::Rejected));
}

#[test]
fn hash_with_other_parameters_is_malformed() {
    let h = hash_with_salt(b"pw1", &[7u8; 16]).unwrap();
    let other = h.replacen("m=19456", "m=65536", 1);
    assert_eq!(verify_password(b"pw1", &other), Err(HashingError::Malformed));
    assert!(has_default_params(&h));
    assert!(!has_default_params(&other));
}

#[test]
fn session_claims_expire_after_one_day() {
    let c = claims_at(1_000);
    assert_eq!(c.exp, 1_000 + 86_400);
    assert_eq!(SESSION_TTL_SECS, 86_400);
    assert_eq!(c.sub, "user-1");
    assert_eq!(c.username.as_deref(), Some("alice"));
}

#[test]
fn issued_token_is_three_parts() {
    let t = issue(&claims_at(1_000), SECRET).unwrap();
    assert_eq!(split_dots(&t).len(), 3);
    assert_ne!(t, "user-1");
}

#[test]
fn token_validates_before_expiry_only() {
    let issued_at = 1_700_000_000u64;
    let t = issue(&claims_at(issued_at), SECRET).unwrap();
    let c = validate_at(&t, SECRET, issued_at).unwrap();
    assert_eq!(c.sub, "user-1");
    assert_eq!(c.exp, issued_at + SESSION_TTL_SECS);
    assert_eq!(c.username.as_deref(), Some("alice"));
    assert!(validate_at(&t, SECRET, issued_at + SESSION_TTL_SECS - 1).is_ok());
    assert_eq!(
        validate_at(&t, SECRET, issued_at + SESSION_TTL_SECS).unwrap_err(),
        TokenError::Expired
    );
    assert_eq!(
        validate_at(&t, SECRET, issued_at + SESSION_TTL_SECS + 100).unwrap_err(),
        TokenError::Expired
    );
}

#[test]
fn altered_signature_is_invalid_signature() {
    let t = issue(&claims_at(1_000), SECRET).unwrap();
    let parts = split_dots(&t);
    for forged in ["", "AAAA", "abc-_xyz"] {
        let altered = format!("{}.{}.{}", parts[0], parts[1], forged);
        assert_eq!(validate_at(&altered, SECRET, 1_000).unwrap_err(), TokenError::InvalidSignature);
    }
    let dotted = format!("{}.{}.{}", parts[0], parts[1], "a.b");
    assert_eq!(validate_at(&dotted, SECRET, 1_000).unwrap_err(), TokenError::MalformedToken);
    let mut sig = parts[2].clone();
    let last = sig.pop().unwrap();
    sig.push(if last == 'A' { 'B' } else { 'A' });
    let altered = format!("{}.{}.{}", parts[0], parts[1], sig);
    assert_eq!(validate_at(&altered, SECRET, 1_000).unwrap_err(), TokenError::InvalidSignature);
}

#[test]
fn other_secret_is_invalid_signature() {
    let t = issue(&claims_at(1_000), SECRET).unwrap();
    assert_eq!(validate_at(&t, b"another secret", 1_000).unwrap_err(), TokenError::InvalidSignature);
}

#[test]
fn wrong_shape_is_malformed() {
    assert_eq!(validate_at("abc", SECRET, 0).unwrap_err(), TokenError::MalformedToken);
    assert_eq!(validate_at("a.b", SECRET, 0).unwrap_err(), TokenError::MalformedToken);
    assert_eq!(validate_at("a.b.c.d", SECRET, 0).unwrap_err(), TokenError::MalformedToken);
    assert_eq!(validate_at("", SECRET, 0).unwrap_err(), TokenError::MalformedToken);
}

#[test]
fn bearer_prefix_is_required() {
    assert_eq!(bearer_token(Some("Bearer abc")), Some("abc".to_string()));
    assert_eq!(bearer_token(Some("Bearer ")), Some(String::new()));
    assert_eq!(bearer_token(Some("bearer abc")), None);
    assert_eq!(bearer_token(Some("Basic abc")), None);
    assert_eq!(bearer_token(Some("Bearer")), None);
    assert_eq!(bearer_token(None), None);
}

#[test]
fn authentication_lets_valid_tokens_through_only() {
    let t = issue(&claims_at(1_000), SECRET).unwrap();
    let header = format!("Bearer {}", t);
    let c = authenticate_at(Some(&header), SECRET, 1_000).unwrap();
    assert_eq!(c.sub, "user-1");
    assert!(authenticate_at(Some(&t), SECRET, 1_000).is_err());
    assert!(authenticate_at(None, SECRET, 1_000).is_err());
    assert!(authenticate_at(Some("Bearer x.y.z"), SECRET, 1_000).is_err());
    assert!(authenticate_at(Some(&header), SECRET, 1_000 + SESSION_TTL_SECS).is_err());
}

#[test]
fn clock_based_validation_accepts_a_fresh_token() {
    let now = book_service::token::current_time();
    assert!(now > 1_600_000_000);
    let t = issue(&claims_at(now), SECRET).unwrap();
    assert_eq!(book_service::token::validate(&t, SECRET).unwrap().sub, "user-1");
    let header = format!("Bearer {}", t);
    assert!(book_service::auth::authenticate(Some(&header), SECRET).is_ok());
    let stale = issue(&claims_at(now - 2 * SESSION_TTL_SECS), SECRET).unwrap();
    assert_eq!(book_service::token::validate(&stale, SECRET).unwrap_err(), TokenError::Expired);
}

#[test]
fn expiry_is_a_half_open_interval() {
    let c = Claims { sub: "s".to_string(), exp: 50, username: None };
    assert_eq!(check_expiry(c.clone(), 49).unwrap().exp, 50);
    assert_eq!(check_expiry(c.clone(), 50).unwrap_err(), TokenError::Expired);
    assert_eq!(check_expiry(c, 51).unwrap_err(), TokenError::Expired);
}
