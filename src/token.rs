//! Session tokens: signed, time-bounded claims about an account, as HS256 JSON Web Tokens.
use vstd::prelude::*;
use crate::text::{
    dot_join, lemma_segments_concat, lemma_segments_dot_join, lemma_segments_no_dot,
    lemma_segments_three, lemma_segments_with_dot, no_dot, push_char, push_str, segments, split_dots,
};

verus! {

/// How long a session token stays valid after it is issued: 24 hours, in seconds.
pub const SESSION_TTL_SECS: u64 = 86400;

/// The token that encoding gives for the claims `sub`, `exp` and `username`
/// under `key`, or nothing where encoding fails.
pub uninterp spec fn jwt_of(
    sub: Seq<char>,
    exp: u64,
    username: Option<Seq<char>>,
    key: Seq<u8>,
) -> Option<Seq<char>>;

/// The HS256 signature, in base64url, of `message` under `key`.
pub uninterp spec fn hs256_of(message: Seq<char>, key: Seq<u8>) -> Seq<char>;

/// The claims `sub`, `exp` and `username` that decoding `token` under `key`
/// reads, or nothing where the token is refused.
pub uninterp spec fn jwt_claims(token: Seq<char>, key: Seq<u8>) -> Option<
    (Seq<char>, u64, Option<Seq<char>>),
>;

/// The characters of an optional string.
pub open spec fn opt_chars(o: Option<String>) -> Option<Seq<char>> {
    match o {
        Some(s) => Some(s@),
        None => None,
    }
}

/// What a session token asserts: the account, its display name, and the expiry time
/// in seconds since the Unix epoch.
#[derive(Debug, Clone)]
pub struct Claims {
    pub sub: String,
    pub exp: u64,
    pub username: Option<String>,
}

/// The mathematical content of [`Claims`].
pub struct ClaimsView {
    pub sub: Seq<char>,
    pub exp: u64,
    pub username: Option<Seq<char>>,
}

impl View for Claims {
    type V = ClaimsView;

    open spec fn view(&self) -> ClaimsView {
        ClaimsView { sub: self.sub@, exp: self.exp, username: opt_chars(self.username) }
    }
}

/// Why a token was not issued or not accepted.
#[derive(Debug, Clone, Copy, PartialEq, Eq, Structural)]
pub enum TokenError {
    /// The token is not three dot-separated parts, or its claims cannot be read.
    MalformedToken,
    /// The signature part is not the signature of the rest under the secret.
    InvalidSignature,
    /// The current time is at or past the expiry.
    Expired,
    /// The claims could not be encoded.
    Encoding,
}

/// `t` is a header part, a dot, a claims part, a dot, and the signature of the
/// first two parts under `key`; no part holds a dot.
pub open spec fn signed_shape(t: Seq<char>, key: Seq<u8>) -> bool {
    exists|h: Seq<char>, p: Seq<char>|
        no_dot(h) && no_dot(p) && no_dot(#[trigger] hs256_of(dot_join(h, p), key)) && t
            == dot_join(dot_join(h, p), hs256_of(dot_join(h, p), key))
}

/// `t` is the token that issuing `c` under `key` gives.
pub open spec fn issued(t: Seq<char>, c: ClaimsView, key: Seq<u8>) -> bool {
    &&& jwt_of(c.sub, c.exp, c.username, key) == Some(t)
    &&& signed_shape(t, key)
    &&& jwt_claims(t, key) == Some((c.sub, c.exp, c.username))
}

/// What validating `token` under `key` at time `now` gives: the signature is
/// checked before any claim is read, and the expiry last.
pub open spec fn validation_outcome(token: Seq<char>, key: Seq<u8>, now: u64) -> Result<
    ClaimsView,
    TokenError,
> {
    let parts = segments(token);
    if parts.len() != 3 {
        Err(TokenError::MalformedToken)
    } else if parts[2] != hs256_of(dot_join(parts[0], parts[1]), key) {
        Err(TokenError::InvalidSignature)
    } else {
        match jwt_claims(token, key) {
            None => Err(TokenError::MalformedToken),
            Some(c) => if now < c.1 {
                Ok(ClaimsView { sub: c.0, exp: c.1, username: c.2 })
            } else {
                Err(TokenError::Expired)
            },
        }
    }
}

/// Relies on `jsonwebtoken::encode` with the default header (HS256) and an HMAC
/// key from the secret, over a JSON object with the fields sub, exp and username.
/// Its token is base64url(header) "." base64url(claims) "." the `crypto::sign`
/// signature of the first two parts (base64url holds no dot), and
/// `jsonwebtoken::decode` under the same key reads the claims back.
#[verifier::external_body]
fn jwt_encode(sub: &str, exp: u64, username: &Option<String>, key: &[u8]) -> (r: Option<String>)
    ensures
        r is Some <==> jwt_of(sub@, exp, opt_chars(*username), key@) is Some,
        r is Some ==> jwt_of(sub@, exp, opt_chars(*username), key@) == Some(r->Some_0@),
        r is Some ==> signed_shape(r->Some_0@, key@),
        r is Some ==> jwt_claims(r->Some_0@, key@) == Some((sub@, exp, opt_chars(*username))),
{
    let mut claims = serde_json::Map::new();
    claims.insert("sub".to_string(), serde_json::Value::from(sub));
    claims.insert("exp".to_string(), serde_json::Value::from(exp));
    claims.insert("username".to_string(), serde_json::Value::from(username.clone()));
    let key = jsonwebtoken::EncodingKey::from_secret(key);
    jsonwebtoken::encode(&jsonwebtoken::Header::default(), &claims, &key).ok()
}

/// Relies on `jsonwebtoken::crypto::verify` with HS256: it signs the message with
/// the secret (`crypto::sign`) and compares that with the given signature in
/// constant time.
#[verifier::external_body]
fn hs256_verify(signature: &str, message: &str, key: &[u8]) -> (r: bool)
    ensures
        r == (signature@ == hs256_of(message@, key@)),
{
    let key = jsonwebtoken::DecodingKey::from_secret(key);
    let alg = jsonwebtoken::Algorithm::HS256;
    jsonwebtoken::crypto::verify(signature, message.as_bytes(), &key, alg).unwrap_or(false)
}

/// Relies on `jsonwebtoken::decode` with an HMAC key from the secret and the
/// default validation (HS256, signature checked, exp present) without its own
/// expiry check, so that the result depends on the token and the key alone;
/// reads the claims sub (text), exp (integer) and username (text, or absent).
#[verifier::external_body]
fn jwt_decode(token: &str, key: &[u8]) -> (r: Option<(String, u64, Option<String>)>)
    ensures
        r is Some <==> jwt_claims(token@, key@) is Some,
        r is Some ==> jwt_claims(token@, key@) == Some(
            (r->Some_0.0@, r->Some_0.1, opt_chars(r->Some_0.2)),
        ),
{
    let mut rules = jsonwebtoken::Validation::default();
    rules.validate_exp = false;
    let key = jsonwebtoken::DecodingKey::from_secret(key);
    let data = jsonwebtoken::decode::<serde_json::Map<String, serde_json::Value>>(token, &key, &rules).ok()?;
    let sub = data.claims.get("sub")?.as_str()?.to_string();
    let exp = data.claims.get("exp")?.as_u64()?;
    let username = data.claims.get("username").and_then(|v| v.as_str()).map(|s| s.to_string());
    Some((sub, exp, username))
}

/// std's `SystemTime`, carried unopened from the clock reading to its conversion.
#[verifier::external_type_specification]
#[verifier::external_body]
pub struct ExSystemTime(std::time::SystemTime);

/// Relies on std's `SystemTime::now`: the system clock's current reading.
#[verifier::external_body]
fn clock_now() -> (r: std::time::SystemTime) {
    std::time::SystemTime::now()
}

/// Relies on std's `SystemTime::duration_since(UNIX_EPOCH)`: the whole seconds
/// since the Unix epoch, or nothing for a reading before it.
#[verifier::external_body]
fn secs_since_epoch(t: &std::time::SystemTime) -> (r: Option<u64>) {
    match t.duration_since(std::time::UNIX_EPOCH) {
        Ok(d) => Some(d.as_secs()),
        Err(_) => None,
    }
}

/// The current time in seconds since the Unix epoch; a clock set before the
/// epoch reads as zero.
pub fn current_time() -> (r: u64) {
    match secs_since_epoch(&clock_now()) {
        Some(secs) => secs,
        None => 0,
    }
}

impl Claims {
    /// The claims of a session opened at time `now`: they expire one TTL later.
    pub fn for_session(sub: String, username: Option<String>, now: u64) -> (r: Claims)
        requires
            now <= u64::MAX - SESSION_TTL_SECS,
        ensures
            r@ == (ClaimsView { sub: sub@, exp: (now + SESSION_TTL_SECS) as u64, username: opt_chars(username) }),
    {
        Claims { sub, exp: now + SESSION_TTL_SECS, username }
    }
}

/// Encodes and signs `claims` under `secret`.
pub fn issue(claims: &Claims, secret: &[u8]) -> (r: Result<String, TokenError>)
    ensures
        r is Ok <==> jwt_of(claims@.sub, claims@.exp, claims@.username, secret@) is Some,
        r is Ok ==> issued(r->Ok_0@, claims@, secret@),
        r is Err ==> r->Err_0 == TokenError::Encoding,
{
    match jwt_encode(claims.sub.as_str(), claims.exp, &claims.username, secret) {
        Some(t) => Ok(t),
        None => Err(TokenError::Encoding),
    }
}

/// Validates `token` under `secret` at time `now`: it must be three
/// dot-separated parts, the last the signature of the first two, with readable
/// claims whose expiry lies after `now`.
pub fn validate_at(token: &str, secret: &[u8], now: u64) -> (r: Result<Claims, TokenError>)
    ensures
        match validation_outcome(token@, secret@, now) {
            Ok(c) => r is Ok && r->Ok_0@ == c,
            Err(e) => r == Err::<Claims, TokenError>(e),
        },
{
    let parts = split_dots(token);
    if parts.len() != 3 {
        return Err(TokenError::MalformedToken);
    }
    let mut message = parts[0].clone();
    push_char(&mut message, '.');
    push_str(&mut message, parts[1].as_str());
    proof {
        assert(message@ =~= dot_join(segments(token@)[0], segments(token@)[1]));
    }
    if !hs256_verify(parts[2].as_str(), message.as_str(), secret) {
        return Err(TokenError::InvalidSignature);
    }
    match jwt_decode(token, secret) {
        None => Err(TokenError::MalformedToken),
        Some((sub, exp, username)) => check_expiry(Claims { sub, exp, username }, now),
    }
}

/// Accepts claims whose signature has been checked if `now` lies before their
/// expiry; at the expiry and after, they are `Expired`.
pub fn check_expiry(claims: Claims, now: u64) -> (r: Result<Claims, TokenError>)
    ensures
        now < claims.exp ==> r is Ok && r->Ok_0@ == claims@,
        now >= claims.exp ==> r == Err::<Claims, TokenError>(TokenError::Expired),
{
    if now < claims.exp {
        Ok(claims)
    } else {
        Err(TokenError::Expired)
    }
}

/// Validates `token` under `secret` at the current time.
pub fn validate(token: &str, secret: &[u8]) -> (r: Result<Claims, TokenError>)
    ensures
        exists|now: u64|
            match #[trigger] validation_outcome(token@, secret@, now) {
                Ok(c) => r is Ok && r->Ok_0@ == c,
                Err(e) => r == Err::<Claims, TokenError>(e),
            },
{
    let now = current_time();
    validate_at(token, secret, now)
}

/// A token issued for some claims `ttl` seconds before their expiry is accepted,
/// with those claims, at every time before `issued_at + ttl`, and refused as
/// expired from then on.
pub proof fn lemma_issued_token_validates(
    token: Seq<char>,
    claims: ClaimsView,
    key: Seq<u8>,
    issued_at: u64,
    ttl: u64,
    now: u64,
)
    requires
        issued(token, claims, key),
        claims.exp == issued_at + ttl,
    ensures
        now < issued_at + ttl ==> validation_outcome(token, key, now) == Ok::<
            ClaimsView,
            TokenError,
        >(claims),
        now >= issued_at + ttl ==> validation_outcome(token, key, now) == Err::<
            ClaimsView,
            TokenError,
        >(TokenError::Expired),
{
    let (h, p) = choose|h: Seq<char>, p: Seq<char>|
        no_dot(h) && no_dot(p) && no_dot(#[trigger] hs256_of(dot_join(h, p), key)) && token
            == dot_join(dot_join(h, p), hs256_of(dot_join(h, p), key));
    lemma_segments_three(h, p, hs256_of(dot_join(h, p), key));
}

/// Replacing the signature part of an issued token by any other text never
/// gets it accepted, at any time: dot-free text fails with `InvalidSignature`,
/// text with a dot breaks the three-part shape.
pub proof fn lemma_altered_signature_rejected(
    token: Seq<char>,
    claims: ClaimsView,
    key: Seq<u8>,
    forged: Seq<char>,
    now: u64,
)
    requires
        issued(token, claims, key),
        forged != segments(token)[2],
    ensures
        segments(token).len() == 3,
        no_dot(forged) ==> validation_outcome(
            dot_join(dot_join(segments(token)[0], segments(token)[1]), forged),
            key,
            now,
        ) == Err::<ClaimsView, TokenError>(TokenError::InvalidSignature),
        !no_dot(forged) ==> validation_outcome(
            dot_join(dot_join(segments(token)[0], segments(token)[1]), forged),
            key,
            now,
        ) == Err::<ClaimsView, TokenError>(TokenError::MalformedToken),
{
    let (h, p) = choose|h: Seq<char>, p: Seq<char>|
        no_dot(h) && no_dot(p) && no_dot(#[trigger] hs256_of(dot_join(h, p), key)) && token
            == dot_join(dot_join(h, p), hs256_of(dot_join(h, p), key));
    lemma_segments_three(h, p, hs256_of(dot_join(h, p), key));
    if no_dot(forged) {
        lemma_segments_three(h, p, forged);
    } else {
        lemma_segments_no_dot(h);
        lemma_segments_dot_join(h, p);
        lemma_segments_concat(dot_join(h, p), forged);
        lemma_segments_with_dot(forged);
    }
}

} // verus!
