//! Session claims and the signed compact tokens (HS256 JWT) that carry them.
use jsonwebtoken::errors::ErrorKind;
use crate::email::is_ascii_alnum;
use vstd::prelude::*;
use vstd::utf8::encode_utf8;

verus! {

/// Lifetime of a session token, in seconds.
pub const TOKEN_TTL_SECONDS: u64 = 60;

/// The compact token that jsonwebtoken signs, with HS256 under `key`, for the
/// claim set `{"email": email, "exp": exp}`.
pub uninterp spec fn jwt_encoded(email: Seq<char>, exp: u64, key: Seq<u8>) -> Seq<char>;

/// The claims `(email, exp)` that jsonwebtoken reads from `token` when its
/// HS256 signature under `key` is good and the payload holds both claims.
pub uninterp spec fn jwt_decoded(token: Seq<u8>, key: Seq<u8>) -> Option<(Seq<char>, u64)>;

/// A character of a compact token: the base64url alphabet, or the dot between segments.
pub open spec fn is_token_char(c: char) -> bool {
    is_ascii_alnum(c) || c == '-' || c == '_' || c == '.'
}

pub open spec fn is_token_text(s: Seq<char>) -> bool {
    forall|i: int| 0 <= i < s.len() ==> is_token_char(#[trigger] s[i])
}

/// The claims of a session: who it is for and when it ends (seconds since the epoch).
#[derive(Debug, Clone)]
pub struct Claims {
    pub email: String,
    pub exp: u64,
}

/// Why a token was not accepted.
#[derive(Debug, Clone, Copy, PartialEq, Eq)]
pub enum TokenError {
    /// The signature is intact but the expiry has been reached.
    Expired,
    /// The signature does not match the header and payload.
    BadSignature,
    /// The token is not three well-formed parts carrying the claims.
    Malformed,
}

/// A token could not be signed.
#[derive(Debug, Clone, Copy, PartialEq, Eq)]
pub struct SigningError;

/// Relies on `jsonwebtoken::encode` with the default header (HS256) and an HMAC
/// key made by `EncodingKey::from_secret`, over the claim set `{email, exp}`;
/// `jsonwebtoken::decode` under the same key gives those claims back. With an
/// HMAC key of any length and a two-entry claim set it does not fail, and the
/// token is three base64url segments joined by dots.
#[verifier::external_body]
fn jwt_encode(email: &str, exp: u64, key: &[u8]) -> (r: Option<String>)
    ensures
        r is Some,
        r matches Some(t) ==> is_token_text(t@),
        r matches Some(t) ==> t@ == jwt_encoded(email@, exp, key@),
        r matches Some(t) ==> jwt_decoded(encode_utf8(t@), key@) == Some((email@, exp)),
{
    let mut claims = serde_json::Map::new();
    claims.insert("email".to_string(), serde_json::Value::from(email));
    claims.insert("exp".to_string(), serde_json::Value::from(exp));
    let header = jsonwebtoken::Header::default();
    jsonwebtoken::encode(&header, &claims, &jsonwebtoken::EncodingKey::from_secret(key)).ok()
}

/// Relies on `jsonwebtoken::decode` with HS256 and `DecodingKey::from_secret`:
/// it checks the signature and that `exp` is present; expiry itself is left to
/// the caller (`validate_exp` off).
#[verifier::external_body]
fn jwt_decode(token: &[u8], key: &[u8]) -> (r: Result<(String, u64), TokenError>)
    ensures
        r is Ok <==> jwt_decoded(token@, key@) is Some,
        r matches Ok(c) ==> jwt_decoded(token@, key@) == Some((c.0@, c.1)),
        r matches Err(e) ==> e == TokenError::BadSignature || e == TokenError::Malformed,
{
    let mut rules = jsonwebtoken::Validation::new(jsonwebtoken::Algorithm::HS256);
    rules.validate_exp = false;
    let key = jsonwebtoken::DecodingKey::from_secret(key);
    match jsonwebtoken::decode::<serde_json::Map<String, serde_json::Value>>(token, &key, &rules) {
        Ok(d) => match (d.claims.get("email").and_then(|v| v.as_str()), d.claims.get("exp").and_then(|v| v.as_u64())) {
            (Some(e), Some(x)) => Ok((e.to_string(), x)),
            _ => Err(TokenError::Malformed),
        },
        Err(e) if matches!(e.kind(), ErrorKind::InvalidSignature) => Err(TokenError::BadSignature),
        Err(_) => Err(TokenError::Malformed),
    }
}

/// What verification answers for a token that decodes to `decoded`, at time `now`.
pub open spec fn verdict(decoded: Option<(Seq<char>, u64)>, now: u64) -> Option<(Seq<char>, u64)> {
    match decoded {
        Some((e, x)) => if now < x {
            Some((e, x))
        } else {
            None
        },
        None => None,
    }
}

impl Claims {
    /// Claims for `email` that end `ttl` seconds after `now`.
    pub fn issued_at(email: String, now: u64, ttl: u64) -> (r: Claims)
        requires
            now + ttl <= u64::MAX,
        ensures
            r.email@ == email@,
            r.exp == now + ttl,
    {
        Claims { email, exp: now + ttl }
    }

    /// Claims for `email` that end one token lifetime after the clock reading
    /// `now` (seconds since the epoch); `None` for a reading before the epoch or
    /// one that no expiry can follow.
    pub fn new(email: String, now: i64) -> (r: Option<Claims>)
        ensures
            r is Some <==> 0 <= now && now + TOKEN_TTL_SECONDS <= u64::MAX,
            r matches Some(c) ==> c.email@ == email@ && c.exp == now + TOKEN_TTL_SECONDS,
    {
        if now < 0 || now as u64 > u64::MAX - TOKEN_TTL_SECONDS {
            return None;
        }
        Some(Claims::issued_at(email, now as u64, TOKEN_TTL_SECONDS))
    }

    /// Signs the claims under `key` into a compact token.
    pub fn to_token(&self, key: &[u8]) -> (r: Result<String, SigningError>)
        ensures
            r is Ok,
            r matches Ok(t) ==> is_token_text(t@),
            r matches Ok(t) ==> t@ == jwt_encoded(self.email@, self.exp, key@),
            r matches Ok(t) ==> jwt_decoded(encode_utf8(t@), key@) == Some((self.email@, self.exp)),
    {
        match jwt_encode(self.email.as_str(), self.exp, key) {
            Some(t) => Ok(t),
            None => Err(SigningError),
        }
    }
}

/// Applies the expiry rule to what decoding a token gave: claims whose `exp`
/// is not after `now` are expired; decoding failures pass through.
pub fn check_expiry(decoded: Result<(String, u64), TokenError>, now: u64) -> (r: Result<
    Claims,
    TokenError,
>)
    ensures
        decoded matches Ok(c) ==> (now < c.1 ==> (r matches Ok(k) && k.email@ == c.0@ && k.exp
            == c.1)) && (now >= c.1 ==> r == Err::<Claims, TokenError>(TokenError::Expired)),
        decoded matches Err(e) ==> r == Err::<Claims, TokenError>(e),
{
    match decoded {
        Ok((email, exp)) => if now < exp {
            Ok(Claims { email, exp })
        } else {
            Err(TokenError::Expired)
        },
        Err(e) => Err(e),
    }
}

/// Checks the token's signature under `key`, then its expiry against `now`.
pub fn verify_token_bytes(token: &[u8], key: &[u8], now: u64) -> (r: Result<Claims, TokenError>)
    ensures
        r is Ok <==> verdict(jwt_decoded(token@, key@), now) is Some,
        r matches Ok(c) ==> verdict(jwt_decoded(token@, key@), now) == Some((c.email@, c.exp)),
        r == Err::<Claims, TokenError>(TokenError::Expired) <==> (jwt_decoded(token@, key@) matches Some(
            d) && now >= d.1),
{
    check_expiry(jwt_decode(token, key), now)
}

/// Checks a token given as text; see `verify_token_bytes`.
pub fn verify_token(token: &str, key: &[u8], now: u64) -> (r: Result<Claims, TokenError>)
    ensures
        r is Ok <==> verdict(jwt_decoded(encode_utf8(token@), key@), now) is Some,
        r matches Ok(c) ==> verdict(jwt_decoded(encode_utf8(token@), key@), now) == Some(
            (c.email@, c.exp),
        ),
        r == Err::<Claims, TokenError>(TokenError::Expired) <==> (jwt_decoded(
            encode_utf8(token@),
            key@,
        ) matches Some(d) && now >= d.1),
{
    verify_token_bytes(token.as_bytes(), key, now)
}

/// A token issued for `email` at `now` with lifetime `ttl` (what `to_token`
/// ensures of claims from `issued_at`) is accepted with subject `email` at every
/// time before `now + ttl`, and is expired from `now + ttl` on.
pub proof fn lemma_issued_token_lifetime(
    email: Seq<char>,
    now: u64,
    ttl: u64,
    key: Seq<u8>,
    token: Seq<char>,
    at: u64,
)
    requires
        now + ttl <= u64::MAX,
        jwt_decoded(encode_utf8(token), key) == Some((email, (now + ttl) as u64)),
    ensures
        at < now + ttl ==> verdict(jwt_decoded(encode_utf8(token), key), at) == Some(
            (email, (now + ttl) as u64),
        ),
        at >= now + ttl ==> verdict(jwt_decoded(encode_utf8(token), key), at) is None && (
        jwt_decoded(encode_utf8(token), key) matches Some(d) && at >= d.1),
{
}

} // verus!
