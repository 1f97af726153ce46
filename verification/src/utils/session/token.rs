//! Access tokens (HS256-signed JWTs) and opaque refresh tokens.

use vstd::prelude::*;
use vstd::utf8::encode_utf8;
use rand::RngCore;
use sha2::Digest;
use crate::encoding::{
    base64_url, base64_url_encode, base64_url_len, decimal, hex_encode, hex_lower,
    hex_lower_char, json_quote, json_string, lemma_base64_url, lemma_hex_lower, u64_to_decimal,
    url_safe_char, uuid_string, uuid_to_string,
};
use crate::clock::{MAX_UTC_TIMESTAMP, UtcTime, clock_reading, now_utc};
use crate::errors::{AppError, ErrorKind};
use crate::text::lemma_encode_utf8_len;

verus! {

broadcast use vstd::string::to_string_from_display_ensures_for_str;

/// Lifetime of an access token, in minutes.
pub const ACCESS_TOKEN_TTL_MINUTES: i64 = 15;

/// Lifetime of a refresh token, in days.
pub const REFRESH_TOKEN_TTL_DAYS: i64 = 30;

/// Number of live sessions a user may hold at once.
pub const MAX_SESSIONS_PER_USER: i64 = 5;

/// The claims carried by an access token.
pub struct Claims {
    /// The user the token was issued to (a UUID, as a big-endian 128-bit number).
    pub sub: u128,
    /// The user's role.
    pub role: String,
    /// Issue time, in Unix seconds.
    pub iat: usize,
    /// Expiry time, in Unix seconds.
    pub exp: usize,
}

/// SHA-256 digest of a byte string, as the `sha2` crate computes it.
pub uninterp spec fn sha256(data: Seq<u8>) -> Seq<u8>;

/// HMAC-SHA256 tag of `message` under `key`, as `ring::hmac` computes it.
pub uninterp spec fn hmac_sha256(key: Seq<u8>, message: Seq<u8>) -> Seq<u8>;

/// Calls `Sha256::digest` of the `sha2` crate; the digest is named `sha256`,
/// and its output array has 32 bytes.
#[verifier::external_body]
fn sha256_digest(data: &[u8]) -> (r: Vec<u8>)
    ensures
        r@ == sha256(data@),
        r@.len() == 32,
{
    sha2::Sha256::digest(data).to_vec()
}

/// The stored form of a refresh token: the lower-case hex SHA-256 of its UTF-8 bytes.
pub open spec fn refresh_token_hash(token: Seq<char>) -> Seq<char> {
    hex_lower(sha256(encode_utf8(token)))
}

/// Hashes a refresh token for storage: SHA-256 of its bytes, in lower-case hex.
/// The hash is always 64 hex characters.
pub fn hash_refresh_token(token: &str) -> (r: String)
    ensures
        r@ == refresh_token_hash(token@),
        r@.len() == 64,
        forall|i: int| 0 <= i < r@.len() ==> hex_lower_char(#[trigger] r@[i]),
{
    let digest = sha256_digest(token.as_bytes());
    proof {
        lemma_hex_lower(digest@);
    }
    hex_encode(digest.as_slice())
}

/// Fills 32 bytes from `rand::rng()`, the thread-local generator seeded by the
/// operating system. Nothing is stated of the bytes but their number.
#[verifier::external_body]
fn random_bytes_32() -> (r: Vec<u8>)
    ensures
        r@.len() == 32,
{
    let mut bytes = [0u8;32];
    rand::rng().fill_bytes(&mut bytes);
    bytes.to_vec()
}

/// A refresh token is the unpadded URL-safe base64 spelling of 32 bytes.
pub open spec fn is_refresh_token(t: Seq<char>) -> bool {
    exists|b: Seq<u8>| b.len() == 32 && #[trigger] base64_url(b) == t
}

/// Draws a fresh refresh token: 32 random bytes in unpadded URL-safe base64,
/// which is 43 characters of `A-Za-z0-9-_`.
pub fn generate_refresh_token() -> (r: String)
    ensures
        is_refresh_token(r@),
        r@.len() == 43,
        forall|i: int| 0 <= i < r@.len() ==> url_safe_char(#[trigger] r@[i]),
{
    let bytes = random_bytes_32();
    let r = base64_url_encode(bytes.as_slice());
    proof {
        lemma_base64_url(bytes@);
        assert(base64_url_len(32) == 43);
    }
    r
}

/// The compact JSON of a set of claims, fields in declaration order.
pub open spec fn claims_json(sub: u128, role: Seq<char>, iat: nat, exp: nat) -> Seq<char> {
    "{\"sub\":"@ + json_string(uuid_string(sub)) + ",\"role\":"@ + json_string(role) + ",\"iat\":"@
        + decimal(iat) + ",\"exp\":"@ + decimal(exp) + "}"@
}

/// The JSON of the JWT header for HS256: `{"typ":"JWT","alg":"HS256"}`.
pub open spec fn jwt_header_json() -> Seq<char> {
    "{\"typ\":\"JWT\",\"alg\":\"HS256\"}"@
}

/// The signed part of a JWT: base64 header, a dot, base64 claims.
pub open spec fn jwt_signing_input(claims: Seq<char>) -> Seq<char> {
    base64_url(encode_utf8(jwt_header_json())) + "."@ + base64_url(encode_utf8(claims))
}

/// An HS256 JWT for the given claims JSON: the signing input, a dot, and the
/// base64 HMAC-SHA256 of the signing input under the secret.
pub open spec fn hs256_jwt(claims: Seq<char>, secret: Seq<u8>) -> Seq<char> {
    let m = jwt_signing_input(claims);
    m + "."@ + base64_url(hmac_sha256(secret, encode_utf8(m)))
}

/// The claims JSON of an access token issued at `now` to a user.
pub open spec fn access_claims_json(user_id: u128, role: Seq<char>, now: i64) -> Seq<char> {
    claims_json(user_id, role, (now as usize) as nat, ((now + ACCESS_TOKEN_TTL_MINUTES * 60) as usize) as nat)
}

/// The access token issued at `now` to a user, under a secret.
pub open spec fn access_token(user_id: u128, role: Seq<char>, secret: Seq<u8>, now: i64) -> Seq<char> {
    hs256_jwt(access_claims_json(user_id, role, now), secret)
}

/// The clock readings for which an access token can be issued: from the Unix
/// epoch up to the last moment whose expiry chrono can still represent.
pub open spec fn issuable_at(now: i64) -> bool {
    0 <= now <= MAX_UTC_TIMESTAMP - ACCESS_TOKEN_TTL_MINUTES * 60
}

impl Claims {
    /// The claims of an access token issued at `now`: it expires
    /// `ACCESS_TOKEN_TTL_MINUTES` minutes later.
    pub fn issued_at(user_id: u128, role: &str, now: i64) -> (c: Claims)
        requires
            issuable_at(now),
        ensures
            c.sub == user_id,
            c.role@ == role@,
            c.iat == now as usize,
            c.exp == (now + ACCESS_TOKEN_TTL_MINUTES * 60) as usize,
    {
        let exp: i64 = now + ACCESS_TOKEN_TTL_MINUTES * 60;
        Claims { sub: user_id, role: role.to_string(), iat: now as usize, exp: exp as usize }
    }

    /// The compact JSON of the claims, as serde writes the struct.
    pub fn to_json(&self) -> (r: String)
        ensures
            r@ == claims_json(self.sub, self.role@, self.iat as nat, self.exp as nat),
    {
        let sub = uuid_to_string(self.sub);
        let mut r = "{\"sub\":".to_string();
        r.append(json_quote(sub.as_str()).as_str());
        r.append(",\"role\":");
        r.append(json_quote(self.role.as_str()).as_str());
        r.append(",\"iat\":");
        r.append(u64_to_decimal(self.iat as u64).as_str());
        r.append(",\"exp\":");
        r.append(u64_to_decimal(self.exp as u64).as_str());
        r.append("}");
        r
    }
}

/// Error type of `jsonwebtoken`.
#[verifier::external_type_specification]
#[verifier::external_body]
pub struct ExJwtError(jsonwebtoken::errors::Error);

/// Calls `serde_json::to_string` on `jsonwebtoken::Header::new(Algorithm::HS256)`.
/// The header has `typ` set to `JWT`, `alg` to `HS256` and every other field
/// empty and skipped, so the JSON is `{"typ":"JWT","alg":"HS256"}`; writing it
/// to a buffer cannot fail.
#[verifier::external_body]
fn hs256_header_json() -> (r: Result<String, serde_json::Error>)
    ensures
        r is Ok,
        r->Ok_0@ == jwt_header_json(),
{
    serde_json::to_string(&jsonwebtoken::Header::new(jsonwebtoken::Algorithm::HS256))
}

/// Calls `jsonwebtoken::crypto::sign` with an HMAC key made from the secret
/// and `Algorithm::HS256`: the HMAC-SHA256 tag of the message, in unpadded
/// URL-safe base64. For HS256 the function always returns `Ok`.
#[verifier::external_body]
fn hs256_sign(message: &[u8], secret: &[u8]) -> (r: Result<String, jsonwebtoken::errors::Error>)
    ensures
        r is Ok,
        r->Ok_0@ == base64_url(hmac_sha256(secret@, message@)),
{
    jsonwebtoken::crypto::sign(
        message,
        &jsonwebtoken::EncodingKey::from_secret(secret),
        jsonwebtoken::Algorithm::HS256,
    )
}

/// Signs claims JSON as an HS256 JWT: the library frames the token, the
/// `jsonwebtoken` crate computes the signature. The base64 step refuses
/// inputs longer than `usize::MAX / 2` bytes, which no string in memory reaches;
/// for them an `InternalError` is returned.
pub fn sign_hs256(claims: &str, secret: &[u8]) -> (r: Result<String, AppError>)
    ensures
        encode_utf8(claims@).len() <= usize::MAX / 2 ==> r is Ok && r->Ok_0@ == hs256_jwt(claims@, secret@),
        encode_utf8(claims@).len() > usize::MAX / 2 ==> (r matches Err(e) && e@.0 == ErrorKind::InternalError),
{
    let header = match hs256_header_json() {
        Ok(h) => h,
        Err(_) => String::new(),
    };
    let header_bytes = header.as_str().as_bytes();
    let claims_bytes = claims.as_bytes();
    if claims_bytes.len() > usize::MAX / 2 {
        return Err(AppError::InternalError("Failed to create access token: claims too large".to_string()));
    }
    proof {
        reveal_strlit("{\"typ\":\"JWT\",\"alg\":\"HS256\"}");
    }
    assert(header_bytes@.len() <= usize::MAX / 2) by {
        lemma_encode_utf8_len(header@);
    }
    let mut message = base64_url_encode(header_bytes);
    message.append(".");
    message.append(base64_url_encode(claims_bytes).as_str());
    let signature = match hs256_sign(message.as_str().as_bytes(), secret) {
        Ok(s) => s,
        Err(_) => String::new(),
    };
    let mut token = message;
    token.append(".");
    token.append(signature.as_str());
    Ok(token)
}

/// An access token issued at `now` (Unix seconds) carries `iat = now` and
/// `exp = now + 900`: it expires fifteen minutes after it is issued.
pub proof fn law_access_token_lifetime(user_id: u128, role: Seq<char>, now: i64)
    requires
        issuable_at(now),
        now + 900 <= usize::MAX,
    ensures
        access_claims_json(user_id, role, now) == claims_json(user_id, role, now as nat, (now + 900) as nat),
{
}

/// The access token issued at clock reading `now` is the HS256 JWT, under the
/// secret, of the claims `sub` = the user, `role`, `iat = now` and
/// `exp = now + 900` (fifteen minutes later).
pub proof fn law_access_token_claims(user_id: u128, role: Seq<char>, secret: Seq<u8>, now: i64)
    requires
        issuable_at(now),
        now + 900 <= usize::MAX,
    ensures
        access_token(user_id, role, secret, now) == hs256_jwt(
            claims_json(user_id, role, now as nat, (now + 900) as nat),
            secret,
        ),
{
}

/// Creates the access token of a user at clock reading `now`: claims with
/// the user id as `sub`, the role, `iat = now` and `exp = now + 15 minutes`,
/// signed with HS256 under `secret`.
pub fn create_access_token_at(user_id: u128, role: &str, secret: &[u8], now: i64) -> (r: Result<
    String,
    AppError,
>)
    requires
        issuable_at(now),
    ensures
        encode_utf8(access_claims_json(user_id, role@, now)).len() <= usize::MAX / 2 ==> r is Ok
            && r->Ok_0@ == access_token(user_id, role@, secret@, now),
        encode_utf8(access_claims_json(user_id, role@, now)).len() > usize::MAX / 2 ==> (r matches Err(
            e,
        ) && e@.0 == ErrorKind::InternalError),
{
    let claims = Claims::issued_at(user_id, role, now);
    let json = claims.to_json();
    sign_hs256(json.as_str(), secret)
}

/// Creates an access token for a user at the current time. When the clock
/// reads a moment whose expiry chrono cannot represent (the year 262142), an
/// `InternalError` is returned.
pub fn create_access_token(user_id: u128, role: &str, secret: &[u8]) -> (r: Result<String, AppError>)
    ensures
        r is Ok ==> exists|t: UtcTime|
            clock_reading(t) && issuable_at(t.secs) && #[trigger] access_token(
                user_id,
                role@,
                secret@,
                t.secs,
            ) == r->Ok_0@,
        r is Err ==> r->Err_0@.0 == ErrorKind::InternalError,
{
    let reading = now_utc();
    let now: i64 = reading.secs;
    if now > MAX_UTC_TIMESTAMP - ACCESS_TOKEN_TTL_MINUTES * 60 {
        return Err(AppError::InternalError("Failed to create access token: time out of range".to_string()));
    }
    let r = create_access_token_at(user_id, role, secret, now);
    assert(r is Ok ==> access_token(user_id, role@, secret@, reading.secs) == r->Ok_0@);
    r
}

} // verus!
