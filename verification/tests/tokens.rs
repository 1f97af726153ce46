use api::clock::UtcTime;
use api::errors::{AppError, ErrorKind};
use api::utils::session::auth::{accept_claims, bearer_token, AuthUser};
use api::utils::session::session::{mint_session_at, must_revoke_oldest};
use api::utils::session::token::{
    create_access_token, create_access_token_at, generate_refresh_token, hash_refresh_token, Claims,
};
use base64::Engine;

#[test]
fn refresh_token_hash_is_sha256_hex() {
    assert_eq!(
        hash_refresh_token("abc"),
        "ba7816bf8f01cfea414140de5dae2223b00361a396177a9cb410ff61f20015ad"
    );
    assert_eq!(
        hash_refresh_token(""),
        "e3b0c44298fc1c149afbf4c8996fb92427ae41e4649b934ca495991b7852b855"
    );
    assert_eq!(hash_refresh_token("same"), hash_refresh_token("same"));
    assert_ne!(hash_refresh_token("one"), hash_refresh_token("two"));
}

#[test]
fn refresh_tokens_are_43_url_safe_characters() {
    let a = generate_refresh_token();
    let b = generate_refresh_token();
    assert_eq!(a.len(), 43);
    assert!(a.chars().all(|c| c.is_ascii_alphanumeric() || c == '-' || c == '_'));
    let bytes = base64::engine::general_purpose::URL_SAFE_NO_PAD.decode(&a).unwrap();
    assert_eq!(bytes.len(), 32);
    assert_ne!(a, b);
}

#[test]
fn claims_json_and_expiry() {
    let c = Claims::issued_at(0x67e5504410b1426f9247bb680e5fe0c8, "ad\"min", 1000);
    assert_eq!(c.iat, 1000);
    assert_eq!(c.exp, 1900);
    assert_eq!(
        c.to_json(),
        "{\"sub\":\"67e55044-10b1-426f-9247-bb680e5fe0c8\",\"role\":\"ad\\\"min\",\"iat\":1000,\"exp\":1900}"
    );
}

fn decode(token: &str, secret: &[u8]) -> serde_json::Value {
    let mut validation = jsonwebtoken::Validation::new(jsonwebtoken::Algorithm::HS256);
    validation.validate_exp = false;
    jsonwebtoken::decode::<serde_json::Value>(
        token,
        &jsonwebtoken::DecodingKey::from_secret(secret),
        &validation,
    )
    .unwrap()
    .claims
}

#[test]
fn access_token_is_a_valid_hs256_jwt() {
    let secret = b"test-secret";
    let token = create_access_token_at(42, "user", secret, 1_700_000_000).unwrap();
    let parts: Vec<&str> = token.split('.').collect();
    assert_eq!(parts.len(), 3);
    let header = base64::engine::general_purpose::URL_SAFE_NO_PAD.decode(parts[0]).unwrap();
    assert_eq!(header, b"{\"typ\":\"JWT\",\"alg\":\"HS256\"}");
    let claims = decode(&token, secret);
    assert_eq!(claims["sub"], "00000000-0000-0000-0000-00000000002a");
    assert_eq!(claims["role"], "user");
    assert_eq!(claims["iat"], 1_700_000_000u64);
    assert_eq!(claims["exp"], 1_700_000_900u64);
    // A different secret does not verify.
    let validation = jsonwebtoken::Validation::new(jsonwebtoken::Algorithm::HS256);
    assert!(jsonwebtoken::decode::<serde_json::Value>(
        &token,
        &jsonwebtoken::DecodingKey::from_secret(b"other"),
        &validation
    )
    .is_err());
}

#[test]
fn access_token_at_current_time_decodes_with_default_validation() {
    let secret = b"s3cret";
    let token = create_access_token(7, "admin", secret).unwrap();
    let validation = jsonwebtoken::Validation::new(jsonwebtoken::Algorithm::HS256);
    let data = jsonwebtoken::decode::<serde_json::Value>(
        &token,
        &jsonwebtoken::DecodingKey::from_secret(secret),
        &validation,
    )
    .unwrap();
    assert_eq!(data.claims["role"], "admin");
    let iat = data.claims["iat"].as_u64().unwrap();
    let exp = data.claims["exp"].as_u64().unwrap();
    assert_eq!(exp, iat + 900);
}

#[test]
fn bearer_header() {
    assert_eq!(bearer_token(Some("Bearer abc.def")).ok(), Some("abc.def"));
    assert_eq!(bearer_token(Some("Bearer ")).ok(), Some(""));
    match bearer_token(None) {
        Err(AppError::Unauthorized(m)) => assert_eq!(m, "Missing Authorization header"),
        _ => panic!(),
    }
    match bearer_token(Some("Basic abc")) {
        Err(AppError::Unauthorized(m)) => assert_eq!(m, "Invalid Authorization header"),
        _ => panic!(),
    }
    match bearer_token(Some("bearer abc")) {
        Err(AppError::Unauthorized(m)) => assert_eq!(m, "Invalid Authorization header"),
        _ => panic!(),
    }
}

#[test]
fn claims_acceptance() {
    match accept_claims(None) {
        Err(e) => {
            assert_eq!(e.kind(), ErrorKind::Unauthorized);
            assert_eq!(e.message(), "Invalid or expired access token");
        }
        Ok(_) => panic!(),
    }
    let c = Claims { sub: 9, role: "user".to_string(), iat: 1, exp: 2 };
    let c = accept_claims(Some(c)).ok().unwrap();
    let u = AuthUser::from_claims(c);
    assert_eq!(u.user_id, 9);
    assert_eq!(u.role, "user");
}

#[test]
fn session_cap() {
    assert!(!must_revoke_oldest(0));
    assert!(!must_revoke_oldest(4));
    assert!(must_revoke_oldest(5));
    assert!(must_revoke_oldest(6));
}

#[test]
fn minted_sessions() {
    let now = UtcTime { secs: 1_700_000_000, nanos: 5 };
    let s = mint_session_at(now).unwrap();
    assert_eq!(s.expires_at, UtcTime { secs: 1_700_000_000 + 30 * 86400, nanos: 5 });
    assert_eq!(s.token_hash, hash_refresh_token(&s.raw_token));
    assert_eq!(s.raw_token.len(), 43);
    assert_eq!(s.token_hash.len(), 64);
    assert_ne!(s.token_hash, s.raw_token);
    let late = UtcTime { secs: api::clock::MAX_UTC_TIMESTAMP - 10, nanos: 0 };
    assert!(mint_session_at(late).is_none());
    assert_eq!(UtcTime { secs: 10, nanos: 1 }.plus_days(1), Some(UtcTime { secs: 86410, nanos: 1 }));
}
