use api::encoding::json_quote;
use api::text::{chars_of, contains_str, strip_prefix};
use api::utils::session::token::{generate_refresh_token, hash_refresh_token, Claims};

#[test]
fn json_quoting() {
    assert_eq!(json_quote("plain"), "\"plain\"");
    assert_eq!(json_quote(""), "\"\"");
    assert_eq!(json_quote("a\"b\\c"), "\"a\\\"b\\\\c\"");
    assert_eq!(json_quote("\u{8}\t\n\u{c}\r"), "\"\\b\\t\\n\\f\\r\"");
    assert_eq!(json_quote("\u{0}\u{1f}\u{7f}"), "\"\\u0000\\u001f\u{7f}\"");
    assert_eq!(json_quote("/é✓"), "\"/é✓\"");
}

#[test]
fn hex_digest_is_lower_case_and_not_the_input() {
    let h = hash_refresh_token("token");
    assert_eq!(h.len(), 64);
    assert!(h.chars().all(|c| c.is_ascii_digit() || ('a'..='f').contains(&c)));
    assert_ne!(h, "token");
}

#[test]
fn refresh_token_alphabet() {
    for _ in 0..20 {
        let t = generate_refresh_token();
        assert_eq!(t.len(), 43);
        assert!(t.chars().all(|c| c.is_ascii_alphanumeric() || c == '-' || c == '_'));
    }
}

#[test]
fn claims_spell_uuid_and_numbers() {
    let c = Claims { sub: 0, role: "r".to_string(), iat: 0, exp: 18446744073709551615 };
    assert_eq!(
        c.to_json(),
        "{\"sub\":\"00000000-0000-0000-0000-000000000000\",\"role\":\"r\",\"iat\":0,\"exp\":18446744073709551615}"
    );
    let c = Claims { sub: 0x67e5504410b1426f9247bb680e5fe0c8, role: "é\n".to_string(), iat: 1725029869, exp: 7 };
    assert_eq!(
        c.to_json(),
        "{\"sub\":\"67e55044-10b1-426f-9247-bb680e5fe0c8\",\"role\":\"é\\n\",\"iat\":1725029869,\"exp\":7}"
    );
}

#[test]
fn text_helpers() {
    assert_eq!(chars_of("aé✓"), vec!['a', 'é', '✓']);
    assert!(contains_str("abc users_email_key def", "users_email_key"));
    assert!(!contains_str("users_email_ke", "users_email_key"));
    assert!(contains_str("x", ""));
    assert!(!contains_str("", "x"));
    assert_eq!(strip_prefix("Bearer abc", "Bearer "), Some("abc"));
    assert_eq!(strip_prefix("Bearer", "Bearer "), None);
    assert_eq!(strip_prefix("bearer abc", "Bearer "), None);
}
