use std::collections::hash_map::DefaultHasher;
use std::hash::{Hash, Hasher};
use contributor_platform::auth::{
    auth_header, bearer_token, generate_token, hash_password, mix_clock, rand_from_clock, rand_simple,
    token_text, verify_password,
};
use contributor_platform::text::{strip_prefix, text_eq, text_less, to_hex};

fn is_lower_hex(s: &str) -> bool {
    !s.is_empty() && s.chars().all(|c| c.is_ascii_digit() || ('a'..='f').contains(&c))
}

#[test]
fn hex_of_zero_is_single_digit() {
    assert_eq!(to_hex(0), "0");
}

#[test]
fn hex_matches_lower_hex_format() {
    for n in [1u128, 9, 10, 15, 16, 255, 256, 4096, 0xdead_beef, u64::MAX as u128, u128::MAX] {
        assert_eq!(to_hex(n), format!("{:x}", n));
    }
}

#[test]
fn text_order_is_bytewise() {
    assert!(text_less("2024-01-02", "2024-01-10"));
    assert!(!text_less("2024-01-10", "2024-01-02"));
    assert!(text_less("abc", "abcd"));
    assert!(!text_less("abc", "abc"));
    assert!(text_less("", "a"));
    assert!(text_less("2024-01-01 00:00:00", "2024-01-01T00:00:00Z"));
}

#[test]
fn text_equality() {
    assert!(text_eq("merged", "merged"));
    assert!(!text_eq("merged", "merge"));
    assert!(!text_eq("open", "Open"));
}

#[test]
fn strip_prefix_cases() {
    assert_eq!(strip_prefix("Bearer abc", "Bearer "), Some("abc".to_string()));
    assert_eq!(strip_prefix("Bearer ", "Bearer "), Some(String::new()));
    assert_eq!(strip_prefix("Bear", "Bearer "), None);
    assert_eq!(strip_prefix("bearer abc", "Bearer "), None);
}

#[test]
fn password_hash_is_stable_hex() {
    let h1 = hash_password("secret");
    let h2 = hash_password("secret");
    assert_eq!(h1, h2);
    assert!(is_lower_hex(&h1));
    assert!(h1.len() <= 16);
}

#[test]
fn password_hash_depends_on_password() {
    assert_ne!(hash_password("secret"), hash_password("Secret"));
    assert_ne!(hash_password(""), hash_password("a"));
}

#[test]
fn password_hash_matches_salted_default_hasher() {
    let mut hasher = DefaultHasher::new();
    "salt_contributor_platform".hash(&mut hasher);
    "hunter2".hash(&mut hasher);
    assert_eq!(hash_password("hunter2"), format!("{:x}", hasher.finish()));
}

#[test]
fn verify_password_roundtrip() {
    let stored = hash_password("pa55word");
    assert!(verify_password("pa55word", &stored));
    assert!(!verify_password("pa55wort", &stored));
    assert!(!verify_password("pa55word", ""));
}

#[test]
fn clock_mix_exact_values() {
    assert_eq!(mix_clock(0, 0), 0);
    assert_eq!(mix_clock(5, 0), 5);
    assert_eq!(mix_clock(0, 1), 6364136223846793005u64);
    let nanos: u128 = 1_700_000_000_123_456_789;
    let sub: u32 = 123_456_789;
    assert_eq!(mix_clock(nanos, sub), (nanos as u64) ^ (sub as u64).wrapping_mul(6364136223846793005));
    let huge: u128 = (1u128 << 70) + 7;
    assert_eq!(mix_clock(huge, 0), 7);
}

#[test]
fn token_text_concatenates_hex() {
    assert_eq!(token_text(255, 16), "ff10");
    assert_eq!(token_text(0, 0), "00");
}

#[test]
fn generated_token_is_hex_from_clock() {
    let t = generate_token().expect("clock after the epoch");
    assert!(is_lower_hex(&t));
    // nanoseconds since the epoch today take at least 15 hex digits
    assert!(t.len() >= 16);
    assert!(rand_simple().is_some());
}

#[test]
fn auth_header_and_back() {
    let h = auth_header("tok123");
    assert_eq!(h, "Bearer tok123");
    assert_eq!(bearer_token(&h), Some("tok123".to_string()));
    assert_eq!(bearer_token("Basic tok123"), None);
    assert_eq!(bearer_token(""), None);
}

#[test]
fn clock_number_mixes_reading_with_its_own_fraction() {
    let nanos: u128 = 1_700_000_000_123_456_789;
    let fraction: u32 = 123_456_789;
    assert_eq!(rand_from_clock(nanos), mix_clock(nanos, fraction));
    assert_eq!(
        rand_from_clock(nanos),
        (nanos as u64) ^ (fraction as u64).wrapping_mul(6364136223846793005)
    );
    assert_eq!(rand_from_clock(2_000_000_000), 2_000_000_000);
    assert_eq!(rand_from_clock(1), 1 ^ 6364136223846793005u64);
}
