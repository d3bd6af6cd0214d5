use halley::status::reason_phrase;
use halley::text::{str_eq, u64_to_dec};

#[test]
fn decimal_of_zero_is_a_single_digit() {
    assert_eq!(u64_to_dec(0), "0");
}

#[test]
fn decimal_of_small_numbers() {
    assert_eq!(u64_to_dec(7), "7");
    assert_eq!(u64_to_dec(10), "10");
    assert_eq!(u64_to_dec(404), "404");
}

#[test]
fn decimal_of_large_numbers() {
    assert_eq!(u64_to_dec(65535), "65535");
    assert_eq!(u64_to_dec(u64::MAX), "18446744073709551615");
}

#[test]
fn str_eq_agrees_with_equality() {
    assert!(str_eq("", ""));
    assert!(str_eq("GET", "GET"));
    assert!(!str_eq("GET", "POST"));
    assert!(!str_eq("GET", "get"));
    assert!(!str_eq("/about", "/abou"));
    assert!(!str_eq("", "a"));
}

#[test]
fn str_eq_handles_multibyte_characters() {
    assert!(str_eq("caf\u{e9}", "caf\u{e9}"));
    assert!(!str_eq("caf\u{e9}", "cafe"));
}

#[test]
fn reason_phrases_match_the_registry() {
    assert_eq!(reason_phrase(100), "Continue");
    assert_eq!(reason_phrase(200), "OK");
    assert_eq!(reason_phrase(203), "Non-Authoritative Information");
    assert_eq!(reason_phrase(404), "Not Found");
    assert_eq!(reason_phrase(418), "I'm a Teapot");
    assert_eq!(reason_phrase(451), "Unavailable For Legal Reasons");
    assert_eq!(reason_phrase(509), "Bandwidth Limit Exceeded");
    assert_eq!(reason_phrase(511), "Network Authentication Required");
}

#[test]
fn unknown_codes_get_the_generic_phrase() {
    assert_eq!(reason_phrase(0), "Unknown Status");
    assert_eq!(reason_phrase(306), "Unknown Status");
    assert_eq!(reason_phrase(999), "Unknown Status");
}
