use rust_proxy::text::{
    append_decimal, chars_of, contains, decimal_string, eq_ignore_ascii_case, same_text,
    starts_with, to_ascii_lower,
};

#[test]
fn chars_of_keeps_every_character_in_order() {
    assert_eq!(chars_of("a-ü/9"), vec!['a', '-', 'ü', '/', '9']);
    assert_eq!(chars_of(""), Vec::<char>::new());
}

#[test]
fn starts_with_accepts_prefixes_only() {
    assert!(starts_with("/v1/proxy/api", "/v1/proxy"));
    assert!(starts_with("/v1/proxy", "/v1/proxy"));
    assert!(starts_with("/anything", ""));
    assert!(starts_with("/get", "/"));
    assert!(!starts_with("/v1/prox", "/v1/proxy"));
    assert!(!starts_with("v1/proxy", "/v1"));
    assert!(!starts_with("", "/"));
}

#[test]
fn contains_finds_a_pattern_anywhere() {
    assert!(contains("http://httpbin.org:80", "http"));
    assert!(contains("xxhttp", "http"));
    assert!(contains("https", "https"));
    assert!(contains("abc", ""));
    assert!(contains("", ""));
    assert!(!contains("httpbin.org:80".trim_start_matches("http"), "http"));
    assert!(!contains("config", "http"));
    assert!(!contains("htt", "http"));
    assert!(!contains("htxtp", "http"));
}

#[test]
fn same_text_is_exact() {
    assert!(same_text("127.0.0.1", "127.0.0.1"));
    assert!(!same_text("127.0.0.1", "127.0.0.10"));
    assert!(!same_text("Host", "host"));
    assert!(same_text("", ""));
}

#[test]
fn case_is_ignored_for_ascii_letters_only() {
    assert!(eq_ignore_ascii_case("Example.COM", "example.com"));
    assert!(eq_ignore_ascii_case("HOST", "host"));
    assert!(!eq_ignore_ascii_case("example.com", "example.org"));
    assert!(!eq_ignore_ascii_case("host", "hosts"));
    assert!(!eq_ignore_ascii_case("Ä", "ä"));
    assert!(!eq_ignore_ascii_case("@", "`"));
    assert!(!eq_ignore_ascii_case("[", "{"));
    assert_eq!(to_ascii_lower('A'), 'a');
    assert_eq!(to_ascii_lower('Z'), 'z');
    assert_eq!(to_ascii_lower('a'), 'a');
    assert_eq!(to_ascii_lower('@'), '@');
    assert_eq!(to_ascii_lower('['), '[');
    assert_eq!(to_ascii_lower('7'), '7');
}

#[test]
fn decimal_numerals_are_exact() {
    assert_eq!(decimal_string(0), "0");
    assert_eq!(decimal_string(7), "7");
    assert_eq!(decimal_string(10), "10");
    assert_eq!(decimal_string(4486), "4486");
    assert_eq!(decimal_string(65535), "65535");
    assert_eq!(decimal_string(1234567890), "1234567890");
    assert_eq!(decimal_string(u128::MAX), "340282366920938463463374607431768211455");
}

#[test]
fn append_decimal_keeps_what_was_there() {
    let mut out = String::from("port ");
    append_decimal(&mut out, 8870);
    assert_eq!(out, "port 8870");
    append_decimal(&mut out, 0);
    assert_eq!(out, "port 88700");
}

#[test]
fn test_output_serde() {
    let caps1 = contains("/v1/proxy", "/v1/proxy");
    let caps2 = contains("/v1/proxy/api", "/v1/proxy");
    let caps3 = contains("/v1/proxy/api?test=1", "/v1/proxy");
    let caps4 = contains("/v1/prox", "/v1/proxy");
    assert_eq!(caps1, true);
    assert_eq!(caps2, true);
    assert_eq!(caps3, true);
    assert_eq!(caps4, false);
}
