use sshportal::hostname::{is_valid_hostname, is_valid_ip_address};

#[test]
fn rejects_adjacent_dots() {
    assert!(!is_valid_hostname("a..b"));
}

#[test]
fn rejects_leading_dash() {
    assert!(!is_valid_hostname("-abc"));
}

#[test]
fn rejects_trailing_dash() {
    assert!(!is_valid_hostname("abc-"));
}

#[test]
fn rejects_empty_token() {
    assert!(!is_valid_hostname(""));
}

#[test]
fn rejects_254_characters() {
    let token = "a".repeat(254);
    assert!(!is_valid_hostname(&token));
}

#[test]
fn accepts_253_characters() {
    let token = "a".repeat(253);
    assert!(is_valid_hostname(&token));
}

#[test]
fn accepts_dashed_dotted_name() {
    assert!(is_valid_hostname("web-01.internal"));
}

#[test]
fn accepts_dotted_quad_as_hostname() {
    assert!(is_valid_hostname("10.0.0.5"));
}

#[test]
fn leading_zero_quad_is_hostname_but_no_address() {
    assert!(is_valid_hostname("010.0.0.5"));
    assert!(!is_valid_ip_address("010.0.0.5"));
}

#[test]
fn rejects_leading_and_trailing_dot() {
    assert!(!is_valid_hostname(".abc"));
    assert!(!is_valid_hostname("abc."));
}

#[test]
fn rejects_other_characters() {
    assert!(!is_valid_hostname("bogus!host"));
    assert!(!is_valid_hostname("user@host"));
    assert!(!is_valid_hostname("under_score"));
    assert!(!is_valid_hostname("sp ace"));
    assert!(!is_valid_hostname("h\u{00f6}st"));
}

#[test]
fn non_ascii_token_within_byte_limit_is_rejected() {
    // 127 two-byte characters: 254 bytes, 127 characters.
    let token = "\u{00e9}".repeat(127);
    assert!(!is_valid_hostname(&token));
}

#[test]
fn dash_next_to_dot_is_accepted() {
    assert!(is_valid_hostname("a-.b"));
    assert!(is_valid_hostname("a.-b"));
}

#[test]
fn single_character_names() {
    assert!(is_valid_hostname("a"));
    assert!(is_valid_hostname("7"));
    assert!(!is_valid_hostname("-"));
    assert!(!is_valid_hostname("."));
}

#[test]
fn dotted_quads() {
    assert!(is_valid_ip_address("10.0.0.5"));
    assert!(is_valid_ip_address("0.0.0.0"));
    assert!(is_valid_ip_address("255.255.255.255"));
    assert!(is_valid_ip_address("192.168.1.1"));
}

#[test]
fn not_dotted_quads() {
    assert!(!is_valid_ip_address(""));
    assert!(!is_valid_ip_address("1.2.3"));
    assert!(!is_valid_ip_address("1.2.3.4.5"));
    assert!(!is_valid_ip_address("256.0.0.1"));
    assert!(!is_valid_ip_address("1..2.3"));
    assert!(!is_valid_ip_address("1.2.3."));
    assert!(!is_valid_ip_address(".1.2.3"));
    assert!(!is_valid_ip_address("a.b.c.d"));
    assert!(!is_valid_ip_address("1.2.3.04"));
    assert!(!is_valid_ip_address("1.2.3.00"));
    assert!(!is_valid_ip_address("1.2.3.-4"));
    assert!(!is_valid_ip_address("+1.2.3.4"));
    assert!(!is_valid_ip_address("1.2.3.4 "));
    assert!(!is_valid_ip_address("1.2.3.99999999999999999999"));
}

#[test]
fn every_dotted_quad_of_a_sample_is_a_hostname() {
    for a in [0u32, 1, 9, 10, 99, 100, 199, 255] {
        for d in [0u32, 7, 42, 255] {
            let token = format!("{}.{}.{}.{}", a, d, a, d);
            assert!(is_valid_ip_address(&token));
            assert!(is_valid_hostname(&token));
        }
    }
}
