use hacker_news_worker::tools::{
    decimal, encode_base56, parse_decimal, strip_prefix, text_eq, ALPHABET, BASE,
};

#[test]
fn encode_zero_is_first_symbol() {
    assert_eq!(encode_base56(0), "2");
    assert_eq!(encode_base56(0), ALPHABET[0..1].to_string());
}

#[test]
fn encode_known_values() {
    assert_eq!(encode_base56(1), "3");
    assert_eq!(encode_base56(55), "Z");
    assert_eq!(encode_base56(56), "32");
    assert_eq!(encode_base56(57), "33");
    assert_eq!(encode_base56(3135), "ZZ");
    assert_eq!(encode_base56(46103532), "6Gxpn");
    assert_eq!(encode_base56(u64::MAX), "36PStStzWtuh");
}

#[test]
fn encode_is_deterministic() {
    assert_eq!(encode_base56(46103532), encode_base56(46103532));
}

#[test]
fn encode_small_values_are_distinct() {
    let codes: Vec<String> = (0..BASE).map(encode_base56).collect();
    for i in 0..codes.len() {
        for j in 0..codes.len() {
            if i != j {
                assert_ne!(codes[i], codes[j]);
            }
        }
    }
}

#[test]
fn alphabet_has_no_look_alikes() {
    assert_eq!(ALPHABET.len(), 56);
    for c in ['0', '1', 'I', 'l', 'O', 'o'] {
        assert!(!ALPHABET.contains(c));
    }
}

#[test]
fn decimal_values() {
    assert_eq!(decimal(0), "0");
    assert_eq!(decimal(7), "7");
    assert_eq!(decimal(3600), "3600");
    assert_eq!(decimal(u64::MAX), "18446744073709551615");
}

#[test]
fn parse_decimal_accepts_digits() {
    assert_eq!(parse_decimal("46103532"), Some(46103532));
    assert_eq!(parse_decimal("0"), Some(0));
    assert_eq!(parse_decimal("007"), Some(7));
    assert_eq!(parse_decimal("18446744073709551615"), Some(u64::MAX));
}

#[test]
fn parse_decimal_rejects_others() {
    assert_eq!(parse_decimal(""), None);
    assert_eq!(parse_decimal("12a"), None);
    assert_eq!(parse_decimal("-1"), None);
    assert_eq!(parse_decimal("+1"), None);
    assert_eq!(parse_decimal("18446744073709551616"), None);
    assert_eq!(parse_decimal("99999999999999999999999"), None);
}

#[test]
fn strip_prefix_cases() {
    assert_eq!(strip_prefix("HN-12", "HN-"), Some("12"));
    assert_eq!(strip_prefix("HN-", "HN-"), Some(""));
    assert_eq!(strip_prefix("XX-12", "HN-"), None);
    assert_eq!(strip_prefix("HN", "HN-"), None);
}

#[test]
fn text_eq_cases() {
    assert!(text_eq("abc", "abc"));
    assert!(!text_eq("abc", "abd"));
    assert!(!text_eq("abc", "ab"));
    assert!(text_eq("", ""));
}
