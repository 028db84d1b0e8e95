use val_store::fragment::{fragment_value, parse_token_fragment, parse_u64_decimal};

#[test]
fn parses_a_complete_fragment() {
    let frag = "access_token=abc.def.ghi&scope=account+openid&id_token=jkl&expires_in=3600";
    let tokens = parse_token_fragment(frag).expect("all keys present");
    assert_eq!(tokens.access_token.as_str(), "abc.def.ghi");
    assert_eq!(tokens.id_token.as_str(), "jkl");
    assert_eq!(tokens.expires_in, 3600);
}

#[test]
fn missing_key_yields_nothing() {
    assert!(parse_token_fragment("access_token=a&expires_in=60").is_none());
    assert!(parse_token_fragment("").is_none());
}

#[test]
fn repeated_key_yields_nothing() {
    let frag = "access_token=a&access_token=b&id_token=c&expires_in=60";
    assert!(parse_token_fragment(frag).is_none());
}

#[test]
fn non_numeric_lifetime_yields_nothing() {
    assert!(parse_token_fragment("access_token=a&id_token=b&expires_in=soon").is_none());
    assert!(parse_token_fragment("access_token=a&id_token=b&expires_in=").is_none());
}

#[test]
fn lifetime_overflow_yields_nothing() {
    let frag = "access_token=a&id_token=b&expires_in=99999999999999999999999";
    assert!(parse_token_fragment(frag).is_none());
}

#[test]
fn value_keeps_later_equals_signs() {
    assert_eq!(fragment_value("k=a=b&x=y", "k").as_deref(), Some("a=b"));
}

#[test]
fn key_without_equals_has_empty_value() {
    assert_eq!(fragment_value("flag&x=y", "flag").as_deref(), Some(""));
    assert!(fragment_value("flag&x=y", "missing").is_none());
}

#[test]
fn decimal_parse_bounds() {
    assert_eq!(parse_u64_decimal("0"), Some(0));
    assert_eq!(parse_u64_decimal("18446744073709551615"), Some(u64::MAX));
    assert_eq!(parse_u64_decimal("18446744073709551616"), None);
    assert_eq!(parse_u64_decimal(""), None);
    assert_eq!(parse_u64_decimal("12a"), None);
    assert_eq!(parse_u64_decimal("007"), Some(7));
}
