use vpn_killswitch::text::{
    eq_ignore_ascii_case, parse_asn, remove_as_prefix, remove_asn_prefix, u64_to_dec_string,
};

#[test]
fn normalization_strips_as_prefix() {
    assert_eq!(remove_asn_prefix(String::from("AS3320")).as_str(), "3320");
    assert_eq!(remove_asn_prefix(String::from("3320")).as_str(), "3320");
    assert_eq!(remove_as_prefix(String::from("AS3320")).as_str(), "3320");
    assert_eq!(remove_as_prefix(String::from("3320")).as_str(), "3320");
}

#[test]
fn normalization_idempotent_on_as_prefix() {
    let once = remove_asn_prefix(String::from("AS3320"));
    let twice = remove_asn_prefix(once.clone());
    assert_eq!(once.as_str(), "3320");
    assert_eq!(twice.as_str(), "3320");
}

#[test]
fn normalization_edge_cases() {
    assert_eq!(remove_asn_prefix(String::from("")).as_str(), "");
    assert_eq!(remove_asn_prefix(String::from("A")).as_str(), "A");
    assert_eq!(remove_asn_prefix(String::from("AS")).as_str(), "");
    assert_eq!(remove_asn_prefix(String::from("as3320")).as_str(), "as3320");
}

#[test]
fn parse_asn_takes_first_token() {
    assert_eq!(
        parse_asn(String::from("AS3320 Deutsche Telekom AG")).unwrap().as_str(),
        "3320"
    );
    assert_eq!(parse_asn(String::from("AS64512")).unwrap().as_str(), "64512");
    assert!(parse_asn(String::from("3320 Deutsche Telekom AG")).is_none());
    assert!(parse_asn(String::from("")).is_none());
    assert!(parse_asn(String::from(" AS3320")).is_none());
}

#[test]
fn case_insensitive_comparison() {
    assert!(eq_ignore_ascii_case("AS3320", "as3320"));
    assert!(eq_ignore_ascii_case("3320", "3320"));
    assert!(!eq_ignore_ascii_case("3320", "3321"));
    assert!(!eq_ignore_ascii_case("3320", "33200"));
    assert!(eq_ignore_ascii_case("", ""));
}

#[test]
fn decimal_rendering() {
    assert_eq!(u64_to_dec_string(0).as_str(), "0");
    assert_eq!(u64_to_dec_string(7).as_str(), "7");
    assert_eq!(u64_to_dec_string(3320).as_str(), "3320");
    assert_eq!(u64_to_dec_string(64512).as_str(), "64512");
    assert_eq!(
        u64_to_dec_string(18446744073709551615).as_str(),
        "18446744073709551615"
    );
}
