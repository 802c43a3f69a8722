use vpn_killswitch::consensus::{reconcile, ConsensusError, ProviderReport};
use vpn_killswitch::public_ip::error::PublicIpLookupError;
use vpn_killswitch::public_ip::public_ip::PublicIpLookupResponse;

fn ok_report(source: &str, ip: u32, asn: Option<&str>) -> ProviderReport {
    ProviderReport {
        source: String::from(source),
        outcome: Ok(PublicIpLookupResponse { ip, asn: asn.map(String::from) }),
    }
}

fn err_report(source: &str) -> ProviderReport {
    ProviderReport {
        source: String::from(source),
        outcome: Err(PublicIpLookupError::HttpError(String::from("timeout"))),
    }
}

#[test]
fn matching_asns_accepted() {
    let reports = vec![
        ok_report("a", 100, Some("3320")),
        ok_report("b", 100, Some("3320")),
    ];
    let r = reconcile(&reports).unwrap();
    assert_eq!(r.ip, 100);
    assert_eq!(r.asn.unwrap().as_str(), "3320");
}

#[test]
fn asn_match_is_case_insensitive() {
    let reports = vec![
        ok_report("a", 100, Some("abc123")),
        ok_report("b", 100, Some("ABC123")),
    ];
    assert!(reconcile(&reports).is_ok());
}

#[test]
fn single_differing_pair_is_mismatch() {
    let reports = vec![
        ok_report("a", 100, Some("3320")),
        ok_report("b", 100, Some("64512")),
    ];
    match reconcile(&reports).unwrap_err() {
        ConsensusError::ConsensusMismatch { first_source, second_source } => {
            assert_eq!(first_source.as_str(), "a");
            assert_eq!(second_source.as_str(), "b");
        }
        ConsensusError::AllProvidersFailed => panic!("wrong error variant"),
    }
}

#[test]
fn mismatch_found_among_many() {
    let reports = vec![
        err_report("a"),
        ok_report("b", 100, Some("3320")),
        ok_report("c", 100, None),
        ok_report("d", 100, Some("64512")),
    ];
    match reconcile(&reports).unwrap_err() {
        ConsensusError::ConsensusMismatch { first_source, second_source } => {
            assert_eq!(first_source.as_str(), "b");
            assert_eq!(second_source.as_str(), "d");
        }
        ConsensusError::AllProvidersFailed => panic!("wrong error variant"),
    }
}

#[test]
fn asn_less_records_compare_ips_only() {
    let reports = vec![
        ok_report("a", 100, Some("3320")),
        ok_report("b", 100, None),
    ];
    let r = reconcile(&reports).unwrap();
    assert_eq!(r.ip, 100);
    assert_eq!(r.asn.unwrap().as_str(), "3320");
}

#[test]
fn differing_ips_are_mismatch() {
    let reports = vec![
        ok_report("a", 100, None),
        ok_report("b", 200, None),
    ];
    assert!(matches!(
        reconcile(&reports),
        Err(ConsensusError::ConsensusMismatch { .. })
    ));
}

#[test]
fn failed_providers_are_skipped() {
    let reports = vec![
        err_report("a"),
        ok_report("b", 100, Some("3320")),
        err_report("c"),
    ];
    let r = reconcile(&reports).unwrap();
    assert_eq!(r.ip, 100);
}

#[test]
fn zero_successes_fail_resolution() {
    let reports = vec![err_report("a"), err_report("b")];
    assert!(matches!(
        reconcile(&reports),
        Err(ConsensusError::AllProvidersFailed)
    ));
    let empty: Vec<ProviderReport> = Vec::new();
    assert!(matches!(
        reconcile(&empty),
        Err(ConsensusError::AllProvidersFailed)
    ));
}
