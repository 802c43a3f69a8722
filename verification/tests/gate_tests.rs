use vpn_killswitch::gate::{
    evaluate_gate, handle_healthcheck, handle_killswitch, poll_step, GateCache, GateDecision,
    GateRule, KillSwitchState,
};
use vpn_killswitch::ipinfo::{IPInfoResponse, IpInfo};
use vpn_killswitch::public_ip::error::PublicIpLookupError;

fn info(asn: &str) -> IpInfo {
    IpInfo {
        ip: String::from("93.254.94.16"),
        as_number: String::from(asn),
        as_name: String::from("Deutsche Telekom AG"),
        as_domain: String::from("telekom.de"),
    }
}

#[test]
fn matching_record_passes() {
    let mut state = KillSwitchState::new(GateRule::new(String::from("AS3320")));
    state.cache.update(info("AS3320"), 1000);
    let (code, body) = handle_killswitch(&state, 1010, 120);
    assert_eq!(code, 200);
    assert_eq!(body, "VPN on");
}

#[test]
fn rule_comparison_is_case_insensitive() {
    let rule = GateRule::new(String::from("as3320"));
    assert!(rule.passes(&info("AS3320")));
    assert!(!rule.passes(&info("AS64512")));
}

#[test]
fn failing_record_denies() {
    let mut state = KillSwitchState::new(GateRule::new(String::from("AS3320")));
    state.cache.update(info("AS64512"), 1000);
    let (code, body) = handle_killswitch(&state, 1010, 120);
    assert_eq!(code, 503);
    assert_eq!(body, "VPN off");
}

#[test]
fn empty_cache_is_indeterminate() {
    let state = KillSwitchState::new(GateRule::new(String::from("AS3320")));
    let (code, body) = handle_killswitch(&state, 1010, 120);
    assert_eq!(code, 500);
    assert_eq!(body, "couldn't determine the vpn state");
}

#[test]
fn stale_record_denies_regardless_of_rule() {
    let mut cache = GateCache::new();
    let rule = GateRule::new(String::from("AS3320"));
    cache.update(info("AS3320"), 1000);
    assert_eq!(evaluate_gate(&cache, &rule, 5000, 120), GateDecision::VpnOff);
    assert_eq!(evaluate_gate(&cache, &rule, 1120, 120), GateDecision::VpnOn);
    assert_eq!(evaluate_gate(&cache, &rule, 1121, 120), GateDecision::VpnOff);
}

#[test]
fn poller_failure_keeps_last_good_value() {
    let mut cache = GateCache::new();
    poll_step(&mut cache, Ok(info("AS3320")), 1000);
    assert_eq!(cache.observed_at, 1000);
    poll_step(
        &mut cache,
        Err(PublicIpLookupError::HttpError(String::from("timeout"))),
        2000,
    );
    assert_eq!(cache.observed_at, 1000);
    assert_eq!(cache.last_record.unwrap().as_number.as_str(), "AS3320");
}

#[test]
fn poller_success_overwrites() {
    let mut cache = GateCache::new();
    poll_step(&mut cache, Ok(info("AS3320")), 1000);
    poll_step(&mut cache, Ok(info("AS64512")), 2000);
    assert_eq!(cache.observed_at, 2000);
    assert_eq!(cache.last_record.unwrap().as_number.as_str(), "AS64512");
}

#[test]
fn healthcheck_is_unconditional() {
    assert_eq!(handle_healthcheck(), (200, "OK"));
}

#[test]
fn ipinfo_from_response() {
    let r = IPInfoResponse {
        ip: String::from("93.254.94.16"),
        asn: String::from("AS3320"),
        as_name: String::from("Deutsche Telekom AG"),
        as_domain: String::from("telekom.de"),
        country_code: String::from("DE"),
        country: String::from("Germany"),
        continent_code: String::from("EU"),
        continent: String::from("Europe"),
    };
    let i = IpInfo::from(r);
    assert_eq!(i.ip.as_str(), "93.254.94.16");
    assert_eq!(i.as_number.as_str(), "AS3320");
    assert_eq!(i.as_name.as_str(), "Deutsche Telekom AG");
    assert_eq!(i.as_domain.as_str(), "telekom.de");
    assert_eq!(
        i.describe().as_str(),
        "IpInfo { ip: 93.254.94.16, as_number: AS3320, as_name: Deutsche Telekom AG,  as_domain: telekom.de }"
    );
}
