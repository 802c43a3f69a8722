//! The kill-switch pipeline's verified half: a timestamped last-value cache fed by
//! a poller, a comparison rule over the cached record, and the fail-closed
//! decision the HTTP handler reports.
//!
//! The cache is a last-value slot, never a queue: a reader takes whatever
//! is there together with its timestamp, and a stale or absent record
//! denies by default. Only "no record was ever cached" is reported as an
//! internal fault, so a caller can tell "deny" from "indeterminate".

use vstd::prelude::*;

use crate::ipinfo::IpInfo;
use crate::public_ip::error::PublicIpLookupError;
use crate::text::{eq_ignore_ascii_case, spec_eq_ignore_case};

verus! {

/// The explicit, loggable form of the kill-switch rule: the record passes
/// when its ASN equals the expected provider ASN, case-insensitively.
#[derive(Debug, Clone)]
pub struct GateRule {
    pub expected_asn: String,
}

impl GateRule {
    pub open spec fn spec_passes(self, info: IpInfo) -> bool {
        spec_eq_ignore_case(info.as_number@, self.expected_asn@)
    }

    pub fn new(expected_asn: String) -> (r: Self)
        ensures
            r.expected_asn@ == expected_asn@,
    {
        GateRule { expected_asn }
    }

    /// Does the record satisfy the rule?
    pub fn passes(&self, info: &IpInfo) -> (r: bool)
        ensures
            r == self.spec_passes(*info),
    {
        eq_ignore_ascii_case(info.as_number.as_str(), self.expected_asn.as_str())
    }
}

/// The last resolution the poller handed over, with when it was observed.
/// Single writer, read without blocking; absent until the first successful
/// poll.
#[derive(Debug, Clone)]
pub struct GateCache {
    pub last_record: Option<IpInfo>,
    pub observed_at: u64,
}

impl GateCache {
    /// An empty cache: nothing was ever observed.
    pub fn new() -> (r: Self)
        ensures
            r.last_record is None,
            r.observed_at == 0,
    {
        GateCache { last_record: None, observed_at: 0 }
    }

    /// One poller hand-off: overwrites the previous value, never queues.
    pub fn update(&mut self, info: IpInfo, now: u64)
        ensures
            final(self).last_record == Some(info),
            final(self).observed_at == now,
    {
        self.last_record = Some(info);
        self.observed_at = now;
    }
}

/// One cycle of the poller: a successful resolution overwrites the cache
/// with the new record and its timestamp; a failed one leaves the last
/// good value in place.
pub fn poll_step(cache: &mut GateCache, outcome: Result<IpInfo, PublicIpLookupError>, now: u64)
    ensures
        outcome is Ok ==> final(cache).last_record == Some(outcome->Ok_0),
        outcome is Ok ==> final(cache).observed_at == now,
        outcome is Err ==> *final(cache) == *old(cache),
{
    match outcome {
        Ok(info) => cache.update(info, now),
        Err(_) => (),
    }
}

/// What the kill-switch endpoint reports to its caller.
#[derive(Debug, Clone, Copy, PartialEq, Eq, Structural)]
pub enum GateDecision {
    /// A fresh record satisfies the rule: traffic is routed as expected.
    VpnOn,
    /// A record is cached but is stale or fails the rule: deny.
    VpnOff,
    /// No record was ever cached: no judgement is possible at all.
    Unknown,
}

/// A cached record is stale once its age exceeds the freshness budget.
pub open spec fn spec_cache_stale(cache: GateCache, now: u64, freshness_budget: u64) -> bool {
    now > cache.observed_at + freshness_budget
}

/// The fail-closed gate decision: pass only on a fresh record that
/// satisfies the rule; a stale or failing record denies; an empty cache is
/// indeterminate.
pub open spec fn spec_gate_decision(
    cache: GateCache,
    rule: GateRule,
    now: u64,
    freshness_budget: u64,
) -> GateDecision {
    match cache.last_record {
        None => GateDecision::Unknown,
        Some(info) => if spec_cache_stale(cache, now, freshness_budget) {
            GateDecision::VpnOff
        } else if rule.spec_passes(info) {
            GateDecision::VpnOn
        } else {
            GateDecision::VpnOff
        },
    }
}

/// Evaluates the kill-switch decision against whatever is cached, without waiting for a
/// fresher value.
pub fn evaluate_gate(cache: &GateCache, rule: &GateRule, now: u64, freshness_budget: u64) -> (r:
    GateDecision)
    ensures
        r == spec_gate_decision(*cache, *rule, now, freshness_budget),
{
    match &cache.last_record {
        None => GateDecision::Unknown,
        Some(info) => {
            let stale = now > freshness_budget && now - freshness_budget > cache.observed_at;
            if stale {
                GateDecision::VpnOff
            } else if rule.passes(info) {
                GateDecision::VpnOn
            } else {
                GateDecision::VpnOff
            }
        },
    }
}

impl GateDecision {
    pub open spec fn spec_status_code(self) -> u16 {
        match self {
            GateDecision::VpnOn => 200,
            GateDecision::VpnOff => 503,
            GateDecision::Unknown => 500,
        }
    }

    /// The HTTP status the kill-switch endpoint answers with: `200` pass, `503`
    /// deny, `500` indeterminate.
    pub fn status_code(&self) -> (r: u16)
        ensures
            r == self.spec_status_code(),
    {
        match self {
            GateDecision::VpnOn => 200,
            GateDecision::VpnOff => 503,
            GateDecision::Unknown => 500,
        }
    }

    /// The body the kill-switch endpoint answers with.
    pub fn message(&self) -> (r: &'static str)
        ensures
            r@ == (match self {
                GateDecision::VpnOn => "VPN on"@,
                GateDecision::VpnOff => "VPN off"@,
                GateDecision::Unknown => "couldn't determine the vpn state"@,
            }),
    {
        match self {
            GateDecision::VpnOn => "VPN on",
            GateDecision::VpnOff => "VPN off",
            GateDecision::Unknown => "couldn't determine the vpn state",
        }
    }
}

/// The kill-switch endpoint's state: the cache the poller writes and the
/// rule the decision applies.
#[derive(Debug)]
pub struct KillSwitchState {
    pub cache: GateCache,
    pub rule: GateRule,
}

impl KillSwitchState {
    pub fn new(rule: GateRule) -> (r: Self)
        ensures
            r.cache.last_record is None,
            r.rule == rule,
    {
        KillSwitchState { cache: GateCache::new(), rule }
    }
}

/// The kill-switch endpoint: status code and body for the current state,
/// read without blocking.
pub fn handle_killswitch(state: &KillSwitchState, now: u64, freshness_budget: u64) -> (r: (
    u16,
    &'static str,
))
    ensures
        ({
            let d = spec_gate_decision(state.cache, state.rule, now, freshness_budget);
            r.0 == d.spec_status_code() && r.1@ == (match d {
                GateDecision::VpnOn => "VPN on"@,
                GateDecision::VpnOff => "VPN off"@,
                GateDecision::Unknown => "couldn't determine the vpn state"@,
            })
        }),
{
    let d = evaluate_gate(&state.cache, &state.rule, now, freshness_budget);
    (d.status_code(), d.message())
}

/// The health endpoint: alive while the process answers at all.
pub fn handle_healthcheck() -> (r: (u16, &'static str))
    ensures
        r.0 == 200,
        r.1@ == "OK"@,
{
    (200, "OK")
}

} // verus!
