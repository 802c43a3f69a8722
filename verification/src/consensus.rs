//! Cross-validation of independent lookup sources.
//!
//! A query is fanned out to every configured provider; each answer, success
//! or failure, comes back as a [`ProviderReport`]. Reconciliation accepts
//! only when every pair of successful records agrees: the addresses must be
//! equal, and where both records carry an ASN the ASNs must match
//! case-insensitively. Failed providers are skipped, but when none
//! succeeds the resolution as a whole fails. This detects disagreement
//! between not-fully-trusted sources; it is not majority voting.

use vstd::prelude::*;

use crate::public_ip::error::PublicIpLookupError;
use crate::public_ip::public_ip::PublicIpLookupResponse;
use crate::text::{eq_ignore_ascii_case, spec_eq_ignore_case};

verus! {

/// One provider's answer, tagged with where it came from.
#[derive(Debug)]
pub struct ProviderReport {
    pub source: String,
    pub outcome: Result<PublicIpLookupResponse, PublicIpLookupError>,
}

/// Why reconciliation rejected a set of reports.
#[derive(Debug)]
pub enum ConsensusError {
    /// Two providers that both succeeded disagree; carries both source
    /// names, in report order.
    ConsensusMismatch { first_source: String, second_source: String },
    /// No provider returned a usable record.
    AllProvidersFailed,
}

/// Two successful records agree: same address, and where both carry an
/// ASN, the ASNs match case-insensitively.
pub open spec fn spec_records_agree(a: PublicIpLookupResponse, b: PublicIpLookupResponse) -> bool {
    &&& a.ip == b.ip
    &&& (a.asn is Some && b.asn is Some) ==> spec_eq_ignore_case(a.asn->0@, b.asn->0@)
}

pub open spec fn report_ok(rs: Seq<ProviderReport>, i: int) -> bool {
    rs[i].outcome is Ok
}

/// Every pair of successful reports agrees.
pub open spec fn spec_all_agree(rs: Seq<ProviderReport>) -> bool {
    forall|i: int, j: int|
        0 <= i < j < rs.len() && report_ok(rs, i) && report_ok(rs, j) ==> spec_records_agree(
            rs[i].outcome->Ok_0,
            rs[j].outcome->Ok_0,
        )
}

/// Some report succeeded.
pub open spec fn spec_any_ok(rs: Seq<ProviderReport>) -> bool {
    exists|i: int| 0 <= i < rs.len() && report_ok(rs, i)
}

/// For a pair of providers that report the same underlying address and
/// both carry an ASN, consensus holds exactly when the two ASNs match
/// case-insensitively: one differing pair already denies consensus, and
/// with it [`reconcile`] returns a mismatch rather than a record.
pub proof fn lemma_pairwise_asn_consensus(rs: Seq<ProviderReport>)
    requires
        rs.len() == 2,
        report_ok(rs, 0),
        report_ok(rs, 1),
        rs[0].outcome->Ok_0.ip == rs[1].outcome->Ok_0.ip,
        rs[0].outcome->Ok_0.asn is Some,
        rs[1].outcome->Ok_0.asn is Some,
    ensures
        (spec_any_ok(rs) && spec_all_agree(rs)) <==> spec_eq_ignore_case(
            rs[0].outcome->Ok_0.asn->0@,
            rs[1].outcome->Ok_0.asn->0@,
        ),
{
    assert(spec_any_ok(rs)) by {
        assert(0 <= 0 < rs.len() && report_ok(rs, 0));
    }
    if spec_eq_ignore_case(rs[0].outcome->Ok_0.asn->0@, rs[1].outcome->Ok_0.asn->0@) {
        assert forall|i: int, j: int|
            0 <= i < j < rs.len() && report_ok(rs, i) && report_ok(rs, j) implies spec_records_agree(
            rs[i].outcome->Ok_0,
            rs[j].outcome->Ok_0,
        ) by {
            assert(i == 0 && j == 1);
        }
    } else {
        assert(!spec_records_agree(rs[0].outcome->Ok_0, rs[1].outcome->Ok_0));
    }
}

fn records_agree(a: &PublicIpLookupResponse, b: &PublicIpLookupResponse) -> (r: bool)
    ensures
        r == spec_records_agree(*a, *b),
{
    if a.ip != b.ip {
        return false;
    }
    match (&a.asn, &b.asn) {
        (Some(x), Some(y)) => eq_ignore_ascii_case(x.as_str(), y.as_str()),
        _ => true,
    }
}

/// Reconciles the providers' answers into one verified record, or a
/// disagreement error.
///
/// Succeeds exactly when at least one provider succeeded and every pair of
/// successful records agrees; the result is then the first successful
/// record. A mismatch error names two genuinely disagreeing sources;
/// when nothing succeeded, every provider failed.
pub fn reconcile(reports: &Vec<ProviderReport>) -> (r: Result<
    PublicIpLookupResponse,
    ConsensusError,
>)
    ensures
        r is Ok <==> spec_any_ok(reports@) && spec_all_agree(reports@),
        r is Ok ==> (exists|f: int|
            0 <= f < reports@.len() && report_ok(reports@, f) && (forall|m: int|
                0 <= m < f ==> !report_ok(reports@, m)) && {
                let rec = reports@[f].outcome->Ok_0;
                &&& r->Ok_0.ip == rec.ip
                &&& (r->Ok_0.asn is Some <==> rec.asn is Some)
                &&& (r->Ok_0.asn is Some ==> r->Ok_0.asn->0@ == rec.asn->0@)
            }),
        (r matches Err(ConsensusError::AllProvidersFailed)) <==> !spec_any_ok(reports@),
        r matches Err(
            ConsensusError::ConsensusMismatch { first_source, second_source },
        ) ==> (exists|i: int, j: int|
            0 <= i < j < reports@.len() && report_ok(reports@, i) && report_ok(reports@, j)
                && !spec_records_agree(reports@[i].outcome->Ok_0, reports@[j].outcome->Ok_0)
                && first_source@ == reports@[i].source@ && second_source@
                == reports@[j].source@),
{
    let n = reports.len();
    let mut f: usize = 0;
    while f < n && !reports[f].outcome.is_ok()
        invariant
            0 <= f <= n,
            n == reports@.len(),
            forall|m: int| 0 <= m < f ==> !report_ok(reports@, m),
        decreases n - f,
    {
        f += 1;
    }
    if f == n {
        return Err(ConsensusError::AllProvidersFailed);
    }
    let mut i: usize = f;
    while i < n
        invariant
            0 <= f <= i <= n,
            n == reports@.len(),
            report_ok(reports@, f as int),
            forall|m: int| 0 <= m < f ==> !report_ok(reports@, m),
            forall|a: int, b: int|
                0 <= a < i && a < b < n && report_ok(reports@, a) && report_ok(reports@, b)
                    ==> spec_records_agree(reports@[a].outcome->Ok_0, reports@[b].outcome->Ok_0),
        decreases n - i,
    {
        if let Ok(rec_i) = &reports[i].outcome {
            let mut j: usize = i + 1;
            while j < n
                invariant
                    0 <= i < j <= n,
                    n == reports@.len(),
                    report_ok(reports@, i as int),
                    rec_i == reports@[i as int].outcome->Ok_0,
                    forall|b: int|
                        i < b < j && report_ok(reports@, b) ==> spec_records_agree(
                            reports@[i as int].outcome->Ok_0,
                            reports@[b].outcome->Ok_0,
                        ),
                decreases n - j,
            {
                if let Ok(rec_j) = &reports[j].outcome {
                    if !records_agree(rec_i, rec_j) {
                        return Err(
                            ConsensusError::ConsensusMismatch {
                                first_source: reports[i].source.clone(),
                                second_source: reports[j].source.clone(),
                            },
                        );
                    }
                }
                j += 1;
            }
        }
        i += 1;
    }
    match &reports[f].outcome {
        Ok(rec) => Ok(rec.duplicate()),
        // the scan above stopped at a success, so this arm cannot run
        Err(_) => Err(ConsensusError::AllProvidersFailed),
    }
}

} // verus!
