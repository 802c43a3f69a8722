//! The canonical record every provider response is normalized into.

use vstd::prelude::*;

verus! {

/// One provider's answer in canonical form: the public IPv4 address as its
/// 32-bit value, and the reported ASN with any "AS" prefix stripped, absent
/// when the source does not report one.
#[derive(Debug, Clone)]
pub struct PublicIpLookupResponse {
    pub ip: u32,
    pub asn: Option<String>,
}

impl PublicIpLookupResponse {
    /// A fresh record with the same content; the contract carries what a
    /// derived clone would not.
    pub fn duplicate(&self) -> (r: Self)
        ensures
            r.ip == self.ip,
            r.asn is Some <==> self.asn is Some,
            r.asn is Some ==> r.asn->0@ == self.asn->0@,
    {
        let asn = match &self.asn {
            Some(s) => Some(s.clone()),
            None => None,
        };
        PublicIpLookupResponse { ip: self.ip, asn }
    }
}

} // verus!
