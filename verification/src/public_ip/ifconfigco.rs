//! Wraps ifconfig.co, which reports a flat `ip` field and an
//! "AS"-prefixed `asn` field.

use vstd::prelude::*;

use crate::ipv4::{parse_ipv4, spec_ipv4_value, valid_ipv4};
use crate::public_ip::error::PublicIpLookupError;
use crate::public_ip::provider::PublicIpLookupProvider;
use crate::public_ip::public_ip::PublicIpLookupResponse;
use crate::text::{remove_asn_prefix, spec_strip_as};

verus! {

/// The ifconfig.co source (rate limit: one request per minute).
#[derive(Debug)]
pub struct IfConfigCo {
    url: &'static str,
}

impl IfConfigCo {
    pub fn new() -> (r: Self) {
        IfConfigCo { url: "https://ifconfig.co/" }
    }
}

impl PublicIpLookupProvider for IfConfigCo {
    fn url(&self) -> &'static str {
        self.url
    }
}

/// The fields of an ifconfig.co answer that the record needs.
#[derive(Debug, Clone)]
pub struct IfConfigCoResponse {
    pub ip: String,
    pub asn: String,
}

impl IfConfigCoResponse {
    /// Normalizes into the canonical record: the address parsed as an
    /// IPv4 dotted quad, the ASN with its "AS" prefix stripped.
    pub fn normalize(self) -> (r: Result<PublicIpLookupResponse, PublicIpLookupError>)
        ensures
            r is Ok <==> valid_ipv4(self.ip@),
            r is Ok ==> r->Ok_0.ip as int == spec_ipv4_value(self.ip@),
            r is Ok ==> r->Ok_0.asn is Some && r->Ok_0.asn->0@ == spec_strip_as(self.asn@),
            r is Err ==> (r->Err_0 matches PublicIpLookupError::BadIpAddr(bad) && bad@
                == self.ip@),
    {
        match parse_ipv4(self.ip.as_str()) {
            Some(ip) => Ok(
                PublicIpLookupResponse { ip, asn: Some(remove_asn_prefix(self.asn)) },
            ),
            None => Err(PublicIpLookupError::BadIpAddr(self.ip)),
        }
    }
}

} // verus!
