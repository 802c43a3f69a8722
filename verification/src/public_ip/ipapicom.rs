//! Wraps ip-api.com, which reports the address under `query` and the ASN
//! and organisation combined in one string, "AS1234 Org Name".

use vstd::prelude::*;

use crate::ipv4::{parse_ipv4, spec_ipv4_value, valid_ipv4};
use crate::public_ip::error::PublicIpLookupError;
use crate::public_ip::provider::PublicIpLookupProvider;
use crate::public_ip::public_ip::PublicIpLookupResponse;
use crate::text::{parse_asn, spec_parse_asn};

verus! {

/// The ip-api.com source (rate limit: 45 requests per minute; the free
/// tier has no TLS).
#[derive(Debug, Clone)]
pub struct IpApiCom {
    url: &'static str,
}

impl IpApiCom {
    pub fn new() -> (r: Self) {
        IpApiCom { url: "http://ip-api.com/json?fields=query,as" }
    }
}

impl PublicIpLookupProvider for IpApiCom {
    fn url(&self) -> &'static str {
        self.url
    }
}

/// The fields of an ip-api.com answer that the record needs: the address
/// under `query`, and the combined "AS1234 Org Name" string the source
/// sends under `as`.
#[derive(Debug, Clone)]
pub struct IpApiComResponse {
    pub query: String,
    pub asn: String,
}

impl IpApiComResponse {
    /// Normalizes into the canonical record: the address parsed as an
    /// IPv4 dotted quad, the ASN taken from the first token of the
    /// combined string when that token is "AS"-prefixed, absent otherwise.
    pub fn normalize(self) -> (r: Result<PublicIpLookupResponse, PublicIpLookupError>)
        ensures
            r is Ok <==> valid_ipv4(self.query@),
            r is Ok ==> r->Ok_0.ip as int == spec_ipv4_value(self.query@),
            r is Ok ==> (r->Ok_0.asn is Some <==> spec_parse_asn(self.asn@) is Some),
            r is Ok && r->Ok_0.asn is Some ==> r->Ok_0.asn->0@ == spec_parse_asn(self.asn@)->0,
            r is Err ==> (r->Err_0 matches PublicIpLookupError::BadIpAddr(bad) && bad@
                == self.query@),
    {
        match parse_ipv4(self.query.as_str()) {
            Some(ip) => Ok(PublicIpLookupResponse { ip, asn: parse_asn(self.asn) }),
            None => Err(PublicIpLookupError::BadIpAddr(self.query)),
        }
    }
}

} // verus!
