//! Wraps ipwho.is, which reports the ASN as a number nested under
//! `connection.asn`.

use vstd::prelude::*;

use crate::ipv4::{parse_ipv4, spec_ipv4_value, valid_ipv4};
use crate::public_ip::error::PublicIpLookupError;
use crate::public_ip::provider::PublicIpLookupProvider;
use crate::public_ip::public_ip::PublicIpLookupResponse;
use crate::text::{spec_u64_dec, u64_to_dec_string};

verus! {

/// The ipwho.is source (rate limit: 10000 requests per month).
#[derive(Debug, Clone)]
pub struct IpWhoIs {
    url: &'static str,
}

impl IpWhoIs {
    pub fn new() -> (r: Self) {
        IpWhoIs { url: "https://ipwho.is?fields=ip,connection.asn" }
    }
}

impl PublicIpLookupProvider for IpWhoIs {
    fn url(&self) -> &'static str {
        self.url
    }
}

/// The nested connection block of an ipwho.is answer.
#[derive(Debug, Clone)]
pub struct IpWhoIsConnectionResponse {
    pub asn: u64,
}

/// The fields of an ipwho.is answer that the record needs.
#[derive(Debug, Clone)]
pub struct IpWhoIsResponse {
    pub ip: String,
    pub connection: IpWhoIsConnectionResponse,
}

impl IpWhoIsResponse {
    /// Normalizes into the canonical record: the address parsed as an
    /// IPv4 dotted quad, the numeric ASN rendered in decimal.
    pub fn normalize(self) -> (r: Result<PublicIpLookupResponse, PublicIpLookupError>)
        ensures
            r is Ok <==> valid_ipv4(self.ip@),
            r is Ok ==> r->Ok_0.ip as int == spec_ipv4_value(self.ip@),
            r is Ok ==> r->Ok_0.asn is Some && r->Ok_0.asn->0@ == spec_u64_dec(
                self.connection.asn,
            ),
            r is Err ==> (r->Err_0 matches PublicIpLookupError::BadIpAddr(bad) && bad@
                == self.ip@),
    {
        match parse_ipv4(self.ip.as_str()) {
            Some(ip) => Ok(
                PublicIpLookupResponse {
                    ip,
                    asn: Some(u64_to_dec_string(self.connection.asn)),
                },
            ),
            None => Err(PublicIpLookupError::BadIpAddr(self.ip)),
        }
    }
}

} // verus!
