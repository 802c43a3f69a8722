//! Wraps api.my-ip.io, which reports the ASN as a number nested under
//! `asn.number`.

use vstd::prelude::*;

use crate::ipv4::{parse_ipv4, spec_ipv4_value, valid_ipv4};
use crate::public_ip::error::PublicIpLookupError;
use crate::public_ip::provider::PublicIpLookupProvider;
use crate::public_ip::public_ip::PublicIpLookupResponse;
use crate::text::{spec_u64_dec, u64_to_dec_string};

verus! {

/// The api.my-ip.io source (rate limit unknown).
#[derive(Debug, Clone)]
pub struct MyIpIo {
    url: &'static str,
}

impl MyIpIo {
    pub fn new() -> (r: Self) {
        MyIpIo { url: "https://api.my-ip.io/v2/ip.json" }
    }
}

impl PublicIpLookupProvider for MyIpIo {
    fn url(&self) -> &'static str {
        self.url
    }
}

/// The nested ASN block of an api.my-ip.io answer.
#[derive(Debug, Clone)]
pub struct MyIpIoResponseAsn {
    pub number: u64,
}

/// The fields of an api.my-ip.io answer that the record needs.
#[derive(Debug, Clone)]
pub struct MyIpIoResponse {
    pub ip: String,
    pub asn: MyIpIoResponseAsn,
}

impl MyIpIoResponse {
    /// Normalizes into the canonical record: the address parsed as an
    /// IPv4 dotted quad, the numeric ASN rendered in decimal.
    pub fn normalize(self) -> (r: Result<PublicIpLookupResponse, PublicIpLookupError>)
        ensures
            r is Ok <==> valid_ipv4(self.ip@),
            r is Ok ==> r->Ok_0.ip as int == spec_ipv4_value(self.ip@),
            r is Ok ==> r->Ok_0.asn is Some && r->Ok_0.asn->0@ == spec_u64_dec(self.asn.number),
            r is Err ==> (r->Err_0 matches PublicIpLookupError::BadIpAddr(bad) && bad@
                == self.ip@),
    {
        match parse_ipv4(self.ip.as_str()) {
            Some(ip) => Ok(
                PublicIpLookupResponse { ip, asn: Some(u64_to_dec_string(self.asn.number)) },
            ),
            None => Err(PublicIpLookupError::BadIpAddr(self.ip)),
        }
    }
}

} // verus!
