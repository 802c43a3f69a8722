//! Wraps api.myip.com, which reports only the address; the record's ASN
//! stays absent.

use vstd::prelude::*;

use crate::ipv4::{parse_ipv4, spec_ipv4_value, valid_ipv4};
use crate::public_ip::error::PublicIpLookupError;
use crate::public_ip::provider::PublicIpLookupProvider;
use crate::public_ip::public_ip::PublicIpLookupResponse;

verus! {

/// The api.myip.com source (unlimited rate).
#[derive(Debug)]
pub struct MyIpCom {
    url: &'static str,
}

impl MyIpCom {
    pub fn new() -> (r: Self) {
        MyIpCom { url: "https://api.myip.com" }
    }
}

impl PublicIpLookupProvider for MyIpCom {
    fn url(&self) -> &'static str {
        self.url
    }
}

/// The field of an api.myip.com answer that the record needs.
#[derive(Debug, Clone)]
pub struct MyIpComResponse {
    pub ip: String,
}

impl MyIpComResponse {
    /// Normalizes into the canonical record: the address parsed as an
    /// IPv4 dotted quad; this source reports no ASN.
    pub fn normalize(self) -> (r: Result<PublicIpLookupResponse, PublicIpLookupError>)
        ensures
            r is Ok <==> valid_ipv4(self.ip@),
            r is Ok ==> r->Ok_0.ip as int == spec_ipv4_value(self.ip@),
            r is Ok ==> r->Ok_0.asn is None,
            r is Err ==> (r->Err_0 matches PublicIpLookupError::BadIpAddr(bad) && bad@
                == self.ip@),
    {
        match parse_ipv4(self.ip.as_str()) {
            Some(ip) => Ok(PublicIpLookupResponse { ip, asn: None }),
            None => Err(PublicIpLookupError::BadIpAddr(self.ip)),
        }
    }
}

} // verus!
