//! The record produced by the kill-switch pipeline's single resolution source and
//! the normalization of that source's response shape.

use vstd::prelude::*;

verus! {

/// The slice of one resolution that the kill-switch decision needs: the public address and
/// which autonomous system currently routes it.
#[derive(Debug, Clone)]
pub struct IpInfo {
    pub ip: String,
    pub as_number: String,
    pub as_name: String,
    pub as_domain: String,
}

/// The full response shape of the resolution source; only part of it is
/// kept in [`IpInfo`].
#[derive(Debug, Clone)]
pub struct IPInfoResponse {
    pub ip: String,
    pub asn: String,
    pub as_name: String,
    pub as_domain: String,
    pub country_code: String,
    pub country: String,
    pub continent_code: String,
    pub continent: String,
}

impl From<IPInfoResponse> for IpInfo {
    fn from(response: IPInfoResponse) -> (r: IpInfo) {
        IpInfo {
            ip: response.ip,
            as_number: response.asn,
            as_name: response.as_name,
            as_domain: response.as_domain,
        }
    }
}

impl vstd::std_specs::convert::FromSpecImpl<IPInfoResponse> for IpInfo {
    open spec fn obeys_from_spec() -> bool {
        true
    }

    open spec fn from_spec(t: IPInfoResponse) -> IpInfo {
        IpInfo { ip: t.ip, as_number: t.asn, as_name: t.as_name, as_domain: t.as_domain }
    }
}

impl IpInfo {
    /// A one-line description, in place of a `Display` impl.
    pub fn describe(&self) -> (r: String)
        ensures
            r@ == "IpInfo { ip: "@ + self.ip@ + ", as_number: "@ + self.as_number@ + ", as_name: "@
                + self.as_name@ + ",  as_domain: "@ + self.as_domain@ + " }"@,
    {
        let mut s = "IpInfo { ip: ".to_owned();
        s.append(self.ip.as_str());
        s.append(", as_number: ");
        s.append(self.as_number.as_str());
        s.append(", as_name: ");
        s.append(self.as_name.as_str());
        s.append(",  as_domain: ");
        s.append(self.as_domain.as_str());
        s.append(" }");
        s
    }
}

} // verus!
