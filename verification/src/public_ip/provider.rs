//! The capability set shared by all lookup sources: an endpoint and a fixed
//! request header set. The response shape, and with it normalization, is
//! per-provider.

use vstd::prelude::*;

verus! {

/// A lookup source: the endpoint to query. The network call itself is made
/// outside the library; each provider's response type carries its own
/// `normalize`.
pub trait PublicIpLookupProvider {
    fn url(&self) -> &'static str;
}

/// The fixed header set every provider request carries, as header
/// name/value pairs: a JSON accept header and an identifying user agent.
pub fn default_headers() -> (r: Vec<(&'static str, &'static str)>)
    ensures
        r@.len() == 2,
        r@[0].0@ == "Accept"@,
        r@[0].1@ == "application/json"@,
        r@[1].0@ == "User-Agent"@,
        r@[1].1@ == "vpn-killswitch/0.1.0"@,
{
    let mut v: Vec<(&'static str, &'static str)> = Vec::new();
    v.push(("Accept", "application/json"));
    v.push(("User-Agent", "vpn-killswitch/0.1.0"));
    v
}

} // verus!
