//! Failures of a single provider lookup.

use vstd::prelude::*;

verus! {

/// Why one provider's answer could not be turned into a canonical record.
#[derive(Debug, Clone)]
pub enum PublicIpLookupError {
    /// The provider reported something that is not a dotted-quad IPv4
    /// address; carries the malformed text.
    BadIpAddr(String),
    /// The transport failed: the network call errored, timed out, or the
    /// body was not the expected shape; carries a description.
    HttpError(String),
}

impl PublicIpLookupError {
    /// A short description, in place of a `Display` impl.
    pub fn describe(&self) -> (r: &'static str)
        ensures
            r@ == (match self {
                PublicIpLookupError::BadIpAddr(_) => "Invalid IP Address"@,
                PublicIpLookupError::HttpError(_) => "HTTP error"@,
            }),
    {
        match self {
            PublicIpLookupError::BadIpAddr(_) => "Invalid IP Address",
            PublicIpLookupError::HttpError(_) => "HTTP error",
        }
    }
}

} // verus!
