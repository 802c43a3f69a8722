//! Public-IP lookup providers: each wraps one external information source
//! and normalizes that source's response shape into the canonical
//! [`public_ip::PublicIpLookupResponse`] record.

pub mod error;
pub mod ifconfigco;
pub mod ipapico;
pub mod ipapicom;
pub mod ipifyorg;
pub mod ipwhois;
pub mod myipcom;
pub mod myipio;
pub mod provider;
pub mod public_ip;
