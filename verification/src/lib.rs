//! Continuously checks that a host's egress traffic leaves through an
//! expected VPN provider: public-IP lookup providers are normalized into one
//! canonical record, cross-checked for agreement, cached for a fail-closed
//! HTTP gate, and backed by a persistent IP-range-to-ASN store.

pub mod consensus;
pub mod gate;
pub mod ip2asn;
pub mod ipinfo;
pub mod ipv4;
pub mod public_ip;
pub mod text;
