use vpn_killswitch::public_ip::error::PublicIpLookupError;
use vpn_killswitch::public_ip::ifconfigco::{IfConfigCo, IfConfigCoResponse};
use vpn_killswitch::public_ip::ipapico::{IpApiCo, IpApiCoResponse};
use vpn_killswitch::public_ip::ipapicom::{IpApiCom, IpApiComResponse};
use vpn_killswitch::public_ip::ipifyorg::{IpifyOrg, IpifyOrgResponse};
use vpn_killswitch::public_ip::ipwhois::{
    IpWhoIs, IpWhoIsConnectionResponse, IpWhoIsResponse,
};
use vpn_killswitch::public_ip::myipcom::{MyIpCom, MyIpComResponse};
use vpn_killswitch::public_ip::myipio::{MyIpIo, MyIpIoResponse, MyIpIoResponseAsn};
use vpn_killswitch::public_ip::provider::{default_headers, PublicIpLookupProvider};

const IP: u32 = 93 * 16777216 + 254 * 65536 + 94 * 256 + 16;

#[test]
fn provider_urls() {
    assert_eq!(IfConfigCo::new().url(), "https://ifconfig.co/");
    assert_eq!(IpApiCo::new().url(), "https://ipapi.co/json");
    assert_eq!(IpApiCom::new().url(), "http://ip-api.com/json?fields=query,as");
    assert_eq!(IpifyOrg::new().url(), "https://api.ipify.org?format=json");
    assert_eq!(IpWhoIs::new().url(), "https://ipwho.is?fields=ip,connection.asn");
    assert_eq!(MyIpCom::new().url(), "https://api.myip.com");
    assert_eq!(MyIpIo::new().url(), "https://api.my-ip.io/v2/ip.json");
}

#[test]
fn request_headers() {
    let h = default_headers();
    assert_eq!(h.len(), 2);
    assert_eq!(h[0], ("Accept", "application/json"));
    assert_eq!(h[1], ("User-Agent", "vpn-killswitch/0.1.0"));
}

#[test]
fn ifconfigco_normalizes() {
    let r = IfConfigCoResponse {
        ip: String::from("93.254.94.16"),
        asn: String::from("AS3320"),
    }
    .normalize()
    .unwrap();
    assert_eq!(r.ip, IP);
    assert_eq!(r.asn.unwrap().as_str(), "3320");
}

#[test]
fn ifconfigco_rejects_bad_ip() {
    let e = IfConfigCoResponse {
        ip: String::from("not-an-ip"),
        asn: String::from("AS3320"),
    }
    .normalize()
    .unwrap_err();
    match e {
        PublicIpLookupError::BadIpAddr(s) => assert_eq!(s.as_str(), "not-an-ip"),
        PublicIpLookupError::HttpError(_) => panic!("wrong error variant"),
    }
}

#[test]
fn ipapico_normalizes() {
    let r = IpApiCoResponse {
        ip: String::from("93.254.94.16"),
        asn: String::from("AS3320"),
    }
    .normalize()
    .unwrap();
    assert_eq!(r.ip, IP);
    assert_eq!(r.asn.unwrap().as_str(), "3320");
}

#[test]
fn ipapicom_normalizes_combined_field() {
    let r = IpApiComResponse {
        query: String::from("93.254.94.16"),
        asn: String::from("AS3320 Deutsche Telekom AG"),
    }
    .normalize()
    .unwrap();
    assert_eq!(r.ip, IP);
    assert_eq!(r.asn.unwrap().as_str(), "3320");

    let no_asn = IpApiComResponse {
        query: String::from("93.254.94.16"),
        asn: String::from("Deutsche Telekom AG"),
    }
    .normalize()
    .unwrap();
    assert!(no_asn.asn.is_none());
}

#[test]
fn ipifyorg_normalizes_without_asn() {
    let r = IpifyOrgResponse { ip: String::from("93.254.94.16") }.normalize().unwrap();
    assert_eq!(r.ip, IP);
    assert!(r.asn.is_none());
}

#[test]
fn ipwhois_normalizes_numeric_asn() {
    let r = IpWhoIsResponse {
        ip: String::from("93.254.94.16"),
        connection: IpWhoIsConnectionResponse { asn: 3320 },
    }
    .normalize()
    .unwrap();
    assert_eq!(r.ip, IP);
    assert_eq!(r.asn.unwrap().as_str(), "3320");
}

#[test]
fn myipcom_normalizes_without_asn() {
    let r = MyIpComResponse { ip: String::from("93.254.94.16") }.normalize().unwrap();
    assert_eq!(r.ip, IP);
    assert!(r.asn.is_none());
}

#[test]
fn myipio_normalizes_numeric_asn() {
    let r = MyIpIoResponse {
        ip: String::from("93.254.94.16"),
        asn: MyIpIoResponseAsn { number: 3320 },
    }
    .normalize()
    .unwrap();
    assert_eq!(r.ip, IP);
    assert_eq!(r.asn.unwrap().as_str(), "3320");
}
