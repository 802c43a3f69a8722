use std::time::{SystemTime, UNIX_EPOCH};
use vpn_killswitch::ip2asn::{is_stale, lookup_in_ranges, Ip2Asn, Ip2AsnEntry};

fn temp_db(name: &str) -> String {
    let nanos = SystemTime::now().duration_since(UNIX_EPOCH).unwrap().as_nanos();
    format!("/tmp/vpn_killswitch_{}_{}.sqlite", name, nanos)
}

#[test]
fn staleness_thresholds() {
    let now: u64 = 10000;
    let hour: u64 = 3600;
    // last refresh two hours ago, one-hour threshold: stale
    assert!(is_stale(Some(now - 2 * hour), now, hour));
    // last refresh half an hour ago: fresh
    assert!(!is_stale(Some(now - 1800), now, hour));
    // exactly at the threshold: still fresh
    assert!(!is_stale(Some(now - hour), now, hour));
    // never refreshed: stale
    assert!(is_stale(None, now, hour));
}

#[test]
fn range_lookup_boundaries() {
    let ranges = vec![Ip2AsnEntry::new(100, 200, 64512)];
    assert_eq!(lookup_in_ranges(&ranges, 150), Some(64512));
    assert_eq!(lookup_in_ranges(&ranges, 100), Some(64512));
    assert_eq!(lookup_in_ranges(&ranges, 200), Some(64512));
    assert_eq!(lookup_in_ranges(&ranges, 250), None);
    assert_eq!(lookup_in_ranges(&ranges, 99), None);
}

#[test]
fn range_lookup_many_ranges() {
    let ranges = vec![
        Ip2AsnEntry::new(10, 19, 1),
        Ip2AsnEntry::new(20, 29, 2),
        Ip2AsnEntry::new(40, 49, 3),
        Ip2AsnEntry::new(50, 50, 4),
        Ip2AsnEntry::new(60, 90, 5),
    ];
    assert_eq!(lookup_in_ranges(&ranges, 10), Some(1));
    assert_eq!(lookup_in_ranges(&ranges, 25), Some(2));
    assert_eq!(lookup_in_ranges(&ranges, 30), None);
    assert_eq!(lookup_in_ranges(&ranges, 49), Some(3));
    assert_eq!(lookup_in_ranges(&ranges, 50), Some(4));
    assert_eq!(lookup_in_ranges(&ranges, 75), Some(5));
    assert_eq!(lookup_in_ranges(&ranges, 91), None);
    assert_eq!(lookup_in_ranges(&ranges, 9), None);
    let empty: Vec<Ip2AsnEntry> = Vec::new();
    assert_eq!(lookup_in_ranges(&empty, 5), None);
}

#[test]
fn ip2asn_create_db() {
    let path = temp_db("create");
    let ip2asn = Ip2Asn::new(path.as_str(), "some.url").unwrap();
    assert!(ip2asn.oldest_updated_at().unwrap().is_none());

    let mut ip2asn = ip2asn;
    ip2asn.store(Ip2AsnEntry::new(1, 2, 3), 100).unwrap();

    assert!(ip2asn.oldest_updated_at().unwrap().is_some());
    let ts = ip2asn.oldest_updated_at().unwrap().unwrap();
    assert_eq!(ts, 100);
}

#[test]
fn store_duplicate_key_fails_and_changes_nothing() {
    let path = temp_db("dup");
    let mut ip2asn = Ip2Asn::new(path.as_str(), "some.url").unwrap();
    ip2asn.store(Ip2AsnEntry::new(100, 200, 64512), 100).unwrap();
    assert!(ip2asn.store(Ip2AsnEntry::new(100, 200, 7), 200).is_err());
    assert_eq!(ip2asn.lookup_asn(150).unwrap(), Some(64512));
    assert_eq!(ip2asn.oldest_updated_at().unwrap(), Some(100));
}

#[test]
fn lookup_through_store() {
    let path = temp_db("lookup");
    let mut ip2asn = Ip2Asn::new(path.as_str(), "some.url").unwrap();
    ip2asn
        .replace_all(&vec![Ip2AsnEntry::new(100, 200, 64512)], 500)
        .unwrap();
    assert_eq!(ip2asn.lookup_asn(150).unwrap(), Some(64512));
    assert_eq!(ip2asn.lookup_asn(100).unwrap(), Some(64512));
    assert_eq!(ip2asn.lookup_asn(200).unwrap(), Some(64512));
    assert_eq!(ip2asn.lookup_asn(250).unwrap(), None);
}

#[test]
fn refresh_replaces_whole_snapshot() {
    let path = temp_db("swap");
    let mut ip2asn = Ip2Asn::new(path.as_str(), "some.url").unwrap();
    ip2asn.store(Ip2AsnEntry::new(10, 19, 1), 100).unwrap();
    ip2asn.store(Ip2AsnEntry::new(20, 29, 2), 100).unwrap();

    let snapshot = vec![
        Ip2AsnEntry::new(15, 24, 9),
        Ip2AsnEntry::new(30, 39, 8),
    ];
    let staged = ip2asn.replace_all(&snapshot, 700).unwrap();
    assert_eq!(staged, 2);

    // only the new snapshot is visible, nothing of the old one
    assert_eq!(ip2asn.lookup_asn(10).unwrap(), None);
    assert_eq!(ip2asn.lookup_asn(20).unwrap(), Some(9));
    assert_eq!(ip2asn.lookup_asn(35).unwrap(), Some(8));
    assert_eq!(ip2asn.oldest_updated_at().unwrap(), Some(700));

    // an empty snapshot empties the table
    let none: Vec<Ip2AsnEntry> = Vec::new();
    ip2asn.replace_all(&none, 800).unwrap();
    assert_eq!(ip2asn.lookup_asn(20).unwrap(), None);
    assert_eq!(ip2asn.oldest_updated_at().unwrap(), None);
}

#[test]
fn needs_refresh_follows_staleness() {
    let path = temp_db("stale");
    let mut ip2asn = Ip2Asn::new(path.as_str(), "some.url").unwrap();
    assert!(ip2asn.needs_refresh(1000, 3600).unwrap());
    ip2asn
        .replace_all(&vec![Ip2AsnEntry::new(1, 2, 3)], 1000)
        .unwrap();
    assert!(!ip2asn.needs_refresh(2000, 3600).unwrap());
    assert!(ip2asn.needs_refresh(1000 + 3601, 3600).unwrap());
}

#[test]
fn feed_url_is_kept() {
    let path = temp_db("url");
    let ip2asn = Ip2Asn::new(path.as_str(), "https://feed.example/ip2asn.tsv").unwrap();
    assert_eq!(ip2asn.feed_url(), "https://feed.example/ip2asn.tsv");
}
