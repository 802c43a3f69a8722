//! The local, persistent IP-range-to-ASN store.
//!
//! A SQLite table keyed by `(ip_start, ip_end)` holds the range records of
//! the last bulk refresh; its contents and the newest row timestamp are
//! modeled abstractly, and every statement the store runs is a trusted
//! wrapper whose contract says what the statement does to that model.
//! Staleness, the snapshot swap of a refresh, and point lookup by binary
//! search are verified against the model. A refresh stages the new
//! snapshot in a side table and swaps it into place in one transaction, so
//! a reader sees either the complete old snapshot or the complete new one,
//! and a failed refresh leaves the old data in place.

use vstd::prelude::*;

verus! {

/// How long the last refresh stays fresh, in seconds.
pub const UPDATE_INTERVAL_SECS: u64 = 3600;

/// Timestamps are stored as 64-bit signed integers, so seconds values must
/// stay below this bound.
pub const MAX_TIMESTAMP: u64 = 0x7fff_ffff_ffff_ffff;

/// A failure of the store or of the feed transport.
#[derive(Debug)]
pub enum Ip2AsnError {
    /// The underlying database reported an error; carries its description.
    DbError(String),
    /// A filesystem-level failure; carries its description.
    IoError(String),
    /// Fetching the remote feed failed; carries a description.
    HttpError(String),
}

impl Ip2AsnError {
    /// A short description, in place of a `Display` impl.
    pub fn describe(&self) -> (r: &'static str)
        ensures
            r@ == (match self {
                Ip2AsnError::DbError(_) => "DB error"@,
                Ip2AsnError::IoError(_) => "IO error"@,
                Ip2AsnError::HttpError(_) => "HTTP Error"@,
            }),
    {
        match self {
            Ip2AsnError::DbError(_) => "DB error",
            Ip2AsnError::IoError(_) => "IO error",
            Ip2AsnError::HttpError(_) => "HTTP Error",
        }
    }
}

/// One range record: every address in `ip_start..=ip_end` is routed by
/// `asn`. `updated_at` is the refresh timestamp once the record has been
/// read back from the store.
#[derive(Debug, Clone)]
pub struct Ip2AsnEntry {
    pub ip_start: u32,
    pub ip_end: u32,
    pub asn: u32,
    pub updated_at: Option<u64>,
}

impl Ip2AsnEntry {
    pub fn new(ip_start: u32, ip_end: u32, asn: u32) -> (r: Self)
        requires
            ip_start <= ip_end,
        ensures
            r.ip_start == ip_start,
            r.ip_end == ip_end,
            r.asn == asn,
            r.updated_at is None,
    {
        Ip2AsnEntry { ip_start, ip_end, asn, updated_at: None }
    }

    /// One row as the store hands it back; out-of-range column values are
    /// clipped into the 32-bit range.
    pub fn from_row(ip_start: i64, ip_end: i64, asn: i64) -> (r: Self)
        ensures
            0 <= ip_start <= u32::MAX ==> r.ip_start == ip_start,
            0 <= ip_end <= u32::MAX ==> r.ip_end == ip_end,
            0 <= asn <= u32::MAX ==> r.asn == asn,
            r.updated_at is None,
    {
        Ip2AsnEntry {
            ip_start: clip_u32(ip_start),
            ip_end: clip_u32(ip_end),
            asn: clip_u32(asn),
            updated_at: None,
        }
    }
}

/// A 64-bit column value forced into the 32-bit address space.
fn clip_u32(v: i64) -> (r: u32)
    ensures
        0 <= v <= u32::MAX ==> r == v,
{
    if v < 0 {
        0
    } else if v > 0xffff_ffff {
        0xffff_ffff
    } else {
        v as u32
    }
}

#[verifier::external_type_specification]
#[verifier::external_body]
pub struct ExConnection(rusqlite::Connection);

/// The range rows of the store, keyed by `(ip_start, ip_end)`, each with
/// its ASN.
pub uninterp spec fn db_ranges(c: rusqlite::Connection) -> Map<(u32, u32), u32>;

/// The newest `updated_at` among the range rows; `None` when there are no
/// rows.
pub uninterp spec fn db_last_updated(c: rusqlite::Connection) -> Option<u64>;

/// The rows of the staging side table a refresh fills before swapping it
/// into place.
pub uninterp spec fn db_staging(c: rusqlite::Connection) -> Map<(u32, u32), u32>;

/// No rows at all: what the staging table holds right after a reset.
pub open spec fn empty_rows() -> Map<(u32, u32), u32> {
    Map::empty()
}

/// The newest row timestamp after adding a row stamped `now`.
pub open spec fn spec_max_updated(prev: Option<u64>, now: u64) -> u64 {
    match prev {
        None => now,
        Some(t) => if t > now {
            t
        } else {
            now
        },
    }
}

/// Relies on rusqlite's `Connection::open`: opens (or creates) the
/// database file at `path`.
#[verifier::external_body]
fn open_conn(path: &str) -> (r: Result<rusqlite::Connection, Ip2AsnError>)
{
    match rusqlite::Connection::open(path) {
        Ok(c) => Ok(c),
        Err(e) => Err(Ip2AsnError::DbError(format!("{}", e))),
    }
}

/// Relies on rusqlite's `Connection::execute_batch` running DDL:
/// `CREATE TABLE IF NOT EXISTS` and `CREATE INDEX IF NOT EXISTS` add no
/// rows and drop none, so the modeled contents stay as they were.
#[verifier::external_body]
fn init_tables(conn: &mut rusqlite::Connection) -> (r: Result<(), Ip2AsnError>)
    ensures
        r is Ok ==> db_ranges(*final(conn)) == db_ranges(*old(conn)),
        r is Ok ==> db_last_updated(*final(conn)) == db_last_updated(*old(conn)),
        r is Ok ==> db_staging(*final(conn)) == db_staging(*old(conn)),
{
    let r = conn.execute_batch(
        "CREATE TABLE IF NOT EXISTS ip2asn (ip_start INTEGER, ip_end INTEGER, asn INTEGER, updated_at INTEGER, PRIMARY KEY (ip_start, ip_end)); CREATE INDEX IF NOT EXISTS ip2asn_idx_start ON ip2asn (ip_start); CREATE INDEX IF NOT EXISTS ip2asn_idx_end ON ip2asn (ip_end); CREATE INDEX IF NOT EXISTS ip2asn_idx_updated_at ON ip2asn (updated_at); CREATE TABLE IF NOT EXISTS ip2asn_staging (ip_start INTEGER, ip_end INTEGER, asn INTEGER, PRIMARY KEY (ip_start, ip_end));",
    );
    match r {
        Ok(_) => Ok(()),
        Err(e) => Err(Ip2AsnError::DbError(format!("{}", e))),
    }
}

/// Relies on rusqlite's `Connection::query_row` running
/// `SELECT MAX(updated_at) FROM ip2asn`: the maximum over the range rows,
/// `NULL` when the table is empty.
#[verifier::external_body]
fn query_max_updated(conn: &rusqlite::Connection) -> (r: Result<Option<u64>, Ip2AsnError>)
    ensures
        r is Ok ==> r->Ok_0 == db_last_updated(*conn),
{
    let q = conn.query_row("SELECT MAX(updated_at) FROM ip2asn", (), |row| {
        row.get::<_, Option<i64>>(0)
    });
    match q {
        Ok(v) => Ok(v.map(|t| t as u64)),
        Err(e) => Err(Ip2AsnError::DbError(format!("{}", e))),
    }
}

/// Relies on rusqlite's `Connection::execute` running a single `INSERT`:
/// on success the row is added with timestamp `now`; a failed statement
/// (duplicate key, storage fault) changes nothing.
#[verifier::external_body]
fn insert_range(conn: &mut rusqlite::Connection, entry: &Ip2AsnEntry, now: u64) -> (r: Result<
    (),
    Ip2AsnError,
>)
    requires
        now <= MAX_TIMESTAMP,
    ensures
        r is Ok ==> db_ranges(*final(conn)) == db_ranges(*old(conn)).insert((entry.ip_start, entry.ip_end), entry.asn),
        r is Ok ==> db_last_updated(*final(conn)) == Some(spec_max_updated(db_last_updated(*old(conn)), now)),
        r is Ok ==> db_staging(*final(conn)) == db_staging(*old(conn)),
        r is Err ==> db_ranges(*final(conn)) == db_ranges(*old(conn)) && db_last_updated(*final(conn)) == db_last_updated(*old(conn)) && db_staging(*final(conn)) == db_staging(*old(conn)),
{
    let q = conn.execute(
        "INSERT INTO ip2asn (ip_start, ip_end, asn, updated_at) VALUES (?1, ?2, ?3, ?4)",
        (entry.ip_start as i64, entry.ip_end as i64, entry.asn as i64, now as i64),
    );
    match q {
        Ok(_) => Ok(()),
        Err(e) => Err(Ip2AsnError::DbError(format!("{}", e))),
    }
}

/// Relies on rusqlite's `Connection::execute` running
/// `DELETE FROM ip2asn_staging`: on success the staging table is empty and
/// the range rows are untouched; a failed statement changes nothing.
#[verifier::external_body]
fn reset_staging(conn: &mut rusqlite::Connection) -> (r: Result<(), Ip2AsnError>)
    ensures
        r is Ok ==> db_staging(*final(conn)) == empty_rows(),
        r is Ok ==> db_ranges(*final(conn)) == db_ranges(*old(conn)),
        r is Ok ==> db_last_updated(*final(conn)) == db_last_updated(*old(conn)),
        r is Err ==> db_ranges(*final(conn)) == db_ranges(*old(conn)) && db_last_updated(*final(conn)) == db_last_updated(*old(conn)),
{
    match conn.execute("DELETE FROM ip2asn_staging", ()) {
        Ok(_) => Ok(()),
        Err(e) => Err(Ip2AsnError::DbError(format!("{}", e))),
    }
}

/// Relies on rusqlite's `Connection::execute` running
/// `INSERT OR REPLACE` into the staging table: on success the staged row
/// is added, replacing one with the same key, and the range rows are
/// untouched; a failed statement changes nothing.
#[verifier::external_body]
fn stage_range(conn: &mut rusqlite::Connection, entry: &Ip2AsnEntry) -> (r: Result<
    (),
    Ip2AsnError,
>)
    ensures
        r is Ok ==> db_staging(*final(conn)) == db_staging(*old(conn)).insert((entry.ip_start, entry.ip_end), entry.asn),
        r is Ok ==> db_ranges(*final(conn)) == db_ranges(*old(conn)),
        r is Ok ==> db_last_updated(*final(conn)) == db_last_updated(*old(conn)),
        r is Err ==> db_ranges(*final(conn)) == db_ranges(*old(conn)) && db_last_updated(*final(conn)) == db_last_updated(*old(conn)),
{
    let q = conn.execute(
        "INSERT OR REPLACE INTO ip2asn_staging (ip_start, ip_end, asn) VALUES (?1, ?2, ?3)",
        (entry.ip_start as i64, entry.ip_end as i64, entry.asn as i64),
    );
    match q {
        Ok(_) => Ok(()),
        Err(e) => Err(Ip2AsnError::DbError(format!("{}", e))),
    }
}

/// Relies on rusqlite's `Connection::execute_batch` running one SQLite
/// transaction that deletes every range row and copies the staged rows in,
/// stamped `now`. SQLite commits a transaction as a whole or rolls it
/// back as a whole, so on success the range rows are exactly the staged
/// rows and on failure nothing has changed.
#[verifier::external_body]
fn swap_staging(conn: &mut rusqlite::Connection, now: u64) -> (r: Result<(), Ip2AsnError>)
    requires
        now <= MAX_TIMESTAMP,
    ensures
        r is Ok ==> db_ranges(*final(conn)) == db_staging(*old(conn)),
        r is Ok ==> db_last_updated(*final(conn)) == (if db_staging(*old(conn)) == empty_rows() { None::<u64> } else { Some(now) }),
        r is Err ==> db_ranges(*final(conn)) == db_ranges(*old(conn)) && db_last_updated(*final(conn)) == db_last_updated(*old(conn)),
{
    let sql = format!(
        "BEGIN; DELETE FROM ip2asn; INSERT INTO ip2asn (ip_start, ip_end, asn, updated_at) SELECT ip_start, ip_end, asn, {} FROM ip2asn_staging; COMMIT;",
        now,
    );
    match conn.execute_batch(sql.as_str()) {
        Ok(_) => Ok(()),
        Err(e) => {
            let _ = conn.execute_batch("ROLLBACK;");
            Err(Ip2AsnError::DbError(format!("{}", e)))
        },
    }
}

/// Relies on rusqlite's `Statement::query_map` running
/// `SELECT ... ORDER BY ip_start, ip_end`: on success the returned rows
/// are exactly the range rows, in strictly ascending key order because
/// `(ip_start, ip_end)` is the primary key. Per-row timestamps are not
/// read back; staleness uses the aggregate query.
#[verifier::external_body]
fn all_ranges(conn: &rusqlite::Connection) -> (r: Result<Vec<Ip2AsnEntry>, Ip2AsnError>)
    ensures
        r is Ok ==> seq_sorted(r->Ok_0@),
        r is Ok ==> seq_matches_map(r->Ok_0@, db_ranges(*conn)),
{
    let q = conn.prepare("SELECT ip_start, ip_end, asn FROM ip2asn ORDER BY ip_start, ip_end")
        .and_then(|mut s| {
            s.query_map((), |row| {
                Ok(Ip2AsnEntry::from_row(row.get(0)?, row.get(1)?, row.get(2)?))
            })?.collect::<rusqlite::Result<Vec<Ip2AsnEntry>>>()
        });
    match q {
        Ok(v) => Ok(v),
        Err(e) => Err(Ip2AsnError::DbError(format!("{}", e))),
    }
}

/// `(ip_start, ip_end)` of `a` comes before that of `b` lexicographically.
pub open spec fn key_lt(a: Ip2AsnEntry, b: Ip2AsnEntry) -> bool {
    a.ip_start < b.ip_start || (a.ip_start == b.ip_start && a.ip_end < b.ip_end)
}

/// Strictly ascending key order: how the store hands rows out.
pub open spec fn seq_sorted(s: Seq<Ip2AsnEntry>) -> bool {
    forall|i: int, j: int| 0 <= i < j < s.len() ==> key_lt(s[i], s[j])
}

/// The rows `s` are exactly the rows of `m`.
pub open spec fn seq_matches_map(s: Seq<Ip2AsnEntry>, m: Map<(u32, u32), u32>) -> bool {
    &&& forall|i: int|
        #![trigger s[i]]
        0 <= i < s.len() ==> m.contains_key((s[i].ip_start, s[i].ip_end)) && m[
            (s[i].ip_start, s[i].ip_end)
        ] == s[i].asn
    &&& forall|k: (u32, u32)|
        #![trigger m.contains_key(k)]
        m.contains_key(k) ==> exists|i: int|
            0 <= i < s.len() && k == (#[trigger] s[i].ip_start, s[i].ip_end)
}

/// A refresh snapshot as a map: later entries win on a repeated key.
pub open spec fn entries_map(s: Seq<Ip2AsnEntry>) -> Map<(u32, u32), u32>
    decreases s.len(),
{
    if s.len() == 0 {
        Map::empty()
    } else {
        entries_map(s.drop_last()).insert((s.last().ip_start, s.last().ip_end), s.last().asn)
    }
}

/// Well-formed range rows: each range is non-empty and, in row order,
/// ranges are disjoint. This is what a correct upstream feed provides; it
/// is not re-verified against the feed.
pub open spec fn wf_ranges(s: Seq<Ip2AsnEntry>) -> bool {
    &&& forall|i: int| #![trigger s[i]] 0 <= i < s.len() ==> s[i].ip_start <= s[i].ip_end
    &&& forall|i: int, j: int|
        #![trigger s[i], s[j]]
        0 <= i < j < s.len() ==> s[i].ip_end < s[j].ip_start
}

/// Well-formed store contents: each range non-empty, all ranges disjoint.
pub open spec fn map_wf(m: Map<(u32, u32), u32>) -> bool {
    &&& forall|k: (u32, u32)| #![trigger m.contains_key(k)] m.contains_key(k) ==> k.0 <= k.1
    &&& forall|k1: (u32, u32), k2: (u32, u32)|
        #![trigger m.contains_key(k1), m.contains_key(k2)]
        m.contains_key(k1) && m.contains_key(k2) && k1 != k2 ==> k1.1 < k2.0 || k2.1 < k1.0
}

pub open spec fn range_contains(e: Ip2AsnEntry, ip: u32) -> bool {
    e.ip_start <= ip && ip <= e.ip_end
}

/// The ASN of the first row whose range contains `ip`.
pub open spec fn spec_lookup(s: Seq<Ip2AsnEntry>, ip: u32) -> Option<u32>
    decreases s.len(),
{
    if s.len() == 0 {
        None
    } else if range_contains(s[0], ip) {
        Some(s[0].asn)
    } else {
        spec_lookup(s.drop_first(), ip)
    }
}

proof fn lemma_lookup_none(s: Seq<Ip2AsnEntry>, ip: u32)
    requires
        forall|i: int| 0 <= i < s.len() ==> !range_contains(#[trigger] s[i], ip),
    ensures
        spec_lookup(s, ip) is None,
    decreases s.len(),
{
    if s.len() > 0 {
        let t = s.drop_first();
        assert forall|i: int| 0 <= i < t.len() implies !range_contains(#[trigger] t[i], ip) by {
            assert(t[i] == s[i + 1]);
        }
        lemma_lookup_none(t, ip);
    }
}

proof fn lemma_none_no_contains(s: Seq<Ip2AsnEntry>, ip: u32)
    requires
        spec_lookup(s, ip) is None,
    ensures
        forall|i: int| 0 <= i < s.len() ==> !range_contains(#[trigger] s[i], ip),
    decreases s.len(),
{
    if s.len() > 0 {
        let t = s.drop_first();
        lemma_none_no_contains(t, ip);
        assert forall|i: int| 0 <= i < s.len() implies !range_contains(#[trigger] s[i], ip) by {
            if i > 0 {
                assert(t[i - 1] == s[i]);
            }
        }
    }
}

proof fn lemma_lookup_found(s: Seq<Ip2AsnEntry>, ip: u32, c: int)
    requires
        wf_ranges(s),
        0 <= c < s.len(),
        range_contains(s[c], ip),
    ensures
        spec_lookup(s, ip) == Some(s[c].asn),
    decreases s.len(),
{
    if range_contains(s[0], ip) {
        if c != 0 {
            assert(s[0].ip_end < s[c].ip_start);
        }
    } else {
        let t = s.drop_first();
        assert forall|i: int| 0 <= i < t.len() implies #[trigger] t[i] == s[i + 1] by {}
        assert(wf_ranges(t)) by {
            assert forall|i: int, j: int| 0 <= i < j < t.len() implies #[trigger] t[i].ip_end
                < #[trigger] t[j].ip_start by {
                assert(s[i + 1].ip_end < s[j + 1].ip_start);
            }
        }
        lemma_lookup_found(t, ip, c - 1);
    }
}

/// Point lookup over one sorted snapshot: binary search for the range
/// containing `ip`.
///
/// A returned ASN always belongs to a row whose range contains `ip`; over
/// well-formed rows the result is exactly the unique containing row, or
/// `None` when no range contains `ip`.
pub fn lookup_in_ranges(ranges: &Vec<Ip2AsnEntry>, ip: u32) -> (r: Option<u32>)
    ensures
        r is Some ==> exists|i: int|
            0 <= i < ranges@.len() && range_contains(#[trigger] ranges@[i], ip) && ranges@[i].asn
                == r->0,
        seq_sorted(ranges@) && wf_ranges(ranges@) ==> r == spec_lookup(ranges@, ip),
{
    let ghost s = ranges@;
    let ghost ok = seq_sorted(s) && wf_ranges(s);
    let n = ranges.len();
    let mut lo: usize = 0;
    let mut hi: usize = n;
    while lo < hi
        invariant
            0 <= lo <= hi <= n,
            n == s.len(),
            s == ranges@,
            ok == (seq_sorted(s) && wf_ranges(s)),
            ok ==> forall|k: int| 0 <= k < lo ==> #[trigger] s[k].ip_start <= ip,
            ok ==> forall|k: int| hi <= k < n ==> #[trigger] s[k].ip_start > ip,
        decreases hi - lo,
    {
        let mid = lo + (hi - lo) / 2;
        if ranges[mid].ip_start <= ip {
            proof {
                if ok {
                    assert forall|k: int| 0 <= k < mid + 1 implies #[trigger] s[k].ip_start
                        <= ip by {
                        if k < mid {
                            assert(key_lt(s[k], s[mid as int]));
                            assert(s[k].ip_end < s[mid as int].ip_start);
                            assert(s[k].ip_start <= s[k].ip_end);
                        }
                    }
                }
            }
            lo = mid + 1;
        } else {
            proof {
                if ok {
                    assert forall|k: int| mid <= k < n implies #[trigger] s[k].ip_start > ip by {
                        if k > mid {
                            assert(s[mid as int].ip_end < s[k].ip_start);
                            assert(s[mid as int].ip_start <= s[mid as int].ip_end);
                        }
                    }
                }
            }
            hi = mid;
        }
    }
    if lo == 0 {
        proof {
            if ok {
                assert forall|i: int| 0 <= i < s.len() implies !range_contains(
                    #[trigger] s[i],
                    ip,
                ) by {
                    assert(s[i].ip_start > ip);
                }
                lemma_lookup_none(s, ip);
            }
        }
        None
    } else {
        let c = lo - 1;
        let e = &ranges[c];
        if e.ip_start <= ip && ip <= e.ip_end {
            proof {
                assert(range_contains(s[c as int], ip));
                if ok {
                    lemma_lookup_found(s, ip, c as int);
                }
            }
            Some(e.asn)
        } else {
            proof {
                if ok {
                    assert forall|i: int| 0 <= i < s.len() implies !range_contains(
                        #[trigger] s[i],
                        ip,
                    ) by {
                        if i < c {
                            assert(s[i].ip_end < s[c as int].ip_start);
                        } else if i == c {
                            assert(s[c as int].ip_start <= ip);
                        } else {
                            assert(s[i].ip_start > ip);
                        }
                    }
                    lemma_lookup_none(s, ip);
                }
            }
            None
        }
    }
}

/// Stale when nothing was ever refreshed, or the last refresh is older
/// than the threshold.
pub open spec fn spec_is_stale(last_updated: Option<u64>, now: u64, threshold: u64) -> bool {
    match last_updated {
        None => true,
        Some(t) => now > t + threshold,
    }
}

/// The staleness decision that drives the refresh loop.
pub fn is_stale(last_updated: Option<u64>, now: u64, threshold: u64) -> (r: bool)
    ensures
        r == spec_is_stale(last_updated, now, threshold),
{
    match last_updated {
        None => true,
        Some(t) => now > threshold && now - threshold > t,
    }
}

/// The persistent store: a database file of range rows, refreshed
/// wholesale from the remote feed at `ip2asn_db_url`.
#[derive(Debug)]
pub struct Ip2Asn {
    db_path: String,
    ip2asn_db_url: String,
    conn: rusqlite::Connection,
}

impl Ip2Asn {
    /// The modeled range rows of this store.
    pub closed spec fn ranges(self) -> Map<(u32, u32), u32> {
        db_ranges(self.conn)
    }

    /// The modeled newest refresh timestamp of this store.
    pub closed spec fn last_updated(self) -> Option<u64> {
        db_last_updated(self.conn)
    }

    /// The database file this store was opened at.
    pub closed spec fn spec_db_path(self) -> Seq<char> {
        self.db_path@
    }

    /// The feed endpoint this store refreshes from.
    pub closed spec fn spec_feed_url(self) -> Seq<char> {
        self.ip2asn_db_url@
    }

    /// Opens the store at `db_path`, creating the database file and its
    /// tables when they do not exist yet.
    pub fn new(db_path: &str, ip2asn_db_url: &str) -> (r: Result<Self, Ip2AsnError>)
        ensures
            r is Ok ==> r->Ok_0.spec_db_path() == db_path@ && r->Ok_0.spec_feed_url() == ip2asn_db_url@,
    {
        let mut conn = match open_conn(db_path) {
            Ok(c) => c,
            Err(e) => {
                return Err(e);
            },
        };
        match init_tables(&mut conn) {
            Ok(_) => (),
            Err(e) => {
                return Err(e);
            },
        }
        Ok(Ip2Asn { db_path: db_path.to_owned(), ip2asn_db_url: ip2asn_db_url.to_owned(), conn })
    }

    /// Where the remote bulk feed is fetched from.
    pub fn feed_url(&self) -> (r: &str)
        ensures
            r@ == self.spec_feed_url(),
    {
        self.ip2asn_db_url.as_str()
    }

    /// The newest refresh timestamp among the stored rows; `None` while
    /// the store has no rows at all.
    pub fn oldest_updated_at(&self) -> (r: Result<Option<u64>, Ip2AsnError>)
        ensures
            r is Ok ==> r->Ok_0 == self.last_updated(),
    {
        query_max_updated(&self.conn)
    }

    /// Inserts one row stamped `now`; fails on a duplicate key and then
    /// changes nothing.
    pub fn store(&mut self, entry: Ip2AsnEntry, now: u64) -> (r: Result<(), Ip2AsnError>)
        requires
            now <= MAX_TIMESTAMP,
        ensures
            r is Ok ==> final(self).ranges() == old(self).ranges().insert((entry.ip_start, entry.ip_end), entry.asn),
            r is Ok ==> final(self).last_updated() == Some(spec_max_updated(old(self).last_updated(), now)),
            r is Err ==> final(self).ranges() == old(self).ranges() && final(self).last_updated() == old(self).last_updated(),
    {
        insert_range(&mut self.conn, &entry, now)
    }

    /// Replaces the whole table with the entries of one feed snapshot, in
    /// one transaction, stamped `now`.
    ///
    /// On success the store holds exactly the new snapshot; on failure it
    /// still holds exactly what it held before, never a mix.
    pub fn replace_all(&mut self, entries: &Vec<Ip2AsnEntry>, now: u64) -> (r: Result<
        usize,
        Ip2AsnError,
    >)
        requires
            now <= MAX_TIMESTAMP,
        ensures
            r is Ok ==> final(self).ranges() == entries_map(entries@),
            r is Ok ==> final(self).last_updated() == (if entries@.len() == 0 { None::<u64> } else { Some(now) }),
            r is Ok ==> r->Ok_0 == entries@.len(),
            r is Err ==> final(self).ranges() == old(self).ranges() && final(self).last_updated() == old(self).last_updated(),
    {
        let ghost orig_ranges = db_ranges(self.conn);
        let ghost orig_updated = db_last_updated(self.conn);
        match reset_staging(&mut self.conn) {
            Ok(_) => (),
            Err(e) => {
                return Err(e);
            },
        }
        let n = entries.len();
        let mut i: usize = 0;
        while i < n
            invariant
                0 <= i <= n,
                n == entries@.len(),
                db_staging(self.conn) == entries_map(entries@.subrange(0, i as int)),
                db_ranges(self.conn) == orig_ranges,
                db_last_updated(self.conn) == orig_updated,
                orig_ranges == old(self).ranges(),
                orig_updated == old(self).last_updated(),
            decreases n - i,
        {
            match stage_range(&mut self.conn, &entries[i]) {
                Ok(_) => (),
                Err(e) => {
                    return Err(e);
                },
            }
            i += 1;
            proof {
                let pre = entries@.subrange(0, i - 1);
                let cur = entries@.subrange(0, i as int);
                assert(cur.drop_last() =~= pre);
                assert(cur.last() == entries@[i - 1]);
            }
        }
        proof {
            assert(entries@.subrange(0, n as int) =~= entries@);
            if entries@.len() > 0 {
                let last = entries@.last();
                assert(entries_map(entries@).contains_key((last.ip_start, last.ip_end)));
                assert(!empty_rows().contains_key((last.ip_start, last.ip_end)));
            }
        }
        match swap_staging(&mut self.conn, now) {
            Ok(_) => Ok(n),
            Err(e) => Err(e),
        }
    }

    /// Is the store due for a refresh: no rows yet, or the newest row is
    /// older than `threshold` seconds before `now`.
    pub fn needs_refresh(&self, now: u64, threshold: u64) -> (r: Result<bool, Ip2AsnError>)
        ensures
            r is Ok ==> r->Ok_0 == spec_is_stale(self.last_updated(), now, threshold),
    {
        match query_max_updated(&self.conn) {
            Ok(last) => Ok(is_stale(last, now, threshold)),
            Err(e) => Err(e),
        }
    }

    /// The ASN owning `ip`, or `None` when no stored range contains it.
    ///
    /// A returned ASN always belongs to a stored range containing `ip`;
    /// over well-formed contents `None` means no stored range contains it.
    pub fn lookup_asn(&self, ip: u32) -> (r: Result<Option<u32>, Ip2AsnError>)
        ensures
            r is Ok && r->Ok_0 is Some ==> exists|k: (u32, u32)|
                #![trigger self.ranges().contains_key(k)]
                self.ranges().contains_key(k) && k.0 <= ip <= k.1 && self.ranges()[k] == r->Ok_0->0,
            map_wf(self.ranges()) && r is Ok && r->Ok_0 is None ==> forall|k: (u32, u32)|
                #![trigger self.ranges().contains_key(k)]
                self.ranges().contains_key(k) ==> !(k.0 <= ip <= k.1),
    {
        let rows = match all_ranges(&self.conn) {
            Ok(v) => v,
            Err(e) => {
                return Err(e);
            },
        };
        let ghost m = self.ranges();
        proof {
            assert(m == db_ranges(self.conn));
        }
        let r = lookup_in_ranges(&rows, ip);
        proof {
            if r is Some {
                let i = choose|i: int|
                    0 <= i < rows@.len() && range_contains(#[trigger] rows@[i], ip) && rows@[i].asn
                        == r->0;
                let k = (rows@[i].ip_start, rows@[i].ip_end);
                assert(self.ranges().contains_key(k) && k.0 <= ip <= k.1 && self.ranges()[k]
                    == r->0);
            }
            if map_wf(m) && r is None {
                assert(wf_ranges(rows@)) by {
                    assert forall|i: int, j: int| 0 <= i < j < rows@.len() implies #[trigger]
                    rows@[i].ip_end < #[trigger] rows@[j].ip_start by {
                        let k1 = (rows@[i].ip_start, rows@[i].ip_end);
                        let k2 = (rows@[j].ip_start, rows@[j].ip_end);
                        assert(m.contains_key(k1));
                        assert(m.contains_key(k2));
                        assert(key_lt(rows@[i], rows@[j]));
                        assert(k1.0 <= k1.1);
                        assert(k2.0 <= k2.1);
                    }
                }
                lemma_none_no_contains(rows@, ip);
                assert forall|k: (u32, u32)| #[trigger]
                self.ranges().contains_key(k) implies !(k.0 <= ip <= k.1) by {
                    assert(m.contains_key(k));
                    let i = choose|i: int|
                        0 <= i < rows@.len() && k == (#[trigger] rows@[i].ip_start, rows@[i].ip_end);
                    assert(!range_contains(rows@[i], ip));
                }
            }
        }
        Ok(r)
    }
}

} // verus!
