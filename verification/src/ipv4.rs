//! Parsing of dotted-quad IPv4 addresses into their 32-bit value.
//!
//! Every provider reports the public address as text; the record type holds
//! it as an unsigned 32-bit integer, so parsing is the one step all
//! normalizers share. A valid address is four decimal octets separated by
//! dots, each octet at most 255, written without leading zeros.

use vstd::prelude::*;

verus! {

pub open spec fn is_digit(c: char) -> bool {
    '0' <= c && c <= '9'
}

pub open spec fn digit_val(c: char) -> int {
    c as int - '0' as int
}

/// The value of a run of decimal digits, most significant first.
pub open spec fn seg_value(s: Seq<char>) -> int
    decreases s.len(),
{
    if s.len() == 0 {
        0
    } else {
        seg_value(s.drop_last()) * 10 + digit_val(s.last())
    }
}

/// One octet of a dotted quad: one to three digits, no leading zero,
/// value at most 255.
pub open spec fn valid_octet(s: Seq<char>) -> bool {
    &&& 1 <= s.len() <= 3
    &&& forall|i: int| 0 <= i < s.len() ==> is_digit(s[i])
    &&& s.len() > 1 ==> s[0] != '0'
    &&& seg_value(s) <= 255
}

/// `i`, `j`, `k` are the three dots of a well-formed dotted quad, with a
/// valid octet between each pair.
pub open spec fn ipv4_split_at(s: Seq<char>, i: int, j: int, k: int) -> bool {
    &&& 0 <= i < j < k < s.len()
    &&& s[i] == '.' && s[j] == '.' && s[k] == '.'
    &&& valid_octet(s.subrange(0, i))
    &&& valid_octet(s.subrange(i + 1, j))
    &&& valid_octet(s.subrange(j + 1, k))
    &&& valid_octet(s.subrange(k + 1, s.len() as int))
}

pub open spec fn valid_ipv4(s: Seq<char>) -> bool {
    exists|t: (int, int, int)| ipv4_split_at(s, t.0, t.1, t.2)
}

pub open spec fn ipv4_value_at(s: Seq<char>, i: int, j: int, k: int) -> int {
    seg_value(s.subrange(0, i)) * 0x1000000
        + seg_value(s.subrange(i + 1, j)) * 0x10000
        + seg_value(s.subrange(j + 1, k)) * 0x100
        + seg_value(s.subrange(k + 1, s.len() as int))
}

/// The 32-bit value of a valid dotted quad.
pub open spec fn spec_ipv4_value(s: Seq<char>) -> int {
    let t = choose|t: (int, int, int)| ipv4_split_at(s, t.0, t.1, t.2);
    ipv4_value_at(s, t.0, t.1, t.2)
}

/// In a well-formed split every dot of the string is one of the three
/// separators: the four octets hold digits only.
proof fn lemma_split_dots(s: Seq<char>, i: int, j: int, k: int, p: int)
    requires
        ipv4_split_at(s, i, j, k),
        0 <= p < s.len(),
        s[p] == '.',
    ensures
        p == i || p == j || p == k,
{
    if p < i {
        assert(s.subrange(0, i)[p] == s[p]);
    } else if i < p < j {
        assert(s.subrange(i + 1, j)[p - (i + 1)] == s[p]);
    } else if j < p < k {
        assert(s.subrange(j + 1, k)[p - (j + 1)] == s[p]);
    } else if k < p {
        assert(s.subrange(k + 1, s.len() as int)[p - (k + 1)] == s[p]);
    }
}

/// A string splits as a dotted quad in at most one way: the separators are
/// exactly its dots, in order.
proof fn lemma_split_unique(s: Seq<char>, i: int, j: int, k: int, i2: int, j2: int, k2: int)
    requires
        ipv4_split_at(s, i, j, k),
        ipv4_split_at(s, i2, j2, k2),
    ensures
        i == i2 && j == j2 && k == k2,
{
    lemma_split_dots(s, i, j, k, i2);
    lemma_split_dots(s, i, j, k, j2);
    lemma_split_dots(s, i, j, k, k2);
    lemma_split_dots(s, i2, j2, k2, i);
    lemma_split_dots(s, i2, j2, k2, j);
    lemma_split_dots(s, i2, j2, k2, k);
}

spec fn spec_p10(n: int) -> int {
    if n <= 0 { 1 }
    else if n == 1 { 10 }
    else if n == 2 { 100 }
    else { 1000 }
}

fn parse_octet(s: &str, from: usize, to: usize) -> (r: Option<u32>)
    requires
        from <= to <= s@.len(),
    ensures
        r is Some <==> valid_octet(s@.subrange(from as int, to as int)),
        r is Some ==> r->0 as int == seg_value(s@.subrange(from as int, to as int)),
{
    let ghost sub = s@.subrange(from as int, to as int);
    let len = to - from;
    if len < 1 || len > 3 {
        return None;
    }
    if len > 1 && s.get_char(from) == '0' {
        assert(sub[0] == s@[from as int]);
        return None;
    }
    let mut v: u32 = 0;
    let mut q: usize = from;
    while q < to
        invariant
            from <= q <= to <= s@.len(),
            to - from <= 3,
            sub == s@.subrange(from as int, to as int),
            forall|t: int| from <= t < q ==> is_digit(s@[t]),
            v as int == seg_value(s@.subrange(from as int, q as int)),
            (v as int) < spec_p10(q as int - from as int),
        decreases to - q,
    {
        let c = s.get_char(q);
        if !('0' <= c && c <= '9') {
            assert(sub[q - from] == s@[q as int]);
            return None;
        }
        v = v * 10 + (c as u32 - '0' as u32);
        q += 1;
        proof {
            let pre = s@.subrange(from as int, q - 1);
            let cur = s@.subrange(from as int, q as int);
            assert(cur.drop_last() =~= pre);
            assert(cur.last() == s@[q - 1]);
        }
    }
    proof {
        assert(forall|t: int| 0 <= t < sub.len() ==> sub[t] == s@[from + t]);
    }
    if v > 255 {
        return None;
    }
    Some(v)
}

/// Parses a dotted-quad IPv4 address. Returns its 32-bit value, or `None`
/// on anything that is not four valid octets separated by dots.
pub fn parse_ipv4(s: &str) -> (r: Option<u32>)
    ensures
        r is Some <==> valid_ipv4(s@),
        r is Some ==> r->0 as int == spec_ipv4_value(s@),
{
    let n = s.unicode_len();
    let mut count: usize = 0;
    let mut d0: usize = 0;
    let mut d1: usize = 0;
    let mut d2: usize = 0;
    let mut p: usize = 0;
    while p < n
        invariant
            0 <= p <= n,
            n == s@.len(),
            count <= 3,
            count >= 1 ==> d0 < p && s@[d0 as int] == '.',
            count >= 2 ==> d0 < d1 < p && s@[d1 as int] == '.',
            count >= 3 ==> d1 < d2 < p && s@[d2 as int] == '.',
            forall|q: int|
                0 <= q < p && s@[q] == '.' ==> (count >= 1 && q == d0) || (count >= 2 && q == d1)
                    || (count >= 3 && q == d2),
        decreases n - p,
    {
        if s.get_char(p) == '.' {
            if count == 0 {
                d0 = p;
            } else if count == 1 {
                d1 = p;
            } else if count == 2 {
                d2 = p;
            } else {
                proof {
                    if valid_ipv4(s@) {
                        let t = choose|t: (int, int, int)| ipv4_split_at(s@, t.0, t.1, t.2);
                        lemma_split_dots(s@, t.0, t.1, t.2, d0 as int);
                        lemma_split_dots(s@, t.0, t.1, t.2, d1 as int);
                        lemma_split_dots(s@, t.0, t.1, t.2, d2 as int);
                        lemma_split_dots(s@, t.0, t.1, t.2, p as int);
                    }
                }
                return None;
            }
            count += 1;
        }
        p += 1;
    }
    if count != 3 {
        proof {
            if valid_ipv4(s@) {
                let t = choose|t: (int, int, int)| ipv4_split_at(s@, t.0, t.1, t.2);
                assert(s@[t.0] == '.');
                assert(s@[t.1] == '.');
                assert(s@[t.2] == '.');
            }
        }
        return None;
    }
    let o0 = parse_octet(s, 0, d0);
    let o1 = parse_octet(s, d0 + 1, d1);
    let o2 = parse_octet(s, d1 + 1, d2);
    let o3 = parse_octet(s, d2 + 1, n);
    proof {
        if valid_ipv4(s@) {
            let t = choose|t: (int, int, int)| ipv4_split_at(s@, t.0, t.1, t.2);
            assert(s@[t.0] == '.');
            assert(s@[t.1] == '.');
            assert(s@[t.2] == '.');
            assert(t.0 == d0 && t.1 == d1 && t.2 == d2);
        }
    }
    match (o0, o1, o2, o3) {
        (Some(a), Some(b), Some(c), Some(d)) => {
            proof {
                let w = (d0 as int, d1 as int, d2 as int);
                assert(ipv4_split_at(s@, w.0, w.1, w.2));
                assert(valid_ipv4(s@));
                let t = choose|t: (int, int, int)| ipv4_split_at(s@, t.0, t.1, t.2);
                lemma_split_unique(s@, t.0, t.1, t.2, d0 as int, d1 as int, d2 as int);
            }
            Some(a * 0x1000000 + b * 0x10000 + c * 0x100 + d)
        },
        _ => None,
    }
}

} // verus!
