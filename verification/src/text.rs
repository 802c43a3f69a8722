//! Character-level helpers shared by the provider normalizers and the
//! kill-switch rule: "AS" prefix stripping, first-token extraction, ASCII
//! case-insensitive comparison, and decimal rendering of integers.

use vstd::prelude::*;

verus! {

/// The string begins with the "AS" prefix.
pub open spec fn spec_has_as_prefix(s: Seq<char>) -> bool {
    s.len() >= 2 && s[0] == 'A' && s[1] == 'S'
}

/// The ASN string with a leading "AS" removed, when one is present.
pub open spec fn spec_strip_as(s: Seq<char>) -> Seq<char> {
    if spec_has_as_prefix(s) {
        s.subrange(2, s.len() as int)
    } else {
        s
    }
}

/// Stripping the "AS" prefix is idempotent: whatever remains after one
/// strip — as long as it does not itself begin with "AS", as a bare ASN
/// number never does — is left unchanged by another strip.
pub proof fn lemma_strip_as_idempotent(s: Seq<char>)
    requires
        !spec_has_as_prefix(spec_strip_as(s)),
    ensures
        spec_strip_as(spec_strip_as(s)) == spec_strip_as(s),
{
}

/// An "AS"-prefixed ASN and the bare ASN normalize to the same string:
/// stripping the prefix gives the bare ASN back.
pub proof fn lemma_strip_as_of_prefixed(s: Seq<char>)
    ensures
        spec_strip_as(seq!['A', 'S'] + s) == s,
{
    let p = seq!['A', 'S'] + s;
    assert(p.subrange(2, p.len() as int) =~= s);
}

/// Strips a leading "AS" from an ASN string: "AS3320" becomes "3320",
/// a bare "3320" is returned unchanged.
pub fn remove_asn_prefix(asn: String) -> (r: String)
    ensures
        r@ == spec_strip_as(asn@),
{
    let s = asn.as_str();
    let n = s.unicode_len();
    if n >= 2 && s.get_char(0) == 'A' && s.get_char(1) == 'S' {
        let rest = s.substring_char(2, n);
        rest.to_owned()
    } else {
        asn
    }
}

/// Same normalization as [`remove_asn_prefix`]; a second provider reports
/// its ASN in the same "AS"-prefixed shape.
pub fn remove_as_prefix(asn: String) -> (r: String)
    ensures
        r@ == spec_strip_as(asn@),
{
    remove_asn_prefix(asn)
}

/// Index of the first space in `s` at or after `from`, or `s.len()` if none.
pub open spec fn spec_first_space(s: Seq<char>, from: int) -> int
    decreases s.len() - from,
{
    if from < 0 || from >= s.len() {
        s.len() as int
    } else if s[from] == ' ' {
        from
    } else {
        spec_first_space(s, from + 1)
    }
}

/// The ASN extracted from a combined "AS1234 Org Name" string: the first
/// space-delimited token, without its "AS" prefix; `None` when the first
/// token does not start with "AS".
pub open spec fn spec_parse_asn(s: Seq<char>) -> Option<Seq<char>> {
    let t = s.subrange(0, spec_first_space(s, 0));
    if t.len() >= 2 && t[0] == 'A' && t[1] == 'S' {
        Some(t.subrange(2, t.len() as int))
    } else {
        None
    }
}

/// Extracts the ASN from a combined "AS1234 Org Name" field.
pub fn parse_asn(asn: String) -> (r: Option<String>)
    ensures
        r is Some <==> spec_parse_asn(asn@) is Some,
        r is Some ==> r->0@ == spec_parse_asn(asn@)->0,
{
    let s = asn.as_str();
    let n = s.unicode_len();
    let mut i: usize = 0;
    while i < n && s.get_char(i) != ' '
        invariant
            0 <= i <= n,
            n == s@.len(),
            forall|k: int| 0 <= k < i ==> s@[k] != ' ',
        decreases n - i,
    {
        i += 1;
    }
    proof {
        lemma_first_space_at(s@, i as int);
    }
    let token = s.substring_char(0, i);
    if i >= 2 && token.get_char(0) == 'A' && token.get_char(1) == 'S' {
        Some(token.substring_char(2, i).to_owned())
    } else {
        None
    }
}

/// If no space occurs before `i`, and `i` is either the length of `s` or a
/// space, then `i` is the first space position.
proof fn lemma_first_space_at(s: Seq<char>, i: int)
    requires
        0 <= i <= s.len(),
        forall|k: int| 0 <= k < i ==> s[k] != ' ',
        i < s.len() ==> s[i] == ' ',
    ensures
        spec_first_space(s, 0) == i,
{
    lemma_first_space_scan(s, 0, i);
}

proof fn lemma_first_space_scan(s: Seq<char>, from: int, i: int)
    requires
        0 <= from <= i <= s.len(),
        forall|k: int| from <= k < i ==> s[k] != ' ',
        i < s.len() ==> s[i] == ' ',
    ensures
        spec_first_space(s, from) == i,
    decreases i - from,
{
    if from < i {
        lemma_first_space_scan(s, from + 1, i);
    }
}

/// An upper-case ASCII letter folded to lower case; other characters are
/// left alone.
pub open spec fn spec_lower_char(c: char) -> char {
    if 'A' <= c && c <= 'Z' {
        ((c as u8) + 32) as char
    } else {
        c
    }
}

/// ASCII case-insensitive equality of two character sequences.
pub open spec fn spec_eq_ignore_case(a: Seq<char>, b: Seq<char>) -> bool {
    a.len() == b.len() && forall|i: int|
        0 <= i < a.len() ==> spec_lower_char(a[i]) == spec_lower_char(b[i])
}

fn lower_char(c: char) -> (r: char)
    ensures
        r == spec_lower_char(c),
{
    if 'A' <= c && c <= 'Z' {
        ((c as u8) + 32) as char
    } else {
        c
    }
}

/// ASCII case-insensitive string equality, as the kill-switch rule compares the
/// observed ASN against the configured one.
pub fn eq_ignore_ascii_case(a: &str, b: &str) -> (r: bool)
    ensures
        r == spec_eq_ignore_case(a@, b@),
{
    let na = a.unicode_len();
    let nb = b.unicode_len();
    if na != nb {
        return false;
    }
    let mut i: usize = 0;
    while i < na
        invariant
            0 <= i <= na,
            na == a@.len(),
            na == b@.len(),
            forall|k: int| 0 <= k < i ==> spec_lower_char(a@[k]) == spec_lower_char(b@[k]),
        decreases na - i,
    {
        if lower_char(a.get_char(i)) != lower_char(b.get_char(i)) {
            return false;
        }
        i += 1;
    }
    true
}

/// The decimal rendering of `n`, most significant digit first.
pub open spec fn spec_u64_dec(n: u64) -> Seq<char>
    decreases n,
{
    if n < 10 {
        seq![spec_digit_char(n as int)]
    } else {
        spec_u64_dec(n / 10).push(spec_digit_char((n % 10) as int))
    }
}

/// The character for one decimal digit.
pub open spec fn spec_digit_char(d: int) -> char {
    if d == 0 { '0' }
    else if d == 1 { '1' }
    else if d == 2 { '2' }
    else if d == 3 { '3' }
    else if d == 4 { '4' }
    else if d == 5 { '5' }
    else if d == 6 { '6' }
    else if d == 7 { '7' }
    else if d == 8 { '8' }
    else if d == 9 { '9' }
    else { ' ' }
}

fn digit_str(d: u64) -> (r: &'static str)
    requires
        d < 10,
    ensures
        r@ =~= seq![spec_digit_char(d as int)],
{
    proof {
        reveal_strlit("0");
        reveal_strlit("1");
        reveal_strlit("2");
        reveal_strlit("3");
        reveal_strlit("4");
        reveal_strlit("5");
        reveal_strlit("6");
        reveal_strlit("7");
        reveal_strlit("8");
        reveal_strlit("9");
    }
    if d == 0 { "0" }
    else if d == 1 { "1" }
    else if d == 2 { "2" }
    else if d == 3 { "3" }
    else if d == 4 { "4" }
    else if d == 5 { "5" }
    else if d == 6 { "6" }
    else if d == 7 { "7" }
    else if d == 8 { "8" }
    else { "9" }
}

/// Renders `n` in decimal, as providers that report a numeric ASN are
/// normalized to the same string shape as the rest.
pub fn u64_to_dec_string(n: u64) -> (r: String)
    ensures
        r@ == spec_u64_dec(n),
    decreases n,
{
    if n < 10 {
        digit_str(n).to_owned()
    } else {
        let mut s = u64_to_dec_string(n / 10);
        s.append(digit_str(n % 10));
        proof {
            assert(s@ =~= spec_u64_dec(n));
        }
        s
    }
}

} // verus!
