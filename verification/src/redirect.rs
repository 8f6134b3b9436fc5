//! Reading the authorization code out of the loopback redirect: query
//! extraction and percent-decoding.
//!
//! The redirect listener hands over the request target it captured; this
//! module finds a named query parameter and undoes the form encoding. A
//! `+` decodes to a space and `%` followed by two hex digits decodes to
//! that code unit; a `%` not followed by two hex digits stays literal.
//! Keys are compared undecoded.
use vstd::prelude::*;

use crate::text::chars_to_string;
use crate::text::chars_vec;

verus! {

/// `c` is a hexadecimal digit.
pub open spec fn is_hex_char(c: char) -> bool {
    ('0' <= c && c <= '9') || ('a' <= c && c <= 'f') || ('A' <= c && c <= 'F')
}

/// The value of a hexadecimal digit.
pub open spec fn hex_char_val(c: char) -> int {
    if '0' <= c && c <= '9' {
        c as int - 48
    } else if 'a' <= c && c <= 'f' {
        c as int - 87
    } else {
        c as int - 55
    }
}

/// The decoded form of a query component: `+` is a space, `%` with two hex
/// digits is that code unit, everything else stands for itself.
pub open spec fn pct_decode(s: Seq<char>) -> Seq<char>
    decreases s.len(),
{
    if s.len() == 0 {
        Seq::<char>::empty()
    } else if s[0] == '+' {
        seq![' '] + pct_decode(s.drop_first())
    } else if s[0] == '%' && s.len() >= 3 && is_hex_char(s[1]) && is_hex_char(s[2]) {
        seq![((hex_char_val(s[1]) * 16 + hex_char_val(s[2])) as u8) as char] + pct_decode(s.skip(3))
    } else {
        seq![s[0]] + pct_decode(s.drop_first())
    }
}

/// The position of the first `c` at or after `i`, or the length when there
/// is none.
pub open spec fn scan_to(s: Seq<char>, i: int, c: char) -> int
    decreases s.len() - i,
{
    if !(0 <= i && i < s.len()) {
        s.len() as int
    } else if s[i] == c {
        i
    } else {
        scan_to(s, i + 1, c)
    }
}

/// What `scan_to` finds: a position between `i` and the length, holding
/// `c` when it is inside, with no `c` before it.
pub proof fn lemma_scan_to_props(s: Seq<char>, i: int, c: char)
    requires
        0 <= i <= s.len(),
    ensures
        i <= scan_to(s, i, c) <= s.len(),
        scan_to(s, i, c) < s.len() ==> s[scan_to(s, i, c)] == c,
        forall|m: int| i <= m < scan_to(s, i, c) ==> s[m] != c,
    decreases s.len() - i,
{
    if i < s.len() && s[i] != c {
        lemma_scan_to_props(s, i + 1, c);
    }
}

/// When a scan's outcome is known by position, `scan_to` agrees with it.
proof fn lemma_scan_to_at(s: Seq<char>, i: int, c: char, k: int)
    requires
        0 <= i <= k <= s.len(),
        forall|m: int| i <= m < k ==> s[m] != c,
        k == s.len() || s[k] == c,
    ensures
        scan_to(s, i, c) == k,
    decreases k - i,
{
    if i < k {
        lemma_scan_to_at(s, i + 1, c, k);
    }
}

/// The query component of a request target: what follows the first `?`, or
/// empty when there is none.
pub open spec fn query_of(s: Seq<char>) -> Seq<char> {
    if scan_to(s, 0, '?') == s.len() {
        Seq::<char>::empty()
    } else {
        s.skip(scan_to(s, 0, '?') + 1)
    }
}

/// The key of one `key=value` pair: everything before the first `=`, or
/// the whole pair when there is none.
pub open spec fn pair_key(p: Seq<char>) -> Seq<char> {
    p.subrange(0, scan_to(p, 0, '='))
}

/// The raw value of one `key=value` pair: everything after the first `=`,
/// or empty when there is none.
pub open spec fn pair_val(p: Seq<char>) -> Seq<char> {
    if scan_to(p, 0, '=') == p.len() {
        Seq::<char>::empty()
    } else {
        p.skip(scan_to(p, 0, '=') + 1)
    }
}

/// The raw value of the first `&`-separated pair at or after `i` whose key
/// is `name`.
pub open spec fn lookup_param_from(q: Seq<char>, name: Seq<char>, i: int) -> Option<Seq<char>>
    decreases q.len() - i,
    via lookup_param_from_dec
{
    if !(0 <= i && i < q.len()) {
        None
    } else {
        let e = scan_to(q, i, '&');
        if pair_key(q.subrange(i, e)) == name {
            Some(pair_val(q.subrange(i, e)))
        } else if e >= q.len() {
            None
        } else {
            lookup_param_from(q, name, e + 1)
        }
    }
}

#[via_fn]
proof fn lookup_param_from_dec(q: Seq<char>, name: Seq<char>, i: int) {
    if 0 <= i && i < q.len() {
        lemma_scan_to_props(q, i, '&');
    }
}

/// The raw value of the first pair of `q` whose key is `name`.
pub open spec fn lookup_param(q: Seq<char>, name: Seq<char>) -> Option<Seq<char>> {
    lookup_param_from(q, name, 0)
}

/// The position of the first `c` at or after `i`.
fn scan_to_exec(v: &Vec<char>, i: usize, c: char) -> (r: usize)
    requires
        i <= v@.len(),
    ensures
        r == scan_to(v@, i as int, c),
        i <= r <= v@.len(),
{
    let n = v.len();
    let mut j: usize = i;
    while j < n && v[j] != c
        invariant
            i <= j <= n,
            n == v@.len(),
            forall|m: int| i <= m < j ==> v@[m] != c,
        decreases n - j,
    {
        j = j + 1;
    }
    proof {
        lemma_scan_to_at(v@, i as int, c, j as int);
    }
    j
}

/// Whether `v` in `[i, e)` holds exactly the characters of `name`.
fn range_eq(v: &Vec<char>, i: usize, e: usize, name: &Vec<char>) -> (r: bool)
    requires
        i <= e <= v@.len(),
    ensures
        r == (v@.subrange(i as int, e as int) == name@),
{
    let m = name.len();
    if e - i != m {
        assert(v@.subrange(i as int, e as int).len() != name@.len());
        return false;
    }
    let mut k: usize = 0;
    while k < m
        invariant
            k <= m,
            m == name@.len(),
            i + m == e,
            e <= v@.len(),
            forall|p: int| 0 <= p < k ==> v@[i + p] == name@[p],
        decreases m - k,
    {
        if v[i + k] != name[k] {
            assert(v@.subrange(i as int, e as int)[k as int] == v@[i + k]);
            return false;
        }
        k = k + 1;
    }
    assert(v@.subrange(i as int, e as int) =~= name@);
    true
}

/// The raw value of the first pair at or after `i` whose key is `name`, as
/// its range in `v`.
fn lookup_param_at(v: &Vec<char>, i: usize, name: &Vec<char>) -> (r: Option<(usize, usize)>)
    requires
        i <= v@.len(),
    ensures
        match r {
            Some(p) => p.0 <= p.1 <= v@.len() && lookup_param_from(v@, name@, i as int) == Some(
                v@.subrange(p.0 as int, p.1 as int),
            ),
            None => lookup_param_from(v@, name@, i as int) is None,
        },
    decreases v@.len() - i,
{
    let n = v.len();
    if i >= n {
        return None;
    }
    let e = scan_to_exec(v, i, '&');
    let ghost pair = v@.subrange(i as int, e as int);
    // The first `=` inside the pair, found by scanning the whole text but
    // stopping at the pair's end.
    let n2 = e;
    let mut m: usize = i;
    while m < n2 && v[m] != '='
        invariant
            i <= m <= n2,
            n2 <= v@.len(),
            forall|p: int| i <= p < m ==> v@[p] != '=',
        decreases n2 - m,
    {
        m = m + 1;
    }
    proof {
        assert(forall|p: int| 0 <= p < m - i ==> pair[p] == v@[i + p]);
        if m < n2 {
            assert(pair[m - i] == v@[m as int]);
        }
        lemma_scan_to_at(pair, 0, '=', m - i);
    }
    if range_eq(v, i, m, name) {
        assert(pair.subrange(0, m - i) =~= v@.subrange(i as int, m as int));
        assert(pair_key(pair) == name@);
        if m == e {
            assert(pair_val(pair) =~= v@.subrange(e as int, e as int));
            Some((e, e))
        } else {
            assert(pair_val(pair) =~= v@.subrange(m + 1, e as int));
            Some((m + 1, e))
        }
    } else {
        assert(pair.subrange(0, m - i) =~= v@.subrange(i as int, m as int));
        assert(pair_key(pair) != name@);
        if e >= n {
            None
        } else {
            lookup_param_at(v, e + 1, name)
        }
    }
}

/// Decode the characters of `v` from `i` on.
fn pct_decode_at(v: &Vec<char>, i: usize) -> (r: Vec<char>)
    requires
        i <= v@.len(),
    ensures
        r@ == pct_decode(v@.skip(i as int)),
    decreases v@.len() - i,
{
    let n = v.len();
    if i >= n {
        let out: Vec<char> = Vec::new();
        assert(out@ =~= pct_decode(v@.skip(i as int)));
        return out;
    }
    let c = v[i];
    assert(v@.skip(i as int)[0] == v@[i as int]);
    if c == '+' {
        let mut rest = pct_decode_at(v, i + 1);
        rest.insert(0, ' ');
        assert(v@.skip(i as int).drop_first() =~= v@.skip(i + 1));
        assert(rest@ =~= seq![' '] + rest@.skip(1));
        rest
    } else if c == '%' && n - i >= 3 {
        let h1 = v[i + 1];
        let h2 = v[i + 2];
        let hex1 = ('0' <= h1 && h1 <= '9') || ('a' <= h1 && h1 <= 'f') || ('A' <= h1 && h1
            <= 'F');
        let hex2 = ('0' <= h2 && h2 <= '9') || ('a' <= h2 && h2 <= 'f') || ('A' <= h2 && h2
            <= 'F');
        assert(v@.skip(i as int)[1] == v@[i + 1]);
        assert(v@.skip(i as int)[2] == v@[i + 2]);
        if hex1 && hex2 {
            let d1: u32 = if '0' <= h1 && h1 <= '9' {
                h1 as u32 - 48
            } else if 'a' <= h1 && h1 <= 'f' {
                h1 as u32 - 87
            } else {
                h1 as u32 - 55
            };
            let d2: u32 = if '0' <= h2 && h2 <= '9' {
                h2 as u32 - 48
            } else if 'a' <= h2 && h2 <= 'f' {
                h2 as u32 - 87
            } else {
                h2 as u32 - 55
            };
            let code: u32 = d1 * 16 + d2;
            let mut rest = pct_decode_at(v, i + 3);
            rest.insert(0, (code as u8) as char);
            assert(v@.skip(i as int).skip(3) =~= v@.skip(i + 3));
            assert(rest@ =~= seq![((hex_char_val(v@[i + 1]) * 16 + hex_char_val(v@[i + 2])) as u8)
                as char] + rest@.skip(1));
            rest
        } else {
            let mut rest = pct_decode_at(v, i + 1);
            rest.insert(0, c);
            assert(v@.skip(i as int).drop_first() =~= v@.skip(i + 1));
            assert(rest@ =~= seq![v@[i as int]] + rest@.skip(1));
            rest
        }
    } else {
        let mut rest = pct_decode_at(v, i + 1);
        rest.insert(0, c);
        assert(v@.skip(i as int).drop_first() =~= v@.skip(i + 1));
        assert(rest@ =~= seq![v@[i as int]] + rest@.skip(1));
        rest
    }
}

/// Decode one query component.
pub fn percent_decode(s: &str) -> (r: String)
    ensures
        r@ == pct_decode(s@),
{
    let v = chars_vec(s);
    assert(v@.skip(0) =~= s@);
    let out = pct_decode_at(&v, 0);
    chars_to_string(&out)
}

/// The decoded value of the query parameter `name` in the request target
/// `url` (a path with an optional query), or `None` when the query holds
/// no pair with that key.
pub fn query_param(url: &str, name: &str) -> (r: Option<String>)
    ensures
        match lookup_param(query_of(url@), name@) {
            Some(raw) => r matches Some(s) && s@ == pct_decode(raw),
            None => r is None,
        },
{
    let v = chars_vec(url);
    let qp = scan_to_exec(&v, 0, '?');
    let n = v.len();
    if qp == n {
        assert(query_of(url@) =~= Seq::<char>::empty());
        assert(lookup_param(Seq::<char>::empty(), name@) is None);
        return None;
    }
    // Copy the query component so positions line up with the spec.
    let mut q: Vec<char> = Vec::new();
    let mut i: usize = qp + 1;
    while i < n
        invariant
            qp + 1 <= i <= n,
            n == v@.len(),
            q@ == v@.subrange(qp + 1, i as int),
        decreases n - i,
    {
        q.push(v[i]);
        i = i + 1;
        assert(v@.subrange(qp + 1, i as int) =~= v@.subrange(qp + 1, i - 1).push(v@[i - 1]));
    }
    assert(q@ =~= query_of(url@));
    let nv = chars_vec(name);
    match lookup_param_at(&q, 0, &nv) {
        Some((s, e)) => {
            let mut raw: Vec<char> = Vec::new();
            let mut k: usize = s;
            while k < e
                invariant
                    s <= k <= e <= q@.len(),
                    raw@ == q@.subrange(s as int, k as int),
                decreases e - k,
            {
                raw.push(q[k]);
                k = k + 1;
                assert(q@.subrange(s as int, k as int) =~= q@.subrange(s as int, k - 1).push(
                    q@[k - 1],
                ));
            }
            assert(raw@ =~= q@.subrange(s as int, e as int));
            assert(raw@.skip(0) =~= raw@);
            let out = pct_decode_at(&raw, 0);
            Some(chars_to_string(&out))
        },
        None => None,
    }
}

} // verus!
