//! The credential persistence format: one structured record per credential,
//! rendered and read back by this module, with a proof that the two
//! directions are inverses.
//!
//! The record is a single object with the fields `access_token`,
//! `refresh_token` (a string or `null`), `expires_at` (a number or `null`),
//! `token_type`, and `created_at`, in that order. Inside a string, `"` and
//! `\` are escaped with a backslash. A missing file means no credential; a
//! record this module cannot read means no credential plus deletion of the
//! bad file.
use vstd::prelude::*;

use crate::auth::opt_str_view;
use crate::auth::StoredToken;
use crate::text::chars_to_string;
use crate::text::chars_vec;
use crate::text::digit_char_val;
use crate::text::digits_val;
use crate::text::is_digit_char;
use crate::text::lemma_u64_dec_props;
use crate::text::u64_dec;
use crate::text::u64_to_dec_chars;

verus! {

/// The mathematical content of a stored credential record.
pub struct TokenRecord {
    pub access_token: Seq<char>,
    pub refresh_token: Option<Seq<char>>,
    pub expires_at: Option<u64>,
    pub token_type: Seq<char>,
    pub created_at: u64,
}

/// The record a credential value stands for.
pub open spec fn record_of(t: StoredToken) -> TokenRecord {
    TokenRecord {
        access_token: t.access_token@,
        refresh_token: match t.refresh_token {
            Some(s) => Some(s@),
            None => None,
        },
        expires_at: t.expires_at,
        token_type: t.token_type@,
        created_at: t.created_at,
    }
}

/// The escaped form of one character: `"` and `\` get a leading backslash.
pub open spec fn esc_char(c: char) -> Seq<char> {
    if c == '"' || c == '\\' {
        seq!['\\', c]
    } else {
        seq![c]
    }
}

/// The escaped form of a string's characters.
pub open spec fn esc(s: Seq<char>) -> Seq<char>
    decreases s.len(),
{
    if s.len() == 0 {
        Seq::<char>::empty()
    } else {
        esc_char(s[0]) + esc(s.drop_first())
    }
}

/// A quoted, escaped string.
pub open spec fn enc_string(s: Seq<char>) -> Seq<char> {
    seq!['"'] + esc(s) + seq!['"']
}

/// A quoted string or `null`.
pub open spec fn enc_opt_string(o: Option<Seq<char>>) -> Seq<char> {
    match o {
        Some(s) => enc_string(s),
        None => "null"@,
    }
}

/// A number or `null`.
pub open spec fn enc_opt_u64(o: Option<u64>) -> Seq<char> {
    match o {
        Some(n) => u64_dec(n as int),
        None => "null"@,
    }
}

/// The rendered form of a record: the five fields in order.
pub open spec fn encode_record(r: TokenRecord) -> Seq<char> {
    "{\"access_token\":"@ + enc_string(r.access_token) + ",\"refresh_token\":"@ + enc_opt_string(
        r.refresh_token,
    ) + ",\"expires_at\":"@ + enc_opt_u64(r.expires_at) + ",\"token_type\":"@ + enc_string(
        r.token_type,
    ) + ",\"created_at\":"@ + u64_dec(r.created_at as int) + "}"@
}

/// Consume an expected literal prefix.
pub open spec fn take_lit(s: Seq<char>, lit: Seq<char>) -> Option<Seq<char>> {
    if lit.len() <= s.len() && s.subrange(0, lit.len() as int) == lit {
        Some(s.skip(lit.len() as int))
    } else {
        None
    }
}

/// Consume a string body up to its closing quote, undoing the escapes.
pub open spec fn take_string_body(s: Seq<char>) -> Option<(Seq<char>, Seq<char>)>
    decreases s.len(),
{
    if s.len() == 0 {
        None
    } else if s[0] == '"' {
        Some((Seq::<char>::empty(), s.drop_first()))
    } else if s[0] == '\\' {
        if s.len() >= 2 {
            match take_string_body(s.skip(2)) {
                Some(p) => Some((seq![s[1]] + p.0, p.1)),
                None => None,
            }
        } else {
            None
        }
    } else {
        match take_string_body(s.drop_first()) {
            Some(p) => Some((seq![s[0]] + p.0, p.1)),
            None => None,
        }
    }
}

/// Consume a quoted string.
pub open spec fn take_string(s: Seq<char>) -> Option<(Seq<char>, Seq<char>)> {
    if s.len() > 0 && s[0] == '"' {
        take_string_body(s.drop_first())
    } else {
        None
    }
}

/// Consume a quoted string or the literal `null`.
pub open spec fn take_opt_string(s: Seq<char>) -> Option<(Option<Seq<char>>, Seq<char>)> {
    if s.len() > 0 && s[0] == '"' {
        match take_string_body(s.drop_first()) {
            Some(p) => Some((Some(p.0), p.1)),
            None => None,
        }
    } else {
        match take_lit(s, "null"@) {
            Some(rest) => Some((None, rest)),
            None => None,
        }
    }
}

/// Consume the maximal run of digit characters.
pub open spec fn take_digits(s: Seq<char>) -> (Seq<char>, Seq<char>)
    decreases s.len(),
{
    if s.len() == 0 || !is_digit_char(s[0]) {
        (Seq::<char>::empty(), s)
    } else {
        let p = take_digits(s.drop_first());
        (seq![s[0]] + p.0, p.1)
    }
}

/// Consume a number that fits in 64 bits.
pub open spec fn take_u64(s: Seq<char>) -> Option<(u64, Seq<char>)> {
    let p = take_digits(s);
    if p.0.len() == 0 {
        None
    } else if digits_val(p.0) <= u64::MAX {
        Some((digits_val(p.0) as u64, p.1))
    } else {
        None
    }
}

/// Consume a number or the literal `null`.
pub open spec fn take_opt_u64(s: Seq<char>) -> Option<(Option<u64>, Seq<char>)> {
    if s.len() > 0 && is_digit_char(s[0]) {
        match take_u64(s) {
            Some(p) => Some((Some(p.0), p.1)),
            None => None,
        }
    } else {
        match take_lit(s, "null"@) {
            Some(rest) => Some((None, rest)),
            None => None,
        }
    }
}

/// Read a whole record; `None` when the text is not exactly one record.
pub open spec fn parse_record(s: Seq<char>) -> Option<TokenRecord> {
    match take_lit(s, "{\"access_token\":"@) {
        None => None,
        Some(s1) => match take_string(s1) {
            None => None,
            Some(pa) => match take_lit(pa.1, ",\"refresh_token\":"@) {
                None => None,
                Some(s2) => match take_opt_string(s2) {
                    None => None,
                    Some(pr) => match take_lit(pr.1, ",\"expires_at\":"@) {
                        None => None,
                        Some(s3) => match take_opt_u64(s3) {
                            None => None,
                            Some(pe) => match take_lit(pe.1, ",\"token_type\":"@) {
                                None => None,
                                Some(s4) => match take_string(s4) {
                                    None => None,
                                    Some(pt) => match take_lit(pt.1, ",\"created_at\":"@) {
                                        None => None,
                                        Some(s5) => match take_u64(s5) {
                                            None => None,
                                            Some(pc) => match take_lit(pc.1, "}"@) {
                                                None => None,
                                                Some(s6) => if s6.len() == 0 {
                                                    Some(
                                                        TokenRecord {
                                                            access_token: pa.0,
                                                            refresh_token: pr.0,
                                                            expires_at: pe.0,
                                                            token_type: pt.0,
                                                            created_at: pc.0,
                                                        },
                                                    )
                                                } else {
                                                    None
                                                },
                                            },
                                        },
                                    },
                                },
                            },
                        },
                    },
                },
            },
        },
    }
}

/// A literal prefix always reads back off the front of what it was written
/// onto.
proof fn lemma_take_lit(lit: Seq<char>, rest: Seq<char>)
    ensures
        take_lit(lit + rest, lit) == Some(rest),
{
    assert((lit + rest).subrange(0, lit.len() as int) =~= lit);
    assert((lit + rest).skip(lit.len() as int) =~= rest);
}

/// An escaped string body followed by its closing quote reads back as the
/// original characters.
proof fn lemma_take_string_body(v: Seq<char>, rest: Seq<char>)
    ensures
        take_string_body(esc(v) + seq!['"'] + rest) == Some((v, rest)),
    decreases v.len(),
{
    let s = esc(v) + seq!['"'] + rest;
    if v.len() == 0 {
        assert(esc(v) =~= Seq::<char>::empty());
        assert(s[0] == '"');
        assert(s.drop_first() =~= rest);
        assert(v =~= Seq::<char>::empty());
    } else {
        let c = v[0];
        let v2 = v.drop_first();
        assert(esc(v) == esc_char(c) + esc(v2));
        lemma_take_string_body(v2, rest);
        if c == '"' || c == '\\' {
            assert(s[0] == '\\');
            assert(s[1] == c);
            assert(s.len() >= 2);
            assert(s.skip(2) =~= esc(v2) + seq!['"'] + rest);
            assert(seq![c] + v2 =~= v);
        } else {
            assert(s[0] == c);
            assert(s[0] != '"' && s[0] != '\\');
            assert(s.drop_first() =~= esc(v2) + seq!['"'] + rest);
            assert(seq![c] + v2 =~= v);
        }
    }
}

/// A quoted escaped string reads back as the original characters.
proof fn lemma_take_string(v: Seq<char>, rest: Seq<char>)
    ensures
        take_string(enc_string(v) + rest) == Some((v, rest)),
{
    let s = enc_string(v) + rest;
    assert(s[0] == '"');
    assert(s.drop_first() =~= esc(v) + seq!['"'] + rest);
    lemma_take_string_body(v, rest);
}

/// Every character of `s` is a digit.
pub open spec fn all_digits(s: Seq<char>) -> bool {
    forall|i: int| 0 <= i < s.len() ==> is_digit_char(#[trigger] s[i])
}

/// A run of digits followed by a non-digit splits exactly there.
proof fn lemma_take_digits_split(ds: Seq<char>, rest: Seq<char>)
    requires
        all_digits(ds),
        rest.len() == 0 || !is_digit_char(rest[0]),
    ensures
        take_digits(ds + rest) == (ds, rest),
    decreases ds.len(),
{
    let s = ds + rest;
    if ds.len() == 0 {
        assert(s =~= rest);
        assert(take_digits(s) == (Seq::<char>::empty(), s));
        assert(Seq::<char>::empty() =~= ds);
    } else {
        assert(is_digit_char(s[0]));
        assert(s.drop_first() =~= ds.drop_first() + rest);
        lemma_take_digits_split(ds.drop_first(), rest);
        assert(seq![s[0]] + ds.drop_first() =~= ds);
    }
}

/// A rendered number followed by a non-digit reads back as that number.
proof fn lemma_take_u64(n: u64, rest: Seq<char>)
    requires
        rest.len() == 0 || !is_digit_char(rest[0]),
    ensures
        take_u64(u64_dec(n as int) + rest) == Some((n, rest)),
{
    lemma_u64_dec_props(n as int);
    lemma_take_digits_split(u64_dec(n as int), rest);
}

/// Escaping distributes over appending one character.
proof fn lemma_esc_push(s: Seq<char>, c: char)
    ensures
        esc(s.push(c)) == esc(s) + esc_char(c),
    decreases s.len(),
{
    reveal_with_fuel(esc, 2);
    if s.len() == 0 {
        assert(s.push(c)[0] == c);
        assert(s.push(c).drop_first() =~= Seq::<char>::empty());
        assert(esc(s.push(c)) =~= esc_char(c));
        assert(esc(s) + esc_char(c) =~= esc_char(c));
    } else {
        assert(s.push(c)[0] == s[0]);
        assert(s.push(c).drop_first() =~= s.drop_first().push(c));
        lemma_esc_push(s.drop_first(), c);
        assert(esc(s.push(c)) =~= esc(s) + esc_char(c));
    }
}

/// A run of digit characters has a non-negative value.
proof fn lemma_digits_val_nonneg(s: Seq<char>)
    requires
        all_digits(s),
    ensures
        digits_val(s) >= 0,
    decreases s.len(),
{
    if s.len() > 0 {
        assert(all_digits(s.drop_last()));
        lemma_digits_val_nonneg(s.drop_last());
        assert(is_digit_char(s.last()));
    }
}

/// Appending further digits never decreases the value of a run.
proof fn lemma_digits_val_extend(a: Seq<char>, b: Seq<char>)
    requires
        all_digits(a),
        all_digits(b),
    ensures
        digits_val(a + b) >= digits_val(a),
    decreases b.len(),
{
    if b.len() == 0 {
        assert(a + b =~= a);
    } else {
        assert((a + b).drop_last() =~= a + b.drop_last());
        assert(all_digits(b.drop_last()));
        lemma_digits_val_extend(a, b.drop_last());
        assert(all_digits(a + b.drop_last()));
        lemma_digits_val_nonneg(a + b.drop_last());
        assert((a + b).last() == b.last());
        assert(is_digit_char(b.last()));
    }
}

/// The rendered form of a record reads back as exactly that record: the
/// persistence format round-trips.
pub proof fn lemma_record_round_trip(r: TokenRecord)
    ensures
        parse_record(encode_record(r)) == Some(r),
{
    reveal_strlit("{\"access_token\":");
    reveal_strlit(",\"refresh_token\":");
    reveal_strlit(",\"expires_at\":");
    reveal_strlit(",\"token_type\":");
    reveal_strlit(",\"created_at\":");
    reveal_strlit("}");
    reveal_strlit("null");
    let k1 = "{\"access_token\":"@;
    let k2 = ",\"refresh_token\":"@;
    let k3 = ",\"expires_at\":"@;
    let k4 = ",\"token_type\":"@;
    let k5 = ",\"created_at\":"@;
    let k6 = "}"@;
    let e1 = enc_string(r.access_token);
    let e2 = enc_opt_string(r.refresh_token);
    let e3 = enc_opt_u64(r.expires_at);
    let e4 = enc_string(r.token_type);
    let e5 = u64_dec(r.created_at as int);
    let s = encode_record(r);
    let t1 = e1 + (k2 + (e2 + (k3 + (e3 + (k4 + (e4 + (k5 + (e5 + k6))))))));
    assert(s =~= k1 + t1);
    lemma_take_lit(k1, t1);
    let t2 = k2 + (e2 + (k3 + (e3 + (k4 + (e4 + (k5 + (e5 + k6)))))));
    assert(t1 =~= e1 + t2);
    lemma_take_string(r.access_token, t2);
    let t3 = e2 + (k3 + (e3 + (k4 + (e4 + (k5 + (e5 + k6))))));
    assert(t2 =~= k2 + t3);
    lemma_take_lit(k2, t3);
    let t4 = k3 + (e3 + (k4 + (e4 + (k5 + (e5 + k6)))));
    assert(t3 =~= e2 + t4);
    match r.refresh_token {
        Some(v) => {
            assert(t3[0] == '"');
            assert(t3.drop_first() =~= esc(v) + seq!['"'] + t4);
            lemma_take_string_body(v, t4);
            assert(take_opt_string(t3) == Some((r.refresh_token, t4)));
        },
        None => {
            assert(e2 == "null"@);
            assert(t3[0] == 'n');
            lemma_take_lit("null"@, t4);
            assert(take_opt_string(t3) == Some((Option::<Seq<char>>::None, t4)));
        },
    }
    let t5 = e3 + (k4 + (e4 + (k5 + (e5 + k6))));
    assert(t4 =~= k3 + t5);
    lemma_take_lit(k3, t5);
    let t6 = k4 + (e4 + (k5 + (e5 + k6)));
    assert(t5 =~= e3 + t6);
    match r.expires_at {
        Some(n) => {
            lemma_u64_dec_props(n as int);
            assert(e3 == u64_dec(n as int));
            assert(t5[0] == e3[0]);
            assert(is_digit_char(t5[0]));
            assert(t6[0] == ',');
            assert(!is_digit_char(t6[0]));
            lemma_take_u64(n, t6);
            assert(take_opt_u64(t5) == Some((r.expires_at, t6)));
        },
        None => {
            assert(e3 == "null"@);
            assert(t5[0] == 'n');
            assert(!is_digit_char(t5[0]));
            lemma_take_lit("null"@, t6);
            assert(take_opt_u64(t5) == Some((Option::<u64>::None, t6)));
        },
    }
    let t7 = e4 + (k5 + (e5 + k6));
    assert(t6 =~= k4 + t7);
    lemma_take_lit(k4, t7);
    let t8 = k5 + (e5 + k6);
    assert(t7 =~= e4 + t8);
    lemma_take_string(r.token_type, t8);
    let t9 = e5 + k6;
    assert(t8 =~= k5 + t9);
    lemma_take_lit(k5, t9);
    assert(k6[0] == '}');
    assert(!is_digit_char(k6[0]));
    lemma_take_u64(r.created_at, k6);
    lemma_take_lit(k6, Seq::<char>::empty());
    assert(t9 =~= u64_dec(r.created_at as int) + k6);
    assert(k6 =~= k6 + Seq::<char>::empty());
    assert(parse_record(s) == Some(
        TokenRecord {
            access_token: r.access_token,
            refresh_token: r.refresh_token,
            expires_at: r.expires_at,
            token_type: r.token_type,
            created_at: r.created_at,
        },
    ));
    assert(Some(
        TokenRecord {
            access_token: r.access_token,
            refresh_token: r.refresh_token,
            expires_at: r.expires_at,
            token_type: r.token_type,
            created_at: r.created_at,
        },
    ) == Some(r));
}

/// Append a vector of characters.
fn append_seq(dst: &mut Vec<char>, src: &Vec<char>)
    ensures
        final(dst)@ == old(dst)@ + src@,
{
    let n = src.len();
    let mut i: usize = 0;
    assert(old(dst)@ + src@.subrange(0, 0) =~= old(dst)@);
    while i < n
        invariant
            i <= n,
            n == src@.len(),
            dst@ == old(dst)@ + src@.subrange(0, i as int),
        decreases n - i,
    {
        dst.push(src[i]);
        i = i + 1;
        proof {
            assert(src@.subrange(0, i as int) =~= src@.subrange(0, i - 1).push(src@[i - 1]));
            assert(dst@ =~= old(dst)@ + src@.subrange(0, i as int));
        }
    }
    assert(src@.subrange(0, n as int) =~= src@);
}

/// Append the characters of a literal.
fn append_lit(dst: &mut Vec<char>, lit: &str)
    ensures
        final(dst)@ == old(dst)@ + lit@,
{
    let v = chars_vec(lit);
    append_seq(dst, &v);
}

/// Append the escaped characters of a string.
fn append_escaped(dst: &mut Vec<char>, s: &str)
    ensures
        final(dst)@ == old(dst)@ + esc(s@),
{
    let sv = chars_vec(s);
    let n = sv.len();
    let mut i: usize = 0;
    assert(esc(sv@.subrange(0, 0)) =~= Seq::<char>::empty());
    assert(old(dst)@ + esc(sv@.subrange(0, 0)) =~= old(dst)@);
    while i < n
        invariant
            i <= n,
            n == sv@.len(),
            sv@ == s@,
            dst@ == old(dst)@ + esc(sv@.subrange(0, i as int)),
        decreases n - i,
    {
        let c = sv[i];
        if c == '"' || c == '\\' {
            dst.push('\\');
            dst.push(c);
        } else {
            dst.push(c);
        }
        proof {
            lemma_esc_push(sv@.subrange(0, i as int), sv@[i as int]);
            assert(sv@.subrange(0, i + 1) =~= sv@.subrange(0, i as int).push(sv@[i as int]));
            assert(dst@ =~= old(dst)@ + esc(sv@.subrange(0, i + 1)));
        }
        i = i + 1;
    }
    assert(sv@.subrange(0, n as int) =~= sv@);
}

/// Append a quoted, escaped string.
fn append_string_enc(dst: &mut Vec<char>, s: &str)
    ensures
        final(dst)@ == old(dst)@ + enc_string(s@),
{
    dst.push('"');
    append_escaped(dst, s);
    dst.push('"');
    assert(final(dst)@ =~= old(dst)@ + (seq!['"'] + esc(s@) + seq!['"']));
}

/// Append a quoted string or `null`.
fn append_opt_string_enc(dst: &mut Vec<char>, o: &Option<String>)
    ensures
        final(dst)@ == old(dst)@ + enc_opt_string(opt_str_view(*o)),
{
    match o {
        Some(s) => append_string_enc(dst, s.as_str()),
        None => append_lit(dst, "null"),
    }
}

/// Append a number or `null`.
fn append_opt_u64_enc(dst: &mut Vec<char>, o: &Option<u64>)
    ensures
        final(dst)@ == old(dst)@ + enc_opt_u64(*o),
{
    match o {
        Some(n) => {
            let digits = u64_to_dec_chars(*n);
            append_seq(dst, &digits);
        },
        None => append_lit(dst, "null"),
    }
}

/// Render a credential record for persistence.
pub fn encode_stored_token(t: &StoredToken) -> (r: String)
    ensures
        r@ == encode_record(record_of(*t)),
{
    let mut out: Vec<char> = Vec::new();
    append_lit(&mut out, "{\"access_token\":");
    append_string_enc(&mut out, t.access_token.as_str());
    append_lit(&mut out, ",\"refresh_token\":");
    append_opt_string_enc(&mut out, &t.refresh_token);
    append_lit(&mut out, ",\"expires_at\":");
    append_opt_u64_enc(&mut out, &t.expires_at);
    append_lit(&mut out, ",\"token_type\":");
    append_string_enc(&mut out, t.token_type.as_str());
    append_lit(&mut out, ",\"created_at\":");
    let digits = u64_to_dec_chars(t.created_at);
    append_seq(&mut out, &digits);
    append_lit(&mut out, "}");
    assert(out@ =~= encode_record(record_of(*t)));
    chars_to_string(&out)
}

/// Consume an expected literal starting at `i`; the position after it.
fn expect_lit(v: &Vec<char>, i: usize, lit: &str) -> (r: Option<usize>)
    requires
        i <= v@.len(),
    ensures
        match r {
            Some(j) => i <= j <= v@.len() && take_lit(v@.skip(i as int), lit@) == Some(
                v@.skip(j as int),
            ),
            None => take_lit(v@.skip(i as int), lit@) is None,
        },
{
    let lv = chars_vec(lit);
    let m = lv.len();
    let n = v.len();
    if m > n - i {
        return None;
    }
    let mut k: usize = 0;
    while k < m
        invariant
            k <= m,
            m == lv@.len(),
            i + m <= n,
            n == v@.len(),
            lv@ == lit@,
            forall|p: int| 0 <= p < k ==> v@[i + p] == lv@[p],
        decreases m - k,
    {
        if v[i + k] != lv[k] {
            assert(take_lit(v@.skip(i as int), lit@) is None) by {
                if m <= v@.skip(i as int).len() {
                    assert(v@.skip(i as int).subrange(0, m as int)[k as int] == v@[i + k]);
                }
            }
            return None;
        }
        k = k + 1;
    }
    assert(v@.skip(i as int).subrange(0, m as int) =~= lit@);
    assert(v@.skip(i as int).skip(m as int) =~= v@.skip((i + m) as int));
    Some(i + m)
}

/// Consume a string body starting at `i`: its characters with the escapes
/// undone, and the position after the closing quote.
fn parse_string_body_at(v: &Vec<char>, i: usize) -> (r: Option<(Vec<char>, usize)>)
    requires
        i <= v@.len(),
    ensures
        match r {
            Some(p) => p.1 <= v@.len() && take_string_body(v@.skip(i as int)) == Some(
                (p.0@, v@.skip(p.1 as int)),
            ),
            None => take_string_body(v@.skip(i as int)) is None,
        },
    decreases v@.len() - i,
{
    let n = v.len();
    if i >= n {
        assert(v@.skip(i as int).len() == 0);
        return None;
    }
    let c = v[i];
    assert(v@.skip(i as int)[0] == v@[i as int]);
    if c == '"' {
        let out: Vec<char> = Vec::new();
        assert(v@.skip(i as int).drop_first() =~= v@.skip(i + 1));
        assert(out@ =~= Seq::<char>::empty());
        return Some((out, i + 1));
    }
    if c == '\\' {
        if n - i < 2 {
            assert(v@.skip(i as int).len() < 2);
            return None;
        }
        assert(v@.skip(i as int).len() >= 2);
        assert(v@.skip(i as int).skip(2) =~= v@.skip(i + 2));
        assert(v@.skip(i as int)[1] == v@[i + 1]);
        match parse_string_body_at(v, i + 2) {
            Some((mut val, j)) => {
                let e = v[i + 1];
                val.insert(0, e);
                assert(val@ =~= seq![v@[i + 1]] + val@.skip(1));
                Some((val, j))
            },
            None => None,
        }
    } else {
        assert(v@.skip(i as int).drop_first() =~= v@.skip(i + 1));
        match parse_string_body_at(v, i + 1) {
            Some((mut val, j)) => {
                val.insert(0, c);
                assert(val@ =~= seq![v@[i as int]] + val@.skip(1));
                Some((val, j))
            },
            None => None,
        }
    }
}

/// Consume a quoted string starting at `i`.
fn parse_string_at(v: &Vec<char>, i: usize) -> (r: Option<(Vec<char>, usize)>)
    requires
        i <= v@.len(),
    ensures
        match r {
            Some(p) => p.1 <= v@.len() && take_string(v@.skip(i as int)) == Some(
                (p.0@, v@.skip(p.1 as int)),
            ),
            None => take_string(v@.skip(i as int)) is None,
        },
{
    let n = v.len();
    if i >= n {
        return None;
    }
    assert(v@.skip(i as int)[0] == v@[i as int]);
    if v[i] != '"' {
        return None;
    }
    assert(v@.skip(i as int).drop_first() =~= v@.skip(i + 1));
    parse_string_body_at(v, i + 1)
}

/// Whether the character at `k` is a decimal digit.
fn digit_at(v: &Vec<char>, k: usize) -> (r: bool)
    requires
        k < v@.len(),
    ensures
        r == is_digit_char(v@[k as int]),
{
    let c = v[k];
    '0' <= c && c <= '9'
}

/// Consume a number starting at `i`; `None` when no digit starts there or
/// the value does not fit in 64 bits.
fn parse_u64_at(v: &Vec<char>, i: usize) -> (r: Option<(u64, usize)>)
    requires
        i <= v@.len(),
    ensures
        match r {
            Some(p) => p.1 <= v@.len() && take_u64(v@.skip(i as int)) == Some(
                (p.0, v@.skip(p.1 as int)),
            ),
            None => take_u64(v@.skip(i as int)) is None,
        },
{
    let n = v.len();
    let mut j: usize = i;
    while j < n && digit_at(v, j)
        invariant
            i <= j <= n,
            n == v@.len(),
            forall|p: int| i <= p < j ==> is_digit_char(#[trigger] v@[p]),
        decreases n - j,
    {
        j = j + 1;
    }
    proof {
        assert(v@.skip(i as int) =~= v@.subrange(i as int, j as int) + v@.skip(j as int));
        assert(all_digits(v@.subrange(i as int, j as int)));
        if j < n {
            assert(v@.skip(j as int)[0] == v@[j as int]);
        } else {
            assert(v@.skip(j as int).len() == 0);
        }
        lemma_take_digits_split(v@.subrange(i as int, j as int), v@.skip(j as int));
    }
    if j == i {
        assert(v@.subrange(i as int, j as int).len() == 0);
        return None;
    }
    let mut acc: u128 = 0;
    let mut k: usize = i;
    assert(digits_val(v@.subrange(i as int, i as int)) == 0);
    while k < j
        invariant
            i <= k <= j <= n,
            n == v@.len(),
            forall|p: int| i <= p < j ==> is_digit_char(#[trigger] v@[p]),
            take_digits(v@.skip(i as int)) == (v@.subrange(i as int, j as int), v@.skip(j as int)),
            acc == digits_val(v@.subrange(i as int, k as int)),
            acc <= u64::MAX as u128,
        decreases j - k,
    {
        let d: u32 = (v[k] as u32) - 48;
        let next: u128 = acc * 10 + (d as u128);
        proof {
            let pre = v@.subrange(i as int, k as int);
            let ext = v@.subrange(i as int, k + 1);
            assert(ext =~= pre.push(v@[k as int]));
            assert(ext.drop_last() =~= pre);
            assert(ext.last() == v@[k as int]);
            assert(digits_val(ext) == digits_val(pre) * 10 + digit_char_val(v@[k as int]));
        }
        if next > u64::MAX as u128 {
            proof {
                let ext = v@.subrange(i as int, k + 1);
                let tail = v@.subrange(k + 1, j as int);
                assert(v@.subrange(i as int, j as int) =~= ext + tail);
                assert(all_digits(ext));
                assert(all_digits(tail));
                lemma_digits_val_extend(ext, tail);
            }
            return None;
        }
        acc = next;
        k = k + 1;
    }
    Some((acc as u64, j))
}

/// Consume a quoted string or `null` starting at `i`.
fn parse_opt_string_at(v: &Vec<char>, i: usize) -> (r: Option<(Option<Vec<char>>, usize)>)
    requires
        i <= v@.len(),
    ensures
        match r {
            Some(p) => p.1 <= v@.len() && take_opt_string(v@.skip(i as int)) == Some(
                (
                    match p.0 {
                        Some(val) => Some(val@),
                        None => None,
                    },
                    v@.skip(p.1 as int),
                ),
            ),
            None => take_opt_string(v@.skip(i as int)) is None,
        },
{
    let n = v.len();
    if i < n && v[i] == '"' {
        assert(v@.skip(i as int)[0] == v@[i as int]);
        assert(v@.skip(i as int).drop_first() =~= v@.skip(i + 1));
        match parse_string_body_at(v, i + 1) {
            Some((val, j)) => Some((Some(val), j)),
            None => None,
        }
    } else {
        proof {
            if i < n {
                assert(v@.skip(i as int)[0] == v@[i as int]);
            }
        }
        match expect_lit(v, i, "null") {
            Some(j) => Some((None, j)),
            None => None,
        }
    }
}

/// Consume a number or `null` starting at `i`.
fn parse_opt_u64_at(v: &Vec<char>, i: usize) -> (r: Option<(Option<u64>, usize)>)
    requires
        i <= v@.len(),
    ensures
        match r {
            Some(p) => p.1 <= v@.len() && take_opt_u64(v@.skip(i as int)) == Some(
                (p.0, v@.skip(p.1 as int)),
            ),
            None => take_opt_u64(v@.skip(i as int)) is None,
        },
{
    let n = v.len();
    if i < n && digit_at(v, i) {
        assert(v@.skip(i as int)[0] == v@[i as int]);
        match parse_u64_at(v, i) {
            Some((val, j)) => Some((Some(val), j)),
            None => None,
        }
    } else {
        proof {
            if i < n {
                assert(v@.skip(i as int)[0] == v@[i as int]);
            }
        }
        match expect_lit(v, i, "null") {
            Some(j) => Some((None, j)),
            None => None,
        }
    }
}

/// Read a credential record back from its persisted form; `None` when the
/// text is not exactly one record this module wrote.
pub fn parse_stored_token(s: &str) -> (r: Option<StoredToken>)
    ensures
        match parse_record(s@) {
            Some(rec) => r matches Some(t) && record_of(t) == rec,
            None => r is None,
        },
{
    let v = chars_vec(s);
    assert(v@.skip(0) =~= s@);
    let n = v.len();
    let Some(i1) = expect_lit(&v, 0, "{\"access_token\":") else {
        return None;
    };
    let Some((access, i2)) = parse_string_at(&v, i1) else {
        return None;
    };
    let Some(i3) = expect_lit(&v, i2, ",\"refresh_token\":") else {
        return None;
    };
    let Some((refresh, i4)) = parse_opt_string_at(&v, i3) else {
        return None;
    };
    let Some(i5) = expect_lit(&v, i4, ",\"expires_at\":") else {
        return None;
    };
    let Some((expires, i6)) = parse_opt_u64_at(&v, i5) else {
        return None;
    };
    let Some(i7) = expect_lit(&v, i6, ",\"token_type\":") else {
        return None;
    };
    let Some((ttype, i8)) = parse_string_at(&v, i7) else {
        return None;
    };
    let Some(i9) = expect_lit(&v, i8, ",\"created_at\":") else {
        return None;
    };
    let Some((created, i10)) = parse_u64_at(&v, i9) else {
        return None;
    };
    let Some(i11) = expect_lit(&v, i10, "}") else {
        return None;
    };
    if i11 != n {
        assert(v@.skip(i11 as int).len() > 0);
        return None;
    }
    assert(v@.skip(i11 as int).len() == 0);
    let t = StoredToken {
        access_token: chars_to_string(&access),
        refresh_token: match refresh {
            Some(rv) => Some(chars_to_string(&rv)),
            None => None,
        },
        expires_at: expires,
        token_type: chars_to_string(&ttype),
        created_at: created,
    };
    Some(t)
}

/// Interpret what was read from the credential file: a missing file means
/// no credential; unreadable contents mean no credential and the file must
/// be deleted; corrupt state is never fatal.
pub fn interpret_token_file(content: Option<String>) -> (r: (Option<StoredToken>, bool))
    ensures
        content is None ==> r.0 is None && r.1 == false,
        content matches Some(s) ==> match parse_record(s@) {
            Some(rec) => (r.0 matches Some(t) && record_of(t) == rec) && r.1 == false,
            None => r.0 is None && r.1 == true,
        },
{
    match content {
        None => (None, false),
        Some(s) => match parse_stored_token(s.as_str()) {
            Some(t) => (Some(t), false),
            None => (None, true),
        },
    }
}

} // verus!
