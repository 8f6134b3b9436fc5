//! Character-level text helpers: substring search, decimal rendering, and
//! the display formats for durations and engagement counters.
use vstd::prelude::*;

verus! {

/// Relies on str::chars (with collect): the characters of a string slice,
/// in order, are exactly its view.
#[verifier::external_body]
pub(crate) fn chars_vec(s: &str) -> (r: Vec<char>)
    ensures
        r@ == s@,
{
    s.chars().collect()
}

/// Relies on String's FromIterator over char: collecting characters builds
/// the string whose view is exactly those characters.
#[verifier::external_body]
pub(crate) fn chars_to_string(v: &Vec<char>) -> (r: String)
    ensures
        r@ == v@,
{
    v.iter().collect()
}

/// `needle` occurs in `hay` starting at position `i`.
pub open spec fn is_sub_at(hay: Seq<char>, needle: Seq<char>, i: int) -> bool {
    0 <= i && i + needle.len() <= hay.len() && hay.subrange(i, i + needle.len()) == needle
}

/// `needle` occurs somewhere in `hay`.
pub open spec fn contains_seq(hay: Seq<char>, needle: Seq<char>) -> bool {
    exists|i: int| is_sub_at(hay, needle, i)
}

/// Whether `needle` occurs in `hay` starting at position `i`.
fn matches_at(hay: &Vec<char>, needle: &Vec<char>, i: usize) -> (r: bool)
    requires
        i + needle@.len() <= hay@.len(),
    ensures
        r == is_sub_at(hay@, needle@, i as int),
{
    let n = needle.len();
    let h = hay.len();
    let mut j: usize = 0;
    while j < n
        invariant
            j <= n,
            n == needle@.len(),
            h == hay@.len(),
            i + n <= h,
            forall|k: int| 0 <= k < j ==> hay@[i + k] == needle@[k],
        decreases n - j,
    {
        if hay[i + j] != needle[j] {
            assert(hay@.subrange(i as int, i + n) != needle@) by {
                assert(hay@.subrange(i as int, i + n)[j as int] == hay@[i + j]);
            }
            return false;
        }
        j = j + 1;
    }
    assert(hay@.subrange(i as int, i + n) =~= needle@);
    true
}

/// Whether `needle` occurs anywhere in `hay`.
pub fn contains_chars(hay: &Vec<char>, needle: &Vec<char>) -> (r: bool)
    ensures
        r == contains_seq(hay@, needle@),
{
    let h = hay.len();
    let n = needle.len();
    if n > h {
        assert(forall|i: int| !is_sub_at(hay@, needle@, i));
        return false;
    }
    if n == 0 {
        assert(is_sub_at(hay@, needle@, 0)) by {
            assert(hay@.subrange(0, 0) =~= needle@);
        }
        return true;
    }
    let mut i: usize = 0;
    while i <= h - n
        invariant
            0 < n <= h,
            h == hay@.len(),
            n == needle@.len(),
            i <= h - n + 1,
            forall|k: int| 0 <= k < i ==> !is_sub_at(hay@, needle@, k),
        decreases h - i,
    {
        if matches_at(hay, needle, i) {
            return true;
        }
        i = i + 1;
    }
    assert(forall|k: int| !is_sub_at(hay@, needle@, k));
    false
}

/// Whether `needle` occurs anywhere in `hay`, on string slices.
pub fn str_contains(hay: &str, needle: &str) -> (r: bool)
    ensures
        r == contains_seq(hay@, needle@),
{
    let h = chars_vec(hay);
    let n = chars_vec(needle);
    contains_chars(&h, &n)
}

/// `p` is a prefix of `s`.
pub open spec fn starts_with_seq(s: Seq<char>, p: Seq<char>) -> bool {
    p.len() <= s.len() && s.subrange(0, p.len() as int) == p
}

/// Whether `p` is a prefix of `s`.
pub fn str_starts_with(s: &str, p: &str) -> (r: bool)
    ensures
        r == starts_with_seq(s@, p@),
{
    let sv = chars_vec(s);
    let pv = chars_vec(p);
    if pv.len() > sv.len() {
        return false;
    }
    matches_at(&sv, &pv, 0)
}

/// Whether two string slices hold the same characters.
pub fn str_eq(a: &str, b: &str) -> (r: bool)
    ensures
        r == (a@ == b@),
{
    let av = chars_vec(a);
    let bv = chars_vec(b);
    if av.len() != bv.len() {
        return false;
    }
    let r = matches_at(&av, &bv, 0);
    proof {
        assert(av@.subrange(0, av@.len() as int) =~= av@);
    }
    r
}

/// The character for one decimal digit.
pub open spec fn digit_char(d: int) -> char
    recommends
        0 <= d < 10,
{
    ((48 + d) as u8) as char
}

/// `c` is a decimal digit character.
pub open spec fn is_digit_char(c: char) -> bool {
    48 <= (c as int) <= 57
}

/// The numeric value of a digit character.
pub open spec fn digit_char_val(c: char) -> int {
    (c as int) - 48
}

/// The decimal rendering of a non-negative number, most significant digit
/// first, with no leading zeros (a single `0` for zero).
pub open spec fn u64_dec(n: int) -> Seq<char>
    recommends
        n >= 0,
    decreases n,
{
    if n < 10 {
        seq![digit_char(n)]
    } else {
        u64_dec(n / 10).push(digit_char(n % 10))
    }
}

/// The value of a sequence of digit characters read in base 10.
pub open spec fn digits_val(s: Seq<char>) -> int
    decreases s.len(),
{
    if s.len() == 0 {
        0
    } else {
        digits_val(s.drop_last()) * 10 + digit_char_val(s.last())
    }
}

/// A decimal rendering holds at least one character, holds only digits, and
/// reads back as the number it renders.
pub proof fn lemma_u64_dec_props(n: int)
    requires
        n >= 0,
    ensures
        u64_dec(n).len() >= 1,
        forall|i: int| 0 <= i < u64_dec(n).len() ==> is_digit_char(#[trigger] u64_dec(n)[i]),
        digits_val(u64_dec(n)) == n,
    decreases n,
{
    reveal_with_fuel(digits_val, 3);
    if n < 10 {
        assert(u64_dec(n) =~= seq![digit_char(n)]);
        assert(u64_dec(n).drop_last() =~= Seq::<char>::empty());
        assert(digit_char_val(digit_char(n)) == n);
    } else {
        lemma_u64_dec_props(n / 10);
        vstd::arithmetic::div_mod::lemma_fundamental_div_mod(n, 10);
        let prefix = u64_dec(n / 10);
        let d = digit_char(n % 10);
        assert(prefix.push(d).drop_last() =~= prefix);
        assert(prefix.push(d).last() == d);
        assert(digit_char_val(d) == n % 10);
        assert(forall|i: int|
            0 <= i < u64_dec(n).len() ==> is_digit_char(#[trigger] u64_dec(n)[i])) by {
            assert(forall|i: int|
                0 <= i < prefix.len() ==> u64_dec(n)[i] == #[trigger] prefix[i]);
        }
    }
}

/// The decimal digits of `n`, most significant first.
pub fn u64_to_dec_chars(n: u64) -> (r: Vec<char>)
    ensures
        r@ == u64_dec(n as int),
    decreases n,
{
    if n < 10 {
        let mut v: Vec<char> = Vec::new();
        v.push((48u8 + (n as u8)) as char);
        assert(v@ =~= u64_dec(n as int));
        v
    } else {
        let mut v = u64_to_dec_chars(n / 10);
        v.push((48u8 + ((n % 10) as u8)) as char);
        v
    }
}

/// The decimal rendering of `n` as a string.
pub fn u64_to_string(n: u64) -> (r: String)
    ensures
        r@ == u64_dec(n as int),
{
    let v = u64_to_dec_chars(n);
    chars_to_string(&v)
}

/// A number padded on the left with `0` to at least two digits.
pub open spec fn two_digits(n: int) -> Seq<char>
    recommends
        n >= 0,
{
    if n < 10 {
        seq!['0', digit_char(n)]
    } else {
        u64_dec(n)
    }
}

/// The minutes-and-seconds rendering of a duration in milliseconds:
/// `MM:SS`, each part zero-padded to two digits, minutes unbounded.
pub open spec fn mmss(ms: u64) -> Seq<char> {
    two_digits(ms as int / 1000 / 60) + seq![':'] + two_digits(ms as int / 1000 % 60)
}

/// Render a number zero-padded to at least two digits.
fn format_two_digits(n: u64) -> (r: Vec<char>)
    ensures
        r@ == two_digits(n as int),
{
    if n < 10 {
        let mut v: Vec<char> = Vec::new();
        v.push('0');
        v.push((48u8 + (n as u8)) as char);
        assert(v@ =~= two_digits(n as int));
        v
    } else {
        u64_to_dec_chars(n)
    }
}

/// A duration that renders as minutes and seconds.
pub trait DurationFormat {
    /// The duration in milliseconds.
    spec fn duration_ms(&self) -> u64;

    /// The `MM:SS` rendering of this duration.
    fn format_as_mmss(&self) -> (r: String)
        ensures
            r@ == mmss(self.duration_ms()),
    ;
}

impl DurationFormat for u64 {
    /// The value is itself a duration in milliseconds.
    open spec fn duration_ms(&self) -> u64 {
        *self
    }

    fn format_as_mmss(&self) -> (r: String)
        ensures
            r@ == mmss(self.duration_ms()),
    {
        let total_seconds = *self / 1000;
        let minutes = total_seconds / 60;
        let seconds = total_seconds % 60;
        let mut v = format_two_digits(minutes);
        v.push(':');
        let mut tail = format_two_digits(seconds);
        let n = tail.len();
        let mut j: usize = 0;
        while j < n
            invariant
                j <= n,
                n == tail@.len(),
                v@ == two_digits(*self as int / 1000 / 60) + seq![':'] + tail@.subrange(
                    0,
                    j as int,
                ),
            decreases n - j,
        {
            v.push(tail[j]);
            j = j + 1;
            assert(tail@.subrange(0, j as int) =~= tail@.subrange(0, j - 1).push(
                tail@[j - 1],
            ));
        }
        assert(tail@.subrange(0, n as int) =~= tail@);
        chars_to_string(&v)
    }
}

/// One scaled part of a compact rendering: the whole units, a tenths digit
/// when it is not zero, and the scale suffix. The tenths digit truncates;
/// it never rounds up.
pub open spec fn compact_scaled(n: int, div: int, suffix: char) -> Seq<char>
    recommends
        n >= 0,
        div >= 10,
{
    if (n / (div / 10)) % 10 == 0 {
        u64_dec(n / div).push(suffix)
    } else {
        u64_dec(n / div) + seq!['.', digit_char((n / (div / 10)) % 10), suffix]
    }
}

/// The compact rendering of an engagement counter: plain below one
/// thousand, then scaled to `K`, `M` or `B` with at most one decimal digit,
/// and no decimal point when the tenths digit is zero.
pub open spec fn compact_number(n: int) -> Seq<char>
    recommends
        n >= 0,
{
    if n < 1000 {
        u64_dec(n)
    } else if n < 1000000 {
        compact_scaled(n, 1000, 'K')
    } else if n < 1000000000 {
        compact_scaled(n, 1000000, 'M')
    } else {
        compact_scaled(n, 1000000000, 'B')
    }
}

/// Render one scaled part; `div` is the scale and `tenth_div` is `div / 10`.
fn format_compact_scaled(n: u64, div: u64, tenth_div: u64, suffix: char) -> (r: Vec<char>)
    requires
        div >= 10,
        tenth_div == div / 10,
        div % 10 == 0,
    ensures
        r@ == compact_scaled(n as int, div as int, suffix),
{
    proof {
        vstd::arithmetic::div_mod::lemma_fundamental_div_mod(div as int, 10);
    }
    let whole = n / div;
    let tenth = (n / tenth_div) % 10;
    let mut v = u64_to_dec_chars(whole);
    if tenth == 0 {
        v.push(suffix);
        v
    } else {
        v.push('.');
        v.push((48u8 + (tenth as u8)) as char);
        v.push(suffix);
        assert(v@ =~= u64_dec(n as int / div as int) + seq![
            '.',
            digit_char((n as int / (div as int / 10)) % 10),
            suffix,
        ]);
        v
    }
}

/// An engagement counter that renders compactly (`1.2K`, `34M`).
pub trait NumberFormat {
    /// The counter's value.
    spec fn count_value(&self) -> int;

    /// The compact rendering of this counter.
    fn format_compact_number(&self) -> (r: String)
        ensures
            r@ == compact_number(self.count_value()),
    ;
}

impl NumberFormat for u64 {
    open spec fn count_value(&self) -> int {
        *self as int
    }

    fn format_compact_number(&self) -> (r: String)
        ensures
            r@ == compact_number(self.count_value()),
    {
        let n = *self;
        let v = if n < 1000 {
            u64_to_dec_chars(n)
        } else if n < 1000000 {
            format_compact_scaled(n, 1000, 100, 'K')
        } else if n < 1000000000 {
            format_compact_scaled(n, 1000000, 100000, 'M')
        } else {
            format_compact_scaled(n, 1000000000, 100000000, 'B')
        };
        chars_to_string(&v)
    }
}

impl NumberFormat for u32 {
    open spec fn count_value(&self) -> int {
        *self as int
    }

    fn format_compact_number(&self) -> (r: String)
        ensures
            r@ == compact_number(self.count_value()),
    {
        let wide: u64 = *self as u64;
        wide.format_compact_number()
    }
}

} // verus!
