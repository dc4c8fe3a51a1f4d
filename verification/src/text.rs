//! Parsing of the textual forms of addresses (`1/2/3`, `1.1.5`, `192.168.1.10`).
//!
//! A text is split into parts at a separator byte, and each part is read as
//! an unsigned decimal number the way Rust's `str::parse` reads one: an
//! optional leading `+`, then one or more ASCII digits, and a value that fits
//! the target type.

use vstd::prelude::*;
use vstd::utf8::{encode_utf8, is_ascii_chars, is_ascii_chars_encode_utf8};

verus! {

/// Index of the first `sep` in `s` at or after `start`, or `s.len()` if none.
pub open spec fn find_sep(s: Seq<u8>, sep: u8, start: int) -> int
    decreases s.len() - start,
{
    if start >= s.len() {
        s.len() as int
    } else if s[start] == sep {
        start
    } else {
        find_sep(s, sep, start + 1)
    }
}

/// The parts of `s` from `start` on, cut at every `sep`.
pub open spec fn parts_from(s: Seq<u8>, sep: u8, start: int) -> Seq<Seq<u8>>
    decreases s.len() - start,
{
    if start > s.len() || start < 0 {
        Seq::empty()
    } else {
        let e = find_sep(s, sep, start);
        if e >= s.len() || e < start {
            seq![s.subrange(start, s.len() as int)]
        } else {
            seq![s.subrange(start, e)] + parts_from(s, sep, e + 1)
        }
    }
}

/// The parts of `s` cut at every `sep` (as `str::split` gives them).
pub open spec fn split_by(s: Seq<u8>, sep: u8) -> Seq<Seq<u8>> {
    parts_from(s, sep, 0)
}

/// An ASCII decimal digit.
pub open spec fn is_digit(b: u8) -> bool {
    48 <= b <= 57
}

/// Every byte of `s` is a decimal digit.
pub open spec fn all_digits(s: Seq<u8>) -> bool {
    forall|i: int| 0 <= i < s.len() ==> #[trigger] is_digit(s[i])
}

/// The decimal value of a string of digits.
pub open spec fn digits_value(s: Seq<u8>) -> nat
    decreases s.len(),
{
    if s.len() == 0 {
        0
    } else {
        digits_value(s.drop_last()) * 10 + (s.last() - 48) as nat
    }
}

/// The digits of an unsigned number text: without its leading `+`, if any.
pub open spec fn unsigned_digits(s: Seq<u8>) -> Seq<u8> {
    if s.len() > 0 && s[0] == 43 {
        s.skip(1)
    } else {
        s
    }
}

/// The value of an unsigned number text no greater than `max`, as
/// `str::parse` reads it; `None` where it reports an error.
pub open spec fn parse_unsigned(s: Seq<u8>, max: nat) -> Option<nat> {
    let d = unsigned_digits(s);
    if d.len() > 0 && all_digits(d) && digits_value(d) <= max {
        Some(digits_value(d))
    } else {
        None
    }
}

pub proof fn lemma_find_sep_bounds(s: Seq<u8>, sep: u8, start: int)
    requires
        0 <= start <= s.len(),
    ensures
        start <= find_sep(s, sep, start) <= s.len(),
        find_sep(s, sep, start) < s.len() ==> s[find_sep(s, sep, start)] == sep,
        forall|k: int| start <= k < find_sep(s, sep, start) ==> s[k] != sep,
    decreases s.len() - start,
{
    if start < s.len() && s[start] != sep {
        lemma_find_sep_bounds(s, sep, start + 1);
    }
}

/// The parts from `start` on: the text up to the next separator, then the
/// parts after it.
pub proof fn lemma_parts_from_unfold(s: Seq<u8>, sep: u8, start: int)
    requires
        0 <= start <= s.len(),
    ensures
        parts_from(s, sep, start).len() >= 1,
        parts_from(s, sep, start)[0] == s.subrange(start, find_sep(s, sep, start)),
        find_sep(s, sep, start) >= s.len() ==> parts_from(s, sep, start).len() == 1,
        find_sep(s, sep, start) < s.len() ==> parts_from(s, sep, start).len() == 1 + parts_from(
            s,
            sep,
            find_sep(s, sep, start) + 1,
        ).len(),
        find_sep(s, sep, start) < s.len() ==> forall|k: int|
            1 <= k < parts_from(s, sep, start).len() ==> #[trigger] parts_from(s, sep, start)[k]
                == parts_from(s, sep, find_sep(s, sep, start) + 1)[k - 1],
{
    lemma_find_sep_bounds(s, sep, start);
    let e = find_sep(s, sep, start);
    if e < s.len() {
        lemma_find_sep_bounds(s, sep, e + 1);
        let rest = parts_from(s, sep, e + 1);
        assert(parts_from(s, sep, start) == seq![s.subrange(start, e)] + rest);
    }
}

/// Find the next separator at or after `start`.
pub fn next_sep(s: &[u8], sep: u8, start: usize) -> (r: usize)
    requires
        start <= s@.len(),
    ensures
        r == find_sep(s@, sep, start as int),
        start <= r <= s@.len(),
{
    let mut i = start;
    proof {
        lemma_find_sep_bounds(s@, sep, start as int);
    }
    while i < s.len() && s[i] != sep
        invariant
            start <= i <= s@.len(),
            find_sep(s@, sep, i as int) == find_sep(s@, sep, start as int),
        decreases s@.len() - i,
    {
        i = i + 1;
    }
    i
}

proof fn lemma_digits_value_prefix(s: Seq<u8>, i: int)
    requires
        0 <= i < s.len(),
    ensures
        digits_value(s.take(i + 1)) == digits_value(s.take(i)) * 10 + (s[i] - 48) as nat,
{
    assert(s.take(i + 1).drop_last() =~= s.take(i));
}

proof fn lemma_digits_value_monotone(s: Seq<u8>, i: int, j: int)
    requires
        0 <= i <= j <= s.len(),
        all_digits(s),
    ensures
        digits_value(s.take(i)) <= digits_value(s.take(j)),
    decreases j - i,
{
    if i < j {
        lemma_digits_value_monotone(s, i, j - 1);
        lemma_digits_value_prefix(s, j - 1);
        assert(is_digit(s[j - 1]));
    }
}

/// Read `s[lo..hi]` as an unsigned number no greater than `max`.
pub fn parse_uint(s: &[u8], lo: usize, hi: usize, max: u64) -> (r: Option<u64>)
    requires
        lo <= hi <= s@.len(),
        max <= 0xFFFF_FFFF,
    ensures
        r matches Some(v) ==> parse_unsigned(s@.subrange(lo as int, hi as int), max as nat)
            == Some(v as nat),
        r is None ==> parse_unsigned(s@.subrange(lo as int, hi as int), max as nat) is None,
{
    let ghost text = s@.subrange(lo as int, hi as int);
    let mut start = lo;
    if lo < hi && s[lo] == 43u8 {
        start = lo + 1;
    }
    let ghost d = s@.subrange(start as int, hi as int);
    assert(d =~= unsigned_digits(text));
    if start >= hi {
        return None;
    }
    let mut acc: u64 = 0;
    let mut i = start;
    while i < hi
        invariant
            lo <= start <= i <= hi <= s@.len(),
            d == s@.subrange(start as int, hi as int),
            text == s@.subrange(lo as int, hi as int),
            d == unsigned_digits(text),
            d.len() > 0,
            max <= 0xFFFF_FFFF,
            acc <= max,
            all_digits(d.take(i - start)),
            acc == digits_value(d.take(i - start)),
        decreases hi - i,
    {
        let b = s[i];
        if b < 48u8 || b > 57u8 {
            assert(!is_digit(d[i - start]));
            return None;
        }
        proof {
            lemma_digits_value_prefix(d, i - start);
            assert(all_digits(d.take(i - start + 1))) by {
                assert forall|k: int| 0 <= k < d.take(i - start + 1).len() implies #[trigger] is_digit(
                    d.take(i - start + 1)[k],
                ) by {
                    if k < i - start {
                        assert(d.take(i - start + 1)[k] == d.take(i - start)[k]);
                    }
                }
            }
        }
        acc = acc * 10 + (b - 48u8) as u64;
        i = i + 1;
        if acc > max {
            proof {
                if all_digits(d) {
                    lemma_digits_value_monotone(d, i - start, d.len() as int);
                    assert(d.take(d.len() as int) =~= d);
                }
            }
            return None;
        }
    }
    assert(d.take(i - start) =~= d);
    Some(acc)
}

/// The character of a decimal digit.
pub open spec fn digit_char(d: nat) -> char {
    (48 + d) as char
}

/// The decimal digits of `n`, without leading zeros.
pub open spec fn decimal(n: nat) -> Seq<char>
    decreases n,
{
    if n < 10 {
        seq![digit_char(n)]
    } else {
        decimal(n / 10).push(digit_char(n % 10))
    }
}

/// The bytes of ASCII characters.
pub open spec fn ascii_bytes(cs: Seq<char>) -> Seq<u8> {
    Seq::new(cs.len(), |i: int| cs[i] as u8)
}

/// ASCII characters are encoded in UTF-8 as one byte each.
pub proof fn lemma_ascii_encode(cs: Seq<char>)
    requires
        is_ascii_chars(cs),
    ensures
        encode_utf8(cs) == ascii_bytes(cs),
{
    is_ascii_chars_encode_utf8(cs);
    assert(encode_utf8(cs) =~= ascii_bytes(cs));
}

/// The decimal text of a number is ASCII digits that read back as it.
pub proof fn lemma_decimal_digits(n: nat)
    ensures
        is_ascii_chars(decimal(n)),
        ascii_bytes(decimal(n)).len() > 0,
        all_digits(ascii_bytes(decimal(n))),
        digits_value(ascii_bytes(decimal(n))) == n,
    decreases n,
{
    assert(digit_char(n % 10) as u8 == 48 + n % 10);
    if n < 10 {
        let b = ascii_bytes(decimal(n));
        assert(b.drop_last() =~= Seq::<u8>::empty());
        assert(digits_value(b.drop_last()) == 0);
        assert(b.last() == 48 + n);
    } else {
        lemma_decimal_digits(n / 10);
        let p = decimal(n / 10);
        let c = digit_char(n % 10);
        let b = ascii_bytes(p);
        assert(ascii_bytes(p.push(c)) =~= b.push(c as u8));
        assert(b.push(c as u8).drop_last() =~= b);
        assert(decimal(n) == p.push(c));
        assert(digits_value(b.push(c as u8)) == digits_value(b) * 10 + n % 10);
        assert(all_digits(b.push(c as u8))) by {
            assert forall|k: int| 0 <= k < b.push(c as u8).len() implies #[trigger] is_digit(
                b.push(c as u8)[k],
            ) by {
                if k < b.len() {
                    assert(is_digit(b[k]));
                }
            }
        }
    }
}

/// A number no greater than `max`, written in decimal, parses back.
pub proof fn lemma_decimal_parses(n: nat, max: nat)
    requires
        n <= max,
    ensures
        parse_unsigned(ascii_bytes(decimal(n)), max) == Some(n),
{
    lemma_decimal_digits(n);
    assert(is_digit(ascii_bytes(decimal(n))[0]));
}

/// `find_sep` from `start` stops at `e` when no separator comes before it
/// and `e` ends the text or holds one.
proof fn lemma_find_sep_at(s: Seq<u8>, sep: u8, start: int, e: int)
    requires
        0 <= start <= e <= s.len(),
        forall|k: int| start <= k < e ==> s[k] != sep,
        e == s.len() || s[e] == sep,
    ensures
        find_sep(s, sep, start) == e,
    decreases e - start,
{
    if start < e {
        lemma_find_sep_at(s, sep, start + 1, e);
    }
}

/// A separator-free `x` at `start`, followed by a separator, is the next
/// part.
proof fn lemma_parts_next(s: Seq<u8>, sep: u8, start: int, x: Seq<u8>)
    requires
        0 <= start,
        start + x.len() < s.len(),
        s.subrange(start, start + x.len()) == x,
        s[start + x.len()] == sep,
        forall|k: int| 0 <= k < x.len() ==> x[k] != sep,
    ensures
        parts_from(s, sep, start) == seq![x] + parts_from(s, sep, start + x.len() + 1),
{
    assert forall|k: int| start <= k < start + x.len() implies s[k] != sep by {
        assert(s[k] == s.subrange(start, start + x.len())[k - start]);
    }
    lemma_find_sep_at(s, sep, start, start + x.len());
}

/// A separator-free `x` that ends the text is its last part.
proof fn lemma_parts_last(s: Seq<u8>, sep: u8, start: int, x: Seq<u8>)
    requires
        0 <= start,
        start + x.len() == s.len(),
        s.subrange(start, start + x.len()) == x,
        forall|k: int| 0 <= k < x.len() ==> x[k] != sep,
    ensures
        parts_from(s, sep, start) == seq![x],
{
    assert forall|k: int| start <= k < s.len() implies s[k] != sep by {
        assert(s[k] == s.subrange(start, start + x.len())[k - start]);
    }
    lemma_find_sep_at(s, sep, start, s.len() as int);
}

/// Digits are no separator that is not a digit.
proof fn lemma_digits_sep_free(x: Seq<u8>, sep: u8)
    requires
        all_digits(x),
        !is_digit(sep),
    ensures
        forall|k: int| 0 <= k < x.len() ==> x[k] != sep,
{
    assert forall|k: int| 0 <= k < x.len() implies x[k] != sep by {
        assert(is_digit(x[k]));
    }
}

/// Two digit strings joined by a non-digit separator split back into them.
pub proof fn lemma_split_joined2(x: Seq<u8>, y: Seq<u8>, sep: u8)
    requires
        all_digits(x),
        all_digits(y),
        !is_digit(sep),
    ensures
        split_by(x + seq![sep] + y, sep) == seq![x, y],
{
    let s = x + seq![sep] + y;
    lemma_digits_sep_free(x, sep);
    lemma_digits_sep_free(y, sep);
    assert(s.subrange(0, x.len() as int) =~= x);
    lemma_parts_next(s, sep, 0, x);
    let b: int = x.len() as int + 1;
    assert(s.subrange(b, b + y.len()) =~= y);
    lemma_parts_last(s, sep, b, y);
    assert(split_by(s, sep) =~= seq![x, y]);
}

/// Three digit strings joined by a non-digit separator split back into
/// them.
pub proof fn lemma_split_joined3(x: Seq<u8>, y: Seq<u8>, z: Seq<u8>, sep: u8)
    requires
        all_digits(x),
        all_digits(y),
        all_digits(z),
        !is_digit(sep),
    ensures
        split_by(x + seq![sep] + y + seq![sep] + z, sep) == seq![x, y, z],
{
    let s = x + seq![sep] + y + seq![sep] + z;
    lemma_digits_sep_free(x, sep);
    lemma_digits_sep_free(y, sep);
    lemma_digits_sep_free(z, sep);
    assert(s.subrange(0, x.len() as int) =~= x);
    lemma_parts_next(s, sep, 0, x);
    let b: int = x.len() as int + 1;
    assert(s.subrange(b, b + y.len()) =~= y);
    lemma_parts_next(s, sep, b, y);
    let c: int = b + y.len() + 1;
    assert(s.subrange(c, c + z.len()) =~= z);
    lemma_parts_last(s, sep, c, z);
    assert(split_by(s, sep) =~= seq![x, y, z]);
}

/// Four digit strings joined by a non-digit separator split back into
/// them.
pub proof fn lemma_split_joined4(w: Seq<u8>, x: Seq<u8>, y: Seq<u8>, z: Seq<u8>, sep: u8)
    requires
        all_digits(w),
        all_digits(x),
        all_digits(y),
        all_digits(z),
        !is_digit(sep),
    ensures
        split_by(w + seq![sep] + x + seq![sep] + y + seq![sep] + z, sep) == seq![w, x, y, z],
{
    let s = w + seq![sep] + x + seq![sep] + y + seq![sep] + z;
    lemma_digits_sep_free(w, sep);
    lemma_digits_sep_free(x, sep);
    lemma_digits_sep_free(y, sep);
    lemma_digits_sep_free(z, sep);
    assert(s.subrange(0, w.len() as int) =~= w);
    lemma_parts_next(s, sep, 0, w);
    let a: int = w.len() as int + 1;
    assert(s.subrange(a, a + x.len()) =~= x);
    lemma_parts_next(s, sep, a, x);
    let b: int = a + x.len() + 1;
    assert(s.subrange(b, b + y.len()) =~= y);
    lemma_parts_next(s, sep, b, y);
    let c: int = b + y.len() + 1;
    assert(s.subrange(c, c + z.len()) =~= z);
    lemma_parts_last(s, sep, c, z);
    assert(split_by(s, sep) =~= seq![w, x, y, z]);
}

/// Two numbers in decimal joined by an ASCII separator are encoded byte
/// for byte.
pub proof fn lemma_joined2_bytes(a: nat, b: nat, sep: char)
    requires
        sep <= '\u{7f}',
    ensures
        encode_utf8(decimal(a) + seq![sep] + decimal(b)) == ascii_bytes(decimal(a)) + seq![
            sep as u8,
        ] + ascii_bytes(decimal(b)),
{
    lemma_decimal_digits(a);
    lemma_decimal_digits(b);
    let cs = decimal(a) + seq![sep] + decimal(b);
    assert(is_ascii_chars(cs));
    lemma_ascii_encode(cs);
    assert(ascii_bytes(cs) =~= ascii_bytes(decimal(a)) + seq![sep as u8] + ascii_bytes(
        decimal(b),
    ));
}

/// Three numbers in decimal joined by an ASCII separator are encoded byte
/// for byte.
pub proof fn lemma_joined3_bytes(a: nat, b: nat, c: nat, sep: char)
    requires
        sep <= '\u{7f}',
    ensures
        encode_utf8(decimal(a) + seq![sep] + decimal(b) + seq![sep] + decimal(c)) == ascii_bytes(
            decimal(a),
        ) + seq![sep as u8] + ascii_bytes(decimal(b)) + seq![sep as u8] + ascii_bytes(decimal(c)),
{
    lemma_decimal_digits(a);
    lemma_decimal_digits(b);
    lemma_decimal_digits(c);
    let cs = decimal(a) + seq![sep] + decimal(b) + seq![sep] + decimal(c);
    assert(is_ascii_chars(cs));
    lemma_ascii_encode(cs);
    assert(ascii_bytes(cs) =~= ascii_bytes(decimal(a)) + seq![sep as u8] + ascii_bytes(
        decimal(b),
    ) + seq![sep as u8] + ascii_bytes(decimal(c)));
}

/// Four numbers in decimal joined by an ASCII separator are encoded byte
/// for byte.
pub proof fn lemma_joined4_bytes(a: nat, b: nat, c: nat, d: nat, sep: char)
    requires
        sep <= '\u{7f}',
    ensures
        encode_utf8(
            decimal(a) + seq![sep] + decimal(b) + seq![sep] + decimal(c) + seq![sep] + decimal(d),
        ) == ascii_bytes(decimal(a)) + seq![sep as u8] + ascii_bytes(decimal(b)) + seq![
            sep as u8,
        ] + ascii_bytes(decimal(c)) + seq![sep as u8] + ascii_bytes(decimal(d)),
{
    lemma_decimal_digits(a);
    lemma_decimal_digits(b);
    lemma_decimal_digits(c);
    lemma_decimal_digits(d);
    let cs = decimal(a) + seq![sep] + decimal(b) + seq![sep] + decimal(c) + seq![sep] + decimal(d);
    assert(is_ascii_chars(cs));
    lemma_ascii_encode(cs);
    assert(ascii_bytes(cs) =~= ascii_bytes(decimal(a)) + seq![sep as u8] + ascii_bytes(
        decimal(b),
    ) + seq![sep as u8] + ascii_bytes(decimal(c)) + seq![sep as u8] + ascii_bytes(decimal(d)));
}

/// `format!` of two numbers joined by `sep`: integers are written in
/// decimal.
#[verifier::external_body]
pub(crate) fn format_joined2(a: u16, b: u16, sep: char) -> (r: String)
    ensures
        r@ == decimal(a as nat) + seq![sep] + decimal(b as nat),
{
    format!("{}{}{}", a, sep, b)
}

/// `format!` of three numbers joined by `sep`: integers are written in
/// decimal.
#[verifier::external_body]
pub(crate) fn format_joined3(a: u8, b: u8, c: u8, sep: char) -> (r: String)
    ensures
        r@ == decimal(a as nat) + seq![sep] + decimal(b as nat) + seq![sep] + decimal(c as nat),
{
    format!("{}{}{}{}{}", a, sep, b, sep, c)
}

/// `format!` of four numbers joined by `sep`: integers are written in
/// decimal.
#[verifier::external_body]
pub(crate) fn format_joined4(a: u8, b: u8, c: u8, d: u8, sep: char) -> (r: String)
    ensures
        r@ == decimal(a as nat) + seq![sep] + decimal(b as nat) + seq![sep] + decimal(c as nat)
            + seq![sep] + decimal(d as nat),
{
    format!("{}{}{}{}{}{}{}", a, sep, b, sep, c, sep, d)
}

} // verus!
