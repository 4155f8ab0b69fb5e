//! Numeric text parsing for the configuration forms.
//!
//! Every camera field arrives as text. Unsigned whole numbers (image
//! size, sample and bounce counts) parse to `u32`. Signed decimal
//! numbers (positions, field of view, focus distance, aperture) parse to
//! fixed-point micro-units: an optional sign, digits, and an optional
//! fractional part, with at least one digit in all. Fraction digits past
//! the sixth are truncated, and magnitudes above `FIXED_MAX` micro-units
//! are rejected.

use vstd::prelude::*;

use crate::color::DisplayPixel;

verus! {

/// Largest magnitude a fixed-point field accepts, in micro-units
/// (one thousand million whole units).
pub const FIXED_MAX: i64 = 1_000_000_000_000_000;

/// The decimal digits.
pub open spec fn is_digit_char(c: char) -> bool {
    48 <= c as u32 <= 57
}

/// Numeric value of one decimal digit.
pub open spec fn digit_val(c: char) -> int {
    c as u32 - 48
}

/// Every character of `s` is a decimal digit.
pub open spec fn is_digits(s: Seq<char>) -> bool {
    forall|i: int| 0 <= i < s.len() ==> is_digit_char(#[trigger] s[i])
}

/// The number written by a string of decimal digits, most significant
/// first.
pub open spec fn digits_val(s: Seq<char>) -> int
    decreases s.len(),
{
    if s.len() == 0 {
        0
    } else {
        digits_val(s.drop_last()) * 10 + digit_val(s.last())
    }
}

/// A digit string's value is never negative.
pub proof fn lemma_digits_val_nonneg(s: Seq<char>)
    requires
        is_digits(s),
    ensures
        digits_val(s) >= 0,
    decreases s.len(),
{
    if s.len() > 0 {
        lemma_digits_val_nonneg(s.drop_last());
    }
}

/// Extending a digit string by one digit multiplies its value by ten and
/// adds the digit.
pub proof fn lemma_digits_val_step(s: Seq<char>, i: int)
    requires
        0 <= i < s.len(),
    ensures
        digits_val(s.take(i + 1)) == digits_val(s.take(i)) * 10 + digit_val(s[i]),
{
    assert(s.take(i + 1).drop_last() =~= s.take(i));
    assert(s.take(i + 1).last() == s[i]);
}

/// A longer prefix of a digit string never has a smaller value.
pub proof fn lemma_digits_val_prefix_monotonic(s: Seq<char>, i: int, j: int)
    requires
        is_digits(s),
        0 <= i <= j <= s.len(),
    ensures
        digits_val(s.take(i)) <= digits_val(s.take(j)),
    decreases j - i,
{
    if i < j {
        lemma_digits_val_prefix_monotonic(s, i, j - 1);
        lemma_digits_val_step(s, j - 1);
        assert(is_digits(s.take(j - 1))) by {
            assert(forall|k: int|
                0 <= k < j - 1 ==> is_digit_char(#[trigger] s.take(j - 1)[k]));
        }
        lemma_digits_val_nonneg(s.take(j - 1));
    }
}

/// The input with one leading plus sign removed, if it has one.
pub open spec fn strip_plus(s: Seq<char>) -> Seq<char> {
    if s.len() > 0 && s[0] == '+' {
        s.drop_first()
    } else {
        s
    }
}

/// What `u32` parsing accepts: an optional leading plus, then decimal
/// digits whose value fits in 32 bits.
pub open spec fn spec_parse_u32(s: Seq<char>) -> Option<u32> {
    let t = strip_plus(s);
    if t.len() == 0 || !is_digits(t) {
        None
    } else if digits_val(t) > u32::MAX {
        None
    } else {
        Some(digits_val(t) as u32)
    }
}

/// Reads the characters of a string into a vector.
pub(crate) fn chars_of(s: &str) -> (v: Vec<char>)
    ensures
        v@ == s@,
{
    let n = s.unicode_len();
    let mut v: Vec<char> = Vec::new();
    let mut i: usize = 0;
    while i < n
        invariant
            i <= n,
            n == s@.len(),
            v@ =~= s@.take(i as int),
        decreases n - i,
    {
        v.push(s.get_char(i));
        i = i + 1;
    }
    proof {
        assert(v@ =~= s@);
    }
    v
}

/// Checks whether `c` is a decimal digit.
fn digit_of(c: char) -> (r: Option<u8>)
    ensures
        is_digit_char(c) <==> r is Some,
        r is Some ==> r->0 == digit_val(c),
{
    let u = c as u32;
    if 48 <= u && u <= 57 {
        Some((u - 48) as u8)
    } else {
        None
    }
}

/// Parses an unsigned 32-bit number: an optional leading plus, then
/// decimal digits; rejects empty input, other characters, and values
/// past `u32::MAX`.
pub fn parse_u32(s: &str) -> (r: Option<u32>)
    ensures
        r == spec_parse_u32(s@),
{
    let v = chars_of(s);
    let n = v.len();
    let start: usize = if n > 0 && v[0] == '+' {
        1
    } else {
        0
    };
    let ghost t = strip_plus(s@);
    proof {
        assert(t =~= v@.subrange(start as int, n as int));
    }
    if n == start {
        return None;
    }
    let mut acc: u64 = 0;
    let mut i: usize = start;
    while i < n
        invariant
            start <= i <= n,
            n == v@.len(),
            v@ == s@,
            t == strip_plus(s@),
            t =~= v@.subrange(start as int, n as int),
            is_digits(t.take(i - start)),
            acc == digits_val(t.take(i - start)),
            acc <= u32::MAX,
        decreases n - i,
    {
        let d = match digit_of(v[i]) {
            Some(d) => d,
            None => {
                proof {
                    assert(t[i - start] == v@[i as int]);
                    assert(!is_digits(t));
                }
                return None;
            },
        };
        proof {
            lemma_digits_val_step(t, i - start);
        }
        let next = acc * 10 + (d as u64);
        if next > (u32::MAX as u64) {
            proof {
                if is_digits(t) {
                    assert(digits_val(t.take(i + 1 - start)) == acc * 10 + d);
                    lemma_digits_val_prefix_monotonic(t, i + 1 - start, t.len() as int);
                    assert(t.take(t.len() as int) =~= t);
                }
            }
            return None;
        }
        acc = next;
        i = i + 1;
        proof {
            assert(is_digits(t.take(i - start))) by {
                assert(forall|k: int|
                    0 <= k < i - start ==> is_digit_char(#[trigger] t.take(i - start)[k]));
            }
        }
    }
    proof {
        assert(t.take(n - start) =~= t);
    }
    Some(acc as u32)
}

/// Ten to the power `k`.
pub open spec fn pow10(k: nat) -> int
    decreases k,
{
    if k == 0 {
        1
    } else {
        10 * pow10((k - 1) as nat)
    }
}

/// The powers of ten up to the fixed-point scale.
pub proof fn lemma_pow10_vals()
    ensures
        pow10(0) == 1,
        pow10(1) == 10,
        pow10(2) == 100,
        pow10(3) == 1000,
        pow10(4) == 10000,
        pow10(5) == 100000,
        pow10(6) == 1000000,
{
    reveal_with_fuel(pow10, 8);
}

/// A digit string's value is below ten to the power of its length.
pub proof fn lemma_digits_val_upper(s: Seq<char>)
    requires
        is_digits(s),
    ensures
        digits_val(s) < pow10(s.len()),
    decreases s.len(),
{
    if s.len() == 0 {
    } else {
        assert(is_digits(s.drop_last())) by {
            assert(forall|k: int|
                0 <= k < s.len() - 1 ==> is_digit_char(#[trigger] s.drop_last()[k]));
        }
        lemma_digits_val_upper(s.drop_last());
    }
}

/// A decimal magnitude splits at position `d`: digits, then optionally a
/// dot and more digits, with at least one digit in all. `d` is the dot's
/// position, or the length when there is no dot.
pub open spec fn mag_shape(m: Seq<char>, d: int) -> bool {
    &&& 0 <= d <= m.len()
    &&& (d == m.len() || m[d] == '.')
    &&& is_digits(m.take(d))
    &&& (d == m.len() || is_digits(m.subrange(d + 1, m.len() as int)))
    &&& d + (if d == m.len() {
        0int
    } else {
        m.len() - d - 1
    }) >= 1
}

/// The fractional digits of a magnitude split at `d`: what follows the
/// dot, or nothing when there is no dot.
pub open spec fn frac_of(m: Seq<char>, d: int) -> Seq<char> {
    if d == m.len() {
        Seq::empty()
    } else {
        m.subrange(d + 1, m.len() as int)
    }
}

/// Micro-units contributed by the fractional digits: the first six
/// digits, padded with zeros up to six.
pub open spec fn frac_scaled(f: Seq<char>) -> int {
    if f.len() >= 6 {
        digits_val(f.take(6))
    } else {
        digits_val(f) * pow10((6 - f.len()) as nat)
    }
}

/// The value in micro-units of a magnitude split at `d`.
pub open spec fn mag_value(m: Seq<char>, d: int) -> int {
    digits_val(m.take(d)) * 1_000_000 + frac_scaled(frac_of(m, d))
}

/// Only one split position can satisfy the magnitude shape.
pub proof fn lemma_mag_shape_unique(m: Seq<char>, d1: int, d2: int)
    requires
        mag_shape(m, d1),
        mag_shape(m, d2),
    ensures
        d1 == d2,
{
    if d1 < d2 {
        assert(is_digit_char(m.take(d2)[d1]));
    }
    if d2 < d1 {
        assert(is_digit_char(m.take(d1)[d2]));
    }
}

/// What a decimal magnitude parses to: its micro-unit value when it has
/// the magnitude shape and the value is within `FIXED_MAX`.
pub open spec fn spec_parse_mag(m: Seq<char>) -> Option<int> {
    if exists|d: int| mag_shape(m, d) {
        let d = choose|d: int| mag_shape(m, d);
        if mag_value(m, d) > FIXED_MAX {
            None
        } else {
            Some(mag_value(m, d))
        }
    } else {
        None
    }
}

/// What a signed fixed-point field parses to: an optional sign, then a
/// decimal magnitude, in micro-units.
pub open spec fn spec_parse_fixed(s: Seq<char>) -> Option<int> {
    if s.len() > 0 && (s[0] == '+' || s[0] == '-') {
        match spec_parse_mag(s.drop_first()) {
            Some(v) => Some(
                if s[0] == '-' {
                    -v
                } else {
                    v
                },
            ),
            None => None,
        }
    } else {
        spec_parse_mag(s)
    }
}

/// Parses an unsigned decimal magnitude from `v` starting at `start`,
/// returning its micro-unit value.
fn parse_mag(v: &Vec<char>, start: usize) -> (r: Option<u64>)
    requires
        start <= v@.len(),
    ensures
        (r is Some) == (spec_parse_mag(v@.subrange(start as int, v@.len() as int)) is Some),
        r is Some ==> spec_parse_mag(v@.subrange(start as int, v@.len() as int)) == Some(
            r->0 as int,
        ),
        r is Some ==> r->0 <= FIXED_MAX as u64,
{
    let ghost m = v@.subrange(start as int, v@.len() as int);
    let n = v.len();

    // Integer part: scan digits up to a dot or the end.
    let mut acc: u64 = 0;
    let mut i: usize = start;
    let mut saw_dot = false;
    while i < n && !saw_dot
        invariant
            start <= i <= n,
            n == v@.len(),
            m == v@.subrange(start as int, v@.len() as int),
            !saw_dot ==> is_digits(m.take(i - start)) && acc == digits_val(m.take(i - start))
                && acc <= 1_000_000_000,
            saw_dot ==> i > start && v@[i - 1] == '.' && is_digits(m.take(i - 1 - start)) && acc
                == digits_val(m.take(i - 1 - start)) && acc <= 1_000_000_000,
        decreases n - i,
    {
        let c = v[i];
        if c == '.' {
            saw_dot = true;
            i = i + 1;
        } else {
            match digit_of(c) {
                Some(d) => {
                    proof {
                        lemma_digits_val_step(m, i - start);
                    }
                    let next = acc * 10 + (d as u64);
                    if next > 1_000_000_000 {
                        proof {
                            lemma_mag_overflow(m, i + 1 - start, next as int);
                        }
                        return None;
                    }
                    acc = next;
                    i = i + 1;
                    proof {
                        assert(is_digits(m.take(i - start))) by {
                            assert(forall|k: int|
                                0 <= k < i - start ==> is_digit_char(
                                    #[trigger] m.take(i - start)[k],
                                ));
                        }
                    }
                },
                None => {
                    proof {
                        lemma_mag_bad_int(m, i - start);
                    }
                    return None;
                },
            }
        }
    }
    let dot: usize = if saw_dot {
        i - 1
    } else {
        i
    };
    let ghost d_rel = dot - start;
    let ghost f = frac_of(m, d_rel as int);
    proof {
        assert(saw_dot ==> m[d_rel as int] == '.');
        assert(!saw_dot ==> d_rel == m.len());
        assert(f =~= m.subrange(d_rel + 1, m.len() as int) || d_rel == m.len());
    }

    // Fractional part: scan digits, keeping the first six.
    let mut fvalue: u64 = 0;
    let mut fcnt: u64 = 0;
    let mut j: usize = if saw_dot {
        i
    } else {
        n
    };
    proof {
        assert(j - dot - 1 == 0 || !saw_dot);
    }
    while j < n
        invariant
            dot < j <= n || (j == n && dot <= n),
            n == v@.len(),
            start <= dot <= n,
            m == v@.subrange(start as int, v@.len() as int),
            d_rel == dot - start,
            dot < n ==> m[d_rel as int] == '.',
            is_digits(m.take(d_rel as int)),
            dot < n ==> f == m.subrange(d_rel + 1, m.len() as int),
            dot == n ==> f == Seq::<char>::empty(),
            j > dot ==> f.len() == n - dot - 1,
            j > dot ==> is_digits(f.take(j - dot - 1)),
            j > dot ==> fcnt == if j - dot - 1 <= 6 {
                j - dot - 1
            } else {
                6
            },
            j == n && dot == n ==> fcnt == 0,
            fvalue == digits_val(f.take(fcnt as int)),
            fvalue <= 999_999,
            fcnt <= 6,
        decreases n - j,
    {
        let c = v[j];
        match digit_of(c) {
            Some(d) => {
                if fcnt < 6 {
                    proof {
                        assert(f[fcnt as int] == m[d_rel + 1 + fcnt]);
                        lemma_digits_val_step(f, fcnt as int);
                        lemma_pow10_vals();
                        assert(is_digits(f.take(fcnt + 1))) by {
                            assert(forall|k: int|
                                0 <= k < fcnt + 1 ==> is_digit_char(
                                    #[trigger] f.take(fcnt + 1)[k],
                                ));
                        }
                        lemma_digits_val_upper(f.take(fcnt + 1));
                    }
                    fvalue = fvalue * 10 + (d as u64);
                    fcnt = fcnt + 1;
                }
                j = j + 1;
                proof {
                    assert(is_digits(f.take(j - dot - 1))) by {
                        assert(forall|k: int|
                            0 <= k < j - dot - 1 ==> is_digit_char(
                                #[trigger] f.take(j - dot - 1)[k],
                            ));
                    }
                }
            },
            None => {
                proof {
                    lemma_mag_bad_frac(m, d_rel as int, j - start);
                }
                return None;
            },
        }
    }

    // No digits at all: not a number.
    if dot == start && (dot == n || n - dot == 1) {
        proof {
            lemma_mag_no_digits(m, d_rel as int);
        }
        return None;
    }

    // Pad the fraction to six digits.
    let ghost flen = f.len() as int;
    let ghost base = digits_val(f.take(if flen <= 6 { flen } else { 6 }));
    proof {
        lemma_pow10_vals();
        if flen < 6 {
            assert(f.take(flen) =~= f);
            lemma_digits_val_upper(f);
        }
    }
    while fcnt < 6
        invariant
            fcnt <= 6,
            flen == f.len(),
            flen < 6 ==> fcnt >= flen,
            flen >= 6 ==> fcnt == 6,
            base == digits_val(f.take(if flen <= 6 { flen } else { 6 })),
            flen < 6 ==> fvalue == base * pow10((fcnt - flen) as nat) && base < pow10(
                flen as nat,
            ) && base >= 0,
            flen >= 6 ==> fvalue == base,
            fvalue < pow10(fcnt as nat),
            fvalue <= 999_999,
        decreases 6 - fcnt,
    {
        proof {
            lemma_pow10_vals();
            assert(base * pow10((fcnt - flen) as nat) * 10 == base * pow10(
                (fcnt + 1 - flen) as nat,
            )) by (nonlinear_arith)
                requires
                    flen <= fcnt,
                    pow10((fcnt + 1 - flen) as nat) == 10 * pow10((fcnt - flen) as nat),
            ;
            assert(fvalue * 10 < pow10((fcnt + 1) as nat)) by (nonlinear_arith)
                requires
                    fvalue < pow10(fcnt as nat),
                    pow10((fcnt + 1) as nat) == 10 * pow10(fcnt as nat),
            ;
        }
        fvalue = fvalue * 10;
        fcnt = fcnt + 1;
    }
    proof {
        assert(fvalue == frac_scaled(f)) by {
            lemma_pow10_vals();
            if flen < 6 {
                assert(f.take(flen) =~= f);
            }
        }
    }

    // Combine integer and fractional parts.
    proof {
        assert(acc == digits_val(m.take(d_rel as int)));
        assert(mag_shape(m, d_rel as int)) by {
            if dot < n {
                assert(is_digits(f.take(n - dot - 1)));
                assert(f.take(n - dot - 1) =~= f);
            }
        }
    }
    let total: u64 = acc * 1_000_000 + fvalue;
    proof {
        lemma_mag_found(m, d_rel as int, total as int);
    }
    if total > (FIXED_MAX as u64) {
        return None;
    }
    Some(total)
}

/// A magnitude whose integer-part prefix already exceeds the bound
/// parses to a value beyond `FIXED_MAX`, whatever follows.
proof fn lemma_mag_overflow(m: Seq<char>, p: int, val: int)
    requires
        0 < p <= m.len(),
        is_digits(m.take(p)),
        digits_val(m.take(p)) == val,
        val > 1_000_000_000,
    ensures
        spec_parse_mag(m) is None,
{
    if exists|d: int| mag_shape(m, d) {
        let d = choose|d: int| mag_shape(m, d);
        assert(d >= p) by {
            if d < p {
                assert(is_digit_char(m.take(p)[d]));
            }
        }
        assert(is_digits(m.take(d)));
        lemma_digits_val_prefix_monotonic(m.take(d), p, d);
        assert(m.take(d).take(p) =~= m.take(p));
        assert(m.take(d).take(d) =~= m.take(d));
        let fr = frac_of(m, d);
        assert(frac_scaled(fr) >= 0) by {
            lemma_frac_scaled_nonneg(fr);
        }
        assert(digits_val(m.take(d)) * 1_000_000 > FIXED_MAX) by (nonlinear_arith)
            requires
                digits_val(m.take(d)) > 1_000_000_000,
        ;
    }
}

/// The fractional digits never contribute a negative amount.
proof fn lemma_frac_scaled_nonneg(f: Seq<char>)
    requires
        is_digits(f) || f.len() == 0,
    ensures
        frac_scaled(f) >= 0,
{
    lemma_pow10_vals();
    if f.len() >= 6 {
        assert(is_digits(f.take(6))) by {
            assert(forall|k: int| 0 <= k < 6 ==> is_digit_char(#[trigger] f.take(6)[k]));
        }
        lemma_digits_val_nonneg(f.take(6));
    } else {
        lemma_digits_val_nonneg(f);
        lemma_pow10_pos((6 - f.len()) as nat);
        assert(digits_val(f) * pow10((6 - f.len()) as nat) >= 0) by (nonlinear_arith)
            requires
                digits_val(f) >= 0,
                pow10((6 - f.len()) as nat) > 0,
        ;
    }
}

/// Ten to any power is positive.
proof fn lemma_pow10_pos(k: nat)
    ensures
        pow10(k) > 0,
    decreases k,
{
    if k > 0 {
        lemma_pow10_pos((k - 1) as nat);
    }
}

/// A non-digit, non-dot character before any dot rules out every split.
proof fn lemma_mag_bad_int(m: Seq<char>, p: int)
    requires
        0 <= p < m.len(),
        is_digits(m.take(p)),
        !is_digit_char(m[p]),
        m[p] != '.',
    ensures
        spec_parse_mag(m) is None,
{
    assert forall|d: int| !mag_shape(m, d) by {
        if mag_shape(m, d) {
            if d > p {
                assert(is_digit_char(m.take(d)[p]));
            } else if d < p {
                assert(is_digit_char(m.take(p)[d]));
                assert(!is_digit_char('.')) by {
                    assert('.' as u32 == 46);
                }
            }
        }
    }
}

/// A non-digit among the fractional characters rules out every split.
proof fn lemma_mag_bad_frac(m: Seq<char>, dd: int, q: int)
    requires
        0 <= dd < m.len(),
        m[dd] == '.',
        is_digits(m.take(dd)),
        dd < q < m.len(),
        !is_digit_char(m[q]),
    ensures
        spec_parse_mag(m) is None,
{
    assert(!is_digit_char('.')) by {
        assert('.' as u32 == 46);
    }
    assert forall|d: int| !mag_shape(m, d) by {
        if mag_shape(m, d) {
            if d < dd {
                assert(is_digit_char(m.take(dd)[d]));
            } else if d == dd {
                assert(is_digit_char(m.subrange(d + 1, m.len() as int)[q - d - 1]));
            } else {
                assert(is_digit_char(m.take(d)[dd]));
            }
        }
    }
}

/// A magnitude with no digit at all rules out every split.
proof fn lemma_mag_no_digits(m: Seq<char>, dd: int)
    requires
        dd == 0,
        m.len() == 0 || (m.len() == 1 && m[0] == '.'),
    ensures
        spec_parse_mag(m) is None,
{
    assert(!is_digit_char('.')) by {
        assert('.' as u32 == 46);
    }
    assert forall|d: int| !mag_shape(m, d) by {
        if mag_shape(m, d) {
            if m.len() == 1 && d == 1 {
                assert(is_digit_char(m.take(1)[0]));
            }
        }
    }
}

/// With a valid split in hand, the parse result is decided by the value.
proof fn lemma_mag_found(m: Seq<char>, dd: int, val: int)
    requires
        mag_shape(m, dd),
        mag_value(m, dd) == val,
    ensures
        val > FIXED_MAX ==> spec_parse_mag(m) is None,
        val <= FIXED_MAX ==> spec_parse_mag(m) == Some(val),
{
    let d = choose|d: int| mag_shape(m, d);
    lemma_mag_shape_unique(m, d, dd);
}

/// Parses a signed fixed-point number to micro-units: an optional sign,
/// decimal digits, and an optional fraction, with at least one digit;
/// fraction digits past the sixth are truncated and magnitudes above
/// `FIXED_MAX` are rejected.
pub fn parse_fixed(s: &str) -> (r: Option<i64>)
    ensures
        (r is Some) == (spec_parse_fixed(s@) is Some),
        r is Some ==> spec_parse_fixed(s@) == Some(r->0 as int),
        r is Some ==> -FIXED_MAX <= r->0 <= FIXED_MAX,
{
    let v = chars_of(s);
    let n = v.len();
    let negative = n > 0 && v[0] == '-';
    let signed = negative || (n > 0 && v[0] == '+');
    let start: usize = if signed {
        1
    } else {
        0
    };
    proof {
        if signed {
            assert(v@.subrange(1, n as int) =~= s@.drop_first());
        } else {
            assert(v@.subrange(0, n as int) =~= s@);
        }
    }
    match parse_mag(&v, start) {
        Some(x) => {
            let val = x as i64;
            if negative {
                Some(-val)
            } else {
                Some(val)
            }
        },
        None => None,
    }
}

/// The hexadecimal digits, upper or lower case.
pub open spec fn is_hex_digit_char(c: char) -> bool {
    ||| 48 <= c as u32 <= 57
    ||| 65 <= c as u32 <= 70
    ||| 97 <= c as u32 <= 102
}

/// Numeric value of one hexadecimal digit.
pub open spec fn hex_digit_val(c: char) -> int {
    if 48 <= c as u32 <= 57 {
        c as u32 - 48
    } else if 65 <= c as u32 <= 70 {
        c as u32 - 55
    } else {
        c as u32 - 87
    }
}

/// What one color channel parses to from two characters, as the standard
/// radix-16 byte parse reads them: two hexadecimal digits; or a plus sign
/// and one digit; or a minus sign and a zero.
pub open spec fn spec_hex_byte(s: Seq<char>) -> Option<u8> {
    if s.len() != 2 {
        None
    } else if is_hex_digit_char(s[0]) && is_hex_digit_char(s[1]) {
        Some((hex_digit_val(s[0]) * 16 + hex_digit_val(s[1])) as u8)
    } else if s[0] == '+' && is_hex_digit_char(s[1]) {
        Some(hex_digit_val(s[1]) as u8)
    } else if s[0] == '-' && is_hex_digit_char(s[1]) && hex_digit_val(s[1]) == 0 {
        Some(0)
    } else {
        None
    }
}

/// Checks whether `c` is a hexadecimal digit.
fn hex_digit_of(c: char) -> (r: Option<u8>)
    ensures
        is_hex_digit_char(c) <==> r is Some,
        r is Some ==> r->0 == hex_digit_val(c),
{
    let u = c as u32;
    if 48 <= u && u <= 57 {
        Some((u - 48) as u8)
    } else if 65 <= u && u <= 70 {
        Some((u - 55) as u8)
    } else if 97 <= u && u <= 102 {
        Some((u - 87) as u8)
    } else {
        None
    }
}

/// Parses the two characters at `lo` as one color channel.
pub fn hex_byte_at(v: &Vec<char>, lo: usize) -> (r: Option<u8>)
    requires
        lo + 2 <= v@.len(),
    ensures
        r == spec_hex_byte(v@.subrange(lo as int, lo + 2)),
{
    let ghost p = v@.subrange(lo as int, lo + 2);
    proof {
        assert(p.len() == 2);
        assert(p[0] == v@[lo as int]);
        assert(p[1] == v@[lo + 1]);
    }
    let n = v.len();
    let c0 = v[lo];
    let c1 = v[lo + 1];
    match (hex_digit_of(c0), hex_digit_of(c1)) {
        (Some(d0), Some(d1)) => Some(d0 * 16 + d1),
        (None, Some(d1)) => {
            if c0 == '+' {
                Some(d1)
            } else if c0 == '-' && d1 == 0 {
                Some(0)
            } else {
                None
            }
        },
        (_, None) => None,
    }
}

/// The input with every leading hash mark removed.
pub open spec fn trim_hash(s: Seq<char>) -> Seq<char>
    decreases s.len(),
{
    if s.len() > 0 && s[0] == '#' {
        trim_hash(s.drop_first())
    } else {
        s
    }
}

proof fn lemma_trim_hash_step(s: Seq<char>, k: int)
    requires
        0 <= k < s.len(),
        s[k] == '#',
    ensures
        trim_hash(s.skip(k)) == trim_hash(s.skip(k + 1)),
{
    assert(s.skip(k).drop_first() =~= s.skip(k + 1));
}

proof fn lemma_trim_hash_done(s: Seq<char>, k: int)
    requires
        0 <= k <= s.len(),
        k < s.len() ==> s[k] != '#',
    ensures
        trim_hash(s.skip(k)) == s.skip(k),
{
}

/// What a six-digit color field parses to: leading hash marks are
/// ignored, the next six characters form three channel pairs, and any
/// further characters are ignored.
pub open spec fn spec_hex_rgb(s: Seq<char>) -> Option<DisplayPixel> {
    let t = trim_hash(s);
    if t.len() < 6 {
        None
    } else if spec_hex_byte(t.subrange(0, 2)) is None || spec_hex_byte(t.subrange(2, 4)) is None
        || spec_hex_byte(t.subrange(4, 6)) is None {
        None
    } else {
        Some(
            DisplayPixel {
                r: spec_hex_byte(t.subrange(0, 2))->0,
                g: spec_hex_byte(t.subrange(2, 4))->0,
                b: spec_hex_byte(t.subrange(4, 6))->0,
            },
        )
    }
}

/// Parses a color given as six hexadecimal digits, after any leading
/// hash marks; fails on fewer than six characters or a bad digit.
pub fn hex_rgb(s: &str) -> (r: Option<DisplayPixel>)
    ensures
        r == spec_hex_rgb(s@),
{
    let v = chars_of(s);
    let n = v.len();
    let mut k: usize = 0;
    proof {
        assert(s@.skip(0) =~= s@);
    }
    while k < n && v[k] == '#'
        invariant
            0 <= k <= n,
            n == v@.len(),
            v@ == s@,
            trim_hash(s@) == trim_hash(s@.skip(k as int)),
        decreases n - k,
    {
        proof {
            lemma_trim_hash_step(s@, k as int);
        }
        k = k + 1;
    }
    proof {
        lemma_trim_hash_done(s@, k as int);
    }
    let ghost t = trim_hash(s@);
    if n - k < 6 {
        return None;
    }
    proof {
        assert(t.subrange(0, 2) =~= v@.subrange(k as int, k + 2));
        assert(t.subrange(2, 4) =~= v@.subrange(k + 2, k + 4));
        assert(t.subrange(4, 6) =~= v@.subrange(k + 4, k + 6));
    }
    let rr = match hex_byte_at(&v, k) {
        Some(x) => x,
        None => {
            return None;
        },
    };
    let gg = match hex_byte_at(&v, k + 2) {
        Some(x) => x,
        None => {
            return None;
        },
    };
    let bb = match hex_byte_at(&v, k + 4) {
        Some(x) => x,
        None => {
            return None;
        },
    };
    Some(DisplayPixel { r: rr, g: gg, b: bb })
}

} // verus!
