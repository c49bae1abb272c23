//! Decimal text for record identifiers: rendering an `i32` and parsing one.

use vstd::prelude::*;
use crate::text::push_char;

verus! {

/// The character for a single decimal digit value.
pub open spec fn digit_char(d: int) -> char {
    if d == 0 { '0' }
    else if d == 1 { '1' }
    else if d == 2 { '2' }
    else if d == 3 { '3' }
    else if d == 4 { '4' }
    else if d == 5 { '5' }
    else if d == 6 { '6' }
    else if d == 7 { '7' }
    else if d == 8 { '8' }
    else { '9' }
}

/// The usual decimal rendering of a non-negative integer, most significant
/// digit first, with no leading zeros (except for zero itself).
pub open spec fn spec_dec(n: int) -> Seq<char>
    recommends n >= 0,
    decreases n,
{
    if n <= 9 {
        seq![digit_char(n)]
    } else {
        spec_dec(n / 10).push(digit_char(n % 10))
    }
}

/// The decimal rendering of a signed integer: a minus sign before the
/// rendering of the magnitude when negative.
pub open spec fn spec_i32_str(n: int) -> Seq<char> {
    if n < 0 {
        seq!['-'] + spec_dec(-n)
    } else {
        spec_dec(n)
    }
}

/// Appends the decimal rendering of `n` to `out`.
fn push_u32_dec(n: u32, out: &mut String)
    ensures
        final(out)@ == old(out)@ + spec_dec(n as int),
    decreases n,
{
    if n <= 9 {
        push_char(out, digit_of(n));
        proof {
            assert(out@ =~= old(out)@ + spec_dec(n as int));
        }
    } else {
        push_u32_dec(n / 10, out);
        push_char(out, digit_of(n % 10));
        proof {
            assert(out@ =~= old(out)@ + spec_dec(n as int));
        }
    }
}

/// The digit character of a value below ten.
fn digit_of(d: u32) -> (c: char)
    requires
        d <= 9,
    ensures
        c == digit_char(d as int),
{
    if d == 0 { '0' }
    else if d == 1 { '1' }
    else if d == 2 { '2' }
    else if d == 3 { '3' }
    else if d == 4 { '4' }
    else if d == 5 { '5' }
    else if d == 6 { '6' }
    else if d == 7 { '7' }
    else if d == 8 { '8' }
    else { '9' }
}

/// Appends the decimal rendering of a signed identifier to `out`.
pub fn push_i32_dec(n: i32, out: &mut String)
    ensures
        final(out)@ == old(out)@ + spec_i32_str(n as int),
{
    if n < 0 {
        push_char(out, '-');
        let wide: i64 = n as i64;
        let mag: u32 = (-wide) as u32;
        assert(mag as int == -(n as int));
        push_u32_dec(mag, out);
        proof {
            assert(out@ =~= old(out)@ + spec_i32_str(n as int));
        }
    } else {
        push_u32_dec(n as u32, out);
    }
}

/// Whether `c` is a decimal digit.
pub open spec fn is_digit(c: char) -> bool {
    c == '0' || c == '1' || c == '2' || c == '3' || c == '4'
        || c == '5' || c == '6' || c == '7' || c == '8' || c == '9'
}

/// The value of a decimal digit character.
pub open spec fn digit_val(c: char) -> int {
    if c == '0' { 0 }
    else if c == '1' { 1 }
    else if c == '2' { 2 }
    else if c == '3' { 3 }
    else if c == '4' { 4 }
    else if c == '5' { 5 }
    else if c == '6' { 6 }
    else if c == '7' { 7 }
    else if c == '8' { 8 }
    else { 9 }
}

/// The value of the digits of `s` in the range `[i, to)`, accumulated onto
/// `acc`, most significant first.
pub open spec fn digits_val(s: Seq<char>, i: int, to: int, acc: int) -> int
    decreases to - i,
{
    if i < to {
        digits_val(s, i + 1, to, acc * 10 + digit_val(s[i]))
    } else {
        acc
    }
}

/// Whether every character of `s` in `[i, to)` is a decimal digit.
pub open spec fn all_digits(s: Seq<char>, i: int, to: int) -> bool {
    forall|k: int| i <= k < to ==> is_digit(#[trigger] s[k])
}

/// What `str::parse::<i32>` accepts of the characters `[from, to)`: an
/// optional sign followed by at least one digit, the value within the
/// signed 32-bit range.
pub open spec fn spec_parse_i32(s: Seq<char>, from: int, to: int) -> Option<int>
    recommends 0 <= from <= to <= s.len(),
{
    let start = if from < to && (s[from] == '-' || s[from] == '+') { from + 1 } else { from };
    if start < to && all_digits(s, start, to) {
        let mag = digits_val(s, start, to, 0);
        let v = if from < to && s[from] == '-' { -mag } else { mag };
        if -0x8000_0000 <= v < 0x8000_0000 {
            Some(v)
        } else {
            None
        }
    } else {
        None
    }
}

/// The accumulated value never falls below the accumulator it started
/// from, and grows by at least a factor of ten per further digit.
pub proof fn lemma_digits_val_lower(s: Seq<char>, i: int, to: int, acc: int)
    requires
        i <= to,
        acc >= 0,
    ensures
        digits_val(s, i, to, acc) >= acc,
        i < to ==> digits_val(s, i, to, acc) >= acc * 10,
    decreases to - i,
{
    if i < to {
        lemma_digits_val_lower(s, i + 1, to, acc * 10 + digit_val(s[i]));
    }
}

/// Steps the accumulator forward by one digit.
proof fn lemma_digits_val_step(s: Seq<char>, i: int, to: int, acc: int)
    requires
        i < to,
    ensures
        digits_val(s, i, to, acc) == digits_val(s, i + 1, to, acc * 10 + digit_val(s[i])),
{
}

/// Extends the parsed range by one trailing digit.
pub proof fn lemma_digits_val_extend(s: Seq<char>, i: int, k: int, acc: int)
    requires
        i <= k,
    ensures
        digits_val(s, i, k + 1, acc) == digits_val(s, i, k, acc) * 10 + digit_val(s[k]),
    decreases k - i,
{
    if i < k {
        lemma_digits_val_extend(s, i + 1, k, acc * 10 + digit_val(s[i]));
        assert(digits_val(s, i, k + 1, acc) == digits_val(s, i + 1, k + 1, acc * 10 + digit_val(
            s[i],
        )));
        assert(digits_val(s, i, k, acc) == digits_val(s, i + 1, k, acc * 10 + digit_val(s[i])));
    } else {
        assert(digits_val(s, i, k + 1, acc) == digits_val(s, i + 1, k + 1, acc * 10 + digit_val(
            s[i],
        )));
        assert(digits_val(s, i + 1, k + 1, acc * 10 + digit_val(s[i])) == acc * 10 + digit_val(
            s[i],
        ));
        assert(digits_val(s, i, k, acc) == acc);
    }
}

/// Splits the accumulation at a middle position.
pub proof fn lemma_digits_val_compose(s: Seq<char>, i: int, m: int, to: int, acc: int)
    requires
        i <= m <= to,
    ensures
        digits_val(s, i, to, acc) == digits_val(s, m, to, digits_val(s, i, m, acc)),
    decreases m - i,
{
    if i < m {
        lemma_digits_val_compose(s, i + 1, m, to, acc * 10 + digit_val(s[i]));
    }
}

/// Reads a decimal digit character.
fn digit_value(c: char) -> (r: Option<u32>)
    ensures
        match r {
            Some(d) => is_digit(c) && d as int == digit_val(c),
            None => !is_digit(c),
        },
{
    if c == '0' { Some(0) }
    else if c == '1' { Some(1) }
    else if c == '2' { Some(2) }
    else if c == '3' { Some(3) }
    else if c == '4' { Some(4) }
    else if c == '5' { Some(5) }
    else if c == '6' { Some(6) }
    else if c == '7' { Some(7) }
    else if c == '8' { Some(8) }
    else if c == '9' { Some(9) }
    else { None }
}

/// Parses the characters `[from, to)` of `s` as a signed 32-bit decimal
/// integer, exactly as `str::parse::<i32>` would: an optional `+` or `-`
/// sign, then one or more digits, and the value within range.
#[verifier::loop_isolation(false)]
pub fn parse_i32(s: &Vec<char>, from: usize, to: usize) -> (r: Option<i32>)
    requires
        from <= to <= s@.len(),
    ensures
        match spec_parse_i32(s@, from as int, to as int) {
            Some(v) => r == Some(v as i32),
            None => r is None,
        },
{
    let ghost gto: int = to as int;
    let negative: bool = from < to && s[from] == '-';
    let start: usize = if from < to && (s[from] == '-' || s[from] == '+') { from + 1 } else { from };
    if start >= to {
        return None;
    }
    let mut i: usize = start;
    let mut acc: i64 = 0;
    // Magnitudes are cut off at 2^31: anything at or above it can only be
    // the one valid value -2^31, and anything strictly above is out of
    // range for either sign.
    while i < to
        invariant
            start <= i <= to <= s@.len(),
            start < to,
            all_digits(s@, start as int, i as int),
            0 <= acc <= 0x8000_0000,
            digits_val(s@, start as int, to as int, 0)
                == digits_val(s@, i as int, to as int, acc as int),
        decreases to - i,
    {
        let d: u32 = match digit_value(s[i]) {
            Some(d) => d,
            None => {
                proof {
                    assert(!all_digits(s@, start as int, gto)) by {
                        assert(!is_digit(s@[i as int]));
                        if all_digits(s@, start as int, gto) {
                            assert(is_digit(s@[i as int]));
                        }
                    }
                }
                return None;
            },
        };
        proof {
            lemma_digits_val_step(s@, i as int, gto, acc as int);
        }
        let next: i64 = acc * 10 + d as i64;
        if next > 0x8000_0000 {
            proof {
                lemma_digits_val_lower(s@, i as int + 1, gto, next as int);
            }
            return None;
        }
        acc = next;
        i = i + 1;
    }
    let mag: i64 = acc;
    if negative {
        Some((-mag) as i32)
    } else {
        if mag >= 0x8000_0000 {
            return None;
        }
        Some(mag as i32)
    }
}

} // verus!
