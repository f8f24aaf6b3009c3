//! Human-readable byte counts.
//!
//! A byte count renders as `"<n> bytes"` below 1 KiB and otherwise as the
//! count divided by the largest unit boundary it meets (KiB, MiB, GiB,
//! checked top-down), shown with exactly two decimal places and a `KB`,
//! `MB` or `GB` suffix.  The two-decimal value rounds to the nearest
//! hundredth, ties to even.

use vstd::arithmetic::div_mod::lemma_div_is_ordered;
use vstd::arithmetic::div_mod::lemma_div_is_ordered_by_denominator;
use vstd::prelude::*;

use crate::GB;
use crate::KB;
use crate::MB;

verus! {

/// The character for one decimal digit.
pub open spec fn digit_char(d: int) -> char {
    if d == 0 {
        '0'
    } else if d == 1 {
        '1'
    } else if d == 2 {
        '2'
    } else if d == 3 {
        '3'
    } else if d == 4 {
        '4'
    } else if d == 5 {
        '5'
    } else if d == 6 {
        '6'
    } else if d == 7 {
        '7'
    } else if d == 8 {
        '8'
    } else {
        '9'
    }
}

/// Decimal digit string of a natural number, most significant digit first,
/// with no leading zeros (and `0` itself rendering as "0").
pub open spec fn decimal_digits(n: nat) -> Seq<char>
    decreases n,
{
    if n < 10 {
        seq![digit_char(n as int)]
    } else {
        decimal_digits(n / 10) + seq![digit_char((n % 10) as int)]
    }
}

/// `size / unit` in hundredths, rounded to the nearest integer with ties
/// going to the even neighbour.
pub open spec fn scaled_hundredths(size: int, unit: int) -> int
    recommends
        unit > 0,
{
    let q = (100 * size) / unit;
    let r = (100 * size) % unit;
    if 2 * r > unit {
        q + 1
    } else if 2 * r < unit {
        q
    } else if q % 2 == 0 {
        q
    } else {
        q + 1
    }
}

/// Two-decimal rendering of `size / unit`: the integer part, a point, and
/// exactly two fraction digits.
pub open spec fn scaled_decimal(size: int, unit: int) -> Seq<char>
    recommends
        unit > 0,
{
    let h = scaled_hundredths(size, unit);
    let frac = h % 100;
    decimal_digits((h / 100) as nat) + seq!['.', digit_char(frac / 10), digit_char(frac % 10)]
}

/// Display string for a byte count: the thresholds are checked top-down,
/// so a count exactly at a boundary renders in the larger unit.
pub open spec fn spec_format_bytes(size: u64) -> Seq<char> {
    if size >= GB {
        scaled_decimal(size as int, GB as int) + " GB"@
    } else if size >= MB {
        scaled_decimal(size as int, MB as int) + " MB"@
    } else if size >= KB {
        scaled_decimal(size as int, KB as int) + " KB"@
    } else {
        decimal_digits(size as nat) + " bytes"@
    }
}

/// One-character string for one decimal digit.
fn digit_str(d: u64) -> (s: &'static str)
    requires
        d < 10,
    ensures
        s@ == seq![digit_char(d as int)],
{
    proof {
        reveal_strlit("0");
        reveal_strlit("1");
        reveal_strlit("2");
        reveal_strlit("3");
        reveal_strlit("4");
        reveal_strlit("5");
        reveal_strlit("6");
        reveal_strlit("7");
        reveal_strlit("8");
        reveal_strlit("9");
    }
    let s = match d {
        0 => "0",
        1 => "1",
        2 => "2",
        3 => "3",
        4 => "4",
        5 => "5",
        6 => "6",
        7 => "7",
        8 => "8",
        _ => "9",
    };
    proof {
        assert(s@ =~= seq![digit_char(d as int)]);
    }
    s
}

/// Appends the decimal digits of `n` to `out`.
fn push_decimal_digits(n: u64, out: &mut String)
    ensures
        final(out)@ == old(out)@ + decimal_digits(n as nat),
    decreases n,
{
    if n < 10 {
        out.append(digit_str(n));
    } else {
        push_decimal_digits(n / 10, out);
        out.append(digit_str(n % 10));
        proof {
            assert(out@ =~= old(out)@ + decimal_digits(n as nat));
        }
    }
}

/// Decimal digit string of `n`.
pub fn decimal_string(n: u64) -> (s: String)
    ensures
        s@ == decimal_digits(n as nat),
{
    let mut s = String::new();
    push_decimal_digits(n, &mut s);
    proof {
        assert(s@ =~= decimal_digits(n as nat));
    }
    s
}

/// Two-decimal rendering of `size / unit` as a string.
fn scaled_string(size: u64, unit: u64) -> (s: String)
    requires
        KB <= unit <= GB,
    ensures
        s@ == scaled_decimal(size as int, unit as int),
{
    let num: u128 = (size as u128) * 100;
    let q128: u128 = num / (unit as u128);
    let r128: u128 = num % (unit as u128);
    proof {
        lemma_div_is_ordered(num as int, (u64::MAX as int) * 100, unit as int);
        lemma_div_is_ordered_by_denominator((u64::MAX as int) * 100, KB as int, unit as int);
        assert(q128 <= ((u64::MAX as int) * 100) / (KB as int));
    }
    let q: u64 = q128 as u64;
    let r: u64 = r128 as u64;
    let h: u64 = if 2 * r > unit {
        q + 1
    } else if 2 * r < unit {
        q
    } else if q % 2 == 0 {
        q
    } else {
        q + 1
    };
    let frac: u64 = h % 100;
    let mut s = decimal_string(h / 100);
    s.append(".");
    s.append(digit_str(frac / 10));
    s.append(digit_str(frac % 10));
    proof {
        reveal_strlit(".");
        assert(s@ =~= scaled_decimal(size as int, unit as int));
    }
    s
}

/// Human-readable byte count, as the probers log it.
pub fn format_bytes(size: u64) -> (s: String)
    ensures
        s@ == spec_format_bytes(size),
{
    if size >= GB {
        let mut s = scaled_string(size, GB);
        s.append(" GB");
        s
    } else if size >= MB {
        let mut s = scaled_string(size, MB);
        s.append(" MB");
        s
    } else if size >= KB {
        let mut s = scaled_string(size, KB);
        s.append(" KB");
        s
    } else {
        let s = decimal_string(size);
        let s = s.concat(" bytes");
        s
    }
}

/// Threshold law: the unit is chosen top-down, so a count at or above a
/// boundary always renders in that boundary's unit, never a smaller one.
pub proof fn lemma_unit_thresholds(size: u64)
    ensures
        size >= GB ==> spec_format_bytes(size) == scaled_decimal(size as int, GB as int)
            + " GB"@,
        MB <= size < GB ==> spec_format_bytes(size) == scaled_decimal(size as int, MB as int)
            + " MB"@,
        KB <= size < MB ==> spec_format_bytes(size) == scaled_decimal(size as int, KB as int)
            + " KB"@,
        size < KB ==> spec_format_bytes(size) == decimal_digits(size as nat) + " bytes"@,
{
}

/// Boundary law: a count exactly at a unit boundary renders as one whole
/// unit of the larger kind.
pub proof fn lemma_boundary_renders_larger_unit()
    ensures
        spec_format_bytes(KB) == "1.00 KB"@,
        spec_format_bytes(MB) == "1.00 MB"@,
        spec_format_bytes(GB) == "1.00 GB"@,
{
    reveal_strlit("1.00 KB");
    reveal_strlit("1.00 MB");
    reveal_strlit("1.00 GB");
    reveal_strlit(" KB");
    reveal_strlit(" MB");
    reveal_strlit(" GB");
    assert(spec_format_bytes(KB) =~= "1.00 KB"@);
    assert(spec_format_bytes(MB) =~= "1.00 MB"@);
    assert(spec_format_bytes(GB) =~= "1.00 GB"@);
}

} // verus!
