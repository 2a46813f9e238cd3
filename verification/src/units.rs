//! Byte counts shown with a unit, rounded the way the display code rounds
//! them: the count is first rounded to the nearest number with a 53-bit
//! significand (ties to even), divided by a power of two, and then printed
//! with a fixed number of decimals, rounding ties to even.

use vstd::prelude::*;
use crate::text::{decimal, digit_char, push_decimal};

verus! {

/// 2 to the 53rd: above it, not every integer has a 53-bit significand.
pub open spec fn significand_limit() -> nat {
    9007199254740992
}

/// The smallest power of two `p >= start` (for `start` a power of two) with
/// `b < p * 2^53`.
pub open spec fn scale_from(b: nat, p: nat) -> nat
    decreases b - p,
{
    if p == 0 || b < p * significand_limit() {
        p
    } else {
        scale_from(b, 2 * p)
    }
}

/// `b` rounded to the nearest number that has a 53-bit significand, ties to
/// the even significand.
pub open spec fn nearest_53bit(b: nat) -> nat {
    let p = scale_from(b, 1);
    if p <= 1 {
        b
    } else {
        let q = b / p;
        let r = b % p;
        let half = p / 2;
        let up: nat = if r > half || (r == half && q % 2 == 1) { 1 } else { 0 };
        (q + up) * p
    }
}

/// `v * m / d`, rounded to the nearest integer with ties to even.
pub open spec fn rounded_quotient(v: nat, d: nat, m: nat) -> nat {
    let s = v * m;
    let q = s / d;
    let r = s % d;
    if 2 * r > d || (2 * r == d && q % 2 == 1) {
        q + 1
    } else {
        q
    }
}

/// A rounded quotient printed with no decimals or with one (`n` then counts
/// tenths).
pub open spec fn fixed_text(n: nat, one_decimal: bool) -> Seq<char> {
    if one_decimal {
        decimal(n / 10) + seq!['.'] + seq![digit_char(n % 10)]
    } else {
        decimal(n)
    }
}

/// The text for `b / two_k` with zero or one decimals.
pub open spec fn scaled_text(b: nat, two_k: nat, one_decimal: bool) -> Seq<char> {
    fixed_text(
        rounded_quotient(nearest_53bit(b), two_k, if one_decimal { 10 } else { 1 }),
        one_decimal,
    )
}

/// The character for one decimal digit.
pub fn digit_char_for(d: u64) -> (c: char)
    requires
        d < 10,
    ensures
        c == digit_char(d as nat),
{
    let b = (d as u8) + 48u8;
    let c = b as char;
    proof {
        assert(c as u32 == ('0' as u32) + d);
    }
    c
}

} // verus!

verus! {

/// Computes `nearest_53bit(b)`.
fn nearest_53bit_exec(b: u64) -> (r: u128)
    ensures
        r as nat == nearest_53bit(b as nat),
        r <= 0x1_0000_0000_0000_1000u128,
{
    let limit: u128 = 9007199254740992;
    let bb = b as u128;
    let mut p: u128 = 1;
    while bb >= p * limit
        invariant
            1 <= p <= 4096,
            bb == b as u128,
            limit == 9007199254740992,
            scale_from(b as nat, p as nat) == scale_from(b as nat, 1),
        decreases bb - p,
    {
        p = 2 * p;
    }
    if p <= 1 {
        bb
    } else {
        let q = bb / p;
        let r = bb % p;
        let half = p / 2;
        let up: u128 = if r > half || (r == half && q % 2 == 1) { 1 } else { 0 };
        proof {
            assert((q + up) * p <= 0x1_0000_0000_0000_1000u128) by (nonlinear_arith)
                requires
                    p <= 4096,
                    p >= 1,
                    q == bb / p,
                    bb <= 0xffff_ffff_ffff_ffffu128,
                    up <= 1,
            ;
        }
        (q + up) * p
    }
}

/// Appends `scaled_text(b, two_k, one_decimal)`.
pub fn push_scaled(out: &mut String, b: u64, two_k: u128, one_decimal: bool)
    requires
        1024 <= two_k <= 0x100_0000_0000,
    ensures
        final(out)@ == old(out)@ + scaled_text(b as nat, two_k as nat, one_decimal),
{
    let v = nearest_53bit_exec(b);
    let m: u128 = if one_decimal { 10 } else { 1 };
    let s = v * m;
    let q = s / two_k;
    let r = s % two_k;
    let n: u128 = if 2 * r > two_k || (2 * r == two_k && q % 2 == 1) { q + 1 } else { q };
    proof {
        assert(q <= s / 1024) by (nonlinear_arith)
            requires
                q == s / two_k,
                two_k >= 1024,
        ;
        assert(n < 0xffff_ffff_ffff_ffffu128);
    }
    let n64 = n as u64;
    if one_decimal {
        push_decimal(out, n64 / 10);
        out.push('.');
        let c = digit_char_for(n64 % 10);
        out.push(c);
        proof {
            assert(out@ =~= old(out)@ + scaled_text(b as nat, two_k as nat, one_decimal));
        }
    } else {
        push_decimal(out, n64);
    }
}

} // verus!
