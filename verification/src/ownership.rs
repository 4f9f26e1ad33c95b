//! Ownership percentages, computed in the fixed-point type `FixedI128<U4>`
//! (four fraction bits) of the `fixed` crate.
//!
//! A fixed-point value is carried here by its raw bits: the value is
//! `bits / 16`.
use vstd::prelude::*;
use fixed::types::extra::U4;
use fixed::FixedI128;

verus! {

/// The text that `Display` of `FixedI128<U4>` gives for the value with these bits.
pub uninterp spec fn fixed_display(bits: i128) -> Seq<char>;

/// `FixedI128::<U4>::from_num` on a byte, returned as raw bits.
/// Claimed: the conversion is exact, so the bits are the byte times 16.
#[verifier::external_body]
fn fixed_from_byte(a: u8) -> (bits: i128)
    ensures
        bits == a * 16,
{
    FixedI128::<U4>::from_num(a).to_bits()
}

/// Division `/` of two `FixedI128<U4>` values, on raw bits.
/// Claimed: for a non-negative dividend and a positive divisor the result's
/// bits are `(a * 16) / b`, rounded towards zero; the dividend bound keeps the
/// quotient inside `i128`, and a zero divisor (which panics) is excluded.
#[verifier::external_body]
fn fixed_div(a: i128, b: i128) -> (q: i128)
    requires
        0 <= a <= 0x1_0000_0000_0000_0000,
        b > 0,
    ensures
        q == (a * 16) / (b as int),
{
    (FixedI128::<U4>::from_bits(a) / FixedI128::<U4>::from_bits(b)).to_bits()
}

/// Multiplication `*` of a `FixedI128<U4>` value by an `i128`, on raw bits.
/// Claimed: the bits are multiplied by the integer; inputs whose product
/// leaves `i128` (an overflow panic) are excluded.
#[verifier::external_body]
fn fixed_mul_int(a: i128, n: i128) -> (p: i128)
    requires
        i128::MIN <= a * n <= i128::MAX,
    ensures
        p == a * n,
{
    (FixedI128::<U4>::from_bits(a) * n).to_bits()
}

/// `to_string` of the `FixedI128<U4>` value with these bits.
/// Claimed: the text is the one `fixed_display` names for these bits.
#[verifier::external_body]
fn fixed_to_text(bits: i128) -> (text: String)
    ensures
        text@ == fixed_display(bits),
{
    FixedI128::<U4>::from_bits(bits).to_string()
}

/// The bits of `a / b * 100` in `FixedI128<U4>`: the share `a / b` is first
/// truncated to sixteenths, then scaled by a hundred.
pub open spec fn ownership_bits(a: u8, b: u8) -> int {
    ((a * 16) * 16 / (b * 16)) * 100
}

/// The percentage `a / b * 100` as raw `FixedI128<U4>` bits.
pub fn ownership_in_sixteenths(a: u8, b: u8) -> (bits: i128)
    requires
        b > 0,
    ensures
        bits == ownership_bits(a, b),
        0 <= bits <= 408000,
{
    let fa = fixed_from_byte(a);
    let fb = fixed_from_byte(b);
    let q = fixed_div(fa, fb);
    assert(0 <= q <= 4080) by (nonlinear_arith)
        requires
            q == (fa * 16) / (fb as int),
            0 <= fa <= 4080,
            fb >= 16,
    {
        assert((fa * 16) / (fb as int) <= (fa * 16) / 16);
    }
    fixed_mul_int(q, 100)
}

/// The ownership percentage `a / b * 100` as text, as `Display` of
/// `FixedI128<U4>` renders it. A zero `b` (a division by zero) is excluded.
pub fn ownership_text(a: u8, b: u8) -> (text: String)
    requires
        b > 0,
    ensures
        text@ == fixed_display(ownership_bits(a, b) as i128),
{
    let bits = ownership_in_sixteenths(a, b);
    fixed_to_text(bits)
}

} // verus!
