//! Conversion between physical lengths and pixels at a given resolution.

use vstd::prelude::*;
use vstd::arithmetic::div_mod::lemma_fundamental_div_mod_converse;

verus! {

/// Micrometers in one inch.
pub const MICROMETERS_PER_INCH: u64 = 25_400;

/// Thousandths of an inch in one inch.
pub const MILS_PER_INCH: u64 = 1_000;

/// Width of an A4 sheet in micrometers.
pub const A4_WIDTH_MICROMETERS: u32 = 210_000;

/// Height of an A4 sheet in micrometers.
pub const A4_HEIGHT_MICROMETERS: u32 = 297_000;

/// The quotient `n / d` rounded to the nearest integer, halves away from zero.
pub open spec fn round_div(n: nat, d: nat) -> nat
    recommends
        d > 0,
{
    (2 * n + d) / (2 * d)
}

/// `a` capped at the largest `u32`.
pub open spec fn saturate_u32(a: nat) -> nat {
    if a <= u32::MAX {
        a
    } else {
        u32::MAX as nat
    }
}

/// Pixels that `micrometers` cover at `dpi` dots per inch.
pub open spec fn spec_mm_to_px(micrometers: nat, dpi: nat) -> nat {
    saturate_u32(round_div(micrometers * dpi, MICROMETERS_PER_INCH as nat))
}

/// Micrometers that `px` pixels cover at `dpi` dots per inch.
pub open spec fn spec_px_to_mm(px: nat, dpi: nat) -> nat
    recommends
        dpi > 0,
{
    round_div(px * MICROMETERS_PER_INCH as nat, dpi)
}

/// Pixels that `mils` thousandths of an inch cover at `dpi` dots per inch.
pub open spec fn spec_inches_to_px(mils: nat, dpi: nat) -> nat {
    saturate_u32(round_div(mils * dpi, MILS_PER_INCH as nat))
}

/// Thousandths of an inch that `px` pixels cover at `dpi` dots per inch.
pub open spec fn spec_px_to_inches(px: nat, dpi: nat) -> nat
    recommends
        dpi > 0,
{
    round_div(px * MILS_PER_INCH as nat, dpi)
}

/// The distance between two naturals.
pub open spec fn distance(a: nat, b: nat) -> nat {
    if a >= b {
        (a - b) as nat
    } else {
        (b - a) as nat
    }
}

/// A rounded quotient is the plain quotient, plus one when the remainder is
/// at least half the divisor.
pub proof fn lemma_round_div_by_remainder(n: nat, d: nat)
    requires
        d > 0,
    ensures
        round_div(n, d) == n / d + if 2 * (n % d) >= d { 1nat } else { 0nat },
{
    let q = n / d;
    let r = n % d;
    vstd::arithmetic::div_mod::lemma_fundamental_div_mod(n as int, d as int);
    if 2 * r >= d {
        assert(2 * n + d == (q + 1) * (2 * d) + (2 * r - d)) by (nonlinear_arith)
            requires
                n == d * q + r,
        ;
        lemma_fundamental_div_mod_converse(
            (2 * n + d) as int,
            (2 * d) as int,
            (q + 1) as int,
            (2 * r - d) as int,
        );
    } else {
        assert(2 * n + d == q * (2 * d) + (2 * r + d)) by (nonlinear_arith)
            requires
                n == d * q + r,
        ;
        lemma_fundamental_div_mod_converse(
            (2 * n + d) as int,
            (2 * d) as int,
            q as int,
            (2 * r + d) as int,
        );
    }
}

/// A rounded quotient, times the divisor, is within half the divisor of the
/// dividend.
pub proof fn lemma_round_div_error(n: nat, d: nat)
    requires
        d > 0,
    ensures
        2 * distance(round_div(n, d) * d, n) <= d,
{
    let q = n / d;
    let r = n % d;
    vstd::arithmetic::div_mod::lemma_fundamental_div_mod(n as int, d as int);
    lemma_round_div_by_remainder(n, d);
    if 2 * r >= d {
        assert((q + 1) * d == d * q + d) by (nonlinear_arith);
    } else {
        assert(q * d == d * q) by (nonlinear_arith);
    }
}

/// The quotient `n / d` rounded to the nearest integer, halves away from zero.
pub fn rounded_quotient(n: u64, d: u64) -> (q: u64)
    requires
        d > 0,
        d <= u32::MAX,
    ensures
        q == round_div(n as nat, d as nat),
{
    proof {
        lemma_round_div_by_remainder(n as nat, d as nat);
    }
    let whole: u64 = n / d;
    let rest: u64 = n % d;
    if 2 * rest >= d {
        proof {
            vstd::arithmetic::div_mod::lemma_fundamental_div_mod(n as int, d as int);
            assert(whole <= d * whole) by (nonlinear_arith)
                requires
                    d >= 1,
                    whole >= 0,
            ;
        }
        whole + 1
    } else {
        whole
    }
}

/// Stateless converter between physical lengths and pixels.
pub struct DimensionCalculator {}

impl DimensionCalculator {
    pub fn new() -> (calculator: Self) {
        Self {  }
    }

    /// Converts a length in micrometers to pixels at `dpi` dots per inch:
    /// `micrometers / 25400 * dpi`, rounded half away from zero and capped at
    /// the largest `u32`.
    pub fn mm_to_px(&self, micrometers: u32, dpi: u32) -> (px: u32)
        ensures
            px == spec_mm_to_px(micrometers as nat, dpi as nat),
    {
        assert(micrometers as u64 * dpi as u64 <= u64::MAX) by (nonlinear_arith)
            requires
                micrometers <= u32::MAX,
                dpi <= u32::MAX,
        ;
        let scaled: u64 = micrometers as u64 * dpi as u64;
        let rounded: u64 = rounded_quotient(scaled, MICROMETERS_PER_INCH);
        if rounded > u32::MAX as u64 {
            u32::MAX
        } else {
            rounded as u32
        }
    }

    /// Converts pixels to micrometers at `dpi` dots per inch:
    /// `px / dpi * 25400`, rounded half away from zero.
    pub fn px_to_mm(&self, px: u32, dpi: u32) -> (micrometers: u64)
        requires
            dpi > 0,
        ensures
            micrometers == spec_px_to_mm(px as nat, dpi as nat),
    {
        rounded_quotient(px as u64 * MICROMETERS_PER_INCH, dpi as u64)
    }

    /// Converts thousandths of an inch to pixels at `dpi` dots per inch,
    /// rounded half away from zero and capped at the largest `u32`.
    pub fn inches_to_px(&self, mils: u32, dpi: u32) -> (px: u32)
        ensures
            px == spec_inches_to_px(mils as nat, dpi as nat),
    {
        assert(mils as u64 * dpi as u64 <= u64::MAX) by (nonlinear_arith)
            requires
                mils <= u32::MAX,
                dpi <= u32::MAX,
        ;
        let scaled: u64 = mils as u64 * dpi as u64;
        let rounded: u64 = rounded_quotient(scaled, MILS_PER_INCH);
        if rounded > u32::MAX as u64 {
            u32::MAX
        } else {
            rounded as u32
        }
    }

    /// Converts pixels to thousandths of an inch at `dpi` dots per inch,
    /// rounded half away from zero.
    pub fn px_to_inches(&self, px: u32, dpi: u32) -> (mils: u64)
        requires
            dpi > 0,
        ensures
            mils == spec_px_to_inches(px as nat, dpi as nat),
    {
        rounded_quotient(px as u64 * MILS_PER_INCH, dpi as u64)
    }

    /// Pixel size of an A4 sheet (210 mm by 297 mm) at `dpi` dots per inch.
    pub fn get_a4_dimensions_px(&self, dpi: u32) -> (size: (u32, u32))
        ensures
            size.0 == spec_mm_to_px(A4_WIDTH_MICROMETERS as nat, dpi as nat),
            size.1 == spec_mm_to_px(A4_HEIGHT_MICROMETERS as nat, dpi as nat),
    {
        (self.mm_to_px(A4_WIDTH_MICROMETERS, dpi), self.mm_to_px(A4_HEIGHT_MICROMETERS, dpi))
    }
}

/// Converting a length to pixels and back lands within one pixel of the
/// length, and within half a pixel plus half a micrometer of it, as long as
/// the pixels do not reach the cap.
pub proof fn lemma_mm_px_round_trip(micrometers: nat, dpi: nat)
    requires
        micrometers > 0,
        dpi > 0,
        round_div(micrometers * dpi, MICROMETERS_PER_INCH as nat) <= u32::MAX,
    ensures
        distance(spec_px_to_mm(spec_mm_to_px(micrometers, dpi), dpi), micrometers) * dpi
            <= MICROMETERS_PER_INCH,
        2 * distance(spec_px_to_mm(spec_mm_to_px(micrometers, dpi), dpi), micrometers) * dpi
            <= MICROMETERS_PER_INCH + dpi,
{
    let px = spec_mm_to_px(micrometers, dpi);
    let back = spec_px_to_mm(px, dpi);
    lemma_round_div_error(micrometers * dpi, MICROMETERS_PER_INCH as nat);
    lemma_round_div_error(px * MICROMETERS_PER_INCH as nat, dpi);
    let a = back * dpi;
    let b = px * MICROMETERS_PER_INCH as nat;
    let c = micrometers * dpi;
    assert(2 * distance(a, b) <= dpi);
    assert(2 * distance(b, c) <= MICROMETERS_PER_INCH);
    assert(distance(a, c) <= distance(a, b) + distance(b, c));
    let gap = distance(back, micrometers);
    assert(gap * dpi == distance(a, c)) by (nonlinear_arith)
        requires
            a == back * dpi,
            c == micrometers * dpi,
            gap == distance(back, micrometers),
    ;
    assert(2 * gap * dpi == 2 * (gap * dpi)) by (nonlinear_arith);
    if dpi > MICROMETERS_PER_INCH {
        // A pixel is then finer than a micrometer, and the length comes back as it was.
        assert(gap == 0) by (nonlinear_arith)
            requires
                2 * (gap * dpi) <= MICROMETERS_PER_INCH + dpi,
                dpi > MICROMETERS_PER_INCH,
                gap >= 0,
        ;
        assert(gap * dpi == 0) by (nonlinear_arith)
            requires
                gap == 0,
        ;
    }
}

/// Converting pixels to a length and back gives the same pixels, below 25400
/// dots per inch.
pub proof fn lemma_px_mm_round_trip(px: nat, dpi: nat)
    requires
        px <= u32::MAX,
        0 < dpi < MICROMETERS_PER_INCH,
    ensures
        spec_mm_to_px(spec_px_to_mm(px, dpi), dpi) == px,
{
    let unit = MICROMETERS_PER_INCH as nat;
    let length = spec_px_to_mm(px, dpi);
    lemma_round_div_error(px * unit, dpi);
    let n = length * dpi;
    assert(2 * distance(n, px * unit) <= dpi);
    assert(2 * n + unit == px * (2 * unit) + (2 * n + unit - 2 * (px * unit))) by (nonlinear_arith);
    lemma_fundamental_div_mod_converse(
        (2 * n + unit) as int,
        (2 * unit) as int,
        px as int,
        (2 * n + unit - 2 * (px * unit)) as int,
    );
}

} // verus!
