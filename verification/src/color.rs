//! Linear-to-display color mapping.
//!
//! A linear radiance channel is a fixed-point value in micro-units
//! (`RADIANCE_ONE` micro-units per unit). Display encoding applies the
//! gamma-2 convention: the square root of the non-negative part of the
//! channel, clamped to one unit, scaled to the 0..=255 display range and
//! truncated.

use vstd::prelude::*;
use vstd::arithmetic::div_mod::lemma_div_is_ordered;
use vstd::arithmetic::mul::lemma_mul_inequality;

use crate::RADIANCE_ONE;

verus! {

/// Largest linear radiance channel value the pipeline accepts, in
/// micro-units (one thousand units of radiance).
pub const RADIANCE_MAX: i64 = 1_000_000_000;

/// One quantized display pixel: three 8-bit channels.
#[derive(Clone, Copy, Debug, PartialEq, Eq, Structural)]
pub struct DisplayPixel {
    pub r: u8,
    pub g: u8,
    pub b: u8,
}

impl DeepView for DisplayPixel {
    type V = DisplayPixel;

    open spec fn deep_view(&self) -> DisplayPixel {
        *self
    }
}

/// Floor of the real square root, defined by counting up.
pub open spec fn sqrt_floor(n: nat) -> nat
    decreases n,
{
    if n == 0 {
        0
    } else {
        let r = sqrt_floor((n - 1) as nat);
        if (r + 1) * (r + 1) <= n {
            r + 1
        } else {
            r
        }
    }
}

/// `sqrt_floor(n)` really is the floor of the square root of `n`.
pub proof fn lemma_sqrt_floor_bounds(n: nat)
    ensures
        sqrt_floor(n) * sqrt_floor(n) <= n,
        n < (sqrt_floor(n) + 1) * (sqrt_floor(n) + 1),
    decreases n,
{
    let s = sqrt_floor(n);
    if n == 0 {
        assert(s * s <= n && n < (s + 1) * (s + 1)) by (nonlinear_arith)
            requires
                s == 0,
                n == 0,
        ;
    } else {
        let r = sqrt_floor((n - 1) as nat);
        lemma_sqrt_floor_bounds((n - 1) as nat);
        if (r + 1) * (r + 1) <= n {
            assert(s == r + 1);
            assert(s * s <= n && n < (s + 1) * (s + 1)) by (nonlinear_arith)
                requires
                    s == r + 1,
                    (r + 1) * (r + 1) <= n,
                    n - 1 < (r + 1) * (r + 1),
            ;
        } else {
            assert(s == r);
            assert(s * s <= n && n < (s + 1) * (s + 1)) by (nonlinear_arith)
                requires
                    s == r,
                    r * r <= n - 1,
                    n < (r + 1) * (r + 1),
            ;
        }
    }
}

/// Only one natural number can be the floor of the square root of `n`.
pub proof fn lemma_sqrt_floor_unique(n: nat, r: nat)
    requires
        r * r <= n,
        n < (r + 1) * (r + 1),
    ensures
        r == sqrt_floor(n),
{
    let s = sqrt_floor(n);
    lemma_sqrt_floor_bounds(n);
    if r < s {
        assert((r + 1) * (r + 1) <= s * s) by (nonlinear_arith)
            requires
                r + 1 <= s,
        ;
    }
    if s < r {
        assert((s + 1) * (s + 1) <= r * r) by (nonlinear_arith)
            requires
                s + 1 <= r,
        ;
    }
}

/// The floor of the square root is monotonic.
pub proof fn lemma_sqrt_floor_monotonic(a: nat, b: nat)
    requires
        a <= b,
    ensures
        sqrt_floor(a) <= sqrt_floor(b),
{
    let ra = sqrt_floor(a);
    let rb = sqrt_floor(b);
    lemma_sqrt_floor_bounds(a);
    lemma_sqrt_floor_bounds(b);
    if rb < ra {
        assert((rb + 1) * (rb + 1) <= ra * ra) by (nonlinear_arith)
            requires
                rb + 1 <= ra,
        ;
    }
}

/// The gamma-2 display mapping of one linear channel value in micro-units:
/// square root of the non-negative part, clamped to one unit, scaled to
/// 0..=255 and truncated.
pub open spec fn spec_map_channel(v: int) -> int {
    if v <= 0 {
        0
    } else {
        let g = sqrt_floor((v * RADIANCE_ONE) as nat) as int;
        if g >= RADIANCE_ONE {
            255
        } else {
            g * 255 / (RADIANCE_ONE as int)
        }
    }
}

/// Binary search for the floor of the square root.
fn isqrt(n: u64) -> (r: u64)
    requires
        n <= 2_000_000_000_000_000,
    ensures
        r == sqrt_floor(n as nat),
{
    let mut lo: u64 = 0;
    let mut hi: u64 = 50_000_000;
    assert(n < (50_000_000u64 + 1) * (50_000_000u64 + 1)) by (nonlinear_arith)
        requires
            n <= 2_000_000_000_000_000,
    ;
    while lo < hi
        invariant
            lo <= hi <= 50_000_000,
            lo * lo <= n,
            n < (hi + 1) * (hi + 1),
        decreases hi - lo,
    {
        let mid = lo + (hi - lo + 1) / 2;
        assert(lo < mid <= hi);
        assert(mid * mid <= 2_500_000_000_000_000) by (nonlinear_arith)
            requires
                mid <= 50_000_000u64,
        ;
        if mid * mid <= n {
            lo = mid;
        } else {
            hi = mid - 1;
        }
    }
    proof {
        lemma_sqrt_floor_unique(n as nat, lo as nat);
    }
    lo
}

/// Maps one linear radiance channel to its quantized display value.
pub fn map_channel(v: i64) -> (r: u8)
    requires
        v <= RADIANCE_MAX,
    ensures
        r == spec_map_channel(v as int),
{
    if v <= 0 {
        0
    } else {
        let g = isqrt((v as u64) * 1_000_000);
        if g >= 1_000_000 {
            255
        } else {
            ((g * 255) / 1_000_000) as u8
        }
    }
}

/// Maps a triple of linear radiance channels to one display pixel.
pub fn map_pixel(r: i64, g: i64, b: i64) -> (p: DisplayPixel)
    requires
        r <= RADIANCE_MAX,
        g <= RADIANCE_MAX,
        b <= RADIANCE_MAX,
    ensures
        p.r == spec_map_channel(r as int),
        p.g == spec_map_channel(g as int),
        p.b == spec_map_channel(b as int),
{
    DisplayPixel { r: map_channel(r), g: map_channel(g), b: map_channel(b) }
}

/// The display mapping is monotonic, maps zero to zero and one unit of
/// radiance to full brightness.
pub proof fn lemma_map_channel_monotonic(a: int, b: int)
    requires
        a <= b,
    ensures
        spec_map_channel(a) <= spec_map_channel(b),
        spec_map_channel(0) == 0,
        spec_map_channel(RADIANCE_ONE as int) == 255,
{
    lemma_map_channel_range(a);
    lemma_map_channel_range(b);
    lemma_map_channel_one();
    if 0 < a {
        let ga = sqrt_floor((a * RADIANCE_ONE) as nat) as int;
        let gb = sqrt_floor((b * RADIANCE_ONE) as nat) as int;
        lemma_sqrt_floor_monotonic((a * RADIANCE_ONE) as nat, (b * RADIANCE_ONE) as nat);
        if ga < RADIANCE_ONE && gb < RADIANCE_ONE {
            lemma_mul_inequality(ga, gb, 255);
            lemma_div_is_ordered(ga * 255, gb * 255, RADIANCE_ONE as int);
        }
    }
}

/// The display mapping clamps: values at or below zero map to zero, and
/// values of one unit of radiance or more map to full brightness; every
/// result lies in the display range.
pub proof fn lemma_map_channel_clamps(v: int)
    ensures
        v <= 0 ==> spec_map_channel(v) == 0,
        v >= RADIANCE_ONE ==> spec_map_channel(v) == 255,
        0 <= spec_map_channel(v) <= 255,
{
    lemma_map_channel_range(v);
    if v >= RADIANCE_ONE {
        lemma_map_channel_one();
        let g1 = sqrt_floor((RADIANCE_ONE * RADIANCE_ONE) as nat);
        lemma_sqrt_floor_monotonic(
            (RADIANCE_ONE * RADIANCE_ONE) as nat,
            (v * RADIANCE_ONE) as nat,
        );
        assert(RADIANCE_ONE * RADIANCE_ONE <= v * RADIANCE_ONE) by (nonlinear_arith)
            requires
                v >= RADIANCE_ONE,
        ;
    }
}

proof fn lemma_map_channel_one()
    ensures
        spec_map_channel(RADIANCE_ONE as int) == 255,
{
    assert(1_000_000nat * 1_000_000nat == 1_000_000_000_000nat);
    assert(1_000_001nat * 1_000_001nat > 1_000_000_000_000nat);
    lemma_sqrt_floor_unique(1_000_000_000_000nat, 1_000_000nat);
    assert(sqrt_floor(1_000_000_000_000nat) == 1_000_000nat);
}

proof fn lemma_map_channel_range(v: int)
    ensures
        0 <= spec_map_channel(v) <= 255,
{
    if 0 < v {
        let g = sqrt_floor((v * RADIANCE_ONE) as nat) as int;
        if g < RADIANCE_ONE {
            lemma_mul_inequality(g, RADIANCE_ONE as int, 255);
            lemma_div_is_ordered(g * 255, RADIANCE_ONE as int * 255, RADIANCE_ONE as int);
        }
    }
}

} // verus!
