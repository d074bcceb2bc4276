//! Integer geometry for the window core.
//!
//! Display-point ("dp") coordinates are fixed-point values counted in
//! [`DP_UNIT`]-ths of a point, so that fractional invalidation rectangles can
//! be snapped outward to whole physical pixels exactly. Physical-pixel ("px")
//! coordinates are plain integers. A [`Scale`] holds the integer px-per-dp
//! factor that the platform reports for each axis.

use vstd::prelude::*;

verus! {

/// Fixed-point subunits per display point.
pub const DP_UNIT: i64 = 256;

/// Largest magnitude allowed for a dp coordinate (in subunits). Keeps every
/// intermediate product inside `i64`.
pub const MAX_COORD: i64 = 0x4000_0000_0000;

/// Largest scale factor accepted from the platform.
pub const MAX_SCALE: u32 = 0x10000;

/// A coordinate is usable if scaling it cannot overflow.
pub open spec fn coord_ok(c: int) -> bool {
    -MAX_COORD <= c <= MAX_COORD
}

/// The px-per-dp factor pair reported by the platform, one factor per axis.
#[derive(Clone, Copy, PartialEq, Eq, Structural, Debug)]
pub struct Scale {
    pub x: u32,
    pub y: u32,
}

impl Scale {
    /// Factors are positive and small enough that scaling stays in range.
    pub open spec fn wf(self) -> bool {
        1 <= self.x <= MAX_SCALE && 1 <= self.y <= MAX_SCALE
    }

    /// What a raw platform report clamps to: at least 1, at most `MAX_SCALE`.
    pub open spec fn spec_clamp_factor(v: int) -> int {
        if v < 1 {
            1
        } else if v > MAX_SCALE {
            MAX_SCALE as int
        } else {
            v
        }
    }

    /// Builds a scale from the platform's raw per-axis reports, clamping each
    /// into the usable range.
    pub fn from_reported(x: i64, y: i64) -> (s: Scale)
        ensures
            s.wf(),
            s.x == Self::spec_clamp_factor(x as int),
            s.y == Self::spec_clamp_factor(y as int),
    {
        Scale { x: clamp_factor(x), y: clamp_factor(y) }
    }
}

fn clamp_factor(v: i64) -> (r: u32)
    ensures
        r == Scale::spec_clamp_factor(v as int),
        1 <= r <= MAX_SCALE,
{
    if v < 1 {
        1
    } else if v > MAX_SCALE as i64 {
        MAX_SCALE
    } else {
        v as u32
    }
}

/// Floor of `c * s / DP_UNIT`: the greatest pixel boundary at or below the
/// scaled coordinate.
pub open spec fn dp_to_px_floor(c: int, s: int) -> int {
    (c * s) / (DP_UNIT as int)
}

/// Ceiling of `c * s / DP_UNIT`: the least pixel boundary at or above the
/// scaled coordinate.
pub open spec fn dp_to_px_ceil(c: int, s: int) -> int {
    (c * s + (DP_UNIT - 1)) / (DP_UNIT as int)
}

proof fn lemma_scaled_in_range(c: int, s: int)
    requires
        coord_ok(c),
        1 <= s <= MAX_SCALE,
    ensures
        -0x4000_0000_0000_0000 <= c * s <= 0x4000_0000_0000_0000,
{
    assert(-0x4000_0000_0000_0000 <= c * s <= 0x4000_0000_0000_0000) by (nonlinear_arith)
        requires
            -MAX_COORD <= c <= MAX_COORD,
            1 <= s <= MAX_SCALE,
    ;
}

/// Floor division of `p` by `DP_UNIT` for any sign of `p`.
fn floor_div_unit(p: i64) -> (r: i64)
    requires
        -0x4000_0000_0000_0000 <= p <= 0x4000_0000_0000_0000,
    ensures
        r == p as int / (DP_UNIT as int),
{
    if p >= 0 {
        ((p as u64) / (DP_UNIT as u64)) as i64
    } else {
        let m: u64 = (-p) as u64;
        let q: u64 = (m + (DP_UNIT as u64 - 1)) / (DP_UNIT as u64);
        -(q as i64)
    }
}

/// Ceiling division of `p` by `DP_UNIT` for any sign of `p`.
fn ceil_div_unit(p: i64) -> (r: i64)
    requires
        -0x4000_0000_0000_0000 <= p <= 0x4000_0000_0000_0000,
    ensures
        r == (p + DP_UNIT - 1) as int / (DP_UNIT as int),
{
    if p >= 0 {
        (((p as u64) + (DP_UNIT as u64 - 1)) / (DP_UNIT as u64)) as i64
    } else {
        let m: u64 = (-p) as u64;
        let q: u64 = m / (DP_UNIT as u64);
        -(q as i64)
    }
}

/// Scales a dp coordinate down to the pixel boundary below it.
pub fn px_floor(c: i64, s: u32) -> (r: i64)
    requires
        coord_ok(c as int),
        1 <= s <= MAX_SCALE,
    ensures
        r == dp_to_px_floor(c as int, s as int),
{
    proof {
        lemma_scaled_in_range(c as int, s as int);
    }
    floor_div_unit(c * (s as i64))
}

/// Scales a dp coordinate up to the pixel boundary above it.
pub fn px_ceil(c: i64, s: u32) -> (r: i64)
    requires
        coord_ok(c as int),
        1 <= s <= MAX_SCALE,
    ensures
        r == dp_to_px_ceil(c as int, s as int),
{
    proof {
        lemma_scaled_in_range(c as int, s as int);
    }
    ceil_div_unit(c * (s as i64))
}

/// A point in display points (fixed-point subunits).
#[derive(Clone, Copy, PartialEq, Eq, Structural, Debug)]
pub struct DpPoint {
    pub x: i64,
    pub y: i64,
}

impl DpPoint {
    pub open spec fn wf(self) -> bool {
        coord_ok(self.x as int) && coord_ok(self.y as int)
    }
}

/// A size in display points (fixed-point subunits).
#[derive(Clone, Copy, PartialEq, Eq, Structural, Debug)]
pub struct DpSize {
    pub width: i64,
    pub height: i64,
}

impl DpSize {
    /// Sizes are non-negative and scalable without overflow.
    pub open spec fn wf(self) -> bool {
        0 <= self.width <= MAX_COORD && 0 <= self.height <= MAX_COORD
    }

    /// A size given as a whole number of display points.
    pub fn from_whole_dp(width: i64, height: i64) -> (s: DpSize)
        requires
            0 <= width <= MAX_COORD / DP_UNIT,
            0 <= height <= MAX_COORD / DP_UNIT,
        ensures
            s.width == width * DP_UNIT,
            s.height == height * DP_UNIT,
            s.wf(),
    {
        DpSize { width: width * DP_UNIT, height: height * DP_UNIT }
    }
}

/// A rectangle in display points (fixed-point subunits), given by its two
/// corners.
#[derive(Clone, Copy, PartialEq, Eq, Structural, Debug)]
pub struct DpRect {
    pub x0: i64,
    pub y0: i64,
    pub x1: i64,
    pub y1: i64,
}

impl DpRect {
    pub open spec fn wf(self) -> bool {
        &&& coord_ok(self.x0 as int)
        &&& coord_ok(self.y0 as int)
        &&& coord_ok(self.x1 as int)
        &&& coord_ok(self.y1 as int)
        &&& self.x0 <= self.x1
        &&& self.y0 <= self.y1
    }

    pub fn new(x0: i64, y0: i64, x1: i64, y1: i64) -> (r: DpRect)
        requires
            coord_ok(x0 as int),
            coord_ok(y0 as int),
            coord_ok(x1 as int),
            coord_ok(y1 as int),
            x0 <= x1,
            y0 <= y1,
        ensures
            r == (DpRect { x0, y0, x1, y1 }),
            r.wf(),
    {
        DpRect { x0, y0, x1, y1 }
    }
}

/// A point in whole physical pixels.
#[derive(Clone, Copy, PartialEq, Eq, Structural, Debug)]
pub struct PxPoint {
    pub x: i64,
    pub y: i64,
}

/// A size in whole physical pixels.
#[derive(Clone, Copy, PartialEq, Eq, Structural, Debug)]
pub struct PxSize {
    pub width: i64,
    pub height: i64,
}

/// A rectangle in whole physical pixels.
#[derive(Clone, Copy, PartialEq, Eq, Structural, Debug)]
pub struct PxRect {
    pub x0: i64,
    pub y0: i64,
    pub x1: i64,
    pub y1: i64,
}

impl PxRect {
    /// A rectangle that covers no pixel.
    pub open spec fn spec_is_empty(self) -> bool {
        self.x1 <= self.x0 || self.y1 <= self.y0
    }

    pub fn is_empty(&self) -> (r: bool)
        ensures
            r == self.spec_is_empty(),
    {
        self.x1 <= self.x0 || self.y1 <= self.y0
    }

    /// Whether the pixel at `(x, y)` lies inside this rectangle.
    pub open spec fn covers(self, x: int, y: int) -> bool {
        self.x0 <= x < self.x1 && self.y0 <= y < self.y1
    }
}

/// The outward snap of a dp rectangle to whole pixels: lower corners move to
/// the pixel boundary below, upper corners to the boundary above, so every
/// partially covered pixel is included.
pub open spec fn snapped(r: DpRect, s: Scale) -> PxRect {
    PxRect {
        x0: dp_to_px_floor(r.x0 as int, s.x as int) as i64,
        y0: dp_to_px_floor(r.y0 as int, s.y as int) as i64,
        x1: dp_to_px_ceil(r.x1 as int, s.x as int) as i64,
        y1: dp_to_px_ceil(r.y1 as int, s.y as int) as i64,
    }
}

proof fn lemma_px_result_in_range(c: int, s: int)
    requires
        coord_ok(c),
        1 <= s <= MAX_SCALE,
    ensures
        i64::MIN <= dp_to_px_floor(c, s) <= i64::MAX,
        i64::MIN <= dp_to_px_ceil(c, s) <= i64::MAX,
{
    lemma_scaled_in_range(c, s);
}

/// Snaps a dp rectangle outward to whole pixels at the given scale.
pub fn snap_rect(r: &DpRect, s: &Scale) -> (p: PxRect)
    requires
        r.wf(),
        s.wf(),
    ensures
        p == snapped(*r, *s),
{
    proof {
        lemma_px_result_in_range(r.x0 as int, s.x as int);
        lemma_px_result_in_range(r.y0 as int, s.y as int);
        lemma_px_result_in_range(r.x1 as int, s.x as int);
        lemma_px_result_in_range(r.y1 as int, s.y as int);
    }
    PxRect {
        x0: px_floor(r.x0, s.x),
        y0: px_floor(r.y0, s.y),
        x1: px_ceil(r.x1, s.x),
        y1: px_ceil(r.y1, s.y),
    }
}

/// The physical size of a logical size at the given scale, rounded up.
pub fn size_to_px(size: &DpSize, s: &Scale) -> (p: PxSize)
    requires
        size.wf(),
        s.wf(),
    ensures
        p.width == dp_to_px_ceil(size.width as int, s.x as int),
        p.height == dp_to_px_ceil(size.height as int, s.y as int),
{
    proof {
        lemma_px_result_in_range(size.width as int, s.x as int);
        lemma_px_result_in_range(size.height as int, s.y as int);
    }
    PxSize { width: px_ceil(size.width, s.x), height: px_ceil(size.height, s.y) }
}

/// The outward snap never loses a pixel: every pixel the scaled rectangle
/// overlaps, even partially, is covered by the snapped rectangle. The pixel
/// `(px, py)` spans the scaled interval `[px * DP_UNIT, (px + 1) * DP_UNIT)`
/// on each axis; overlapping the rectangle's scaled image means crossing
/// its lower edge and starting before its upper edge.
pub proof fn lemma_snap_covers_partial_pixels(r: DpRect, s: Scale, px: int, py: int)
    requires
        r.wf(),
        s.wf(),
        (px + 1) * DP_UNIT > r.x0 * s.x,
        px * DP_UNIT < r.x1 * s.x,
        (py + 1) * DP_UNIT > r.y0 * s.y,
        py * DP_UNIT < r.y1 * s.y,
    ensures
        snapped(r, s).covers(px, py),
{
    lemma_scaled_in_range(r.x0 as int, s.x as int);
    lemma_scaled_in_range(r.y0 as int, s.y as int);
    lemma_scaled_in_range(r.x1 as int, s.x as int);
    lemma_scaled_in_range(r.y1 as int, s.y as int);
    lemma_axis_floor_le(r.x0 * s.x, px);
    lemma_axis_floor_le(r.y0 * s.y, py);
    lemma_axis_ceil_gt(r.x1 * s.x, px);
    lemma_axis_ceil_gt(r.y1 * s.y, py);
}

/// A scaled coordinate strictly below a pixel's upper edge floors to that
/// pixel or one below it.
proof fn lemma_axis_floor_le(a: int, p: int)
    requires
        a < (p + 1) * DP_UNIT,
    ensures
        a / (DP_UNIT as int) <= p,
{
    let u = DP_UNIT as int;
    assert(a <= (p + 1) * u - 1);
    vstd::arithmetic::div_mod::lemma_div_is_ordered(a, (p + 1) * u - 1, u);
    assert(((p + 1) * u - 1) / u == p) by {
        vstd::arithmetic::div_mod::lemma_fundamental_div_mod_converse_div(
            (p + 1) * u - 1,
            u,
            p,
            u - 1,
        );
    }
}

/// A scaled coordinate strictly above a pixel's lower edge has its ceiling
/// pixel boundary strictly beyond that pixel.
proof fn lemma_axis_ceil_gt(b: int, p: int)
    requires
        b > p * DP_UNIT,
    ensures
        (b + DP_UNIT - 1) / (DP_UNIT as int) > p,
{
    let u = DP_UNIT as int;
    assert(b + u - 1 >= p * u + u);
    vstd::arithmetic::div_mod::lemma_div_is_ordered(p * u + u, b + u - 1, u);
    assert((p * u + u) / u == p + 1) by {
        vstd::arithmetic::div_mod::lemma_fundamental_div_mod_converse_div(
            p * u + u,
            u,
            p + 1,
            0,
        );
    }
}

/// Largest pixel extent a surface request may ask for.
pub const MAX_SURFACE_EXTENT: i64 = 0x4000_0000;

/// Number of binary digits of `x`.
pub open spec fn bit_len(x: nat) -> nat
    decreases x,
{
    if x == 0 {
        0
    } else {
        1 + bit_len(x / 2)
    }
}

/// The granularity a surface extent is rounded up to: a power of two between
/// a quarter and a half of the extent, but never finer than 32 pixels.
pub open spec fn bucket_of(x: int) -> int {
    let b = bit_len(x as nat);
    let e = if b < 7 {
        7
    } else {
        b
    };
    vstd::arithmetic::power2::pow2((e - 2) as nat) as int
}

/// A surface extent rounded up to its bucket granularity, so that small size
/// changes reuse the same surface allocation.
pub open spec fn spec_next_size(x: int) -> int {
    let a = bucket_of(x);
    ((x + a - 1) / a) * a
}

proof fn lemma_bit_len_bound(x: nat, b: nat)
    requires
        x < vstd::arithmetic::power2::pow2(b),
    ensures
        bit_len(x) <= b,
    decreases x,
{
    vstd::arithmetic::power2::lemma_pow2_pos(b);
    if x > 0 {
        assert(b > 0) by {
            if b == 0 {
                vstd::arithmetic::power2::lemma2_to64();
            }
        }
        assert(vstd::arithmetic::power2::pow2(b) == 2 * vstd::arithmetic::power2::pow2((b - 1) as nat)) by {
            vstd::arithmetic::power2::lemma_pow2_unfold(b);
        }
        lemma_bit_len_bound(x / 2, (b - 1) as nat);
    }
}

/// Rounds a requested surface extent up to its bucket boundary.
pub fn next_size(x: i64) -> (r: i64)
    requires
        0 <= x <= MAX_SURFACE_EXTENT,
    ensures
        r == spec_next_size(x as int),
        x <= r,
{
    proof {
        vstd::arithmetic::power2::lemma2_to64();
        lemma_bit_len_bound(x as nat, 31);
    }
    let mut v: u64 = x as u64;
    let mut b: u64 = 0;
    while v > 0
        invariant
            b + bit_len(v as nat) == bit_len(x as nat),
            bit_len(x as nat) <= 31,
            v <= MAX_SURFACE_EXTENT,
        decreases v,
    {
        proof {
            assert(bit_len(v as nat) == 1 + bit_len((v as nat) / 2));
        }
        v = v / 2;
        b = b + 1;
    }
    let e: u64 = if b < 7 {
        5
    } else {
        b - 2
    };
    proof {
        assert(e == (if bit_len(x as nat) < 7 { 7int } else { bit_len(x as nat) as int }) - 2);
    }
    let mut a: i64 = 1;
    let mut i: u64 = 0;
    while i < e
        invariant
            i <= e <= 29,
            a == vstd::arithmetic::power2::pow2(i as nat),
            a <= 0x2000_0000,
        decreases e - i,
    {
        proof {
            vstd::arithmetic::power2::lemma_pow2_unfold((i + 1) as nat);
            if i + 1 < 29 {
                vstd::arithmetic::power2::lemma_pow2_strictly_increases((i + 1) as nat, 29);
            }
            vstd::arithmetic::power2::lemma2_to64();
        }
        a = a * 2;
        i = i + 1;
    }
    proof {
        vstd::arithmetic::power2::lemma_pow2_pos(e as nat);
        assert(a == bucket_of(x as int));
    }
    let xa: u64 = x as u64;
    let au: u64 = a as u64;
    let q: u64 = (xa + (au - 1)) / au;
    proof {
        let xi = x as int;
        let ai = a as int;
        let qi = (xi + ai - 1) / ai;
        vstd::arithmetic::div_mod::lemma_fundamental_div_mod(xi + ai - 1, ai);
        vstd::arithmetic::div_mod::lemma_mod_bound(xi + ai - 1, ai);
        assert(qi * ai == ai * qi) by (nonlinear_arith);
        assert(qi * ai <= xi + ai - 1);
        assert(xi <= qi * ai);
        assert(q == qi);
    }
    let r: u64 = q * au;
    r as i64
}

} // verus!
