//! Resolution policy: how many pixels each point of a page gets when the page
//! is rasterized.
use vstd::prelude::*;

verus! {

/// Pixels along one side of a square page: every page is rasterized at
/// roughly `DESIRED_RESOLUTION` x `DESIRED_RESOLUTION` pixels, whatever its
/// aspect ratio.
pub const DESIRED_RESOLUTION: u64 = 1000;

/// Hard ceiling, in points, on either side of a page that may be rasterized.
pub const MAX_SIZE: u32 = 10000;

/// Densities are fixed-point numbers: `DENSITY_SCALE` units make one pixel per point.
pub const DENSITY_SCALE: u64 = 1000;

/// Highest density handed to the rasterizer, in pixels per point.
pub const MAX_PIXELS_PER_POINT: u32 = 5;

/// `MAX_PIXELS_PER_POINT` in density units.
pub const MAX_DENSITY: u32 = MAX_PIXELS_PER_POINT * 1000;

/// `DESIRED_RESOLUTION` in density units.
pub const SCALED_RESOLUTION: u64 = DESIRED_RESOLUTION * DENSITY_SCALE;

/// A side of a page.
#[derive(Debug, Clone, Copy, PartialEq, Eq, Structural)]
pub enum Axis {
    X,
    Y,
}

/// A page too large to rasterize: the side that broke the ceiling and its length in points.
#[derive(Debug, Clone, Copy, PartialEq, Eq, Structural)]
pub struct TooBig {
    pub size: u32,
    pub axis: Axis,
}

/// `d` is the density, in density units, for a page of `width` x `height`
/// points: the largest `d` not above `MAX_DENSITY` such that
/// `d / DENSITY_SCALE <= DESIRED_RESOLUTION / sqrt(width * height)`.
/// A page of zero area gets `MAX_DENSITY`.
pub open spec fn is_density(width: nat, height: nat, d: nat) -> bool {
    let area = width * height;
    let budget = SCALED_RESOLUTION * SCALED_RESOLUTION;
    &&& d <= MAX_DENSITY
    &&& d * d * area <= budget
    &&& (d == MAX_DENSITY || budget < (d + 1) * (d + 1) * area)
}

/// What `pixel_density` returns for a page of `width` x `height` points.
pub open spec fn density_outcome(width: nat, height: nat, r: Result<u32, TooBig>) -> bool {
    if width > MAX_SIZE {
        r == Err::<u32, TooBig>(TooBig { size: width as u32, axis: Axis::X })
    } else if height > MAX_SIZE {
        r == Err::<u32, TooBig>(TooBig { size: height as u32, axis: Axis::Y })
    } else {
        r is Ok && is_density(width, height, r->Ok_0 as nat)
    }
}

proof fn lemma_square_monotone(a: nat, b: nat, area: nat)
    requires
        a <= b,
    ensures
        a * a * area <= b * b * area,
{
    assert(a * a <= b * b) by (nonlinear_arith)
        requires
            a <= b,
    ;
    assert(a * a * area <= b * b * area) by (nonlinear_arith)
        requires
            a * a <= b * b,
    ;
}

/// The density of a page is unique: `is_density` pins one value.
pub proof fn lemma_density_unique(width: nat, height: nat, d1: nat, d2: nat)
    requires
        is_density(width, height, d1),
        is_density(width, height, d2),
    ensures
        d1 == d2,
{
    let area = width * height;
    if d1 < d2 {
        lemma_square_monotone(d1 + 1, d2, area);
    } else if d2 < d1 {
        lemma_square_monotone(d2 + 1, d1, area);
    }
}

/// Pixels per point, in density units, at which to rasterize a page of
/// `width` x `height` points, or which side is over `MAX_SIZE`.
pub fn pixel_density(width: u32, height: u32) -> (r: Result<u32, TooBig>)
    ensures
        density_outcome(width as nat, height as nat, r),
        r is Ok ==> 0 < r->Ok_0 <= MAX_DENSITY,
{
    if width > MAX_SIZE {
        return Err(TooBig { size: width, axis: Axis::X });
    }
    if height > MAX_SIZE {
        return Err(TooBig { size: height, axis: Axis::Y });
    }
    assert(width as nat * height as nat <= 100000000) by (nonlinear_arith)
        requires
            width <= 10000,
            height <= 10000,
    ;
    let area: u64 = width as u64 * height as u64;
    let budget: u64 = SCALED_RESOLUTION * SCALED_RESOLUTION;
    assert(1 * 1 * area <= budget) by (nonlinear_arith)
        requires
            area <= 100000000,
            budget == 1000000000000u64,
    ;
    // Binary search for the largest `d` in `[lo, hi)` with `d * d * area <= budget`.
    let mut lo: u64 = 1;
    let mut hi: u64 = MAX_DENSITY as u64 + 1;
    while hi - lo > 1
        invariant
            1 <= lo < hi <= MAX_DENSITY + 1,
            area == width as nat * height as nat,
            area <= 100000000,
            budget == SCALED_RESOLUTION * SCALED_RESOLUTION,
            lo * lo * area <= budget,
            hi == MAX_DENSITY + 1 || budget < hi * hi * area,
        decreases hi - lo,
    {
        let mid: u64 = lo + (hi - lo) / 2;
        assert(mid * mid <= 25000000 && mid * mid * area <= 2500000000000000) by (nonlinear_arith)
            requires
                mid <= 5000,
                area <= 100000000,
        ;
        if mid * mid * area <= budget {
            lo = mid;
        } else {
            hi = mid;
        }
    }
    Ok(lo as u32)
}

} // verus!
