//! Unit conversion between the visual coordinate space and the physics
//! engine's distance units.
//!
//! The library works on fixed-point integers.  Visual coordinates are held in
//! milli-pixels (one thousandth of a pixel); physics coordinates in
//! micro-units (one millionth of a physics distance unit).  One process-wide
//! scale factor, a divisor of 1000, relates the two: a position of
//! `px` pixels lies at `px / scale` physics units, so a value of `m`
//! milli-pixels converts to `m * (1000 / scale)` micro-units, exactly.

use vstd::prelude::*;

verus! {

/// Largest magnitude, in milli-pixels, that the conversion accepts.
pub const MAX_PX_MILLI: i64 = 1_000_000_000;

/// A usable scale factor: positive and a divisor of 1000, so that the
/// milli-pixel to micro-unit conversion is an exact multiplication.
pub open spec fn valid_scale(scale: u32) -> bool {
    0 < scale && scale <= 1000 && 1000int % (scale as int) == 0
}

/// Micro-units per milli-pixel under a given scale factor.
pub open spec fn phys_per_milli_px(scale: u32) -> int {
    1000int / (scale as int)
}

/// The physics position, in micro-units, of a visual position given in
/// milli-pixels.
pub open spec fn phys_of_px(px_milli: int, scale: u32) -> int {
    px_milli * phys_per_milli_px(scale)
}

/// Converts a visual coordinate in milli-pixels to a physics coordinate in
/// micro-units.
pub fn to_physics(px_milli: i64, scale: u32) -> (r: i64)
    requires
        valid_scale(scale),
        -MAX_PX_MILLI <= px_milli <= MAX_PX_MILLI,
    ensures
        r == phys_of_px(px_milli as int, scale),
{
    let factor: i64 = (1000 / scale) as i64;
    proof {
        assert(1 <= 1000int / (scale as int) <= 1000) by (nonlinear_arith)
            requires
                0 < scale <= 1000,
        ;
        assert(1 <= factor <= 1000);
        assert(-1_000_000_000_000 <= px_milli * factor <= 1_000_000_000_000) by (nonlinear_arith)
            requires
                1 <= factor <= 1000,
                -1_000_000_000 <= px_milli <= 1_000_000_000,
        ;
    }
    px_milli * factor
}

/// Half of a converted nonnegative extent, in micro-units: the physics
/// half-extent of a visual size.
pub open spec fn half_phys(px_milli: int, scale: u32) -> int {
    phys_of_px(px_milli, scale) / 2
}

/// Converts a nonnegative visual extent in milli-pixels to a physics
/// half-extent in micro-units.
pub fn half_physics(px_milli: i64, scale: u32) -> (r: i64)
    requires
        valid_scale(scale),
        0 <= px_milli <= MAX_PX_MILLI,
    ensures
        r == half_phys(px_milli as int, scale),
{
    let p = to_physics(px_milli, scale);
    proof {
        assert(1 <= 1000int / (scale as int)) by (nonlinear_arith)
            requires
                0 < scale <= 1000,
        ;
        assert(0 <= px_milli * phys_per_milli_px(scale)) by (nonlinear_arith)
            requires
                0 <= px_milli,
                0 < phys_per_milli_px(scale),
        ;
    }
    ((p as u64) / 2) as i64
}

} // verus!
