//! Geometric primitives: fixed-point coordinates, the tolerance-based
//! comparison used by the text converter, 2D affine transforms, and
//! axis-aligned rectangles.
//!
//! Coordinates are `i64` micro-units (see [`crate::COORD_SCALE`]).

use vstd::prelude::*;

verus! {

/// Tolerance, in micro-units, of the approximate coordinate comparison used
/// when deciding whether a tspan's position starts a new text chunk.
pub const FUZZY_TOLERANCE: i64 = 1;

/// Two coordinates are fuzzily equal when they differ by at most
/// [`FUZZY_TOLERANCE`] micro-units.
pub open spec fn fuzzy_eq_spec(a: i64, b: i64) -> bool {
    -(FUZZY_TOLERANCE as int) <= a - b <= FUZZY_TOLERANCE as int
}

/// Tolerance-based coordinate comparison.
pub fn fuzzy_eq(a: i64, b: i64) -> (r: bool)
    ensures
        r == fuzzy_eq_spec(a, b),
{
    let d: i128 = a as i128 - b as i128;
    -(FUZZY_TOLERANCE as i128) <= d && d <= FUZZY_TOLERANCE as i128
}

/// A 2D affine transform `[a b c d e f]`, in micro-unit fixed point:
/// the identity scale is `COORD_SCALE`.
#[derive(Clone, Copy, PartialEq, Eq, Structural, Debug)]
pub struct Transform {
    pub a: i64,
    pub b: i64,
    pub c: i64,
    pub d: i64,
    pub e: i64,
    pub f: i64,
}

/// The identity transform.
pub open spec fn transform_identity() -> Transform {
    Transform { a: crate::COORD_SCALE, b: 0, c: 0, d: crate::COORD_SCALE, e: 0, f: 0 }
}

impl Transform {
    /// The identity transform.
    pub fn identity() -> (t: Transform)
        ensures
            t == transform_identity(),
    {
        Transform { a: crate::COORD_SCALE, b: 0, c: 0, d: crate::COORD_SCALE, e: 0, f: 0 }
    }
}

/// The transform carried by an attribute set, or the identity when absent.
pub open spec fn transform_or_identity(t: Option<Transform>) -> Transform {
    match t {
        Some(ts) => ts,
        None => transform_identity(),
    }
}

/// An axis-aligned rectangle given by its extreme coordinates.
#[derive(Clone, Copy, PartialEq, Eq, Structural, Debug)]
pub struct Rect {
    pub min_x: i64,
    pub min_y: i64,
    pub max_x: i64,
    pub max_y: i64,
}

} // verus!
