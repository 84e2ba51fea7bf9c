//! Conversion core that turns an attribute-resolved SVG subtree into a
//! normalized, renderer-agnostic render tree: position-anchored text chunks
//! with styled runs, and path-segment lists ready for a backend path builder.
//!
//! All geometry is carried in fixed-point micro-units: one user-space unit is
//! `COORD_SCALE` micro-units, so the smallest representable step (one
//! micro-unit) corresponds to the 1e-6 nudge applied by the path normalizer.

use vstd::prelude::*;

pub mod attrs;
pub mod font;
pub mod geom;
pub mod path;
pub mod strutil;
pub mod text;
pub mod tree;

verus! {

/// Micro-units per user-space unit.
pub const COORD_SCALE: i64 = 1_000_000;

/// Default font size (micro-units) used when no `font-size` attribute is set.
pub const DEFAULT_FONT_SIZE: i64 = 12 * COORD_SCALE;

} // verus!
