//! The attribute model: the typed, inheritance-resolved attribute values the
//! converters read from a single element, held as plain values.
//!
//! The surrounding application resolves raw DOM attributes (including paint,
//! whose resolver is an external collaborator) into this structure before
//! conversion; the converters never look anything up elsewhere.

use vstd::prelude::*;

use crate::tree::{Fill, Stroke};
use crate::geom::Transform;

verus! {

/// A closed-vocabulary predefined attribute token. `Other` stands for any
/// recognized token that none of the converters maps specially; every
/// resolver falls back to its documented default on it.
#[derive(Clone, Copy, PartialEq, Eq, Structural, Debug)]
pub enum PredefValue {
    Start,
    Middle,
    End,
    Normal,
    Italic,
    Oblique,
    SmallCaps,
    Bold,
    Bolder,
    Lighter,
    N100,
    N200,
    N300,
    N400,
    N500,
    N600,
    N700,
    N800,
    N900,
    Wider,
    Narrower,
    UltraCondensed,
    ExtraCondensed,
    Condensed,
    SemiCondensed,
    SemiExpanded,
    Expanded,
    ExtraExpanded,
    UltraExpanded,
    Underline,
    Overline,
    LineThrough,
    Other,
}

/// The typed value of a `text-decoration` attribute: a space-separated
/// keyword list (as preprocessed onto text elements) or a single predefined
/// token (as written on a tspan).
#[derive(Debug)]
pub enum DecorationValue {
    Keywords(String),
    Predef(PredefValue),
}

/// One element's resolved attribute set. Numeric values are micro-units;
/// an empty position list stands for an absent `x`/`y` attribute.
#[derive(Debug)]
pub struct AttrSet {
    pub transform: Option<Transform>,
    pub x: Vec<i64>,
    pub y: Vec<i64>,
    pub text_anchor: Option<PredefValue>,
    pub text_decoration: Option<DecorationValue>,
    pub font_style: Option<PredefValue>,
    pub font_variant: Option<PredefValue>,
    pub font_weight: Option<PredefValue>,
    pub font_stretch: Option<PredefValue>,
    pub font_size: Option<i64>,
    pub font_family: Option<String>,
    pub fill: Option<Fill>,
    pub stroke: Option<Stroke>,
}

impl AttrSet {
    /// An attribute set with every attribute absent.
    pub fn new() -> (a: AttrSet)
        ensures
            a.transform is None,
            a.x@ =~= Seq::<i64>::empty(),
            a.y@ =~= Seq::<i64>::empty(),
            a.text_anchor is None,
            a.text_decoration is None,
            a.font_style is None,
            a.font_variant is None,
            a.font_weight is None,
            a.font_stretch is None,
            a.font_size is None,
            a.font_family is None,
            a.fill is None,
            a.stroke is None,
    {
        AttrSet {
            transform: None,
            x: Vec::new(),
            y: Vec::new(),
            text_anchor: None,
            text_decoration: None,
            font_style: None,
            font_variant: None,
            font_weight: None,
            font_stretch: None,
            font_size: None,
            font_family: None,
            fill: None,
            stroke: None,
        }
    }
}

/// Paint-resolver seam for fill: the descriptor resolved upstream against
/// this attribute set, or `None` for "no paint".
pub fn resolve_fill(attrs: &AttrSet) -> (r: Option<Fill>)
    ensures
        r == attrs.fill,
{
    attrs.fill
}

/// Paint-resolver seam for stroke.
pub fn resolve_stroke(attrs: &AttrSet) -> (r: Option<Stroke>)
    ensures
        r == attrs.stroke,
{
    attrs.stroke
}

} // verus!
