//! The font resolver: maps raw font attributes to a fully-populated font
//! descriptor, with every sub-property falling back to its documented
//! default.

use vstd::prelude::*;

use crate::attrs::{AttrSet, PredefValue};
use crate::tree::{Font, FontStretch, FontStyle, FontVariant, FontWeight};

verus! {

/// Process-wide defaults injected into the font resolver, so callers and
/// tests can override them.
#[derive(Debug)]
pub struct FontDefaults {
    pub size: i64,
    pub family: String,
}

/// The view of the stock default font family.
pub open spec fn default_family_view() -> Seq<char> {
    "Times New Roman"@
}

/// The stock defaults: [`crate::DEFAULT_FONT_SIZE`] and the stock family.
pub fn font_defaults() -> (d: FontDefaults)
    ensures
        d.size == crate::DEFAULT_FONT_SIZE,
        d.family@ == default_family_view(),
{
    FontDefaults { size: crate::DEFAULT_FONT_SIZE, family: String::from_str("Times New Roman") }
}

/// `font-style` token to descriptor variant; unresolved tokens fall back to
/// `Normal`.
pub open spec fn font_style_of(v: Option<PredefValue>) -> FontStyle {
    match v {
        Some(PredefValue::Italic) => FontStyle::Italic,
        Some(PredefValue::Oblique) => FontStyle::Oblique,
        _ => FontStyle::Normal,
    }
}

/// `font-variant` token to descriptor variant.
pub open spec fn font_variant_of(v: Option<PredefValue>) -> FontVariant {
    match v {
        Some(PredefValue::SmallCaps) => FontVariant::SmallCaps,
        _ => FontVariant::Normal,
    }
}

/// `font-weight` token to descriptor variant (13-entry table).
pub open spec fn font_weight_of(v: Option<PredefValue>) -> FontWeight {
    match v {
        Some(PredefValue::Bold) => FontWeight::Bold,
        Some(PredefValue::Bolder) => FontWeight::Bolder,
        Some(PredefValue::Lighter) => FontWeight::Lighter,
        Some(PredefValue::N100) => FontWeight::W100,
        Some(PredefValue::N200) => FontWeight::W200,
        Some(PredefValue::N300) => FontWeight::W300,
        Some(PredefValue::N400) => FontWeight::W400,
        Some(PredefValue::N500) => FontWeight::W500,
        Some(PredefValue::N600) => FontWeight::W600,
        Some(PredefValue::N700) => FontWeight::W700,
        Some(PredefValue::N800) => FontWeight::W800,
        Some(PredefValue::N900) => FontWeight::W900,
        _ => FontWeight::Normal,
    }
}

/// `font-stretch` token to descriptor variant.
pub open spec fn font_stretch_of(v: Option<PredefValue>) -> FontStretch {
    match v {
        Some(PredefValue::Wider) => FontStretch::Wider,
        Some(PredefValue::Narrower) => FontStretch::Narrower,
        Some(PredefValue::UltraCondensed) => FontStretch::UltraCondensed,
        Some(PredefValue::ExtraCondensed) => FontStretch::ExtraCondensed,
        Some(PredefValue::Condensed) => FontStretch::Condensed,
        Some(PredefValue::SemiCondensed) => FontStretch::SemiCondensed,
        Some(PredefValue::SemiExpanded) => FontStretch::SemiExpanded,
        Some(PredefValue::Expanded) => FontStretch::Expanded,
        Some(PredefValue::ExtraExpanded) => FontStretch::ExtraExpanded,
        Some(PredefValue::UltraExpanded) => FontStretch::UltraExpanded,
        _ => FontStretch::Normal,
    }
}

/// The resolved font size: the attribute when present, else the injected
/// default.
pub open spec fn font_size_of(v: Option<i64>, d: FontDefaults) -> i64 {
    match v {
        Some(s) => s,
        None => d.size,
    }
}

/// The descriptor the font resolver owes for a given attribute set and
/// defaults.
pub open spec fn font_of(a: AttrSet, d: FontDefaults) -> Font {
    Font {
        family: match a.font_family {
            Some(f) => f,
            None => d.family,
        },
        size: font_size_of(a.font_size, d),
        style: font_style_of(a.font_style),
        variant: font_variant_of(a.font_variant),
        weight: font_weight_of(a.font_weight),
        stretch: font_stretch_of(a.font_stretch),
    }
}

/// Resolves the five font sub-properties, the size and the family against an
/// attribute set. Never fails; always produces a fully-populated descriptor.
/// Callers are expected to filter out non-positive sizes upstream, so a
/// strictly positive resolved size is a precondition.
pub fn convert_font(attrs: &AttrSet, defaults: &FontDefaults) -> (r: Font)
    requires
        font_size_of(attrs.font_size, *defaults) > 0,
    ensures
        r == font_of(*attrs, *defaults),
        r.size > 0,
{
    let style = match attrs.font_style {
        Some(PredefValue::Italic) => FontStyle::Italic,
        Some(PredefValue::Oblique) => FontStyle::Oblique,
        _ => FontStyle::Normal,
    };

    let variant = match attrs.font_variant {
        Some(PredefValue::SmallCaps) => FontVariant::SmallCaps,
        _ => FontVariant::Normal,
    };

    let weight = match attrs.font_weight {
        Some(PredefValue::Bold) => FontWeight::Bold,
        Some(PredefValue::Bolder) => FontWeight::Bolder,
        Some(PredefValue::Lighter) => FontWeight::Lighter,
        Some(PredefValue::N100) => FontWeight::W100,
        Some(PredefValue::N200) => FontWeight::W200,
        Some(PredefValue::N300) => FontWeight::W300,
        Some(PredefValue::N400) => FontWeight::W400,
        Some(PredefValue::N500) => FontWeight::W500,
        Some(PredefValue::N600) => FontWeight::W600,
        Some(PredefValue::N700) => FontWeight::W700,
        Some(PredefValue::N800) => FontWeight::W800,
        Some(PredefValue::N900) => FontWeight::W900,
        _ => FontWeight::Normal,
    };

    let stretch = match attrs.font_stretch {
        Some(PredefValue::Wider) => FontStretch::Wider,
        Some(PredefValue::Narrower) => FontStretch::Narrower,
        Some(PredefValue::UltraCondensed) => FontStretch::UltraCondensed,
        Some(PredefValue::ExtraCondensed) => FontStretch::ExtraCondensed,
        Some(PredefValue::Condensed) => FontStretch::Condensed,
        Some(PredefValue::SemiCondensed) => FontStretch::SemiCondensed,
        Some(PredefValue::SemiExpanded) => FontStretch::SemiExpanded,
        Some(PredefValue::Expanded) => FontStretch::Expanded,
        Some(PredefValue::ExtraExpanded) => FontStretch::ExtraExpanded,
        Some(PredefValue::UltraExpanded) => FontStretch::UltraExpanded,
        _ => FontStretch::Normal,
    };

    let size = match attrs.font_size {
        Some(s) => s,
        None => defaults.size,
    };

    let family = match &attrs.font_family {
        Some(f) => f.clone(),
        None => defaults.family.clone(),
    };

    Font { family, size, style, variant, weight, stretch }
}

/// Font default completeness: against an attribute set with no relevant
/// attribute, every field of the resolved descriptor is its documented
/// default and the size is the injected default constant.
pub proof fn lemma_font_defaults_complete(a: AttrSet, d: FontDefaults)
    requires
        a.font_style is None,
        a.font_variant is None,
        a.font_weight is None,
        a.font_stretch is None,
        a.font_size is None,
        a.font_family is None,
    ensures
        font_of(a, d) == (Font {
            family: d.family,
            size: d.size,
            style: FontStyle::Normal,
            variant: FontVariant::Normal,
            weight: FontWeight::Normal,
            stretch: FontStretch::Normal,
        }),
{
}

} // verus!
