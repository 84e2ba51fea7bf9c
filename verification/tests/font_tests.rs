use resvg_core::attrs::{AttrSet, PredefValue};
use resvg_core::font::{convert_font, font_defaults, FontDefaults};
use resvg_core::tree::{FontStretch, FontStyle, FontVariant, FontWeight};
use resvg_core::{COORD_SCALE, DEFAULT_FONT_SIZE};

#[test]
fn font_defaults_complete() {
    let attrs = AttrSet::new();
    let defaults = font_defaults();
    let font = convert_font(&attrs, &defaults);
    assert_eq!(font.family, "Times New Roman");
    assert_eq!(font.size, DEFAULT_FONT_SIZE);
    assert_eq!(font.size, 12 * COORD_SCALE);
    assert!(font.style == FontStyle::Normal);
    assert!(font.variant == FontVariant::Normal);
    assert!(font.weight == FontWeight::Normal);
    assert!(font.stretch == FontStretch::Normal);
}

#[test]
fn font_explicit_attributes() {
    let mut attrs = AttrSet::new();
    attrs.font_style = Some(PredefValue::Italic);
    attrs.font_variant = Some(PredefValue::SmallCaps);
    attrs.font_weight = Some(PredefValue::N700);
    attrs.font_stretch = Some(PredefValue::Condensed);
    attrs.font_size = Some(9 * COORD_SCALE);
    attrs.font_family = Some(String::from("Georgia"));
    let font = convert_font(&attrs, &font_defaults());
    assert_eq!(font.family, "Georgia");
    assert_eq!(font.size, 9 * COORD_SCALE);
    assert!(font.style == FontStyle::Italic);
    assert!(font.variant == FontVariant::SmallCaps);
    assert!(font.weight == FontWeight::W700);
    assert!(font.stretch == FontStretch::Condensed);
}

#[test]
fn font_weight_table() {
    let cases = [
        (PredefValue::Normal, FontWeight::Normal),
        (PredefValue::Bold, FontWeight::Bold),
        (PredefValue::Bolder, FontWeight::Bolder),
        (PredefValue::Lighter, FontWeight::Lighter),
        (PredefValue::N100, FontWeight::W100),
        (PredefValue::N200, FontWeight::W200),
        (PredefValue::N300, FontWeight::W300),
        (PredefValue::N400, FontWeight::W400),
        (PredefValue::N500, FontWeight::W500),
        (PredefValue::N600, FontWeight::W600),
        (PredefValue::N700, FontWeight::W700),
        (PredefValue::N800, FontWeight::W800),
        (PredefValue::N900, FontWeight::W900),
    ];
    for (token, expected) in cases {
        let mut attrs = AttrSet::new();
        attrs.font_weight = Some(token);
        let font = convert_font(&attrs, &font_defaults());
        assert!(font.weight == expected);
    }
}

#[test]
fn font_unrecognized_tokens_fall_back() {
    let mut attrs = AttrSet::new();
    attrs.font_style = Some(PredefValue::Other);
    attrs.font_variant = Some(PredefValue::Other);
    attrs.font_weight = Some(PredefValue::Other);
    attrs.font_stretch = Some(PredefValue::Other);
    let font = convert_font(&attrs, &font_defaults());
    assert!(font.style == FontStyle::Normal);
    assert!(font.variant == FontVariant::Normal);
    assert!(font.weight == FontWeight::Normal);
    assert!(font.stretch == FontStretch::Normal);
}

#[test]
fn font_injected_defaults_override() {
    let attrs = AttrSet::new();
    let defaults = FontDefaults { size: 7 * COORD_SCALE, family: String::from("Courier") };
    let font = convert_font(&attrs, &defaults);
    assert_eq!(font.family, "Courier");
    assert_eq!(font.size, 7 * COORD_SCALE);
}

#[test]
fn font_stretch_table() {
    let cases = [
        (PredefValue::Wider, FontStretch::Wider),
        (PredefValue::Narrower, FontStretch::Narrower),
        (PredefValue::UltraCondensed, FontStretch::UltraCondensed),
        (PredefValue::ExtraCondensed, FontStretch::ExtraCondensed),
        (PredefValue::Condensed, FontStretch::Condensed),
        (PredefValue::SemiCondensed, FontStretch::SemiCondensed),
        (PredefValue::SemiExpanded, FontStretch::SemiExpanded),
        (PredefValue::Expanded, FontStretch::Expanded),
        (PredefValue::ExtraExpanded, FontStretch::ExtraExpanded),
        (PredefValue::UltraExpanded, FontStretch::UltraExpanded),
    ];
    for (token, expected) in cases {
        let mut attrs = AttrSet::new();
        attrs.font_stretch = Some(token);
        let font = convert_font(&attrs, &font_defaults());
        assert!(font.stretch == expected);
    }
}
