use resvg_core::attrs::{AttrSet, DecorationValue, PredefValue};
use resvg_core::font::font_defaults;
use resvg_core::geom::{Transform, FUZZY_TOLERANCE};
use resvg_core::text::{convert, TSpanElem, TextElem};
use resvg_core::tree::{Fill, FillRule, NodeKind, Paint, RenderTree, TextAnchor};
use resvg_core::COORD_SCALE;

fn span(text: &str) -> TSpanElem {
    TSpanElem { attrs: AttrSet::new(), text: Some(String::from(text)) }
}

fn text_elem(spans: Vec<TSpanElem>) -> TextElem {
    TextElem { id: String::from("t"), attrs: AttrSet::new(), spans }
}

fn chunk_positions(doc: &RenderTree) -> Vec<(i64, i64, TextAnchor)> {
    let mut out = Vec::new();
    for node in &doc.nodes {
        if let NodeKind::TextChunk(c) = &node.kind {
            out.push((c.x, c.y, c.anchor));
        }
    }
    out
}

fn red_fill() -> Option<Fill> {
    Some(Fill { paint: Paint::Color { red: 255, green: 0, blue: 0 }, rule: FillRule::NonZero })
}

#[test]
fn single_chunk_without_positions() {
    // However many tspans, none declaring x or y: exactly one chunk.
    let text = text_elem(vec![span("a"), span("b"), span("c")]);
    let mut doc = RenderTree::new();
    convert(&text, 0, &mut doc, &font_defaults());
    assert_eq!(chunk_positions(&doc).len(), 1);
    assert_eq!(doc.nodes.len(), 5);
}

#[test]
fn position_change_starts_new_chunk() {
    let mut second = span("b");
    second.attrs.x = vec![10 * COORD_SCALE];
    let text = text_elem(vec![span("a"), second]);
    let mut doc = RenderTree::new();
    convert(&text, 0, &mut doc, &font_defaults());
    let chunks = chunk_positions(&doc);
    assert_eq!(chunks.len(), 2);
    assert_eq!(chunks[0], (0, 0, TextAnchor::Start));
    assert_eq!(chunks[1], (10 * COORD_SCALE, 0, TextAnchor::Start));
}

#[test]
fn position_within_tolerance_continues_chunk() {
    let mut second = span("b");
    second.attrs.x = vec![FUZZY_TOLERANCE];
    let text = text_elem(vec![span("a"), second]);
    let mut doc = RenderTree::new();
    convert(&text, 0, &mut doc, &font_defaults());
    assert_eq!(chunk_positions(&doc).len(), 1);
}

#[test]
fn initial_chunk_uses_element_position_and_anchor() {
    let mut text = text_elem(vec![span("a")]);
    text.attrs.x = vec![3 * COORD_SCALE];
    text.attrs.y = vec![4 * COORD_SCALE];
    text.attrs.text_anchor = Some(PredefValue::Middle);
    let mut doc = RenderTree::new();
    convert(&text, 0, &mut doc, &font_defaults());
    let chunks = chunk_positions(&doc);
    assert_eq!(chunks, vec![(3 * COORD_SCALE, 4 * COORD_SCALE, TextAnchor::Middle)]);
}

#[test]
fn multi_value_position_list_uses_first_value() {
    let mut text = text_elem(vec![span("a")]);
    text.attrs.x = vec![7 * COORD_SCALE, 9 * COORD_SCALE];
    let mut doc = RenderTree::new();
    convert(&text, 0, &mut doc, &font_defaults());
    assert_eq!(chunk_positions(&doc)[0].0, 7 * COORD_SCALE);
}

#[test]
fn tspan_without_text_content_is_skipped() {
    let empty = TSpanElem { attrs: AttrSet::new(), text: None };
    let text = text_elem(vec![span("a"), empty]);
    let mut doc = RenderTree::new();
    convert(&text, 0, &mut doc, &font_defaults());
    // Text root, one chunk, one run: the contentless tspan appends nothing.
    assert_eq!(doc.nodes.len(), 3);
}

#[test]
fn unknown_anchor_token_falls_back_to_start() {
    let mut text = text_elem(vec![span("a")]);
    text.attrs.text_anchor = Some(PredefValue::Other);
    let mut doc = RenderTree::new();
    convert(&text, 0, &mut doc, &font_defaults());
    assert_eq!(chunk_positions(&doc)[0].2, TextAnchor::Start);
}

#[test]
fn text_root_carries_id_and_transform() {
    let ts = Transform { a: COORD_SCALE, b: 0, c: 0, d: COORD_SCALE, e: 5, f: 6 };
    let mut text = text_elem(vec![span("a")]);
    text.attrs.transform = Some(ts);
    let mut doc = RenderTree::new();
    convert(&text, 0, &mut doc, &font_defaults());
    match &doc.nodes[0].kind {
        NodeKind::Text(t) => {
            assert_eq!(t.id, "t");
            assert!(t.transform == ts);
        },
        _ => panic!("first node must be the text root"),
    }
}

#[test]
fn absent_transform_resolves_to_identity() {
    let text = text_elem(vec![span("a")]);
    let mut doc = RenderTree::new();
    convert(&text, 0, &mut doc, &font_defaults());
    match &doc.nodes[0].kind {
        NodeKind::Text(t) => {
            assert!(t.transform == Transform::identity());
        },
        _ => panic!("first node must be the text root"),
    }
}

#[test]
fn run_carries_text_and_paint() {
    let mut s = span("hello");
    s.attrs.fill = red_fill();
    let text = text_elem(vec![s]);
    let mut doc = RenderTree::new();
    convert(&text, 0, &mut doc, &font_defaults());
    match &doc.nodes[2].kind {
        NodeKind::TSpan(run) => {
            assert_eq!(run.text, "hello");
            assert!(run.fill == red_fill());
            assert!(run.stroke == None);
        },
        _ => panic!("third node must be the run"),
    }
}

#[test]
fn decoration_inherited_from_text_element() {
    let mut text = text_elem(vec![span("a")]);
    text.attrs.text_decoration = Some(DecorationValue::Keywords(String::from("underline")));
    text.attrs.fill = red_fill();
    let mut doc = RenderTree::new();
    convert(&text, 0, &mut doc, &font_defaults());
    match &doc.nodes[2].kind {
        NodeKind::TSpan(run) => {
            let underline = run.decoration.underline.expect("underline must be active");
            // Style resolved against the text element's attributes.
            assert!(underline.fill == red_fill());
            assert!(run.decoration.overline == None);
            assert!(run.decoration.line_through == None);
        },
        _ => panic!("third node must be the run"),
    }
}

#[test]
fn decoration_own_token_wins_over_parent() {
    let mut s = span("a");
    s.attrs.text_decoration = Some(DecorationValue::Predef(PredefValue::Overline));
    s.attrs.fill = red_fill();
    let mut text = text_elem(vec![s]);
    text.attrs.text_decoration = Some(DecorationValue::Keywords(String::from("underline")));
    let mut doc = RenderTree::new();
    convert(&text, 0, &mut doc, &font_defaults());
    match &doc.nodes[2].kind {
        NodeKind::TSpan(run) => {
            let overline = run.decoration.overline.expect("overline must be active");
            // Style resolved against the tspan's own attributes.
            assert!(overline.fill == red_fill());
            // The parent's underline still applies, resolved against the
            // parent, whose fill is absent.
            let underline = run.decoration.underline.expect("underline must be active");
            assert!(underline.fill == None);
        },
        _ => panic!("third node must be the run"),
    }
}

#[test]
fn decoration_keyword_list_matches_by_substring() {
    let mut text = text_elem(vec![span("a")]);
    text.attrs.text_decoration = Some(
        DecorationValue::Keywords(String::from("overline linethrough")),
    );
    let mut doc = RenderTree::new();
    convert(&text, 0, &mut doc, &font_defaults());
    match &doc.nodes[2].kind {
        NodeKind::TSpan(run) => {
            assert!(run.decoration.underline == None);
            assert!(run.decoration.overline.is_some());
            assert!(run.decoration.line_through.is_some());
        },
        _ => panic!("third node must be the run"),
    }
}

#[test]
fn depths_and_parents_follow_document_order() {
    let mut second = span("b");
    second.attrs.x = vec![10 * COORD_SCALE];
    let text = text_elem(vec![span("a"), second]);
    let mut doc = RenderTree::new();
    convert(&text, 1, &mut doc, &font_defaults());
    // Text root at depth 1, chunks at 2, runs at 3.
    assert_eq!(doc.nodes[0].depth, 1);
    assert_eq!(doc.nodes[1].depth, 2);
    assert_eq!(doc.nodes[2].depth, 3);
    assert_eq!(doc.nodes[3].depth, 2);
    assert_eq!(doc.nodes[4].depth, 3);
    // The second run's parent is the second chunk; the chunks' parent is the
    // text root.
    assert_eq!(doc.parent_of(4), Some(3));
    assert_eq!(doc.parent_of(3), Some(0));
    assert_eq!(doc.parent_of(2), Some(1));
    assert_eq!(doc.parent_of(1), Some(0));
    assert_eq!(doc.parent_of(0), None);
}

#[test]
fn position_carries_over_without_new_chunk() {
    // The second tspan re-declares the carried-over position exactly: no new
    // chunk, but the position is still carried forward, so a third tspan at
    // another position measures against it.
    let mut second = span("b");
    second.attrs.x = vec![0];
    let mut third = span("c");
    third.attrs.x = vec![5 * COORD_SCALE];
    let text = text_elem(vec![span("a"), second, third]);
    let mut doc = RenderTree::new();
    convert(&text, 0, &mut doc, &font_defaults());
    let chunks = chunk_positions(&doc);
    assert_eq!(chunks.len(), 2);
    assert_eq!(chunks[1].0, 5 * COORD_SCALE);
}

#[test]
fn y_only_position_change_starts_new_chunk() {
    let mut second = span("b");
    second.attrs.y = vec![2 * COORD_SCALE];
    let text = text_elem(vec![span("a"), second]);
    let mut doc = RenderTree::new();
    convert(&text, 0, &mut doc, &font_defaults());
    let chunks = chunk_positions(&doc);
    assert_eq!(chunks.len(), 2);
    assert_eq!(chunks[1], (0, 2 * COORD_SCALE, TextAnchor::Start));
}
