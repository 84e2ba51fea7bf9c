//! The text converter: decomposes one text element into position-anchored
//! chunk nodes and styled run nodes, appended to the render tree in document
//! order.
//!
//! A new chunk starts when a tspan declares a position that differs from the
//! carried-over one under the tolerance-based comparison; runs are styled by
//! the paint, font and decoration resolvers.

use vstd::prelude::*;

use crate::attrs::{resolve_fill, resolve_stroke, AttrSet, DecorationValue, PredefValue};
use crate::font::{convert_font, font_of, font_size_of, FontDefaults};
use crate::geom::{fuzzy_eq, fuzzy_eq_spec, transform_or_identity, Transform};
use crate::strutil::{contains_seq, str_contains};
use crate::tree::{
    Node, NodeKind, RenderTree, TSpan, Text, TextAnchor, TextChunk, TextDecoration,
    TextDecorationStyle,
};

verus! {

/// One tspan child of a text element: its resolved attribute set and the
/// literal text content of its first child, if it has one.
#[derive(Debug)]
pub struct TSpanElem {
    pub attrs: AttrSet,
    pub text: Option<String>,
}

/// A text element: its id, its own resolved attribute set, and its tspan
/// children in document order.
#[derive(Debug)]
pub struct TextElem {
    pub id: String,
    pub attrs: AttrSet,
    pub spans: Vec<TSpanElem>,
}

/// The first value of a position list, or nothing when the list is empty
/// (an absent attribute). Further values are unsupported and ignored.
pub open spec fn first_num(list: Seq<i64>) -> Option<i64> {
    if list.len() == 0 {
        None
    } else {
        Some(list[0])
    }
}

/// A resolved position component, defaulting to the origin.
pub open spec fn pos_or_origin(v: Option<i64>) -> i64 {
    match v {
        Some(n) => n,
        None => 0,
    }
}

/// `text-anchor` token to anchor; unresolved tokens fall back to `Start`.
pub open spec fn anchor_of(v: Option<PredefValue>) -> TextAnchor {
    match v {
        Some(PredefValue::Middle) => TextAnchor::Middle,
        Some(PredefValue::End) => TextAnchor::End,
        _ => TextAnchor::Start,
    }
}

/// The decoration keyword list declared directly on a text element, empty
/// when the attribute is absent or not a keyword list.
pub open spec fn decoration_keywords(a: AttrSet) -> Seq<char> {
    match a.text_decoration {
        Some(DecorationValue::Keywords(s)) => s@,
        _ => Seq::<char>::empty(),
    }
}

/// Whether a text element declares the given decoration keyword, by
/// substring match over its keyword list.
pub open spec fn text_decl(a: AttrSet, keyword: Seq<char>) -> bool {
    contains_seq(decoration_keywords(a), keyword)
}

/// Whether a tspan's own `text-decoration` attribute is exactly the given
/// predefined token; never inherited, never composed with siblings.
pub open spec fn tspan_decl(a: AttrSet, v: PredefValue) -> bool {
    match a.text_decoration {
        Some(DecorationValue::Predef(p)) => p == v,
        _ => false,
    }
}

/// The decoration style resolved against one attribute set.
pub open spec fn deco_style_of(a: AttrSet) -> TextDecorationStyle {
    TextDecorationStyle { fill: a.fill, stroke: a.stroke }
}

/// One decoration kind's effective style: the tspan's own attributes when
/// the tspan declares the kind, else the text element's when it declares the
/// kind, else absent.
pub open spec fn deco_kind_of(text_a: AttrSet, span_a: AttrSet, in_tspan: bool, in_text: bool) -> Option<
    TextDecorationStyle,
> {
    if in_tspan {
        Some(deco_style_of(span_a))
    } else if in_text {
        Some(deco_style_of(text_a))
    } else {
        None
    }
}

/// The full decoration state of a run under a text element.
pub open spec fn decoration_of(text_a: AttrSet, span_a: AttrSet) -> TextDecoration {
    TextDecoration {
        underline: deco_kind_of(
            text_a,
            span_a,
            tspan_decl(span_a, PredefValue::Underline),
            text_decl(text_a, "underline"@),
        ),
        overline: deco_kind_of(
            text_a,
            span_a,
            tspan_decl(span_a, PredefValue::Overline),
            text_decl(text_a, "overline"@),
        ),
        line_through: deco_kind_of(
            text_a,
            span_a,
            tspan_decl(span_a, PredefValue::LineThrough),
            text_decl(text_a, "linethrough"@),
        ),
    }
}

/// The carried-over position after one tspan: its declared position (each
/// component defaulting to the carried-over one) when it has text content
/// and declares `x` or `y`, else unchanged.
pub open spec fn span_pos(span: TSpanElem, px: i64, py: i64) -> (i64, i64) {
    match span.text {
        None => (px, py),
        Some(t) => {
            let x = first_num(span.attrs.x@);
            let y = first_num(span.attrs.y@);
            if x is Some || y is Some {
                (
                    match x {
                        Some(v) => v,
                        None => px,
                    },
                    match y {
                        Some(v) => v,
                        None => py,
                    },
                )
            } else {
                (px, py)
            }
        },
    }
}

/// Whether a tspan starts a new chunk: it has text content, declares a
/// position, and that position differs from the carried-over one under the
/// tolerance-based comparison.
pub open spec fn span_emits_chunk(span: TSpanElem, px: i64, py: i64) -> bool {
    &&& span.text is Some
    &&& (first_num(span.attrs.x@) is Some || first_num(span.attrs.y@) is Some)
    &&& {
        let (tx, ty) = span_pos(span, px, py);
        !fuzzy_eq_spec(tx, px) || !fuzzy_eq_spec(ty, py)
    }
}

/// The next nesting level.
pub open spec fn depth_succ(depth: usize) -> usize {
    (depth + 1) as usize
}

/// The nodes one tspan appends: nothing without text content; else an
/// optional new chunk node followed by the run node one level deeper.
pub open spec fn span_nodes(
    text_a: AttrSet,
    span: TSpanElem,
    px: i64,
    py: i64,
    depth: usize,
    d: FontDefaults,
) -> Seq<Node> {
    match span.text {
        None => seq![],
        Some(t) => {
            let (tx, ty) = span_pos(span, px, py);
            let chunk_part: Seq<Node> = if span_emits_chunk(span, px, py) {
                seq![
                    Node {
                        depth,
                        kind: NodeKind::TextChunk(
                            TextChunk { x: tx, y: ty, anchor: anchor_of(span.attrs.text_anchor) },
                        ),
                    },
                ]
            } else {
                seq![]
            };
            chunk_part + seq![
                Node {
                    depth: depth_succ(depth),
                    kind: NodeKind::TSpan(
                        TSpan {
                            fill: span.attrs.fill,
                            stroke: span.attrs.stroke,
                            font: font_of(span.attrs, d),
                            decoration: decoration_of(text_a, span.attrs),
                            text: t,
                        },
                    ),
                },
            ]
        },
    }
}

/// The nodes a sequence of tspans appends, threading the carried-over
/// position through.
pub open spec fn spans_nodes(
    text_a: AttrSet,
    spans: Seq<TSpanElem>,
    px: i64,
    py: i64,
    depth: usize,
    d: FontDefaults,
) -> Seq<Node>
    decreases spans.len(),
{
    if spans.len() == 0 {
        seq![]
    } else {
        let (nx, ny) = span_pos(spans[0], px, py);
        span_nodes(text_a, spans[0], px, py, depth, d) + spans_nodes(
            text_a,
            spans.subrange(1, spans.len() as int),
            nx,
            ny,
            depth,
            d,
        )
    }
}

/// The nodes chunk conversion appends for a whole text element: the initial
/// chunk at the element's own (defaulted) position, then the tspans' nodes.
pub open spec fn chunks_nodes(text: TextElem, depth: usize, d: FontDefaults) -> Seq<Node> {
    let px = pos_or_origin(first_num(text.attrs.x@));
    let py = pos_or_origin(first_num(text.attrs.y@));
    seq![
        Node {
            depth,
            kind: NodeKind::TextChunk(
                TextChunk { x: px, y: py, anchor: anchor_of(text.attrs.text_anchor) },
            ),
        },
    ] + spans_nodes(text.attrs, text.spans@, px, py, depth, d)
}

/// The nodes full text conversion appends: the text root node carrying the
/// element's id and resolved transform, then its chunks one level deeper.
pub open spec fn convert_nodes(text: TextElem, depth: usize, d: FontDefaults) -> Seq<Node> {
    seq![
        Node {
            depth,
            kind: NodeKind::Text(
                Text { id: text.id, transform: transform_or_identity(text.attrs.transform) },
            ),
        },
    ] + chunks_nodes(text, depth_succ(depth), d)
}

/// Every tspan that will be converted resolves to a strictly positive font
/// size (callers filter non-positive sizes out upstream).
pub open spec fn spans_font_ok(spans: Seq<TSpanElem>, d: FontDefaults) -> bool {
    forall|k: int|
        0 <= k < spans.len() ==> ((#[trigger] spans[k]).text is Some ==> font_size_of(
            spans[k].attrs.font_size,
            d,
        ) > 0)
}

/// Which decoration kinds an element declares.
#[derive(Clone, Copy, PartialEq, Eq, Structural, Debug)]
pub struct TextDecoTypes {
    pub has_underline: bool,
    pub has_overline: bool,
    pub has_line_through: bool,
}

/// The decoration kinds declared directly on a text element, by substring
/// match over its space-separated keyword list.
pub fn conv_text_decoration(attrs: &AttrSet) -> (r: TextDecoTypes)
    ensures
        r.has_underline == text_decl(*attrs, "underline"@),
        r.has_overline == text_decl(*attrs, "overline"@),
        r.has_line_through == text_decl(*attrs, "linethrough"@),
{
    let def = String::new();
    let text: &str = match &attrs.text_decoration {
        Some(DecorationValue::Keywords(s)) => s.as_str(),
        _ => def.as_str(),
    };

    TextDecoTypes {
        has_underline: str_contains(text, "underline"),
        has_overline: str_contains(text, "overline"),
        has_line_through: str_contains(text, "linethrough"),
    }
}

/// The decoration kinds a tspan declares on its own attributes; independent
/// of any parent element.
pub fn conv_tspan_decoration(attrs: &AttrSet) -> (r: TextDecoTypes)
    ensures
        r.has_underline == tspan_decl(*attrs, PredefValue::Underline),
        r.has_overline == tspan_decl(*attrs, PredefValue::Overline),
        r.has_line_through == tspan_decl(*attrs, PredefValue::LineThrough),
{
    TextDecoTypes {
        has_underline: match &attrs.text_decoration {
            Some(DecorationValue::Predef(PredefValue::Underline)) => true,
            _ => false,
        },
        has_overline: match &attrs.text_decoration {
            Some(DecorationValue::Predef(PredefValue::Overline)) => true,
            _ => false,
        },
        has_line_through: match &attrs.text_decoration {
            Some(DecorationValue::Predef(PredefValue::LineThrough)) => true,
            _ => false,
        },
    }
}

/// One decoration kind's effective style, resolved against the chosen
/// source's attributes through the paint resolver.
fn gen_style(
    text_attrs: &AttrSet,
    span_attrs: &AttrSet,
    in_tspan: bool,
    in_text: bool,
) -> (r: Option<TextDecorationStyle>)
    ensures
        r == deco_kind_of(*text_attrs, *span_attrs, in_tspan, in_text),
{
    let n: &AttrSet = if in_tspan {
        span_attrs
    } else if in_text {
        text_attrs
    } else {
        return None;
    };

    let fill = resolve_fill(n);
    let stroke = resolve_stroke(n);

    Some(TextDecorationStyle { fill, stroke })
}

/// The full decoration state of one tspan under its text element, combining
/// the element's keyword list with the tspan's own token, kind by kind.
pub fn conv_tspan_decoration2(text_attrs: &AttrSet, span_attrs: &AttrSet) -> (r: TextDecoration)
    ensures
        r == decoration_of(*text_attrs, *span_attrs),
{
    let text_dec = conv_text_decoration(text_attrs);
    let tspan_dec = conv_tspan_decoration(span_attrs);

    TextDecoration {
        underline: gen_style(
            text_attrs,
            span_attrs,
            tspan_dec.has_underline,
            text_dec.has_underline,
        ),
        overline: gen_style(text_attrs, span_attrs, tspan_dec.has_overline, text_dec.has_overline),
        line_through: gen_style(
            text_attrs,
            span_attrs,
            tspan_dec.has_line_through,
            text_dec.has_line_through,
        ),
    }
}

/// The first value of a position list, or nothing when the attribute is
/// absent. Multi-value position lists are unsupported; only the first value
/// is used.
pub fn resolve_pos(list: &Vec<i64>) -> (r: Option<i64>)
    ensures
        r == first_num(list@),
{
    if list.len() > 0 {
        Some(list[0])
    } else {
        None
    }
}

/// The chunk anchor resolved from an attribute set.
pub fn conv_text_anchor(attrs: &AttrSet) -> (r: TextAnchor)
    ensures
        r == anchor_of(attrs.text_anchor),
{
    match attrs.text_anchor {
        Some(PredefValue::Start) => TextAnchor::Start,
        Some(PredefValue::Middle) => TextAnchor::Middle,
        Some(PredefValue::End) => TextAnchor::End,
        _ => TextAnchor::Start,
    }
}

/// Appends the chunk and run nodes of one text element: an initial chunk at
/// the element's own position, then, per tspan with text content, a new
/// chunk whenever the declared position escapes the tolerance of the
/// carried-over one, and the styled run itself one level deeper.
pub fn convert_chunks(
    text_elem: &TextElem,
    depth: usize,
    doc: &mut RenderTree,
    defaults: &FontDefaults,
)
    requires
        depth < usize::MAX,
        spans_font_ok(text_elem.spans@, *defaults),
    ensures
        final(doc).nodes@ == old(doc).nodes@ + chunks_nodes(*text_elem, depth, *defaults),
{
    let ghost old_nodes = old(doc).nodes@;

    let mut prev_x: i64 = match resolve_pos(&text_elem.attrs.x) {
        Some(v) => v,
        None => 0,
    };
    let mut prev_y: i64 = match resolve_pos(&text_elem.attrs.y) {
        Some(v) => v,
        None => 0,
    };

    doc.append_node(
        depth,
        NodeKind::TextChunk(
            TextChunk { x: prev_x, y: prev_y, anchor: conv_text_anchor(&text_elem.attrs) },
        ),
    );

    let len = text_elem.spans.len();
    let ghost spans = text_elem.spans@;
    proof {
        assert(spans.subrange(0, len as int) =~= spans);
        assert(old_nodes.push(doc.nodes@.last()) =~= old_nodes + seq![doc.nodes@.last()]);
    }

    let mut i: usize = 0;
    while i < len
        invariant
            len == text_elem.spans@.len(),
            spans == text_elem.spans@,
            i <= len,
            depth < usize::MAX,
            spans_font_ok(text_elem.spans@, *defaults),
            old_nodes + chunks_nodes(*text_elem, depth, *defaults) == doc.nodes@ + spans_nodes(
                text_elem.attrs,
                spans.subrange(i as int, len as int),
                prev_x,
                prev_y,
                depth,
                *defaults,
            ),
        decreases len - i,
    {
        let ghost remaining = spans.subrange(i as int, len as int);
        let ghost nodes_at_start = doc.nodes@;
        proof {
            assert(remaining[0] == spans[i as int]);
            assert(remaining.subrange(1, remaining.len() as int) =~= spans.subrange(
                i + 1,
                len as int,
            ));
        }

        let span = &text_elem.spans[i];

        let text: String = match &span.text {
            Some(node) => node.clone(),
            None => {
                proof {
                    assert(span_nodes(
                        text_elem.attrs,
                        remaining[0],
                        prev_x,
                        prev_y,
                        depth,
                        *defaults,
                    ) =~= Seq::<Node>::empty());
                    assert(spans_nodes(
                        text_elem.attrs,
                        remaining,
                        prev_x,
                        prev_y,
                        depth,
                        *defaults,
                    ) =~= spans_nodes(
                        text_elem.attrs,
                        spans.subrange(i + 1, len as int),
                        prev_x,
                        prev_y,
                        depth,
                        *defaults,
                    ));
                }
                i = i + 1;
                continue ;
            },
        };

        let ghost (nx, ny) = span_pos(spans[i as int], prev_x, prev_y);
        let ghost head_nodes = span_nodes(
            text_elem.attrs,
            spans[i as int],
            prev_x,
            prev_y,
            depth,
            *defaults,
        );
        let ghost tail_nodes = spans_nodes(
            text_elem.attrs,
            spans.subrange(i + 1, len as int),
            nx,
            ny,
            depth,
            *defaults,
        );
        proof {
            assert(spans_nodes(text_elem.attrs, remaining, prev_x, prev_y, depth, *defaults)
                == head_nodes + tail_nodes);
        }

        let x = resolve_pos(&span.attrs.x);
        let y = resolve_pos(&span.attrs.y);

        if x.is_some() || y.is_some() {
            let tx = match x {
                Some(v) => v,
                None => prev_x,
            };
            let ty = match y {
                Some(v) => v,
                None => prev_y,
            };

            if !fuzzy_eq(tx, prev_x) || !fuzzy_eq(ty, prev_y) {
                doc.append_node(
                    depth,
                    NodeKind::TextChunk(
                        TextChunk { x: tx, y: ty, anchor: conv_text_anchor(&span.attrs) },
                    ),
                );
            }

            prev_x = tx;
            prev_y = ty;
        }

        let fill = resolve_fill(&span.attrs);
        let stroke = resolve_stroke(&span.attrs);
        let decoration = conv_tspan_decoration2(&text_elem.attrs, &span.attrs);
        let font = convert_font(&span.attrs, defaults);
        doc.append_node(depth + 1, NodeKind::TSpan(TSpan { fill, stroke, font, decoration, text }));

        proof {
            assert(doc.nodes@ =~= nodes_at_start + head_nodes);
            assert((nodes_at_start + head_nodes) + tail_nodes =~= nodes_at_start + (head_nodes
                + tail_nodes));
        }

        i = i + 1;
    }

    proof {
        assert(spans.subrange(len as int, len as int) =~= Seq::<TSpanElem>::empty());
        assert(doc.nodes@ + Seq::<Node>::empty() =~= doc.nodes@);
    }
}

/// Converts one text element: appends its root node, carrying the element's
/// id and resolved transform, then its chunks and runs one level deeper.
pub fn convert(text_elem: &TextElem, depth: usize, doc: &mut RenderTree, defaults: &FontDefaults)
    requires
        depth + 1 < usize::MAX,
        spans_font_ok(text_elem.spans@, *defaults),
    ensures
        final(doc).nodes@ == old(doc).nodes@ + convert_nodes(*text_elem, depth, *defaults),
{
    let ghost old_nodes = old(doc).nodes@;

    let ts = match text_elem.attrs.transform {
        Some(t) => t,
        None => Transform::identity(),
    };

    doc.append_node(depth, NodeKind::Text(Text { id: text_elem.id.clone(), transform: ts }));

    let ghost root_nodes = doc.nodes@;
    proof {
        assert(root_nodes =~= old_nodes + seq![root_nodes.last()]);
    }

    convert_chunks(text_elem, depth + 1, doc, defaults);

    proof {
        assert((old_nodes + seq![root_nodes.last()]) + chunks_nodes(
            *text_elem,
            depth_succ(depth),
            *defaults,
        ) =~= old_nodes + (seq![root_nodes.last()] + chunks_nodes(
            *text_elem,
            depth_succ(depth),
            *defaults,
        )));
    }
}

/// How many chunk nodes a node sequence holds.
pub open spec fn chunk_count(s: Seq<Node>) -> int
    decreases s.len(),
{
    if s.len() == 0 {
        0
    } else {
        chunk_count(s.drop_last()) + if s.last().kind is TextChunk {
            1int
        } else {
            0int
        }
    }
}

proof fn lemma_chunk_count_add(a: Seq<Node>, b: Seq<Node>)
    ensures
        chunk_count(a + b) == chunk_count(a) + chunk_count(b),
    decreases b.len(),
{
    if b.len() == 0 {
        assert(a + b =~= a);
    } else {
        assert((a + b).drop_last() =~= a + b.drop_last());
        lemma_chunk_count_add(a, b.drop_last());
    }
}

proof fn lemma_span_nodes_chunk_count(
    text_a: AttrSet,
    span: TSpanElem,
    px: i64,
    py: i64,
    depth: usize,
    d: FontDefaults,
)
    ensures
        chunk_count(span_nodes(text_a, span, px, py, depth, d)) == if span_emits_chunk(
            span,
            px,
            py,
        ) {
            1int
        } else {
            0int
        },
{
    reveal_with_fuel(chunk_count, 3);
    match span.text {
        None => {
            assert(span_nodes(text_a, span, px, py, depth, d) =~= Seq::<Node>::empty());
        },
        Some(t) => {
            let out = span_nodes(text_a, span, px, py, depth, d);
            if span_emits_chunk(span, px, py) {
                assert(out.len() == 2);
                assert(out.drop_last().drop_last() =~= Seq::<Node>::empty());
                assert(out.drop_last() =~= seq![out[0]]);
            } else {
                assert(out.len() == 1);
                assert(out.drop_last() =~= Seq::<Node>::empty());
            }
        },
    }
}

proof fn lemma_spans_no_pos_no_chunks(
    text_a: AttrSet,
    spans: Seq<TSpanElem>,
    px: i64,
    py: i64,
    depth: usize,
    d: FontDefaults,
)
    requires
        forall|k: int|
            0 <= k < spans.len() ==> (#[trigger] spans[k]).attrs.x@.len() == 0
                && spans[k].attrs.y@.len() == 0,
    ensures
        chunk_count(spans_nodes(text_a, spans, px, py, depth, d)) == 0,
    decreases spans.len(),
{
    if spans.len() > 0 {
        let rest = spans.subrange(1, spans.len() as int);
        assert(forall|k: int|
            0 <= k < rest.len() ==> #[trigger] rest[k] == spans[k + 1]);
        lemma_span_nodes_chunk_count(text_a, spans[0], px, py, depth, d);
        lemma_spans_no_pos_no_chunks(
            text_a,
            rest,
            span_pos(spans[0], px, py).0,
            span_pos(spans[0], px, py).1,
            depth,
            d,
        );
        lemma_chunk_count_add(
            span_nodes(text_a, spans[0], px, py, depth, d),
            spans_nodes(
                text_a,
                rest,
                span_pos(spans[0], px, py).0,
                span_pos(spans[0], px, py).1,
                depth,
                d,
            ),
        );
    }
}

/// Chunk-splitting idempotence: a text element whose tspans all omit
/// explicit `x` and `y` produces exactly one chunk node, regardless of tspan
/// count.
pub proof fn lemma_single_chunk(text: TextElem, depth: usize, d: FontDefaults)
    requires
        forall|k: int|
            0 <= k < text.spans@.len() ==> (#[trigger] text.spans@[k]).attrs.x@.len() == 0
                && text.spans@[k].attrs.y@.len() == 0,
    ensures
        chunk_count(chunks_nodes(text, depth, d)) == 1,
{
    let px = pos_or_origin(first_num(text.attrs.x@));
    let py = pos_or_origin(first_num(text.attrs.y@));
    let head = seq![
        Node {
            depth,
            kind: NodeKind::TextChunk(
                TextChunk { x: px, y: py, anchor: anchor_of(text.attrs.text_anchor) },
            ),
        },
    ];
    assert(chunk_count(head) == 1) by {
        reveal_with_fuel(chunk_count, 2);
        assert(head.drop_last() =~= Seq::<Node>::empty());
    }
    lemma_spans_no_pos_no_chunks(text.attrs, text.spans@, px, py, depth, d);
    lemma_chunk_count_add(head, spans_nodes(text.attrs, text.spans@, px, py, depth, d));
}

/// Position change triggers a new chunk: with two tspans, the second
/// declaring an `x` that escapes the tolerance of the carried-over position,
/// exactly two chunk nodes are produced.
pub proof fn lemma_position_change_new_chunk(text: TextElem, depth: usize, d: FontDefaults)
    requires
        text.spans@.len() == 2,
        text.attrs.x@.len() == 0,
        text.attrs.y@.len() == 0,
        text.spans@[0].text is Some,
        text.spans@[1].text is Some,
        text.spans@[0].attrs.x@.len() == 0,
        text.spans@[0].attrs.y@.len() == 0,
        text.spans@[1].attrs.x@.len() == 1,
        text.spans@[1].attrs.y@.len() == 0,
        !fuzzy_eq_spec(text.spans@[1].attrs.x@[0], 0),
    ensures
        chunk_count(chunks_nodes(text, depth, d)) == 2,
{
    lemma_two_span_chunk_count(text, depth, d);
}

/// Position within tolerance continues the chunk: with two tspans, the
/// second declaring an `x` within the tolerance of the carried-over
/// position, exactly one chunk node is produced.
pub proof fn lemma_position_within_tolerance_one_chunk(text: TextElem, depth: usize, d: FontDefaults)
    requires
        text.spans@.len() == 2,
        text.attrs.x@.len() == 0,
        text.attrs.y@.len() == 0,
        text.spans@[0].text is Some,
        text.spans@[1].text is Some,
        text.spans@[0].attrs.x@.len() == 0,
        text.spans@[0].attrs.y@.len() == 0,
        text.spans@[1].attrs.x@.len() == 1,
        text.spans@[1].attrs.y@.len() == 0,
        fuzzy_eq_spec(text.spans@[1].attrs.x@[0], 0),
    ensures
        chunk_count(chunks_nodes(text, depth, d)) == 1,
{
    lemma_two_span_chunk_count(text, depth, d);
}

proof fn lemma_two_span_chunk_count(text: TextElem, depth: usize, d: FontDefaults)
    requires
        text.spans@.len() == 2,
        text.attrs.x@.len() == 0,
        text.attrs.y@.len() == 0,
        text.spans@[0].text is Some,
        text.spans@[1].text is Some,
        text.spans@[0].attrs.x@.len() == 0,
        text.spans@[0].attrs.y@.len() == 0,
        text.spans@[1].attrs.x@.len() == 1,
        text.spans@[1].attrs.y@.len() == 0,
    ensures
        chunk_count(chunks_nodes(text, depth, d)) == if fuzzy_eq_spec(
            text.spans@[1].attrs.x@[0],
            0,
        ) {
            1int
        } else {
            2int
        },
{
    let spans = text.spans@;
    let s0 = spans[0];
    let s1 = spans[1];
    let head = seq![
        Node {
            depth,
            kind: NodeKind::TextChunk(
                TextChunk { x: 0, y: 0, anchor: anchor_of(text.attrs.text_anchor) },
            ),
        },
    ];
    assert(chunks_nodes(text, depth, d) == head + spans_nodes(text.attrs, spans, 0, 0, depth, d));
    assert(chunk_count(head) == 1) by {
        reveal_with_fuel(chunk_count, 2);
        assert(head.drop_last() =~= Seq::<Node>::empty());
    }

    // The first tspan declares no position: it keeps the carried-over origin
    // and emits no chunk.
    assert(span_pos(s0, 0, 0) == (0i64, 0i64));
    assert(!span_emits_chunk(s0, 0, 0));
    lemma_span_nodes_chunk_count(text.attrs, s0, 0, 0, depth, d);

    let rest = spans.subrange(1, 2);
    assert(rest[0] == s1);
    assert(rest.subrange(1, 1) =~= Seq::<TSpanElem>::empty());
    assert(spans_nodes(text.attrs, spans, 0, 0, depth, d) == span_nodes(
        text.attrs,
        s0,
        0,
        0,
        depth,
        d,
    ) + spans_nodes(text.attrs, rest, 0, 0, depth, d));

    // The second tspan declares x; its y defaults to the carried-over one,
    // so a chunk appears exactly when x escapes the tolerance.
    assert(first_num(s1.attrs.x@) == Some(s1.attrs.x@[0]));
    assert(span_emits_chunk(s1, 0, 0) == !fuzzy_eq_spec(s1.attrs.x@[0], 0));
    lemma_span_nodes_chunk_count(text.attrs, s1, 0, 0, depth, d);

    let (nx, ny) = span_pos(s1, 0, 0);
    assert(spans_nodes(text.attrs, rest, 0, 0, depth, d) == span_nodes(
        text.attrs,
        s1,
        0,
        0,
        depth,
        d,
    ) + spans_nodes(text.attrs, rest.subrange(1, 1), nx, ny, depth, d));
    lemma_chunk_count_add(
        span_nodes(text.attrs, s1, 0, 0, depth, d),
        spans_nodes(text.attrs, rest.subrange(1, 1), nx, ny, depth, d),
    );
    lemma_chunk_count_add(
        span_nodes(text.attrs, s0, 0, 0, depth, d),
        spans_nodes(text.attrs, rest, 0, 0, depth, d),
    );
    lemma_chunk_count_add(head, spans_nodes(text.attrs, spans, 0, 0, depth, d));
}

/// Decoration precedence, inherited side: a tspan with no own
/// `text-decoration` under a text element declaring `underline` gets an
/// underline style resolved against the text element's attributes.
pub proof fn lemma_decoration_inherited(text_a: AttrSet, span_a: AttrSet)
    requires
        span_a.text_decoration is None,
        text_decl(text_a, "underline"@),
    ensures
        decoration_of(text_a, span_a).underline == Some(deco_style_of(text_a)),
{
}

/// Decoration precedence, own side: a tspan declaring `overline` gets an
/// overline style resolved against its own attributes, whatever the text
/// element declares.
pub proof fn lemma_decoration_own(text_a: AttrSet, span_a: AttrSet)
    requires
        tspan_decl(span_a, PredefValue::Overline),
    ensures
        decoration_of(text_a, span_a).overline == Some(deco_style_of(span_a)),
{
}

} // verus!
