//! Laws of the rendering engine, stated over the span model and proved once
//! for all trees.

use vstd::prelude::*;

use crate::conclusion::conclusion_label;
use crate::object::{FieldStyle, FieldView, ValueView};
use crate::render::{
    SpanKind, SpanView, element_spans, field_spans, fields_spans_upto, keyed_prefix, object_spans,
    plain, plain_text, render_text, styled,
};

verus! {

/// The indentation prefix of a nesting depth: one two-space unit per level.
pub open spec fn indent_text(d: nat) -> Seq<char>
    decreases d,
{
    if d == 0 {
        Seq::empty()
    } else {
        indent_text((d - 1) as nat) + seq![' ', ' ']
    }
}

/// An indentation prefix holds exactly two spaces per nesting level.
pub proof fn lemma_indent_text_len(d: nat)
    ensures
        indent_text(d).len() == 2 * d,
    decreases d,
{
    if d > 0 {
        lemma_indent_text_len((d - 1) as nat);
    }
}

/// Stripping styling distributes over concatenation of span sequences.
pub proof fn lemma_plain_text_concat(a: Seq<SpanView>, b: Seq<SpanView>)
    ensures
        plain_text(a + b) == plain_text(a) + plain_text(b),
    decreases b.len(),
{
    if b.len() == 0 {
        assert(a + b =~= a);
        assert(plain_text(a) + plain_text(b) =~= plain_text(a));
    } else {
        lemma_plain_text_concat(a, b.drop_last());
        assert((a + b).drop_last() =~= a + b.drop_last());
        assert((a + b).last() == b.last());
        assert(plain_text(a) + plain_text(b) =~= plain_text(a) + plain_text(b.drop_last())
            + b.last().text);
    }
}

/// The stripped text of a single span is its text.
pub proof fn lemma_plain_text_singleton(sp: SpanView)
    ensures
        plain_text(seq![sp]) == sp.text,
{
    reveal_with_fuel(plain_text, 2);
    assert(seq![sp].drop_last() =~= Seq::<SpanView>::empty());
    assert(Seq::<char>::empty() + sp.text =~= sp.text);
    assert(plain_text(seq![sp]) =~= sp.text);
}

/// The stripped text of the `* <key>: ` prefix.
pub proof fn lemma_plain_text_keyed_prefix(key: Seq<char>)
    ensures
        plain_text(keyed_prefix(key)) == seq!['*', ' '] + key + seq![':', ' '],
{
    let pre = keyed_prefix(key);
    assert(pre =~= seq![pre[0]] + seq![pre[1]] + seq![pre[2]] + seq![pre[3]]);
    lemma_plain_text_singleton(pre[0]);
    lemma_plain_text_singleton(pre[1]);
    lemma_plain_text_singleton(pre[2]);
    lemma_plain_text_singleton(pre[3]);
    lemma_plain_text_concat(seq![pre[0]], seq![pre[1]]);
    lemma_plain_text_concat(seq![pre[0]] + seq![pre[1]], seq![pre[2]]);
    lemma_plain_text_concat(seq![pre[0]] + seq![pre[1]] + seq![pre[2]], seq![pre[3]]);
    assert(plain_text(pre) =~= seq!['*', ' '] + key + seq![':', ' ']);
}

/// The leading indentation of a field line.
pub open spec fn line_lead(pad: Seq<char>, w: bool) -> Seq<char> {
    if w {
        pad
    } else {
        Seq::empty()
    }
}

/// A field whose style is `Description` and whose value is the empty string
/// renders as exactly one line break after the indentation: no key and no
/// marker reach the output.
pub proof fn lemma_empty_description_suppression(f: FieldView, pad: Seq<char>, w: bool)
    requires
        f.style == FieldStyle::Description,
        f.value == ValueView::Str(Seq::<char>::empty()),
    ensures
        plain_text(field_spans(f, pad, w)) == line_lead(pad, w) + seq!['\n'],
{
    let lead: Seq<SpanView> = if w {
        seq![plain(pad)]
    } else {
        Seq::empty()
    };
    lemma_plain_text_concat(lead, seq![plain(seq!['\n'])]);
    lemma_plain_text_singleton(plain(seq!['\n']));
    if w {
        lemma_plain_text_singleton(plain(pad));
    }
    assert(field_spans(f, pad, w) =~= lead + seq![plain(seq!['\n'])]);
    assert(plain_text(field_spans(f, pad, w)) =~= line_lead(pad, w) + seq!['\n']);
}

/// A field whose style is `Description` and whose value is a non-empty
/// string renders as exactly one line holding its key and its value.
pub proof fn lemma_description_line(f: FieldView, pad: Seq<char>, w: bool, s: Seq<char>)
    requires
        f.style == FieldStyle::Description,
        f.value == ValueView::Str(s),
        s.len() > 0,
    ensures
        plain_text(field_spans(f, pad, w)) == line_lead(pad, w) + seq!['*', ' '] + f.key + seq![
            ':',
            ' ',
        ] + s + seq!['\n'],
{
    let lead: Seq<SpanView> = if w {
        seq![plain(pad)]
    } else {
        Seq::empty()
    };
    let tail = seq![styled(s, SpanKind::DescriptionBlock), plain(seq!['\n'])];
    assert(field_spans(f, pad, w) =~= lead + keyed_prefix(f.key) + tail);
    lemma_plain_text_concat(lead, keyed_prefix(f.key));
    lemma_plain_text_concat(lead + keyed_prefix(f.key), tail);
    lemma_plain_text_keyed_prefix(f.key);
    lemma_plain_text_singleton(styled(s, SpanKind::DescriptionBlock));
    lemma_plain_text_concat(seq![styled(s, SpanKind::DescriptionBlock)], seq![plain(seq!['\n'])]);
    lemma_plain_text_singleton(plain(seq!['\n']));
    if w {
        lemma_plain_text_singleton(plain(pad));
    }
    assert(tail =~= seq![styled(s, SpanKind::DescriptionBlock)] + seq![plain(seq!['\n'])]);
    assert(plain_text(field_spans(f, pad, w)) =~= line_lead(pad, w) + seq!['*', ' '] + f.key
        + seq![':', ' '] + s + seq!['\n']);
}

/// A boolean field always renders the conclusion "Yes" for true and "No"
/// for false, and nothing else: there is no third outcome.
pub proof fn lemma_conclusion_totality(f: FieldView, pad: Seq<char>, w: bool, b: bool)
    requires
        f.value == ValueView::Bool(b),
    ensures
        plain_text(field_spans(f, pad, w)) == line_lead(pad, w) + seq!['*', ' '] + f.key + seq![
            ':',
            ' ',
        ] + conclusion_label(b) + seq!['\n'],
        conclusion_label(b) == if b {
            seq!['Y', 'e', 's']
        } else {
            seq!['N', 'o']
        },
{
    let lead: Seq<SpanView> = if w {
        seq![plain(pad)]
    } else {
        Seq::empty()
    };
    let kind = if b {
        SpanKind::GreenBold
    } else {
        SpanKind::RedBold
    };
    let tail = seq![styled(conclusion_label(b), kind), plain(seq!['\n'])];
    assert(field_spans(f, pad, w) =~= lead + keyed_prefix(f.key) + tail);
    lemma_plain_text_concat(lead, keyed_prefix(f.key));
    lemma_plain_text_concat(lead + keyed_prefix(f.key), tail);
    lemma_plain_text_keyed_prefix(f.key);
    lemma_plain_text_singleton(styled(conclusion_label(b), kind));
    lemma_plain_text_concat(seq![styled(conclusion_label(b), kind)], seq![plain(seq!['\n'])]);
    lemma_plain_text_singleton(plain(seq!['\n']));
    if w {
        lemma_plain_text_singleton(plain(pad));
    }
    assert(tail =~= seq![styled(conclusion_label(b), kind)] + seq![plain(seq!['\n'])]);
    assert(plain_text(field_spans(f, pad, w)) =~= line_lead(pad, w) + seq!['*', ' '] + f.key
        + seq![':', ' '] + conclusion_label(b) + seq!['\n']);
}

/// Every field rendered on its own line opens with exactly its level's
/// indentation prefix.
pub proof fn lemma_field_opens_with_indent(f: FieldView, pad: Seq<char>)
    ensures
        field_spans(f, pad, true).len() > 0,
        field_spans(f, pad, true)[0] == plain(pad),
{
}

/// An object nested as a field at depth `d` opens a braced block whose own
/// fields render at depth `d + 1`, while its closing brace stays at depth
/// `d`: indentation corresponds one-to-one to nesting depth.
pub proof fn lemma_nesting_depth(f: FieldView, inner: Seq<FieldView>, d: nat)
    requires
        f.value == ValueView::Object(inner),
    ensures
        field_spans(f, indent_text(d), true) == seq![
            plain(indent_text(d)),
            styled(seq!['*'], SpanKind::MagentaBold),
            plain(seq![' ']),
            styled(f.key, SpanKind::Bold),
            plain(seq![':', ' ']),
            styled(seq!['{'], SpanKind::MagentaBold),
            plain(seq!['\n']),
        ] + object_spans(inner, indent_text(d + 1), true) + seq![
            plain(indent_text(d)),
            styled(seq!['}'], SpanKind::MagentaBold),
            plain(seq!['\n']),
        ],
{
    assert(indent_text(d + 1) == indent_text(d) + seq![' ', ' ']);
    assert(field_spans(f, indent_text(d), true) =~= seq![
        plain(indent_text(d)),
        styled(seq!['*'], SpanKind::MagentaBold),
        plain(seq![' ']),
        styled(f.key, SpanKind::Bold),
        plain(seq![':', ' ']),
        styled(seq!['{'], SpanKind::MagentaBold),
        plain(seq!['\n']),
    ] + object_spans(inner, indent_text(d + 1), true) + seq![
        plain(indent_text(d)),
        styled(seq!['}'], SpanKind::MagentaBold),
        plain(seq!['\n']),
    ]);
}

/// An object standing as a vector element renders parenthesized and inline,
/// at the vector's own indentation: its fields are not indented one level
/// deeper, however deep the vector itself stands.
pub proof fn lemma_vector_inline_flattening(v: ValueView, inner: Seq<FieldView>, pad: Seq<char>)
    requires
        v == ValueView::Object(inner),
    ensures
        element_spans(v, pad) == seq![plain(seq!['('])] + object_spans(inner, pad, false) + seq![
            plain(seq![')', ',', '\n']),
        ],
{
    assert(element_spans(v, pad) =~= seq![plain(seq!['('])] + object_spans(inner, pad, false)
        + seq![plain(seq![')', ',', '\n'])]);
}

/// The span prefix of a field list does not depend on fields beyond it.
pub proof fn lemma_fields_spans_upto_push(
    fields: Seq<FieldView>,
    f: FieldView,
    n: int,
    pad: Seq<char>,
    w: bool,
)
    requires
        0 <= n <= fields.len(),
    ensures
        fields_spans_upto(fields.push(f), n, pad, w) == fields_spans_upto(fields, n, pad, w),
    decreases n,
{
    if n > 0 {
        lemma_fields_spans_upto_push(fields, f, n - 1, pad, w);
        assert(fields.push(f)[n - 1] == fields[n - 1]);
    }
}

/// Order preservation at the output: appending a field to an object appends
/// exactly that field's rendering at the end, so display order is insertion
/// order.
pub proof fn lemma_order_preservation(fields: Seq<FieldView>, f: FieldView, pad: Seq<char>, w: bool)
    ensures
        object_spans(fields.push(f), pad, w) == object_spans(fields, pad, w) + field_spans(
            f,
            pad,
            w,
        ),
        plain_text(object_spans(fields.push(f), pad, w)) == plain_text(
            object_spans(fields, pad, w),
        ) + plain_text(field_spans(f, pad, w)),
{
    lemma_fields_spans_upto_push(fields, f, fields.len() as int, pad, w);
    assert(fields.push(f)[fields.len() as int] == f);
    assert(fields.push(f).len() == fields.len() + 1);
    lemma_plain_text_concat(object_spans(fields, pad, w), field_spans(f, pad, w));
}

/// A one-field object renders as that field alone, so the per-field laws
/// above speak directly about whole renders.
pub proof fn lemma_single_field_object(f: FieldView, pad: Seq<char>, w: bool)
    ensures
        object_spans(seq![f], pad, w) == field_spans(f, pad, w),
{
    reveal_with_fuel(fields_spans_upto, 2);
    assert(seq![f][0] == f);
    assert(Seq::<SpanView>::empty() + field_spans(f, pad, w) =~= field_spans(f, pad, w));
}

/// Rendering is a pure function of the tree: any two renderings of the same
/// fields are byte-identical.
pub proof fn lemma_render_deterministic(fields: Seq<FieldView>, a: Seq<char>, b: Seq<char>)
    requires
        a == render_text(fields),
        b == render_text(fields),
    ensures
        a == b,
{
}

/// An object with no fields renders to the empty string.
pub proof fn lemma_empty_object_renders_empty(fields: Seq<FieldView>)
    requires
        fields.len() == 0,
    ensures
        render_text(fields) == Seq::<char>::empty(),
{
}

} // verus!
