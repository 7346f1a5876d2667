//! The pretty-printing engine.
//!
//! Rendering happens in two passes: the tree is first walked depth-first into
//! a sequence of styled spans (the algorithm proper: indentation, nesting,
//! field order, suppression rules), and a span sequence is then serialized,
//! either with styling stripped or through a terminal styling backend.

use vstd::prelude::*;
use vstd::string::StringExecFns;

use crate::conclusion::{Conclusion, ConclusionColor, conclusion_label};
use crate::object::{
    Field, FieldStyle, FieldView, Object, Value, ValueView, field_view, lemma_field_seq_view,
    lemma_value_seq_view, value_seq_view, value_view,
};

verus! {

/// How a piece of rendered text is to be styled by a terminal backend.
#[derive(Clone, Copy, Debug, PartialEq, Eq)]
pub enum SpanKind {
    /// Unstyled text: indentation, separators, line breaks.
    Plain,
    /// The field marker and the braces of nested objects.
    MagentaBold,
    /// Keys of nested objects and vector brackets.
    Bold,
    /// Auto-styled string values.
    BlueBold,
    /// The "Yes" conclusion, price values and the currency suffix.
    GreenBold,
    /// The "No" conclusion.
    RedBold,
    /// Scalar vector elements.
    YellowBold,
    /// Enum-styled values: a highlighted badge.
    EnumBadge,
    /// Description-styled values: a shaded text block.
    DescriptionBlock,
}

/// One styled piece of rendered output.
#[derive(Debug)]
pub struct Span {
    pub text: String,
    pub kind: SpanKind,
}

/// The mathematical shape of a span.
#[verifier::ext_equal]
pub struct SpanView {
    pub text: Seq<char>,
    pub kind: SpanKind,
}

impl View for Span {
    type V = SpanView;

    open spec fn view(&self) -> SpanView {
        SpanView { text: self.text@, kind: self.kind }
    }
}

/// The views of a sequence of spans.
pub open spec fn span_seq_view(s: Seq<Span>) -> Seq<SpanView> {
    Seq::new(s.len(), |i: int| s[i]@)
}

/// An unstyled span.
pub open spec fn plain(text: Seq<char>) -> SpanView {
    SpanView { text, kind: SpanKind::Plain }
}

/// A styled span.
pub open spec fn styled(text: Seq<char>, kind: SpanKind) -> SpanView {
    SpanView { text, kind }
}

/// The `* <key>: ` prefix that opens most field lines.
pub open spec fn keyed_prefix(key: Seq<char>) -> Seq<SpanView> {
    seq![
        styled(seq!['*'], SpanKind::MagentaBold),
        plain(seq![' ']),
        plain(key),
        plain(seq![':', ' ']),
    ]
}

/// The text of a span sequence with all styling stripped.
pub open spec fn plain_text(spans: Seq<SpanView>) -> Seq<char>
    decreases spans.len(),
{
    if spans.len() == 0 {
        Seq::empty()
    } else {
        plain_text(spans.drop_last()) + spans.last().text
    }
}

/// The spans of the first `n` fields, each at indentation `pad`.
pub open spec fn fields_spans_upto(
    fields: Seq<FieldView>,
    n: int,
    pad: Seq<char>,
    w: bool,
) -> Seq<SpanView>
    decreases fields, n,
{
    if n <= 0 || n > fields.len() {
        Seq::empty()
    } else {
        fields_spans_upto(fields, n - 1, pad, w) + field_spans(fields[n - 1], pad, w)
    }
}

/// The spans of one field at indentation `pad`; `w` says whether the field
/// opens its own line (false inside a vector, where fields run inline).
pub open spec fn field_spans(f: FieldView, pad: Seq<char>, w: bool) -> Seq<SpanView>
    decreases f, 3int,
{
    (if w {
        seq![plain(pad)]
    } else {
        Seq::<SpanView>::empty()
    }) + match f.value {
        ValueView::Bool(b) => keyed_prefix(f.key) + seq![
            styled(
                conclusion_label(b),
                if b {
                    SpanKind::GreenBold
                } else {
                    SpanKind::RedBold
                },
            ),
            plain(seq!['\n']),
        ],
        ValueView::Str(s) => match f.style {
            FieldStyle::Auto => keyed_prefix(f.key) + seq![
                styled(s, SpanKind::BlueBold),
                plain(seq!['\n']),
            ],
            FieldStyle::Enum => keyed_prefix(f.key) + seq![
                styled(s, SpanKind::EnumBadge),
                plain(seq!['\n']),
            ],
            FieldStyle::Price => keyed_prefix(f.key) + seq![
                styled(s, SpanKind::GreenBold),
                styled(seq!['$'], SpanKind::GreenBold),
                plain(seq!['\n']),
            ],
            FieldStyle::Description => if s.len() == 0 {
                seq![plain(seq!['\n'])]
            } else {
                keyed_prefix(f.key) + seq![
                    styled(s, SpanKind::DescriptionBlock),
                    plain(seq!['\n']),
                ]
            },
        },
        ValueView::Object(inner) => (if w {
            seq![styled(seq!['*'], SpanKind::MagentaBold), plain(seq![' '])]
        } else {
            Seq::<SpanView>::empty()
        }) + seq![
            styled(f.key, SpanKind::Bold),
            plain(seq![':', ' ']),
            styled(seq!['{'], SpanKind::MagentaBold),
            plain(seq!['\n']),
        ] + fields_spans_upto(inner, inner.len() as int, pad + seq![' ', ' '], true) + seq![
            plain(pad),
            styled(seq!['}'], SpanKind::MagentaBold),
        ] + (if w {
            seq![plain(seq!['\n'])]
        } else {
            Seq::<SpanView>::empty()
        }),
        ValueView::Vector(elems) => keyed_prefix(f.key) + seq![styled(seq!['['], SpanKind::Bold)]
            + elements_spans_upto(elems, elems.len() as int, pad) + seq![
            styled(seq![']'], SpanKind::Bold),
            plain(seq!['\n']),
        ],
    }
}

/// The spans of the first `n` vector elements at indentation `pad`.
pub open spec fn elements_spans_upto(elems: Seq<ValueView>, n: int, pad: Seq<char>) -> Seq<
    SpanView,
>
    decreases elems, n,
{
    if n <= 0 || n > elems.len() {
        Seq::empty()
    } else {
        elements_spans_upto(elems, n - 1, pad) + element_spans(elems[n - 1], pad)
    }
}

/// The spans of one vector element: a nested object renders parenthesized,
/// inline, at the vector's own indentation; every other variant renders as
/// its single-line text followed by a separator.
pub open spec fn element_spans(v: ValueView, pad: Seq<char>) -> Seq<SpanView>
    decreases v, 2int,
{
    match v {
        ValueView::Object(inner) => seq![plain(seq!['('])] + fields_spans_upto(
            inner,
            inner.len() as int,
            pad,
            false,
        ) + seq![plain(seq![')', ',', '\n'])],
        _ => seq![styled(inline_text(v), SpanKind::YellowBold), plain(seq![',', ' '])],
    }
}

/// The single-line text of a value standing inside a vector: booleans print
/// bare, vectors bracket their elements with no separators, and objects fall
/// back to their whole multi-line rendering with styling stripped.
pub open spec fn inline_text(v: ValueView) -> Seq<char>
    decreases v, 1int,
{
    match v {
        ValueView::Bool(b) => if b {
            seq!['t', 'r', 'u', 'e']
        } else {
            seq!['f', 'a', 'l', 's', 'e']
        },
        ValueView::Str(s) => s,
        ValueView::Object(fields) => plain_text(
            fields_spans_upto(fields, fields.len() as int, Seq::empty(), true),
        ),
        ValueView::Vector(elems) => seq!['['] + inline_list_text(elems, elems.len() as int)
            + seq![']'],
    }
}

/// The concatenated single-line texts of the first `n` vector elements.
pub open spec fn inline_list_text(elems: Seq<ValueView>, n: int) -> Seq<char>
    decreases elems, n,
{
    if n <= 0 || n > elems.len() {
        Seq::empty()
    } else {
        inline_list_text(elems, n - 1) + inline_text(elems[n - 1])
    }
}

/// The spans of a whole field list at indentation `pad`.
pub open spec fn object_spans(fields: Seq<FieldView>, pad: Seq<char>, w: bool) -> Seq<SpanView> {
    fields_spans_upto(fields, fields.len() as int, pad, w)
}

/// The text of a whole render, styling stripped, starting at indentation
/// zero: the reference every renderer is held to.
pub open spec fn render_text(fields: Seq<FieldView>) -> Seq<char> {
    plain_text(object_spans(fields, Seq::empty(), true))
}

impl Span {
    /// An unstyled span.
    fn plain_str(text: &str) -> (s: Span)
        ensures
            s@ == plain(text@),
    {
        Span { text: text.to_owned(), kind: SpanKind::Plain }
    }

    /// A styled span copying its text.
    fn styled_str(text: &str, kind: SpanKind) -> (s: Span)
        ensures
            s@ == styled(text@, kind),
    {
        Span { text: text.to_owned(), kind }
    }

    /// A styled span owning its text.
    fn styled_string(text: String, kind: SpanKind) -> (s: Span)
        ensures
            s@ == styled(text@, kind),
    {
        Span { text, kind }
    }
}

/// The concatenated text of the spans, styling stripped.
#[verifier::loop_isolation(false)]
pub fn plain_string(spans: &Vec<Span>) -> (r: String)
    ensures
        r@ == plain_text(span_seq_view(spans@)),
{
    let ghost all = span_seq_view(spans@);
    let mut r = String::new();
    let n = spans.len();
    let mut i: usize = 0;
    while i < n
        invariant
            0 <= i <= n,
            r@ == plain_text(all.take(i as int)),
        decreases n - i,
    {
        r.append(spans[i].text.as_str());
        proof {
            assert(all.take(i + 1).drop_last() =~= all.take(i as int));
            assert(all.take(i + 1).last() == spans@[i as int]@);
        }
        i = i + 1;
    }
    proof {
        assert(all.take(n as int) =~= all);
    }
    r
}

/// Appends the `* <key>: ` spans that open most field lines.
fn push_keyed_prefix(key: &str, out: &mut Vec<Span>)
    ensures
        span_seq_view(final(out)@) == span_seq_view(old(out)@) + keyed_prefix(key@),
{
    out.push(Span::styled_str("*", SpanKind::MagentaBold));
    out.push(Span::plain_str(" "));
    out.push(Span::plain_str(key));
    out.push(Span::plain_str(": "));
    proof {
        reveal_strlit("*");
        reveal_strlit(" ");
        reveal_strlit(": ");
        assert(span_seq_view(out@) =~~= span_seq_view(old(out)@) + keyed_prefix(key@));
    }
}

/// Appends the spans of one field at indentation `pad`.
#[verifier::loop_isolation(false)]
#[verifier::rlimit(100)]
fn emit_field(field: &Field, pad: &str, w: bool, out: &mut Vec<Span>)
    ensures
        span_seq_view(final(out)@) == span_seq_view(old(out)@) + field_spans(field@, pad@, w),
    decreases *field, 1int,
{
    let ghost fv = field@;
    if w {
        out.push(Span::plain_str(pad));
    }
    let ghost lead: Seq<SpanView> = if w {
        seq![plain(pad@)]
    } else {
        Seq::<SpanView>::empty()
    };
    let ghost out_lead: Seq<Span> = out@;
    proof {
        assert(span_seq_view(out_lead) =~~= span_seq_view(old(out)@) + lead);
    }
    match &field.value {
        Value::Bool(b) => {
            let conclusion = Conclusion(*b);
            let kind = match conclusion.color() {
                ConclusionColor::Green => SpanKind::GreenBold,
                ConclusionColor::Red => SpanKind::RedBold,
            };
            push_keyed_prefix(field.key.as_str(), out);
            let ghost out_pref: Seq<Span> = out@;
            out.push(Span::styled_str(conclusion.value(), kind));
            out.push(Span::plain_str("\n"));
            proof {
                reveal_strlit("\n");
                assert(span_seq_view(out@) =~~= span_seq_view(out_pref) + seq![
                    styled(conclusion_label(*b), kind),
                    plain(seq!['\n']),
                ]);
                assert(span_seq_view(out@) =~~= span_seq_view(old(out)@) + field_spans(
                    fv,
                    pad@,
                    w,
                ));
            }
        },
        Value::String(s) => {
            match &field.style {
                FieldStyle::Auto => {
                    push_keyed_prefix(field.key.as_str(), out);
                    let ghost out_pref: Seq<Span> = out@;
                    out.push(Span::styled_str(s.as_str(), SpanKind::BlueBold));
                    out.push(Span::plain_str("\n"));
                    proof {
                        reveal_strlit("\n");
                        assert(span_seq_view(out@) =~~= span_seq_view(out_pref) + seq![
                            styled(s@, SpanKind::BlueBold),
                            plain(seq!['\n']),
                        ]);
                        assert(span_seq_view(out@) =~~= span_seq_view(old(out)@) + field_spans(
                            fv,
                            pad@,
                            w,
                        ));
                    }
                },
                FieldStyle::Enum => {
                    push_keyed_prefix(field.key.as_str(), out);
                    let ghost out_pref: Seq<Span> = out@;
                    out.push(Span::styled_str(s.as_str(), SpanKind::EnumBadge));
                    out.push(Span::plain_str("\n"));
                    proof {
                        reveal_strlit("\n");
                        assert(span_seq_view(out@) =~~= span_seq_view(out_pref) + seq![
                            styled(s@, SpanKind::EnumBadge),
                            plain(seq!['\n']),
                        ]);
                        assert(span_seq_view(out@) =~~= span_seq_view(old(out)@) + field_spans(
                            fv,
                            pad@,
                            w,
                        ));
                    }
                },
                FieldStyle::Price => {
                    push_keyed_prefix(field.key.as_str(), out);
                    let ghost out_pref: Seq<Span> = out@;
                    out.push(Span::styled_str(s.as_str(), SpanKind::GreenBold));
                    out.push(Span::styled_str("$", SpanKind::GreenBold));
                    out.push(Span::plain_str("\n"));
                    proof {
                        reveal_strlit("\n");
                        reveal_strlit("$");
                        assert(span_seq_view(out@) =~~= span_seq_view(out_pref) + seq![
                            styled(s@, SpanKind::GreenBold),
                            styled(seq!['$'], SpanKind::GreenBold),
                            plain(seq!['\n']),
                        ]);
                        assert(span_seq_view(out@) =~~= span_seq_view(old(out)@) + field_spans(
                            fv,
                            pad@,
                            w,
                        ));
                    }
                },
                FieldStyle::Description => {
                    if s.as_str().is_empty() {
                        out.push(Span::plain_str("\n"));
                        proof {
                            reveal_strlit("\n");
                            assert(span_seq_view(out@) =~~= span_seq_view(out_lead) + seq![
                                plain(seq!['\n']),
                            ]);
                            assert(span_seq_view(out@) =~~= span_seq_view(old(out)@)
                                + field_spans(fv, pad@, w));
                        }
                    } else {
                        push_keyed_prefix(field.key.as_str(), out);
                        let ghost out_pref: Seq<Span> = out@;
                        out.push(Span::styled_str(s.as_str(), SpanKind::DescriptionBlock));
                        out.push(Span::plain_str("\n"));
                        proof {
                            reveal_strlit("\n");
                            assert(span_seq_view(out@) =~~= span_seq_view(out_pref) + seq![
                                styled(s@, SpanKind::DescriptionBlock),
                                plain(seq!['\n']),
                            ]);
                            assert(span_seq_view(out@) =~~= span_seq_view(old(out)@)
                                + field_spans(fv, pad@, w));
                        }
                    }
                },
            }
        },
        Value::Object(o) => {
            if w {
                out.push(Span::styled_str("*", SpanKind::MagentaBold));
                out.push(Span::plain_str(" "));
            }
            out.push(Span::styled_str(field.key.as_str(), SpanKind::Bold));
            out.push(Span::plain_str(": "));
            out.push(Span::styled_str("{", SpanKind::MagentaBold));
            out.push(Span::plain_str("\n"));
            let mut deeper = String::from_str(pad);
            deeper.append("  ");
            let ghost out_open: Seq<Span> = out@;
            let ghost opening: Seq<SpanView> = lead + (if w {
                seq![styled(seq!['*'], SpanKind::MagentaBold), plain(seq![' '])]
            } else {
                Seq::<SpanView>::empty()
            }) + seq![
                styled(fv.key, SpanKind::Bold),
                plain(seq![':', ' ']),
                styled(seq!['{'], SpanKind::MagentaBold),
                plain(seq!['\n']),
            ];
            proof {
                reveal_strlit("*");
                reveal_strlit(" ");
                reveal_strlit(": ");
                reveal_strlit("\n");
                reveal_strlit("{");
                reveal_strlit("  ");
                assert(deeper@ =~= pad@ + seq![' ', ' ']);
                assert(span_seq_view(out_open) =~~= span_seq_view(old(out)@) + opening);
            }
            o.pretty_print(deeper.as_str(), true, out);
            let ghost out_rec: Seq<Span> = out@;
            out.push(Span::plain_str(pad));
            out.push(Span::styled_str("}", SpanKind::MagentaBold));
            if w {
                out.push(Span::plain_str("\n"));
            }
            let ghost closing: Seq<SpanView> = seq![
                plain(pad@),
                styled(seq!['}'], SpanKind::MagentaBold),
            ] + (if w {
                seq![plain(seq!['\n'])]
            } else {
                Seq::<SpanView>::empty()
            });
            proof {
                reveal_strlit("\n");
                reveal_strlit("}");
                assert(span_seq_view(out@) =~~= span_seq_view(out_rec) + closing);
                assert(field_spans(fv, pad@, w) =~~= opening + object_spans(
                    o@,
                    pad@ + seq![' ', ' '],
                    true,
                ) + closing);
                assert(span_seq_view(out@) =~~= span_seq_view(old(out)@) + field_spans(
                    fv,
                    pad@,
                    w,
                ));
            }
        },
        Value::Vector(vs) => {
            push_keyed_prefix(field.key.as_str(), out);
            out.push(Span::styled_str("[", SpanKind::Bold));
            let ghost ev = value_seq_view(vs@);
            proof {
                lemma_value_seq_view(vs@);
            }
            let ghost out_mid: Seq<Span> = out@;
            proof {
                reveal_strlit("[");
                assert(span_seq_view(out_mid) =~~= span_seq_view(old(out)@) + lead + keyed_prefix(
                    fv.key,
                ) + seq![styled(seq!['['], SpanKind::Bold)]);
            }
            let m = vs.len();
            let mut j: usize = 0;
            while j < m
                invariant
                    0 <= j <= m,
                    span_seq_view(out@) == span_seq_view(out_mid) + elements_spans_upto(
                        ev,
                        j as int,
                        pad@,
                    ),
                decreases m - j,
            {
                emit_element(&vs[j], pad, out);
                proof {
                    assert(ev[j as int] == value_view(vs@[j as int]));
                    assert(elements_spans_upto(ev, j + 1, pad@) =~~= elements_spans_upto(
                        ev,
                        j as int,
                        pad@,
                    ) + element_spans(ev[j as int], pad@));
                    assert(span_seq_view(out@) =~~= span_seq_view(out_mid) + elements_spans_upto(
                        ev,
                        j + 1,
                        pad@,
                    ));
                }
                j = j + 1;
            }
            let ghost out_elems: Seq<Span> = out@;
            out.push(Span::styled_str("]", SpanKind::Bold));
            out.push(Span::plain_str("\n"));
            proof {
                reveal_strlit("]");
                reveal_strlit("\n");
                assert(span_seq_view(out@) =~~= span_seq_view(out_elems) + seq![
                    styled(seq![']'], SpanKind::Bold),
                    plain(seq!['\n']),
                ]);
                assert(field_spans(fv, pad@, w) =~~= lead + keyed_prefix(fv.key) + seq![
                    styled(seq!['['], SpanKind::Bold),
                ] + elements_spans_upto(ev, ev.len() as int, pad@) + seq![
                    styled(seq![']'], SpanKind::Bold),
                    plain(seq!['\n']),
                ]);
                assert(span_seq_view(out@) =~~= span_seq_view(old(out)@) + field_spans(
                    fv,
                    pad@,
                    w,
                ));
            }
        },
    }
}

/// Appends the spans of one vector element at indentation `pad`.
fn emit_element(element: &Value, pad: &str, out: &mut Vec<Span>)
    ensures
        span_seq_view(final(out)@) == span_seq_view(old(out)@) + element_spans(element@, pad@),
    decreases *element, 1int,
{
    match element {
        Value::Object(o) => {
            out.push(Span::plain_str("("));
            let ghost out_paren: Seq<Span> = out@;
            proof {
                reveal_strlit("(");
                assert(span_seq_view(out_paren) =~~= span_seq_view(old(out)@) + seq![
                    plain(seq!['(']),
                ]);
            }
            o.pretty_print(pad, false, out);
            let ghost out_inner: Seq<Span> = out@;
            out.push(Span::plain_str("),\n"));
            proof {
                reveal_strlit("),\n");
                assert(span_seq_view(out@) =~~= span_seq_view(out_inner) + seq![
                    plain(seq![')', ',', '\n']),
                ]);
                assert(element_spans(element@, pad@) =~~= seq![plain(seq!['('])] + object_spans(
                    o@,
                    pad@,
                    false,
                ) + seq![plain(seq![')', ',', '\n'])]);
                assert(span_seq_view(out@) =~~= span_seq_view(old(out)@) + element_spans(
                    element@,
                    pad@,
                ));
            }
        },
        _ => {
            let text = element.inline_text();
            out.push(Span::styled_string(text, SpanKind::YellowBold));
            out.push(Span::plain_str(", "));
            proof {
                reveal_strlit(", ");
                assert(span_seq_view(out@) =~~= span_seq_view(old(out)@) + element_spans(
                    element@,
                    pad@,
                ));
            }
        },
    }
}

impl Object {
    /// Walks the fields depth-first, appending one span per piece of output.
    /// `pad` is the indentation prefix written before each field of this
    /// level; `w` says whether each field opens its own line (false while
    /// rendering inline inside a vector).
    #[verifier::loop_isolation(false)]
    pub fn pretty_print(&self, pad: &str, w: bool, out: &mut Vec<Span>)
        ensures
            span_seq_view(final(out)@) == span_seq_view(old(out)@) + object_spans(
                self@,
                pad@,
                w,
            ),
        decreases *self, 0int,
    {
        proof {
            lemma_field_seq_view(self.fields@);
        }
        let ghost out0: Seq<Span> = out@;
        let n = self.fields.len();
        let mut i: usize = 0;
        while i < n
            invariant
                0 <= i <= n,
                span_seq_view(out@) == span_seq_view(out0) + fields_spans_upto(
                    self@,
                    i as int,
                    pad@,
                    w,
                ),
            decreases n - i,
        {
            let field = &self.fields[i];
            emit_field(field, pad, w, out);
            proof {
                assert(self@[i as int] == field_view(self.fields@[i as int]));
                assert(fields_spans_upto(self@, i + 1, pad@, w) =~~= fields_spans_upto(
                    self@,
                    i as int,
                    pad@,
                    w,
                ) + field_spans(self@[i as int], pad@, w));
                assert(span_seq_view(out@) =~~= span_seq_view(out0) + fields_spans_upto(
                    self@,
                    i + 1,
                    pad@,
                    w,
                ));
            }
            i = i + 1;
        }
    }

    /// All spans of this object, starting at indentation zero with each field
    /// opening its own line.
    pub fn render_spans(&self) -> (spans: Vec<Span>)
        ensures
            span_seq_view(spans@) == object_spans(self@, Seq::empty(), true),
    {
        let mut out: Vec<Span> = Vec::new();
        let empty = String::new();
        proof {
            assert(span_seq_view(Seq::<Span>::empty()) =~= Seq::<SpanView>::empty());
        }
        self.pretty_print(empty.as_str(), true, &mut out);
        out
    }

    /// The whole rendering with styling stripped: exactly `render_text` of
    /// this object's fields.
    pub fn render_plain(&self) -> (r: String)
        ensures
            r@ == render_text(self@),
    {
        let spans = self.render_spans();
        plain_string(&spans)
    }
}

impl Value {
    /// The single-line text used when this value stands inside a vector.
    #[verifier::loop_isolation(false)]
    pub fn inline_text(&self) -> (r: String)
        ensures
            r@ == inline_text(self@),
        decreases *self, 0int,
    {
        match self {
            Value::Bool(b) => {
                if *b {
                    proof {
                        reveal_strlit("true");
                        assert("true"@ =~= seq!['t', 'r', 'u', 'e']);
                    }
                    String::from_str("true")
                } else {
                    proof {
                        reveal_strlit("false");
                        assert("false"@ =~= seq!['f', 'a', 'l', 's', 'e']);
                    }
                    String::from_str("false")
                }
            },
            Value::String(s) => s.clone(),
            Value::Object(o) => {
                let mut spans: Vec<Span> = Vec::new();
                let empty = String::new();
                proof {
                    assert(span_seq_view(Seq::<Span>::empty()) =~= Seq::<SpanView>::empty());
                }
                o.pretty_print(empty.as_str(), true, &mut spans);
                plain_string(&spans)
            },
            Value::Vector(vs) => {
                let ghost ev = value_seq_view(vs@);
                proof {
                    lemma_value_seq_view(vs@);
                    reveal_strlit("[");
                    reveal_strlit("]");
                }
                let mut r = String::from_str("[");
                let m = vs.len();
                let mut j: usize = 0;
                while j < m
                    invariant
                        0 <= j <= m,
                        r@ == seq!['['] + inline_list_text(ev, j as int),
                    decreases m - j,
                {
                    proof {
                        assert(ev[j as int] == value_view(vs@[j as int]));
                    }
                    let text = (&vs[j]).inline_text();
                    r.append(text.as_str());
                    j = j + 1;
                }
                r.append("]");
                proof {
                    assert(r@ =~= seq!['['] + inline_list_text(ev, ev.len() as int) + seq![']']);
                }
                r
            },
        }
    }
}

} // verus!
