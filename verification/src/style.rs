//! The terminal styling backend: serializes spans through `console`, which
//! emits ANSI codes only when the process's output wants them.

use vstd::prelude::*;
use vstd::string::StringExecFns;

use crate::object::Object;
use crate::render::{Span, SpanKind, SpanView, object_spans, span_seq_view};

verus! {

/// Whether `text` stands contiguously inside `out`.
pub open spec fn wraps(out: Seq<char>, text: Seq<char>) -> bool {
    exists|i: int|
        0 <= i && i + text.len() <= out.len() && #[trigger] out.subrange(i, i + text.len())
            == text
}

/// What one serialized chunk owes its span: a plain span verbatim, a styled
/// span with whatever codes the backend chose standing around its text.
pub open spec fn chunk_ok(chunk: Seq<char>, sp: SpanView) -> bool {
    if sp.kind == SpanKind::Plain {
        chunk == sp.text
    } else {
        wraps(chunk, sp.text)
    }
}

/// Whether `out` decomposes into one valid chunk per span, in span order.
pub open spec fn styled_rendering(out: Seq<char>, spans: Seq<SpanView>) -> bool
    decreases spans.len(),
{
    if spans.len() == 0 {
        out.len() == 0
    } else {
        exists|k: int|
            0 <= k <= out.len() && styled_rendering(out.subrange(0, k), spans.drop_last())
                && chunk_ok(out.subrange(k, out.len() as int), spans.last())
    }
}

/// Relies on console::style and StyledObject's Display: the output is the
/// text itself with the ANSI magenta and bold codes, if any are emitted for
/// this process, standing around it unchanged.
#[verifier::external_body]
fn paint_magenta_bold(text: &str) -> (r: String)
    ensures
        wraps(r@, text@),
{
    format!("{}", console::style(text).magenta().bold())
}

/// Relies on console::style and StyledObject's Display: the output is the
/// text with the ANSI bold code, if any, standing around it unchanged.
#[verifier::external_body]
fn paint_bold(text: &str) -> (r: String)
    ensures
        wraps(r@, text@),
{
    format!("{}", console::style(text).bold())
}

/// Relies on console::style and StyledObject's Display: the output is the
/// text with the ANSI blue and bold codes, if any, standing around it.
#[verifier::external_body]
fn paint_blue_bold(text: &str) -> (r: String)
    ensures
        wraps(r@, text@),
{
    format!("{}", console::style(text).blue().bold())
}

/// Relies on console::style and StyledObject's Display: the output is the
/// text with the ANSI green and bold codes, if any, standing around it.
#[verifier::external_body]
fn paint_green_bold(text: &str) -> (r: String)
    ensures
        wraps(r@, text@),
{
    format!("{}", console::style(text).green().bold())
}

/// Relies on console::style and StyledObject's Display: the output is the
/// text with the ANSI red and bold codes, if any, standing around it.
#[verifier::external_body]
fn paint_red_bold(text: &str) -> (r: String)
    ensures
        wraps(r@, text@),
{
    format!("{}", console::style(text).red().bold())
}

/// Relies on console::style and StyledObject's Display: the output is the
/// text with the ANSI yellow and bold codes, if any, standing around it.
#[verifier::external_body]
fn paint_yellow_bold(text: &str) -> (r: String)
    ensures
        wraps(r@, text@),
{
    format!("{}", console::style(text).yellow().bold())
}

/// Relies on console::style and StyledObject's Display: the output is the
/// text with the codes for black on a light background, if any, standing
/// around it unchanged.
#[verifier::external_body]
fn paint_badge(text: &str) -> (r: String)
    ensures
        wraps(r@, text@),
{
    format!("{}", console::style(text).black().bg(console::Color::Color256(141)).bold())
}

/// Relies on console::style and StyledObject's Display: the output is the
/// text with the codes for bold on a dark background, if any, standing
/// around it unchanged.
#[verifier::external_body]
fn paint_block(text: &str) -> (r: String)
    ensures
        wraps(r@, text@),
{
    format!("{}", console::style(text).bold().bg(console::Color::Color256(234)))
}

/// The chunk for one span: plain text verbatim, styled text through the
/// backend.
fn paint_span(span: &Span) -> (r: String)
    ensures
        chunk_ok(r@, span@),
{
    match span.kind {
        SpanKind::Plain => span.text.clone(),
        SpanKind::MagentaBold => paint_magenta_bold(span.text.as_str()),
        SpanKind::Bold => paint_bold(span.text.as_str()),
        SpanKind::BlueBold => paint_blue_bold(span.text.as_str()),
        SpanKind::GreenBold => paint_green_bold(span.text.as_str()),
        SpanKind::RedBold => paint_red_bold(span.text.as_str()),
        SpanKind::YellowBold => paint_yellow_bold(span.text.as_str()),
        SpanKind::EnumBadge => paint_badge(span.text.as_str()),
        SpanKind::DescriptionBlock => paint_block(span.text.as_str()),
    }
}

/// Appending a valid chunk for one more span extends a valid rendering.
proof fn lemma_styled_rendering_step(
    out: Seq<char>,
    chunk: Seq<char>,
    spans: Seq<SpanView>,
    sp: SpanView,
)
    requires
        styled_rendering(out, spans),
        chunk_ok(chunk, sp),
    ensures
        styled_rendering(out + chunk, spans.push(sp)),
{
    let whole = out + chunk;
    let k = out.len() as int;
    assert(whole.subrange(0, k) =~= out);
    assert(whole.subrange(k, whole.len() as int) =~= chunk);
    assert(spans.push(sp).drop_last() =~= spans);
    assert(spans.push(sp).last() == sp);
    assert(0 <= k <= whole.len() && styled_rendering(whole.subrange(0, k), spans.push(sp).drop_last())
        && chunk_ok(whole.subrange(k, whole.len() as int), spans.push(sp).last()));
}

impl Object {
    /// The rendering styled for a terminal: the same spans as `render_plain`,
    /// in the same order, each styled chunk carrying its text unchanged.
    #[verifier::loop_isolation(false)]
    pub fn render_styled(&self) -> (r: String)
        ensures
            styled_rendering(r@, object_spans(self@, Seq::empty(), true)),
    {
        let spans = self.render_spans();
        let ghost all = span_seq_view(spans@);
        let mut r = String::new();
        let n = spans.len();
        let mut i: usize = 0;
        while i < n
            invariant
                0 <= i <= n,
                styled_rendering(r@, all.take(i as int)),
            decreases n - i,
        {
            let chunk = paint_span(&spans[i]);
            proof {
                assert(spans@[i as int]@ == all[i as int]);
                lemma_styled_rendering_step(r@, chunk@, all.take(i as int), all[i as int]);
                assert(all.take(i + 1) =~= all.take(i as int).push(all[i as int]));
            }
            r.append(chunk.as_str());
            i = i + 1;
        }
        proof {
            assert(all.take(n as int) =~= all);
        }
        r
    }
}

} // verus!
