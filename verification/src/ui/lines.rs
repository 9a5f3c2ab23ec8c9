//! Styled text as the views produce it: lines of spans, each span a string with
//! a style role that the colour theme turns into colours when drawing.

use vstd::prelude::*;

verus! {

/// The style role of a span of text.
#[derive(Debug, Clone, Copy, PartialEq, Eq, Structural)]
pub enum TextStyle {
    /// No style of its own.
    Plain,
    Normal,
    Dim,
    Muted,
    Accent,
    /// Accent colour, bold and underlined: a crate's name at the top of its page.
    Heading,
    /// Accent colour in bold: a section title.
    SectionTitle,
    Str,
    Type,
    Warning,
    /// The colour of functions.
    Function,
    /// The colour of keywords.
    Keyword,
    /// Accent colour in bold.
    AccentBold,
    /// Normal text in bold.
    Strong,
    /// Dim text in bold.
    DimBold,
    /// The blinking text cursor.
    Cursor,
    /// The colour of numbers and constants.
    Number,
}

/// A span of styled text.
#[derive(Debug, Clone)]
pub struct TextSpan {
    pub text: String,
    pub style: TextStyle,
}

/// A line of styled text; a line without spans is blank.
#[derive(Debug, Clone)]
pub struct TextLine {
    pub spans: Vec<TextSpan>,
}

/// A span as text and style.
pub open spec fn span_view(s: TextSpan) -> (Seq<char>, TextStyle) {
    (s.text@, s.style)
}

/// A line as its spans' texts and styles.
pub open spec fn line_view(l: TextLine) -> Seq<(Seq<char>, TextStyle)> {
    l.spans@.map_values(|s: TextSpan| span_view(s))
}

/// Lines as their spans' texts and styles.
pub open spec fn lines_view(ls: Seq<TextLine>) -> Seq<Seq<(Seq<char>, TextStyle)>> {
    ls.map_values(|l: TextLine| line_view(l))
}

/// A span holding `text`.
pub fn span(text: String, style: TextStyle) -> (s: TextSpan)
    ensures
        span_view(s) == (text@, style),
{
    TextSpan { text, style }
}

/// A span holding a copy of `text`.
pub fn span_str(text: &str, style: TextStyle) -> (s: TextSpan)
    ensures
        span_view(s) == (text@, style),
{
    TextSpan { text: String::from_str(text), style }
}

/// A blank line.
pub fn blank() -> (l: TextLine)
    ensures
        line_view(l) == Seq::<(Seq<char>, TextStyle)>::empty(),
{
    let l = TextLine { spans: Vec::new() };
    assert(line_view(l) =~= Seq::<(Seq<char>, TextStyle)>::empty());
    l
}

/// A line of the given spans.
pub fn line(spans: Vec<TextSpan>) -> (l: TextLine)
    ensures
        line_view(l) == spans@.map_values(|s: TextSpan| span_view(s)),
{
    TextLine { spans }
}

/// A line of one span.
pub fn line1(a: TextSpan) -> (l: TextLine)
    ensures
        line_view(l) == seq![span_view(a)],
{
    let mut v: Vec<TextSpan> = Vec::new();
    v.push(a);
    let l = TextLine { spans: v };
    assert(line_view(l) =~= seq![span_view(a)]);
    l
}

/// A line of two spans.
pub fn line2(a: TextSpan, b: TextSpan) -> (l: TextLine)
    ensures
        line_view(l) == seq![span_view(a), span_view(b)],
{
    let mut v: Vec<TextSpan> = Vec::new();
    v.push(a);
    v.push(b);
    let l = TextLine { spans: v };
    assert(line_view(l) =~= seq![span_view(a), span_view(b)]);
    l
}

/// A line of three spans.
pub fn line3(a: TextSpan, b: TextSpan, c: TextSpan) -> (l: TextLine)
    ensures
        line_view(l) == seq![span_view(a), span_view(b), span_view(c)],
{
    let mut v: Vec<TextSpan> = Vec::new();
    v.push(a);
    v.push(b);
    v.push(c);
    let l = TextLine { spans: v };
    assert(line_view(l) =~= seq![span_view(a), span_view(b), span_view(c)]);
    l
}

/// A line of four spans.
pub fn line4(a: TextSpan, b: TextSpan, c: TextSpan, d: TextSpan) -> (l: TextLine)
    ensures
        line_view(l) == seq![span_view(a), span_view(b), span_view(c), span_view(d)],
{
    let mut v: Vec<TextSpan> = Vec::new();
    v.push(a);
    v.push(b);
    v.push(c);
    v.push(d);
    let l = TextLine { spans: v };
    assert(line_view(l) =~= seq![span_view(a), span_view(b), span_view(c), span_view(d)]);
    l
}

/// Appends `more` to `lines`.
pub fn append_lines(lines: &mut Vec<TextLine>, more: Vec<TextLine>)
    ensures
        lines_view(final(lines)@) == lines_view(old(lines)@) + lines_view(more@),
{
    let mut more = more;
    let ghost a = lines@;
    let ghost b = more@;
    lines.append(&mut more);
    assert(lines_view(lines@) =~= lines_view(a) + lines_view(b));
}

/// Appends one line to `lines`.
pub fn push_line(lines: &mut Vec<TextLine>, l: TextLine)
    ensures
        lines_view(final(lines)@) == lines_view(old(lines)@).push(line_view(l)),
{
    let ghost a = lines@;
    lines.push(l);
    assert(lines_view(lines@) =~= lines_view(a).push(line_view(l)));
}

} // verus!
