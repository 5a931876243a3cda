//! What a command has to say: lines of text for the two output streams, each
//! made of spans that carry a tone for the terminal.

use vstd::prelude::*;
use vstd::string::*;

verus! {

/// The stream a line is written to.
#[derive(Debug, Clone, Copy, PartialEq, Eq)]
pub enum Stream {
    /// Standard output.
    Stdout,
    /// Standard error.
    Stderr,
}

/// How a span is shown. Every tone but `Plain` is bold.
#[derive(Debug, Clone, Copy, PartialEq, Eq)]
pub enum Tone {
    Plain,
    Red,
    Green,
    Yellow,
    Magenta,
    Cyan,
}

/// A stretch of text in one tone.
#[derive(Debug, Clone, PartialEq, Eq)]
pub struct Span {
    pub tone: Tone,
    pub text: String,
}

/// A piece of output that is written with a line end after it. Its text may
/// hold line ends of its own.
#[derive(Debug, Clone, PartialEq, Eq)]
pub struct Line {
    pub stream: Stream,
    pub spans: Vec<Span>,
}

/// The model of a `Span`.
pub struct SpanModel {
    pub tone: Tone,
    pub text: Seq<char>,
}

/// The model of a `Line`.
pub struct LineModel {
    pub stream: Stream,
    pub spans: Seq<SpanModel>,
}

impl DeepView for Span {
    type V = SpanModel;

    open spec fn deep_view(&self) -> SpanModel {
        SpanModel { tone: self.tone, text: self.text@ }
    }
}

impl DeepView for Line {
    type V = LineModel;

    open spec fn deep_view(&self) -> LineModel {
        LineModel { stream: self.stream, spans: self.spans.deep_view() }
    }
}

/// The texts of `spans`, one after the other.
pub open spec fn span_texts(spans: Seq<SpanModel>) -> Seq<char>
    decreases spans.len(),
{
    if spans.len() == 0 {
        Seq::empty()
    } else {
        span_texts(spans.drop_last()) + spans.last().text
    }
}

impl LineModel {
    /// A line without spans.
    pub open spec fn empty(stream: Stream) -> LineModel {
        LineModel { stream, spans: Seq::empty() }
    }

    /// This line with one more span at its end.
    pub open spec fn with(self, tone: Tone, text: Seq<char>) -> LineModel {
        LineModel { stream: self.stream, spans: self.spans.push(SpanModel { tone, text }) }
    }

    /// A line of one plain span.
    pub open spec fn plain(stream: Stream, text: Seq<char>) -> LineModel {
        LineModel::empty(stream).with(Tone::Plain, text)
    }

    /// What the line reads when the tones are left out.
    pub open spec fn text(self) -> Seq<char> {
        span_texts(self.spans)
    }
}

impl Line {
    /// A line without spans.
    pub fn new(stream: Stream) -> (line: Line)
        ensures
            line.deep_view() == LineModel::empty(stream),
    {
        let line = Line { stream, spans: Vec::new() };
        assert(line.deep_view().spans =~= Seq::empty());
        line
    }

    /// A line of one plain span.
    pub fn plain(stream: Stream, text: String) -> (line: Line)
        ensures
            line.deep_view() == LineModel::plain(stream, text@),
    {
        Line::new(stream).with(Tone::Plain, text)
    }

    /// Adds a span at the end of the line.
    pub fn with(self, tone: Tone, text: String) -> (line: Line)
        ensures
            line.deep_view() == self.deep_view().with(tone, text@),
    {
        let mut line = self;
        line.spans.push(Span { tone, text });
        assert(line.deep_view().spans =~= self.deep_view().with(tone, text@).spans);
        line
    }

    /// What the line reads when the tones are left out.
    pub fn text(&self) -> (text: String)
        ensures
            text@ == self.deep_view().text(),
    {
        let mut text = String::new();
        let mut i: usize = 0;
        while i < self.spans.len()
            invariant
                i <= self.spans.len(),
                text@ == span_texts(self.deep_view().spans.take(i as int)),
            decreases self.spans.len() - i,
        {
            assert(self.deep_view().spans.take(i + 1).drop_last() == self.deep_view().spans.take(
                i as int,
            ));
            text.append(self.spans[i].text.as_str());
            i = i + 1;
        }
        assert(self.deep_view().spans.take(i as int) == self.deep_view().spans);
        text
    }
}

/// A line on standard error.
pub open spec fn complaint(text: Seq<char>) -> LineModel {
    LineModel::plain(Stream::Stderr, text)
}

/// A line on standard output.
pub open spec fn notice(text: Seq<char>) -> LineModel {
    LineModel::plain(Stream::Stdout, text)
}

/// A line of one plain span reads as that span.
pub proof fn lemma_plain_line_text(stream: Stream, text: Seq<char>)
    ensures
        LineModel::plain(stream, text).text() == text,
{
    let line = LineModel::plain(stream, text);
    assert(span_texts(line.spans.drop_last()) == Seq::<char>::empty());
}

/// A line on standard error.
pub fn complain(text: String) -> (line: Line)
    ensures
        line.deep_view() == complaint(text@),
{
    Line::plain(Stream::Stderr, text)
}

/// A line on standard output.
pub fn say(text: String) -> (line: Line)
    ensures
        line.deep_view() == notice(text@),
{
    Line::plain(Stream::Stdout, text)
}

/// A list of one line.
pub fn only(line: Line) -> (lines: Vec<Line>)
    ensures
        lines.deep_view() == seq![line.deep_view()],
{
    let mut lines: Vec<Line> = Vec::new();
    lines.push(line);
    lines
}

/// `lines` and then `line`.
pub fn followed(lines: Vec<Line>, line: Line) -> (all: Vec<Line>)
    ensures
        all.deep_view() == lines.deep_view().push(line.deep_view()),
{
    let mut all = lines;
    all.push(line);
    all
}

/// No line.
pub fn silence() -> (lines: Vec<Line>)
    ensures
        lines.deep_view() == Seq::<LineModel>::empty(),
{
    let lines: Vec<Line> = Vec::new();
    lines
}

} // verus!
