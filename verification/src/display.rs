//! Display lines: what is to be shown and with which emphasis, before any
//! terminal escape sequence is made of it.

use crate::status::{Status, StatusView};
use vstd::prelude::*;

verus! {

/// How a piece of text is set off from the text around it.
#[derive(Debug, Clone, PartialEq, Eq)]
pub enum Emphasis {
    /// No emphasis.
    Plain,
    Bold,
    PrimaryColor,
    SecondaryColor,
    /// The colour that belongs to a status.
    StatusColor(Status),
}

/// The mathematical value of an [`Emphasis`].
pub enum EmphasisView {
    Plain,
    Bold,
    PrimaryColor,
    SecondaryColor,
    StatusColor(StatusView),
}

impl DeepView for Emphasis {
    type V = EmphasisView;

    open spec fn deep_view(&self) -> EmphasisView {
        match self {
            Emphasis::Plain => EmphasisView::Plain,
            Emphasis::Bold => EmphasisView::Bold,
            Emphasis::PrimaryColor => EmphasisView::PrimaryColor,
            Emphasis::SecondaryColor => EmphasisView::SecondaryColor,
            Emphasis::StatusColor(status) => EmphasisView::StatusColor(status@),
        }
    }
}

impl View for Emphasis {
    type V = EmphasisView;

    open spec fn view(&self) -> EmphasisView {
        self.deep_view()
    }
}

/// A run of text under one emphasis.
#[derive(Debug, Clone, PartialEq, Eq)]
pub struct Span {
    pub text: String,
    pub emphasis: Emphasis,
}

/// The mathematical value of a [`Span`].
pub struct SpanView {
    pub text: Seq<char>,
    pub emphasis: EmphasisView,
}

impl DeepView for Span {
    type V = SpanView;

    open spec fn deep_view(&self) -> SpanView {
        SpanView { text: self.text@, emphasis: self.emphasis@ }
    }
}

impl View for Span {
    type V = SpanView;

    open spec fn view(&self) -> SpanView {
        self.deep_view()
    }
}

/// One line of the report: its spans from left to right. A line says what
/// to show, not how a terminal is told to show it.
#[derive(Debug, Clone, PartialEq, Eq)]
pub struct DisplayLine {
    pub spans: Vec<Span>,
}

impl DeepView for DisplayLine {
    type V = Seq<SpanView>;

    open spec fn deep_view(&self) -> Seq<SpanView> {
        self.spans.deep_view()
    }
}

impl View for DisplayLine {
    type V = Seq<SpanView>;

    open spec fn view(&self) -> Seq<SpanView> {
        self.deep_view()
    }
}

/// A span without emphasis.
pub open spec fn plain(text: Seq<char>) -> SpanView {
    SpanView { text, emphasis: EmphasisView::Plain }
}

/// A span under the given emphasis.
pub open spec fn emphasized(text: Seq<char>, emphasis: EmphasisView) -> SpanView {
    SpanView { text, emphasis }
}

/// The text of a line with all emphasis left out: the texts of its spans,
/// one after the other.
pub open spec fn plain_text(spans: Seq<SpanView>) -> Seq<char>
    decreases spans.len(),
{
    if spans.len() == 0 {
        Seq::empty()
    } else {
        plain_text(spans.drop_last()) + spans.last().text
    }
}

/// The text of a line that got one more span is the text it had, then the
/// text of that span.
pub proof fn plain_text_grows(spans: Seq<SpanView>, span: SpanView)
    ensures
        plain_text(spans.push(span)) == plain_text(spans) + span.text,
{
    assert(spans.push(span).drop_last() =~= spans);
}

/// The text of a line of one span is the text of the span.
pub proof fn plain_text_of_one(span: SpanView)
    ensures
        plain_text(seq![span]) == span.text,
{
    assert(seq![span].drop_last() =~= Seq::<SpanView>::empty());
    assert(plain_text(Seq::<SpanView>::empty()) =~= Seq::<char>::empty());
    assert(plain_text(seq![span]) =~= span.text);
}

impl Span {
    /// A span without emphasis.
    pub fn plain(text: &str) -> (span: Span)
        ensures
            span@ == plain(text@),
    {
        Span { text: text.to_owned(), emphasis: Emphasis::Plain }
    }

    /// A span under the given emphasis.
    pub fn emphasized(text: String, emphasis: Emphasis) -> (span: Span)
        ensures
            span@ == emphasized(text@, emphasis@),
    {
        Span { text, emphasis }
    }
}

impl DisplayLine {
    /// The text of the line with all emphasis left out.
    pub fn text(&self) -> (text: String)
        ensures
            text@ == plain_text(self@),
    {
        let mut text = String::new();
        let mut i: usize = 0;
        while i < self.spans.len()
            invariant
                i <= self.spans.len(),
                text@ == plain_text(self@.take(i as int)),
            decreases self.spans.len() - i,
        {
            text.append(self.spans[i].text.as_str());
            proof {
                assert(self@.take(i + 1).drop_last() =~= self@.take(i as int));
                assert(self@.take(i + 1).last() == self.spans[i as int]@);
            }
            i = i + 1;
        }
        assert(self@.take(self.spans.len() as int) =~= self@);
        text
    }
}

} // verus!
