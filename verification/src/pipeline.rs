//! What one run of the program comes to: the rows of the report, or one
//! diagnostic line and a failing exit code.

use crate::cli::{AsciiArt, Config, FALLBACK_NOTICE};
use crate::decoration::{lines_of, split_lines};
use crate::model::UserReport;
use crate::render::{is_rendering, longer, render};
use crate::response::{report_of, ResponseData, ANSWER_LINES};
use crate::text::{decimal, format_decimal, is_digit};
use vstd::prelude::*;

verus! {

/// The exit code of a run that printed a report.
pub const EXIT_SUCCESS: u8 = 0;

/// The exit code of a run that ended in an error.
pub const EXIT_FAILURE: u8 = 1;

/// The errors that end a run. None of them is retried.
#[derive(Debug, Clone, PartialEq, Eq)]
pub enum ReportError {
    /// The service could not be reached or the answer could not be read.
    TransportFailure(String),
    /// The service refused the request, with this HTTP status.
    NonSuccessStatus(u16),
    /// The answer does not have the shape of a user's statistics.
    MalformedResponse(String),
}

/// The mathematical value of a [`ReportError`].
pub enum ReportErrorView {
    TransportFailure(Seq<char>),
    NonSuccessStatus(u16),
    MalformedResponse(Seq<char>),
}

impl DeepView for ReportError {
    type V = ReportErrorView;

    open spec fn deep_view(&self) -> ReportErrorView {
        match self {
            ReportError::TransportFailure(detail) => ReportErrorView::TransportFailure(detail@),
            ReportError::NonSuccessStatus(code) => ReportErrorView::NonSuccessStatus(*code),
            ReportError::MalformedResponse(detail) => ReportErrorView::MalformedResponse(detail@),
        }
    }
}

impl View for ReportError {
    type V = ReportErrorView;

    open spec fn view(&self) -> ReportErrorView {
        self.deep_view()
    }
}

/// Whether a character ends a line.
pub open spec fn is_line_break(c: char) -> bool {
    c == '\n' || c == '\r'
}

/// The text with a blank in place of each line break.
pub open spec fn single_line(text: Seq<char>) -> Seq<char> {
    Seq::new(
        text.len(),
        |i: int|
            if is_line_break(text[i]) {
                ' '
            } else {
                text[i]
            },
    )
}

/// Whether a text holds no line break.
pub open spec fn is_single_line(text: Seq<char>) -> bool {
    forall|i: int| 0 <= i < text.len() ==> !is_line_break(#[trigger] text[i])
}

/// The diagnostic of an error: what failed, then the detail on one line.
pub open spec fn diagnostic_text(error: ReportErrorView) -> Seq<char> {
    match error {
        ReportErrorView::TransportFailure(detail) => "Error making the request: "@ + single_line(
            detail,
        ),
        ReportErrorView::NonSuccessStatus(code) => "Error making the request: HTTP status "@
            + decimal(code as nat),
        ReportErrorView::MalformedResponse(detail) => "Error deserializing the response: "@
            + single_line(detail),
    }
}

proof fn decimal_is_single_line(n: nat)
    ensures
        is_single_line(decimal(n)),
{
    crate::text::decimal_round_trip(n);
    assert forall|i: int| 0 <= i < decimal(n).len() implies !is_line_break(
        #[trigger] decimal(n)[i],
    ) by {
        assert(is_digit(decimal(n)[i]));
    }
}

/// A diagnostic is one line, whatever the detail of the error holds.
pub proof fn diagnostic_is_single_line(error: ReportErrorView)
    ensures
        is_single_line(diagnostic_text(error)),
{
    reveal_strlit("Error making the request: ");
    reveal_strlit("Error making the request: HTTP status ");
    reveal_strlit("Error deserializing the response: ");
    match error {
        ReportErrorView::TransportFailure(detail) => {
            assert(is_single_line("Error making the request: "@));
        },
        ReportErrorView::NonSuccessStatus(code) => {
            decimal_is_single_line(code as nat);
            assert(is_single_line("Error making the request: HTTP status "@));
        },
        ReportErrorView::MalformedResponse(detail) => {
            assert(is_single_line("Error deserializing the response: "@));
        },
    }
}

/// Copies a text, with a blank in place of each line break.
fn flatten(text: &str) -> (flat: String)
    ensures
        flat@ == single_line(text@),
{
    broadcast use vstd::string::group_string_axioms;

    let mut flat = String::new();
    for c in it: text.chars()
        invariant
            it.seq() == text@,
            flat@ == single_line(text@).take(it.index() as int),
    {
        let ghost k = it.index() as int;
        let shown: char = if c == '\n' || c == '\r' {
            ' '
        } else {
            c
        };
        flat.push(shown);
        assert(single_line(text@).take(k + 1) =~= single_line(text@).take(k).push(shown));
    }
    assert(single_line(text@).take(text@.len() as int) =~= single_line(text@));
    flat
}

impl ReportError {
    /// The one line that tells the user of the error.
    pub fn diagnostic(&self) -> (line: String)
        ensures
            line@ == diagnostic_text(self@),
            is_single_line(line@),
    {
        proof {
            diagnostic_is_single_line(self@);
        }
        match self {
            ReportError::TransportFailure(detail) => {
                let mut line = "Error making the request: ".to_owned();
                line.append(flatten(detail.as_str()).as_str());
                line
            },
            ReportError::NonSuccessStatus(code) => {
                let mut line = "Error making the request: HTTP status ".to_owned();
                line.append(format_decimal(*code as u32).as_str());
                line
            },
            ReportError::MalformedResponse(detail) => {
                let mut line = "Error deserializing the response: ".to_owned();
                line.append(flatten(detail.as_str()).as_str());
                line
            },
        }
    }
}

/// What a run leaves behind: the rows for standard output, the lines for
/// standard error, and the exit code.
#[derive(Debug, Clone, PartialEq, Eq)]
pub struct Outcome {
    pub stdout: Vec<String>,
    pub stderr: Vec<String>,
    pub exit_code: u8,
}

/// The rows that say that the built-in ASCII art stands in for a file: one
/// row with the notice where it does, none where it does not.
pub open spec fn notice_rows(fell_back: bool) -> Seq<Seq<char>> {
    if fell_back {
        seq![FALLBACK_NOTICE@]
    } else {
        Seq::empty()
    }
}

/// What a successful run may print for an answer: the notice, if the ASCII
/// art had to fall back, then the report set beside the lines of the art.
pub open spec fn is_report_output(
    stdout: Seq<Seq<char>>,
    response: ResponseData,
    config: Config,
    art: AsciiArt,
) -> bool {
    exists|rows: Seq<Seq<char>>| #[trigger]
        is_rendering(rows, report_of(response), lines_of(art.text@), config.show_ascii) && stdout
            == notice_rows(art.fell_back) + rows
}

/// Concludes a run from what fetching and reading the answer gave.
///
/// An answer is rendered in full and the run succeeds. An error gives its
/// one diagnostic line and a failing exit code, and nothing on standard
/// output: no row of a report and no notice.
pub fn conclude(
    fetched: Result<ResponseData, ReportError>,
    config: &Config,
    art: &AsciiArt,
) -> (outcome: Outcome)
    ensures
        match fetched {
            Ok(response) => {
                &&& outcome.exit_code == EXIT_SUCCESS
                &&& outcome.stderr@.len() == 0
                &&& is_report_output(outcome.stdout.deep_view(), response, *config, *art)
                &&& outcome.stdout@.len() == notice_rows(art.fell_back).len() + (
                if config.show_ascii {
                    longer(lines_of(art.text@).len(), ANSWER_LINES as nat)
                } else {
                    ANSWER_LINES as nat
                })
            },
            Err(error) => {
                &&& outcome.exit_code == EXIT_FAILURE
                &&& outcome.stdout@.len() == 0
                &&& outcome.stderr@.len() == 1
                &&& outcome.stderr.deep_view() == seq![diagnostic_text(error@)]
                &&& is_single_line(diagnostic_text(error@))
            },
        },
{
    match fetched {
        Ok(response) => {
            let report = UserReport::from_response(&response);
            let decoration = split_lines(art.text.as_str());
            let mut rows = render(&report, config, &decoration);
            let ghost rendered = rows.deep_view();
            let mut stdout: Vec<String> = Vec::new();
            if art.fell_back {
                stdout.push(FALLBACK_NOTICE.to_owned());
            }
            assert(stdout.deep_view() =~= notice_rows(art.fell_back));
            stdout.append(&mut rows);
            proof {
                assert(stdout.deep_view() =~= notice_rows(art.fell_back) + rendered);
                assert(is_rendering(
                    rendered,
                    report_of(response),
                    lines_of(art.text@),
                    config.show_ascii,
                ));
            }
            Outcome { stdout, stderr: Vec::new(), exit_code: EXIT_SUCCESS }
        },
        Err(error) => {
            let mut stderr: Vec<String> = Vec::new();
            stderr.push(error.diagnostic());
            assert(stderr.deep_view() =~= seq![diagnostic_text(error@)]);
            Outcome { stdout: Vec::new(), stderr, exit_code: EXIT_FAILURE }
        },
    }
}

} // verus!
