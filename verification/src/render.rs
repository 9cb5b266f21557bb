//! The line-pairing renderer: display lines become terminal text, and the
//! terminal text is set beside the decoration, row by row.

use crate::cli::{use_ascii, Config};
use crate::display::{plain, DisplayLine, Emphasis, EmphasisView, Span, SpanView};
use crate::formatter::{
    category_lines, empty_genres_show_caption_only, format_report, report_lines, CATEGORY_LINES,
};
use crate::model::{CategoryView, ReportView, UserReport};
use crate::status::Tone;
use colored::Colorize;
use vstd::prelude::*;

verus! {

/// The escape sequence that switches a terminal to the rendition `code`.
pub open spec fn sgr_open(code: Seq<char>) -> Seq<char> {
    seq!['\x1b', '['] + code + seq!['m']
}

/// The escape sequence that switches a terminal back to its normal rendition.
pub open spec fn sgr_reset() -> Seq<char> {
    seq!['\x1b', '[', '0', 'm']
}

/// What can be said of `out` when it is `text` made to show in the rendition
/// `code`. Whether escape sequences are written at all is decided by the
/// environment of the process, so both outcomes are allowed: the text as it
/// is, or the text between the opening sequence and the reset sequence.
/// Nothing is said of a text that holds the escape character itself.
pub open spec fn is_styled(out: Seq<char>, text: Seq<char>, code: Seq<char>) -> bool {
    !text.contains('\x1b') ==> (out == text || out == sgr_open(code) + text + sgr_reset())
}

/// The rendition code of bold text.
pub open spec fn bold_code() -> Seq<char> {
    seq!['1']
}

/// The rendition code of the colour in which a tone is shown, or `None` for
/// a tone that is shown without colour.
pub open spec fn tone_code(tone: Tone) -> Option<Seq<char>> {
    match tone {
        Tone::Danger => Some(seq!['3', '1']),
        Tone::Success => Some(seq!['3', '2']),
        Tone::Highlight => Some(seq!['3', '3']),
        Tone::Primary => Some(seq!['3', '4']),
        Tone::Secondary => Some(seq!['3', '5']),
        Tone::Accent => Some(seq!['3', '6']),
        Tone::Plain => None,
    }
}

/// The tone in which an emphasis is shown, where it is shown by a colour.
pub open spec fn emphasis_tone(emphasis: EmphasisView) -> Tone {
    match emphasis {
        EmphasisView::PrimaryColor => Tone::Primary,
        EmphasisView::SecondaryColor => Tone::Secondary,
        EmphasisView::StatusColor(status) => status.tone(),
        _ => Tone::Plain,
    }
}

/// The rendition code of an emphasis, or `None` for text that is shown as
/// it is.
pub open spec fn emphasis_code(emphasis: EmphasisView) -> Option<Seq<char>> {
    match emphasis {
        EmphasisView::Bold => Some(bold_code()),
        _ => tone_code(emphasis_tone(emphasis)),
    }
}

/// Whether `out` is a terminal text of the span.
pub open spec fn shows_span(out: Seq<char>, span: SpanView) -> bool {
    match emphasis_code(span.emphasis) {
        Some(code) => is_styled(out, span.text, code),
        None => out == span.text,
    }
}

/// The texts written one after the other.
pub open spec fn concat(parts: Seq<Seq<char>>) -> Seq<char>
    decreases parts.len(),
{
    if parts.len() == 0 {
        Seq::empty()
    } else {
        concat(parts.drop_last()) + parts.last()
    }
}

/// Whether each part is a terminal text of the span at its place.
pub open spec fn parts_show(parts: Seq<Seq<char>>, spans: Seq<SpanView>) -> bool {
    &&& parts.len() == spans.len()
    &&& forall|i: int| 0 <= i < spans.len() ==> shows_span(#[trigger] parts[i], spans[i])
}

/// Whether `out` is a terminal text of the line: terminal texts of its
/// spans, one after the other.
pub open spec fn shows_line(out: Seq<char>, spans: Seq<SpanView>) -> bool {
    exists|parts: Seq<Seq<char>>| #[trigger] parts_show(parts, spans) && out == concat(parts)
}

/// Whether each text is a terminal text of the line at its place.
pub open spec fn shows_lines(texts: Seq<Seq<char>>, lines: Seq<Seq<SpanView>>) -> bool {
    &&& texts.len() == lines.len()
    &&& forall|i: int| 0 <= i < lines.len() ==> shows_line(#[trigger] texts[i], lines[i])
}

/// A line of one span without emphasis has one terminal text: the span's
/// text, whatever the environment says of colours.
pub proof fn plain_line_shows_as_is(out: Seq<char>, text: Seq<char>)
    requires
        shows_line(out, seq![plain(text)]),
    ensures
        out == text,
{
    let spans = seq![plain(text)];
    let parts = choose|parts: Seq<Seq<char>>| #[trigger]
        parts_show(parts, spans) && out == concat(parts);
    assert(shows_span(parts[0], spans[0]));
    assert(parts.drop_last() =~= Seq::<Seq<char>>::empty());
    assert(concat(parts.drop_last()) =~= Seq::<char>::empty());
    assert(concat(parts) =~= parts[0]);
}

/// Without genres, the genre summary of a category has one terminal text:
/// the caption, with nothing behind it, whatever the environment says of
/// colours.
pub proof fn empty_genres_render_as_caption(category: CategoryView, out: Seq<char>)
    requires
        category.genres.len() == 0,
        shows_line(out, category_lines(category)[3]),
    ensures
        out == "- Top 5 genres: "@,
{
    empty_genres_show_caption_only(category);
    plain_line_shows_as_is(out, "- Top 5 genres: "@);
}

/// `colored::Colorize::bold` on a `&str`, formatted with `to_string`. For a
/// text without the escape character the result is the text itself, or the
/// text between `ESC [ 1 m` and `ESC [ 0 m`.
#[verifier::external_body]
fn paint_bold(text: &str) -> (out: String)
    ensures
        is_styled(out@, text@, seq!['1']),
{
    text.bold().to_string()
}

/// `colored::Colorize::red` on a `&str`, formatted with `to_string`. For a
/// text without the escape character the result is the text itself, or the
/// text between `ESC [ 3 1 m` and `ESC [ 0 m`.
#[verifier::external_body]
fn paint_red(text: &str) -> (out: String)
    ensures
        is_styled(out@, text@, seq!['3', '1']),
{
    text.red().to_string()
}

/// `colored::Colorize::green` on a `&str`, formatted with `to_string`. For a
/// text without the escape character the result is the text itself, or the
/// text between `ESC [ 3 2 m` and `ESC [ 0 m`.
#[verifier::external_body]
fn paint_green(text: &str) -> (out: String)
    ensures
        is_styled(out@, text@, seq!['3', '2']),
{
    text.green().to_string()
}

/// `colored::Colorize::yellow` on a `&str`, formatted with `to_string`. For
/// a text without the escape character the result is the text itself, or
/// the text between `ESC [ 3 3 m` and `ESC [ 0 m`.
#[verifier::external_body]
fn paint_yellow(text: &str) -> (out: String)
    ensures
        is_styled(out@, text@, seq!['3', '3']),
{
    text.yellow().to_string()
}

/// `colored::Colorize::blue` on a `&str`, formatted with `to_string`. For a
/// text without the escape character the result is the text itself, or the
/// text between `ESC [ 3 4 m` and `ESC [ 0 m`.
#[verifier::external_body]
fn paint_blue(text: &str) -> (out: String)
    ensures
        is_styled(out@, text@, seq!['3', '4']),
{
    text.blue().to_string()
}

/// `colored::Colorize::magenta` on a `&str`, formatted with `to_string`. For
/// a text without the escape character the result is the text itself, or
/// the text between `ESC [ 3 5 m` and `ESC [ 0 m`.
#[verifier::external_body]
fn paint_magenta(text: &str) -> (out: String)
    ensures
        is_styled(out@, text@, seq!['3', '5']),
{
    text.magenta().to_string()
}

/// `colored::Colorize::cyan` on a `&str`, formatted with `to_string`. For a
/// text without the escape character the result is the text itself, or the
/// text between `ESC [ 3 6 m` and `ESC [ 0 m`.
#[verifier::external_body]
fn paint_cyan(text: &str) -> (out: String)
    ensures
        is_styled(out@, text@, seq!['3', '6']),
{
    text.cyan().to_string()
}

/// Makes a text show in a tone.
fn paint(text: &str, tone: Tone) -> (out: String)
    ensures
        match tone_code(tone) {
            Some(code) => is_styled(out@, text@, code),
            None => out@ == text@,
        },
{
    match tone {
        Tone::Primary => paint_blue(text),
        Tone::Secondary => paint_magenta(text),
        Tone::Highlight => paint_yellow(text),
        Tone::Success => paint_green(text),
        Tone::Accent => paint_cyan(text),
        Tone::Danger => paint_red(text),
        Tone::Plain => text.to_owned(),
    }
}

/// The terminal text of a span: its text, set off as its emphasis asks.
pub fn render_span(span: &Span) -> (out: String)
    ensures
        shows_span(out@, span@),
{
    match &span.emphasis {
        Emphasis::Plain => span.text.clone(),
        Emphasis::Bold => paint_bold(span.text.as_str()),
        Emphasis::PrimaryColor => paint(span.text.as_str(), Tone::Primary),
        Emphasis::SecondaryColor => paint(span.text.as_str(), Tone::Secondary),
        Emphasis::StatusColor(status) => paint(span.text.as_str(), status.tone()),
    }
}

/// The terminal text of a line: the terminal texts of its spans, one after
/// the other.
pub fn render_line(line: &DisplayLine) -> (out: String)
    ensures
        shows_line(out@, line@),
{
    let mut out = String::new();
    let ghost mut parts: Seq<Seq<char>> = Seq::empty();
    let mut i: usize = 0;
    while i < line.spans.len()
        invariant
            i <= line.spans.len(),
            parts_show(parts, line@.take(i as int)),
            out@ == concat(parts),
        decreases line.spans.len() - i,
    {
        let piece = render_span(&line.spans[i]);
        out.append(piece.as_str());
        proof {
            let longer = parts.push(piece@);
            assert(longer.drop_last() =~= parts);
            assert forall|k: int| 0 <= k < i + 1 implies shows_span(
                #[trigger] longer[k],
                line@.take(i + 1)[k],
            ) by {
                if k < i {
                    assert(longer[k] == parts[k]);
                    assert(line@.take(i + 1)[k] == line@.take(i as int)[k]);
                }
            }
            parts = longer;
        }
        i = i + 1;
    }
    proof {
        assert(line@.take(line.spans.len() as int) =~= line@);
        assert(parts_show(parts, line@) && out@ == concat(parts));
    }
    out
}

/// The terminal texts of several lines.
pub fn render_lines(lines: &Vec<DisplayLine>) -> (texts: Vec<String>)
    ensures
        shows_lines(texts.deep_view(), lines.deep_view()),
        texts.len() == lines.len(),
{
    let mut texts: Vec<String> = Vec::new();
    let mut i: usize = 0;
    while i < lines.len()
        invariant
            i <= lines.len(),
            texts.len() == i,
            shows_lines(texts.deep_view(), lines.deep_view().take(i as int)),
        decreases lines.len() - i,
    {
        let ghost before = texts.deep_view();
        let text = render_line(&lines[i]);
        texts.push(text);
        proof {
            let now = texts.deep_view();
            let upto = lines.deep_view().take(i + 1);
            assert forall|k: int| 0 <= k < upto.len() implies shows_line(
                #[trigger] now[k],
                upto[k],
            ) by {
                if k < i {
                    assert(now[k] == before[k]);
                    assert(upto[k] == lines.deep_view().take(i as int)[k]);
                }
            }
        }
        i = i + 1;
    }
    assert(lines.deep_view().take(lines.len() as int) =~= lines.deep_view());
    texts
}

/// The larger of two lengths.
pub open spec fn longer(a: nat, b: nat) -> nat {
    if a >= b {
        a
    } else {
        b
    }
}

/// Row `i` of the paired output: the decoration's line and the stat line
/// with one blank between them where both have a line `i`, else the one
/// line there is, with nothing before it and nothing after it.
pub open spec fn paired_row(decoration: Seq<Seq<char>>, stats: Seq<Seq<char>>, i: int) -> Seq<
    char,
> {
    if i < decoration.len() && i < stats.len() {
        decoration[i] + seq![' '] + stats[i]
    } else if i < decoration.len() {
        decoration[i]
    } else {
        stats[i]
    }
}

/// The output rows. With the decoration switched on and not empty, there is
/// one row for each index that either side has, in order: none is left out
/// and none comes twice. Otherwise the output is the stat lines alone.
pub open spec fn paired(decoration: Seq<Seq<char>>, stats: Seq<Seq<char>>, enabled: bool) -> Seq<
    Seq<char>,
> {
    if enabled && decoration.len() > 0 {
        Seq::new(longer(decoration.len(), stats.len()), |i: int| paired_row(decoration, stats, i))
    } else {
        stats
    }
}

/// The number of output rows is the larger of the two lengths with the
/// decoration switched on, and the number of stat lines with it switched
/// off. Row `i` is made of line `i` of each side that has one, so no line is
/// left out and none comes twice.
pub proof fn paired_rows_follow_the_lines(
    decoration: Seq<Seq<char>>,
    stats: Seq<Seq<char>>,
    enabled: bool,
)
    ensures
        enabled ==> paired(decoration, stats, enabled).len() == longer(
            decoration.len(),
            stats.len(),
        ),
        !enabled ==> paired(decoration, stats, enabled) == stats,
        enabled ==> forall|i: int|
            0 <= i < longer(decoration.len(), stats.len()) ==> #[trigger] paired(
                decoration,
                stats,
                enabled,
            )[i] == paired_row(decoration, stats, i),
{
}

/// Sets the decoration beside the stat lines, row by row. Neither side has
/// to be as long as the other, and either may be empty.
pub fn pair_lines(decoration: &Vec<String>, stats: &Vec<String>, enabled: bool) -> (rows: Vec<
    String,
>)
    ensures
        rows.deep_view() == paired(decoration.deep_view(), stats.deep_view(), enabled),
        enabled ==> rows.len() == longer(decoration.len() as nat, stats.len() as nat),
        !enabled ==> rows.len() == stats.len(),
{
    let paired_up = enabled && decoration.len() > 0;
    let count = if paired_up && decoration.len() > stats.len() {
        decoration.len()
    } else {
        stats.len()
    };
    let mut rows: Vec<String> = Vec::new();
    let mut i: usize = 0;
    while i < count
        invariant
            i <= count,
            paired_up == (enabled && decoration.len() > 0),
            count == (if paired_up {
                longer(decoration.len() as nat, stats.len() as nat)
            } else {
                stats.len() as nat
            }),
            rows.len() == i,
            forall|k: int|
                0 <= k < i ==> #[trigger] rows.deep_view()[k] == (if paired_up {
                    paired_row(decoration.deep_view(), stats.deep_view(), k)
                } else {
                    stats.deep_view()[k]
                }),
        decreases count - i,
    {
        let ghost before = rows.deep_view();
        let mut row = String::new();
        if paired_up && i < decoration.len() {
            row.append(decoration[i].as_str());
            if i < stats.len() {
                row.append(" ");
                row.append(stats[i].as_str());
            }
        } else {
            row.append(stats[i].as_str());
        }
        proof {
            reveal_strlit(" ");
            assert(" "@ =~= seq![' ']);
            if paired_up {
                assert(row@ =~= paired_row(decoration.deep_view(), stats.deep_view(), i as int));
            } else {
                assert(row@ =~= stats.deep_view()[i as int]);
            }
        }
        rows.push(row);
        proof {
            assert forall|k: int| 0 <= k < i + 1 implies #[trigger] rows.deep_view()[k] == (
            if paired_up {
                paired_row(decoration.deep_view(), stats.deep_view(), k)
            } else {
                stats.deep_view()[k]
            }) by {
                if k < i {
                    assert(rows.deep_view()[k] == before[k]);
                }
            }
        }
        i = i + 1;
    }
    assert(rows.deep_view() =~= paired(decoration.deep_view(), stats.deep_view(), enabled));
    rows
}

/// What `render` may give for a report: terminal texts of the report's
/// lines, set beside the decoration.
pub open spec fn is_rendering(
    rows: Seq<Seq<char>>,
    report: ReportView,
    decoration: Seq<Seq<char>>,
    enabled: bool,
) -> bool {
    exists|texts: Seq<Seq<char>>| #[trigger]
        shows_lines(texts, report_lines(report)) && rows == paired(decoration, texts, enabled)
}

/// Renders a report for the terminal: formats its lines, gives each span its
/// emphasis and sets the result beside the decoration if the configuration
/// asks for it. The rows depend on nothing but the three arguments and on
/// whether the environment lets the terminal show colours.
pub fn render(report: &UserReport, config: &Config, decoration: &Vec<String>) -> (rows: Vec<
    String,
>)
    ensures
        is_rendering(rows.deep_view(), report@, decoration.deep_view(), config.show_ascii),
        config.show_ascii ==> rows.len() == longer(
            decoration.len() as nat,
            (1 + CATEGORY_LINES * report.media_categories.len()) as nat,
        ),
        !config.show_ascii ==> rows.len() == 1 + CATEGORY_LINES * report.media_categories.len(),
{
    let lines = format_report(report);
    let texts = render_lines(&lines);
    let rows = pair_lines(decoration, &texts, use_ascii(config));
    proof {
        assert(shows_lines(texts.deep_view(), report_lines(report@)));
    }
    rows
}

} // verus!
