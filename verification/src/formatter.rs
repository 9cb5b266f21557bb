//! The stat formatter: from a report to the lines that show it. Nothing here
//! reads or writes anything; every line is a function of the report alone.

use crate::display::{
    emphasized, plain, plain_text, plain_text_grows, plain_text_of_one, DisplayLine, Emphasis,
    EmphasisView, Span, SpanView,
};
use crate::model::{
    CategoryView, MediaCategoryStats, MediaKind, ProgressMetrics, ReportView, UserReport,
};
use crate::normalizer::{normalize, normalized};
use crate::status::{StatusCount, StatusCountView};
use crate::text::{decimal, decimal_round_trip, format_decimal, join, joined, parse_numeral};
use crate::watchtime::{convert_minutes_to_days_hours_minutes, MINUTES_PER_DAY, MINUTES_PER_HOUR};
use vstd::prelude::*;

verus! {

/// How many lines a media category takes in a report.
pub const CATEGORY_LINES: usize = 5;

/// How many genres the genre summary shows at most.
pub const TOP_GENRES: usize = 5;

/// The line that names the user: the name in the primary colour, then the
/// service's domain.
pub open spec fn identity_line(identity: Seq<char>) -> Seq<SpanView> {
    seq![emphasized(identity, EmphasisView::PrimaryColor), plain("@anilist.co"@)]
}

/// The name under which a media category is shown.
pub open spec fn kind_name(kind: MediaKind) -> Seq<char> {
    match kind {
        MediaKind::Manga => "Manga"@,
        MediaKind::Anime => "Anime"@,
    }
}

/// The header of a media category: its name in bold, then the number of
/// entries in the primary colour.
pub open spec fn header_line(kind: MediaKind, total: nat) -> Seq<SpanView> {
    seq![
        emphasized(kind_name(kind), EmphasisView::Bold),
        plain(": "@),
        emphasized(decimal(total), EmphasisView::PrimaryColor),
    ]
}

/// The line of one progress counter: the caption, then the value in the
/// secondary colour.
pub open spec fn metric_line(caption: Seq<char>, value: nat) -> Seq<SpanView> {
    seq![plain(caption), emphasized(decimal(value), EmphasisView::SecondaryColor)]
}

/// The watch time line. The minutes are shown as whole days, the hours left
/// after the days and the minutes left after the hours, so that the three
/// numbers add up to the time watched.
pub open spec fn watchtime_line(minutes: nat) -> Seq<SpanView> {
    seq![
        plain("- Watchtime: "@),
        emphasized(decimal(minutes / MINUTES_PER_DAY as nat), EmphasisView::SecondaryColor),
        plain(" days, "@),
        emphasized(
            decimal((minutes % MINUTES_PER_DAY as nat) / MINUTES_PER_HOUR as nat),
            EmphasisView::SecondaryColor,
        ),
        plain(" hours, "@),
        emphasized(decimal(minutes % MINUTES_PER_HOUR as nat), EmphasisView::SecondaryColor),
        plain(" minutes"@),
    ]
}

/// The genres that the summary shows: the first five in the order received,
/// or all of them where there are fewer.
pub open spec fn top_genres(genres: Seq<Seq<char>>) -> Seq<Seq<char>> {
    if genres.len() <= TOP_GENRES {
        genres
    } else {
        genres.take(TOP_GENRES as int)
    }
}

/// The genre summary: the caption, then the genres shown, joined by a comma
/// and a blank, in the secondary colour. Without genres the line is the
/// caption and nothing else.
pub open spec fn genre_line(genres: Seq<Seq<char>>) -> Seq<SpanView> {
    if genres.len() == 0 {
        seq![plain("- Top 5 genres: "@)]
    } else {
        seq![
            plain("- Top 5 genres: "@),
            emphasized(joined(top_genres(genres), ", "@), EmphasisView::SecondaryColor),
        ]
    }
}

/// The spans of a status summary for entries that are in their final order:
/// a dash, then for each entry its label, a blank and its count in the
/// status's colour, with a comma and a blank between two entries.
pub open spec fn status_spans(entries: Seq<StatusCountView>) -> Seq<SpanView>
    decreases entries.len(),
{
    if entries.len() == 0 {
        seq![plain("- "@)]
    } else {
        let entry = entries.last();
        let separator = if entries.len() > 1 {
            seq![plain(", "@)]
        } else {
            Seq::empty()
        };
        status_spans(entries.drop_last()) + separator + seq![
            plain(entry.status.label() + " "@),
            emphasized(decimal(entry.count), EmphasisView::StatusColor(entry.status)),
        ]
    }
}

/// The status summary of a breakdown: the spans of its entries in canonical
/// order.
pub open spec fn status_line(statuses: Seq<StatusCountView>) -> Seq<SpanView> {
    status_spans(normalized(statuses))
}

/// The five lines of a media category: header, the two progress counters,
/// genre summary, status summary.
pub open spec fn category_lines(category: CategoryView) -> Seq<Seq<SpanView>> {
    match category.progress {
        ProgressMetrics::Manga { chapters_read, volumes_read } => seq![
            header_line(MediaKind::Manga, category.total_count),
            metric_line("- Chapters read: "@, chapters_read as nat),
            metric_line("- Volumes read: "@, volumes_read as nat),
            genre_line(category.genres),
            status_line(category.statuses),
        ],
        ProgressMetrics::Anime { episodes_watched, minutes_watched } => seq![
            header_line(MediaKind::Anime, category.total_count),
            metric_line("- Episodes watched: "@, episodes_watched as nat),
            watchtime_line(minutes_watched as nat),
            genre_line(category.genres),
            status_line(category.statuses),
        ],
    }
}

/// The lines of several media categories, one category after the other.
pub open spec fn categories_lines(categories: Seq<CategoryView>) -> Seq<Seq<SpanView>>
    decreases categories.len(),
{
    if categories.len() == 0 {
        Seq::empty()
    } else {
        categories_lines(categories.drop_last()) + category_lines(categories.last())
    }
}

/// The lines of a report: the identity line, then the lines of each media
/// category in the order of the report.
pub open spec fn report_lines(report: ReportView) -> Seq<Seq<SpanView>> {
    seq![identity_line(report.identity)] + categories_lines(report.categories)
}

/// A report has one line for the user and five for each media category.
pub proof fn report_line_count(report: ReportView)
    ensures
        report_lines(report).len() == 1 + CATEGORY_LINES * report.categories.len(),
{
    categories_line_count(report.categories);
}

proof fn categories_line_count(categories: Seq<CategoryView>)
    ensures
        categories_lines(categories).len() == CATEGORY_LINES * categories.len(),
    decreases categories.len(),
{
    if categories.len() > 0 {
        categories_line_count(categories.drop_last());
    }
}

/// Without genres, the genre summary is the caption alone: its text ends
/// with the blank after the colon, and no span of it carries an emphasis.
pub proof fn empty_genres_show_caption_only(category: CategoryView)
    requires
        category.genres.len() == 0,
    ensures
        category_lines(category)[3] == seq![plain("- Top 5 genres: "@)],
        plain_text(category_lines(category)[3]) == "- Top 5 genres: "@,
{
    plain_text_of_one(plain("- Top 5 genres: "@));
}

/// The text of a metric line is the caption and then the numeral of the
/// value, and reading what stands behind the caption gives the value back:
/// nothing of the number is lost on the way to the line.
pub proof fn metric_line_reads_back(caption: Seq<char>, value: nat)
    ensures
        plain_text(metric_line(caption, value)) == caption + decimal(value),
        parse_numeral(plain_text(metric_line(caption, value)).skip(caption.len() as int)) == Some(
            value,
        ),
{
    let value_span = emphasized(decimal(value), EmphasisView::SecondaryColor);
    plain_text_of_one(plain(caption));
    plain_text_grows(seq![plain(caption)], value_span);
    assert(metric_line(caption, value) =~= seq![plain(caption)].push(value_span));
    assert((caption + decimal(value)).skip(caption.len() as int) =~= decimal(value));
    decimal_round_trip(value);
}

/// The text of a header is the name of the category, a colon, a blank and
/// the numeral of the number of entries, and reading what stands behind the
/// blank gives the number back.
pub proof fn header_line_reads_back(kind: MediaKind, total: nat)
    ensures
        plain_text(header_line(kind, total)) == kind_name(kind) + ": "@ + decimal(total),
        parse_numeral(
            plain_text(header_line(kind, total)).skip(
                (kind_name(kind).len() + ": "@.len()) as int,
            ),
        ) == Some(total),
{
    let name_span = emphasized(kind_name(kind), EmphasisView::Bold);
    let count_span = emphasized(decimal(total), EmphasisView::PrimaryColor);
    plain_text_of_one(name_span);
    plain_text_grows(seq![name_span], plain(": "@));
    plain_text_grows(seq![name_span].push(plain(": "@)), count_span);
    assert(header_line(kind, total) =~= seq![name_span].push(plain(": "@)).push(count_span));
    assert((kind_name(kind) + ": "@ + decimal(total)).skip(
        (kind_name(kind).len() + ": "@.len()) as int,
    ) =~= decimal(total));
    decimal_round_trip(total);
}

/// Formats the line that names the user.
pub fn format_identity(identity: &str) -> (line: DisplayLine)
    ensures
        line@ == identity_line(identity@),
{
    let mut spans: Vec<Span> = Vec::new();
    spans.push(Span::emphasized(identity.to_owned(), Emphasis::PrimaryColor));
    spans.push(Span::plain("@anilist.co"));
    let line = DisplayLine { spans };
    assert(line@ =~= identity_line(identity@));
    line
}

/// Formats the header of a media category.
pub fn format_header(kind: MediaKind, total: u32) -> (line: DisplayLine)
    ensures
        line@ == header_line(kind, total as nat),
{
    let name = match kind {
        MediaKind::Manga => "Manga",
        MediaKind::Anime => "Anime",
    };
    let mut spans: Vec<Span> = Vec::new();
    spans.push(Span::emphasized(name.to_owned(), Emphasis::Bold));
    spans.push(Span::plain(": "));
    spans.push(Span::emphasized(format_decimal(total), Emphasis::PrimaryColor));
    let line = DisplayLine { spans };
    assert(line@ =~= header_line(kind, total as nat));
    line
}

/// Formats the line of one progress counter.
pub fn format_metric(caption: &str, value: u32) -> (line: DisplayLine)
    ensures
        line@ == metric_line(caption@, value as nat),
{
    let mut spans: Vec<Span> = Vec::new();
    spans.push(Span::plain(caption));
    spans.push(Span::emphasized(format_decimal(value), Emphasis::SecondaryColor));
    let line = DisplayLine { spans };
    assert(line@ =~= metric_line(caption@, value as nat));
    line
}

/// Formats the watch time line.
pub fn format_watchtime(minutes: u32) -> (line: DisplayLine)
    ensures
        line@ == watchtime_line(minutes as nat),
{
    let (days, hours, rest) = convert_minutes_to_days_hours_minutes(minutes);
    let mut spans: Vec<Span> = Vec::new();
    spans.push(Span::plain("- Watchtime: "));
    spans.push(Span::emphasized(format_decimal(days), Emphasis::SecondaryColor));
    spans.push(Span::plain(" days, "));
    spans.push(Span::emphasized(format_decimal(hours), Emphasis::SecondaryColor));
    spans.push(Span::plain(" hours, "));
    spans.push(Span::emphasized(format_decimal(rest), Emphasis::SecondaryColor));
    spans.push(Span::plain(" minutes"));
    let line = DisplayLine { spans };
    assert(line@ =~= watchtime_line(minutes as nat));
    line
}

/// Formats the genre summary. Fewer than five genres are all shown; none at
/// all leaves the caption alone.
pub fn format_genres(genres: &Vec<String>) -> (line: DisplayLine)
    ensures
        line@ == genre_line(genres.deep_view()),
        genres.len() == 0 ==> plain_text(line@) == "- Top 5 genres: "@,
{
    let mut spans: Vec<Span> = Vec::new();
    spans.push(Span::plain("- Top 5 genres: "));
    if genres.len() > 0 {
        let mut shown: Vec<String> = Vec::new();
        let mut i: usize = 0;
        while i < genres.len() && i < TOP_GENRES
            invariant
                i <= genres.len(),
                i <= TOP_GENRES,
                shown.deep_view() == genres.deep_view().take(i as int),
            decreases genres.len() - i,
        {
            let ghost before = shown.deep_view();
            let genre = genres[i].clone();
            assert(genre@ == genres[i as int]@);
            shown.push(genre);
            assert(shown.deep_view() =~= before.push(genres[i as int]@));
            assert(shown.deep_view() =~= genres.deep_view().take(i + 1));
            i = i + 1;
        }
        proof {
            if genres.len() <= TOP_GENRES {
                assert(genres.deep_view().take(i as int) =~= genres.deep_view());
            }
        }
        spans.push(Span::emphasized(join(&shown, ", "), Emphasis::SecondaryColor));
    }
    let line = DisplayLine { spans };
    proof {
        assert(line@ =~= genre_line(genres.deep_view()));
        if genres.len() == 0 {
            plain_text_of_one(plain("- Top 5 genres: "@));
        }
    }
    line
}

/// Formats the status summary of a breakdown. The entries are shown in
/// canonical order, whatever order they come in.
pub fn format_statuses(statuses: Vec<StatusCount>) -> (line: DisplayLine)
    ensures
        line@ == status_line(statuses.deep_view()),
{
    let ordered = normalize(statuses);
    let ghost entries = ordered.deep_view();
    let mut spans: Vec<Span> = Vec::new();
    spans.push(Span::plain("- "));
    assert(spans.deep_view() =~= status_spans(entries.take(0)));
    let mut i: usize = 0;
    while i < ordered.len()
        invariant
            i <= ordered.len(),
            entries == ordered.deep_view(),
            spans.deep_view() == status_spans(entries.take(i as int)),
        decreases ordered.len() - i,
    {
        let ghost before = spans.deep_view();
        if i > 0 {
            spans.push(Span::plain(", "));
        }
        let entry = &ordered[i];
        let mut label = entry.status.label();
        label.append(" ");
        spans.push(Span { text: label, emphasis: Emphasis::Plain });
        spans.push(
            Span::emphasized(
                format_decimal(entry.count),
                Emphasis::StatusColor(entry.status.duplicate()),
            ),
        );
        proof {
            let upto = entries.take(i + 1);
            assert(upto.drop_last() =~= entries.take(i as int));
            assert(upto.last() == ordered[i as int]@);
            assert(spans.deep_view() =~= status_spans(upto));
        }
        i = i + 1;
    }
    assert(entries.take(ordered.len() as int) =~= entries);
    DisplayLine { spans }
}

/// A copy of a status breakdown.
fn copy_statuses(statuses: &Vec<StatusCount>) -> (copy: Vec<StatusCount>)
    ensures
        copy.deep_view() == statuses.deep_view(),
{
    let mut copy: Vec<StatusCount> = Vec::new();
    let mut i: usize = 0;
    while i < statuses.len()
        invariant
            i <= statuses.len(),
            copy.deep_view() == statuses.deep_view().take(i as int),
        decreases statuses.len() - i,
    {
        let ghost before = copy.deep_view();
        let entry = StatusCount {
            status: statuses[i].status.duplicate(),
            count: statuses[i].count,
        };
        assert(entry@ == statuses[i as int]@);
        copy.push(entry);
        assert(copy.deep_view() =~= before.push(statuses[i as int]@));
        assert(copy.deep_view() =~= statuses.deep_view().take(i + 1));
        i = i + 1;
    }
    assert(statuses.deep_view().take(statuses.len() as int) =~= statuses.deep_view());
    copy
}

/// Formats the five lines of a media category and appends them to `lines`.
fn push_category(lines: &mut Vec<DisplayLine>, category: &MediaCategoryStats)
    ensures
        final(lines).deep_view() == old(lines).deep_view() + category_lines(category@),
{
    let ghost before = lines.deep_view();
    match category.progress {
        ProgressMetrics::Manga { chapters_read, volumes_read } => {
            lines.push(format_header(MediaKind::Manga, category.total_count));
            lines.push(format_metric("- Chapters read: ", chapters_read));
            lines.push(format_metric("- Volumes read: ", volumes_read));
        },
        ProgressMetrics::Anime { episodes_watched, minutes_watched } => {
            lines.push(format_header(MediaKind::Anime, category.total_count));
            lines.push(format_metric("- Episodes watched: ", episodes_watched));
            lines.push(format_watchtime(minutes_watched));
        },
    }
    lines.push(format_genres(&category.genres));
    lines.push(format_statuses(copy_statuses(&category.status_breakdown)));
    assert(lines.deep_view() =~= before + category_lines(category@));
}

/// Formats the five lines of a media category.
pub fn format_category(category: &MediaCategoryStats) -> (lines: Vec<DisplayLine>)
    ensures
        lines.deep_view() == category_lines(category@),
{
    let mut lines: Vec<DisplayLine> = Vec::new();
    push_category(&mut lines, category);
    assert(Seq::<Seq<SpanView>>::empty() + category_lines(category@) =~= category_lines(
        category@,
    ));
    lines
}

/// Formats a report: the identity line, then five lines for each media
/// category, in the order in which the report holds the categories.
pub fn format_report(report: &UserReport) -> (lines: Vec<DisplayLine>)
    ensures
        lines.deep_view() == report_lines(report@),
        lines.len() == 1 + CATEGORY_LINES * report.media_categories.len(),
{
    let ghost categories = report@.categories;
    let mut lines: Vec<DisplayLine> = Vec::new();
    lines.push(format_identity(report.identity.as_str()));
    assert(lines.deep_view() =~= seq![identity_line(report@.identity)] + categories_lines(
        categories.take(0),
    ));
    let mut i: usize = 0;
    while i < report.media_categories.len()
        invariant
            i <= report.media_categories.len(),
            categories == report.media_categories.deep_view(),
            lines.deep_view() == seq![identity_line(report@.identity)] + categories_lines(
                categories.take(i as int),
            ),
        decreases report.media_categories.len() - i,
    {
        push_category(&mut lines, &report.media_categories[i]);
        proof {
            let upto = categories.take(i + 1);
            assert(upto.drop_last() =~= categories.take(i as int));
            assert(upto.last() == report.media_categories[i as int]@);
            assert(lines.deep_view() =~= seq![identity_line(report@.identity)] + categories_lines(
                upto,
            ));
        }
        i = i + 1;
    }
    proof {
        assert(categories.take(report.media_categories.len() as int) =~= categories);
        report_line_count(report@);
    }
    lines
}

} // verus!
