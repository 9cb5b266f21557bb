//! The response model: the part of the service's answer that the report is
//! made of, field by field as the service names it, and the way from there to
//! a report.

use crate::model::{CategoryView, MediaCategoryStats, ProgressMetrics, ReportView, UserReport};
use crate::status::{status_of_token, Status, StatusCount, StatusCountView};
use vstd::prelude::*;

verus! {

/// One genre of a media category.
#[derive(Debug, Clone, PartialEq, Eq)]
pub struct Genre {
    pub genre: String,
}

/// The number of list entries in one status, the status as the service's
/// token.
#[derive(Debug, Clone, PartialEq, Eq)]
pub struct Statuses {
    pub status: String,
    pub count: u32,
}

/// The manga statistics of a user.
#[derive(Debug, Clone, PartialEq, Eq)]
pub struct Manga {
    pub chapters_read: u32,
    pub volumes_read: u32,
    pub count: u32,
    pub statuses: Vec<Statuses>,
    pub genres: Vec<Genre>,
}

/// The anime statistics of a user.
#[derive(Debug, Clone, PartialEq, Eq)]
pub struct Anime {
    pub minutes_watched: u32,
    pub episodes_watched: u32,
    pub count: u32,
    pub statuses: Vec<Statuses>,
    pub genres: Vec<Genre>,
}

/// The statistics of a user, by media category.
#[derive(Debug, Clone, PartialEq, Eq)]
pub struct Statistics {
    pub manga: Manga,
    pub anime: Anime,
}

/// A user of the service.
#[derive(Debug, Clone, PartialEq, Eq)]
pub struct User {
    pub name: String,
    pub statistics: Statistics,
}

/// The payload of an answer.
#[derive(Debug, Clone, PartialEq, Eq)]
pub struct Data {
    pub user: User,
}

/// An answer of the service.
#[derive(Debug, Clone, PartialEq, Eq)]
pub struct ResponseData {
    pub data: Data,
}

/// How many lines the report of an answer has: one for the user and five
/// for each of the two media categories.
pub const ANSWER_LINES: usize = 11;

/// The names of the genres, in the order received.
pub open spec fn genre_names(genres: Seq<Genre>) -> Seq<Seq<char>> {
    Seq::new(genres.len(), |i: int| genres[i].genre@)
}

/// The status breakdown, in the order received. Each token is read as the
/// status it stands for; a token outside the vocabulary stays, as `Other`.
pub open spec fn status_counts(statuses: Seq<Statuses>) -> Seq<StatusCountView> {
    Seq::new(
        statuses.len(),
        |i: int|
            StatusCountView {
                status: status_of_token(statuses[i].status@),
                count: statuses[i].count as nat,
            },
    )
}

/// The manga category of a report.
pub open spec fn manga_stats(manga: Manga) -> CategoryView {
    CategoryView {
        total_count: manga.count as nat,
        progress: ProgressMetrics::Manga {
            chapters_read: manga.chapters_read,
            volumes_read: manga.volumes_read,
        },
        statuses: status_counts(manga.statuses@),
        genres: genre_names(manga.genres@),
    }
}

/// The anime category of a report.
pub open spec fn anime_stats(anime: Anime) -> CategoryView {
    CategoryView {
        total_count: anime.count as nat,
        progress: ProgressMetrics::Anime {
            episodes_watched: anime.episodes_watched,
            minutes_watched: anime.minutes_watched,
        },
        statuses: status_counts(anime.statuses@),
        genres: genre_names(anime.genres@),
    }
}

/// The report that an answer gives: the user's name, then the manga
/// category, then the anime category.
pub open spec fn report_of(response: ResponseData) -> ReportView {
    ReportView {
        identity: response.data.user.name@,
        categories: seq![
            manga_stats(response.data.user.statistics.manga),
            anime_stats(response.data.user.statistics.anime),
        ],
    }
}

fn read_genres(genres: &Vec<Genre>) -> (names: Vec<String>)
    ensures
        names.deep_view() == genre_names(genres@),
{
    let mut names: Vec<String> = Vec::new();
    let mut i: usize = 0;
    while i < genres.len()
        invariant
            i <= genres.len(),
            names.deep_view() == genre_names(genres@).take(i as int),
        decreases genres.len() - i,
    {
        let ghost before = names.deep_view();
        let name = genres[i].genre.clone();
        names.push(name);
        assert(names.deep_view() =~= before.push(genres[i as int].genre@));
        assert(names.deep_view() =~= genre_names(genres@).take(i + 1));
        i = i + 1;
    }
    assert(genre_names(genres@).take(genres.len() as int) =~= genre_names(genres@));
    names
}

fn read_statuses(statuses: &Vec<Statuses>) -> (counts: Vec<StatusCount>)
    ensures
        counts.deep_view() == status_counts(statuses@),
{
    let mut counts: Vec<StatusCount> = Vec::new();
    let mut i: usize = 0;
    while i < statuses.len()
        invariant
            i <= statuses.len(),
            counts.deep_view() == status_counts(statuses@).take(i as int),
        decreases statuses.len() - i,
    {
        let ghost before = counts.deep_view();
        let entry = StatusCount {
            status: Status::from_token(statuses[i].status.clone()),
            count: statuses[i].count,
        };
        assert(entry@ == status_counts(statuses@)[i as int]);
        counts.push(entry);
        assert(counts.deep_view() =~= before.push(status_counts(statuses@)[i as int]));
        assert(counts.deep_view() =~= status_counts(statuses@).take(i + 1));
        i = i + 1;
    }
    assert(status_counts(statuses@).take(statuses.len() as int) =~= status_counts(statuses@));
    counts
}

impl MediaCategoryStats {
    /// The manga category of a report.
    pub fn from_manga(manga: &Manga) -> (stats: MediaCategoryStats)
        ensures
            stats@ == manga_stats(*manga),
    {
        MediaCategoryStats {
            total_count: manga.count,
            progress: ProgressMetrics::Manga {
                chapters_read: manga.chapters_read,
                volumes_read: manga.volumes_read,
            },
            status_breakdown: read_statuses(&manga.statuses),
            genres: read_genres(&manga.genres),
        }
    }

    /// The anime category of a report.
    pub fn from_anime(anime: &Anime) -> (stats: MediaCategoryStats)
        ensures
            stats@ == anime_stats(*anime),
    {
        MediaCategoryStats {
            total_count: anime.count,
            progress: ProgressMetrics::Anime {
                episodes_watched: anime.episodes_watched,
                minutes_watched: anime.minutes_watched,
            },
            status_breakdown: read_statuses(&anime.statuses),
            genres: read_genres(&anime.genres),
        }
    }
}

impl UserReport {
    /// Makes the report of an answer. This cannot fail: whatever has the
    /// shape of an answer gives a report, and a status token that is not
    /// known is kept rather than refused.
    pub fn from_response(response: &ResponseData) -> (report: UserReport)
        ensures
            report@ == report_of(*response),
    {
        let user = &response.data.user;
        let mut media_categories: Vec<MediaCategoryStats> = Vec::new();
        media_categories.push(MediaCategoryStats::from_manga(&user.statistics.manga));
        media_categories.push(MediaCategoryStats::from_anime(&user.statistics.anime));
        let report = UserReport { identity: user.name.clone(), media_categories };
        assert(report@.categories =~= report_of(*response).categories);
        report
    }
}

} // verus!
