//! The report model: what the rendering engine knows of one user.

use crate::status::{StatusCount, StatusCountView};
use vstd::prelude::*;

verus! {

/// The two media categories that the service tracks.
#[derive(Debug, Clone, Copy, PartialEq, Eq, Structural)]
pub enum MediaKind {
    Manga,
    Anime,
}

/// The progress counters of a media category. Which counters there are
/// depends on the kind of media.
#[derive(Debug, Clone, Copy, PartialEq, Eq, Structural)]
pub enum ProgressMetrics {
    Manga { chapters_read: u32, volumes_read: u32 },
    Anime { episodes_watched: u32, minutes_watched: u32 },
}

impl ProgressMetrics {
    /// The kind of media that the counters belong to.
    pub open spec fn spec_kind(self) -> MediaKind {
        match self {
            ProgressMetrics::Manga { .. } => MediaKind::Manga,
            ProgressMetrics::Anime { .. } => MediaKind::Anime,
        }
    }

    /// The kind of media that the counters belong to.
    #[verifier::when_used_as_spec(spec_kind)]
    pub fn kind(self) -> (kind: MediaKind)
        ensures
            kind == self.spec_kind(),
    {
        match self {
            ProgressMetrics::Manga { .. } => MediaKind::Manga,
            ProgressMetrics::Anime { .. } => MediaKind::Anime,
        }
    }
}

/// The statistics of one media category.
///
/// A status is expected to occur at most once in `status_breakdown`. The
/// genres are in the order in which the service sent them. Both lists may be
/// empty, which means that there is no data.
#[derive(Debug, Clone, PartialEq, Eq)]
pub struct MediaCategoryStats {
    pub total_count: u32,
    pub progress: ProgressMetrics,
    pub status_breakdown: Vec<StatusCount>,
    pub genres: Vec<String>,
}

/// The mathematical value of a [`MediaCategoryStats`].
pub struct CategoryView {
    pub total_count: nat,
    pub progress: ProgressMetrics,
    pub statuses: Seq<StatusCountView>,
    pub genres: Seq<Seq<char>>,
}

impl DeepView for MediaCategoryStats {
    type V = CategoryView;

    open spec fn deep_view(&self) -> CategoryView {
        CategoryView {
            total_count: self.total_count as nat,
            progress: self.progress,
            statuses: self.status_breakdown.deep_view(),
            genres: self.genres.deep_view(),
        }
    }
}

impl View for MediaCategoryStats {
    type V = CategoryView;

    open spec fn view(&self) -> CategoryView {
        self.deep_view()
    }
}

impl MediaCategoryStats {
    /// The kind of media that the statistics are about.
    pub fn kind(&self) -> (kind: MediaKind)
        ensures
            kind == self@.progress.spec_kind(),
    {
        self.progress.kind()
    }
}

/// Everything that is shown of one user: the user's name and the statistics
/// of each media category, Manga before Anime when the report comes from the
/// service.
#[derive(Debug, Clone, PartialEq, Eq)]
pub struct UserReport {
    pub identity: String,
    pub media_categories: Vec<MediaCategoryStats>,
}

/// The mathematical value of a [`UserReport`].
pub struct ReportView {
    pub identity: Seq<char>,
    pub categories: Seq<CategoryView>,
}

impl DeepView for UserReport {
    type V = ReportView;

    open spec fn deep_view(&self) -> ReportView {
        ReportView {
            identity: self.identity@,
            categories: self.media_categories.deep_view(),
        }
    }
}

impl View for UserReport {
    type V = ReportView;

    open spec fn view(&self) -> ReportView {
        self.deep_view()
    }
}

} // verus!
