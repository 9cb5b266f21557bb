//! Progress statuses: the fixed vocabulary, the tokens the service uses for
//! them, their labels and tones, and the canonical order of a status
//! breakdown.

use crate::text::{lex_le, lexically_at_most, same_text, titlecase, titlecase_text};
use vstd::prelude::*;

verus! {

/// The progress status of a list entry. The service's vocabulary is fixed;
/// a token outside of it is kept as `Other`, so that an addition on the
/// service's side stays visible.
#[derive(Debug, Clone, PartialEq, Eq)]
pub enum Status {
    Current,
    Planning,
    Completed,
    Dropped,
    Paused,
    Repeating,
    /// A token outside the vocabulary, as received.
    Other(String),
}

/// The mathematical value of a [`Status`].
pub enum StatusView {
    Current,
    Planning,
    Completed,
    Dropped,
    Paused,
    Repeating,
    Other(Seq<char>),
}

/// The colour family in which a value is shown. `Plain` is no colour at all.
#[derive(Debug, Clone, Copy, PartialEq, Eq, Structural)]
pub enum Tone {
    Primary,
    Secondary,
    Highlight,
    Success,
    Accent,
    Danger,
    Plain,
}

impl DeepView for Status {
    type V = StatusView;

    open spec fn deep_view(&self) -> StatusView {
        match self {
            Status::Current => StatusView::Current,
            Status::Planning => StatusView::Planning,
            Status::Completed => StatusView::Completed,
            Status::Dropped => StatusView::Dropped,
            Status::Paused => StatusView::Paused,
            Status::Repeating => StatusView::Repeating,
            Status::Other(token) => StatusView::Other(token@),
        }
    }
}

impl View for Status {
    type V = StatusView;

    open spec fn view(&self) -> StatusView {
        self.deep_view()
    }
}

impl StatusView {
    /// The token by which the service names the status. The canonical order
    /// of statuses is the lexical order of these tokens.
    pub open spec fn token(self) -> Seq<char> {
        match self {
            StatusView::Current => "CURRENT"@,
            StatusView::Planning => "PLANNING"@,
            StatusView::Completed => "COMPLETED"@,
            StatusView::Dropped => "DROPPED"@,
            StatusView::Paused => "PAUSED"@,
            StatusView::Repeating => "REPEATING"@,
            StatusView::Other(token) => token,
        }
    }

    /// The label under which the status is shown: its token in title case.
    pub open spec fn label(self) -> Seq<char> {
        titlecase_text(self.token())
    }

    /// The tone in which the status's count is shown. A status outside the
    /// vocabulary has none.
    pub open spec fn tone(self) -> Tone {
        match self {
            StatusView::Completed => Tone::Success,
            StatusView::Paused => Tone::Secondary,
            StatusView::Current => Tone::Highlight,
            StatusView::Planning => Tone::Primary,
            StatusView::Repeating => Tone::Accent,
            StatusView::Dropped => Tone::Danger,
            StatusView::Other(_) => Tone::Plain,
        }
    }
}

/// The status that a token of the service stands for. Tokens are matched
/// exactly, letter case included.
pub open spec fn status_of_token(token: Seq<char>) -> StatusView {
    if token == "CURRENT"@ {
        StatusView::Current
    } else if token == "PLANNING"@ {
        StatusView::Planning
    } else if token == "COMPLETED"@ {
        StatusView::Completed
    } else if token == "DROPPED"@ {
        StatusView::Dropped
    } else if token == "PAUSED"@ {
        StatusView::Paused
    } else if token == "REPEATING"@ {
        StatusView::Repeating
    } else {
        StatusView::Other(token)
    }
}

/// A status read from a token names that token again.
pub proof fn status_of_token_keeps_token(token: Seq<char>)
    ensures
        status_of_token(token).token() == token,
{
}

impl Status {
    /// Reads a status from the service's token. A token outside the
    /// vocabulary is kept in `Other`; this never fails.
    pub fn from_token(token: String) -> (status: Status)
        ensures
            status@ == status_of_token(token@),
    {
        if same_text(token.as_str(), "CURRENT") {
            Status::Current
        } else if same_text(token.as_str(), "PLANNING") {
            Status::Planning
        } else if same_text(token.as_str(), "COMPLETED") {
            Status::Completed
        } else if same_text(token.as_str(), "DROPPED") {
            Status::Dropped
        } else if same_text(token.as_str(), "PAUSED") {
            Status::Paused
        } else if same_text(token.as_str(), "REPEATING") {
            Status::Repeating
        } else {
            Status::Other(token)
        }
    }

    /// The token by which the service names the status.
    pub fn token(&self) -> (token: &str)
        ensures
            token@ == self@.token(),
    {
        match self {
            Status::Current => "CURRENT",
            Status::Planning => "PLANNING",
            Status::Completed => "COMPLETED",
            Status::Dropped => "DROPPED",
            Status::Paused => "PAUSED",
            Status::Repeating => "REPEATING",
            Status::Other(token) => token.as_str(),
        }
    }

    /// The label under which the status is shown.
    pub fn label(&self) -> (label: String)
        ensures
            label@ == self@.label(),
    {
        titlecase(self.token().to_owned())
    }

    /// The tone in which the status's count is shown.
    pub fn tone(&self) -> (tone: Tone)
        ensures
            tone == self@.tone(),
    {
        match self {
            Status::Completed => Tone::Success,
            Status::Paused => Tone::Secondary,
            Status::Current => Tone::Highlight,
            Status::Planning => Tone::Primary,
            Status::Repeating => Tone::Accent,
            Status::Dropped => Tone::Danger,
            Status::Other(_) => Tone::Plain,
        }
    }

    /// A copy of the status.
    pub fn duplicate(&self) -> (copy: Status)
        ensures
            copy@ == self@,
    {
        match self {
            Status::Current => Status::Current,
            Status::Planning => Status::Planning,
            Status::Completed => Status::Completed,
            Status::Dropped => Status::Dropped,
            Status::Paused => Status::Paused,
            Status::Repeating => Status::Repeating,
            Status::Other(token) => Status::Other(token.clone()),
        }
    }
}

/// How many list entries of one media category are in one status.
#[derive(Debug, Clone, PartialEq, Eq)]
pub struct StatusCount {
    pub status: Status,
    pub count: u32,
}

/// The mathematical value of a [`StatusCount`].
pub struct StatusCountView {
    pub status: StatusView,
    pub count: nat,
}

impl DeepView for StatusCount {
    type V = StatusCountView;

    open spec fn deep_view(&self) -> StatusCountView {
        StatusCountView { status: self.status@, count: self.count as nat }
    }
}

impl View for StatusCount {
    type V = StatusCountView;

    open spec fn view(&self) -> StatusCountView {
        self.deep_view()
    }
}

} // verus!
