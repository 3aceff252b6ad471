//! The last known count and the last known error, and the rule by which fetch outcomes
//! change them.

use vstd::prelude::*;

verus! {

/// The mathematical value of a [`Status`].
pub struct StatusView {
    pub count: Option<u32>,
    pub error: Option<Seq<char>>,
}

impl StatusView {
    /// The status before any outcome has arrived.
    pub open spec fn loading() -> StatusView {
        StatusView { count: None, error: None }
    }

    /// The status after `outcome` has arrived: a count replaces the count and clears the
    /// error; an error is kept beside the count that was known.
    pub open spec fn apply(self, outcome: Result<u32, Seq<char>>) -> StatusView {
        match outcome {
            Ok(count) => StatusView { count: Some(count), error: None },
            Err(message) => StatusView { count: self.count, error: Some(message) },
        }
    }

    /// The status after `outcomes` have arrived, one after the other.
    pub open spec fn replay(self, outcomes: Seq<Result<u32, Seq<char>>>) -> StatusView
        decreases outcomes.len(),
    {
        if outcomes.len() == 0 {
            self
        } else {
            self.replay(outcomes.drop_last()).apply(outcomes.last())
        }
    }

    /// The one of the three states that the status is in.
    pub open spec fn state(self) -> StatusStateView {
        match (self.error, self.count) {
            (Some(message), _) => StatusStateView::Failure(message),
            (None, Some(count)) => StatusStateView::Count(count),
            (None, None) => StatusStateView::Loading,
        }
    }

    /// The badge that stands for the status.
    pub open spec fn badge(self) -> Option<Badge> {
        match (self.error, self.count) {
            (Some(_), _) => Some(Badge { label: BadgeLabel::Alert, level: BadgeLevel::High }),
            (None, Some(count)) => Some(
                Badge { label: BadgeLabel::Count(count), level: count_level(count) },
            ),
            (None, None) => None,
        }
    }
}

/// The count of the last success among `outcomes`, if there is one.
pub open spec fn last_count(outcomes: Seq<Result<u32, Seq<char>>>) -> Option<u32>
    decreases outcomes.len(),
{
    if outcomes.len() == 0 {
        None
    } else {
        match outcomes.last() {
            Ok(count) => Some(count),
            Err(_) => last_count(outcomes.drop_last()),
        }
    }
}

/// The message of the last of `outcomes`, if that is a failure.
pub open spec fn last_error(outcomes: Seq<Result<u32, Seq<char>>>) -> Option<Seq<char>> {
    if outcomes.len() == 0 {
        None
    } else {
        match outcomes.last() {
            Ok(_) => None,
            Err(message) => Some(message),
        }
    }
}

/// After any sequence of outcomes, replayed from the start, the error is set exactly when
/// the last outcome was a failure, and is then its message; and the count is that of the last
/// success so far, or absent where there was none.
pub proof fn lemma_replay_from_loading(outcomes: Seq<Result<u32, Seq<char>>>)
    ensures
        StatusView::loading().replay(outcomes).error is Some <==> outcomes.len() > 0
            && outcomes.last() is Err,
        StatusView::loading().replay(outcomes).error == last_error(outcomes),
        StatusView::loading().replay(outcomes).count == last_count(outcomes),
{
    lemma_replay(StatusView::loading(), outcomes);
}

/// After any sequence of outcomes, replayed from any status, the error is that of the last
/// outcome where there is one, and the count is that of the last success among them, or the
/// count from before where there was none.
pub proof fn lemma_replay(start: StatusView, outcomes: Seq<Result<u32, Seq<char>>>)
    ensures
        outcomes.len() > 0 ==> start.replay(outcomes).error == last_error(outcomes),
        outcomes.len() == 0 ==> start.replay(outcomes) == start,
        start.replay(outcomes).count == match last_count(outcomes) {
            Some(count) => Some(count),
            None => start.count,
        },
    decreases outcomes.len(),
{
    if outcomes.len() > 0 {
        lemma_replay(start, outcomes.drop_last());
    }
}

/// The state of a status as one of three.
pub enum StatusStateView {
    Loading,
    Count(u32),
    Failure(Seq<char>),
}

/// The state of a status as one of three: nothing known yet, a count, or an error.
#[derive(Debug)]
pub enum StatusState {
    /// No outcome has arrived yet.
    Loading,
    /// The last outcome was this count.
    Count(u32),
    /// The last outcome was a failure with this message.
    Failure(String),
}

impl View for StatusState {
    type V = StatusStateView;

    open spec fn view(&self) -> StatusStateView {
        match self {
            StatusState::Loading => StatusStateView::Loading,
            StatusState::Count(count) => StatusStateView::Count(*count),
            StatusState::Failure(message) => StatusStateView::Failure(message@),
        }
    }
}

/// What a badge shows.
#[derive(Debug, Clone, Copy, PartialEq, Eq, Structural)]
pub enum BadgeLabel {
    /// A mark that something went wrong.
    Alert,
    /// The count.
    Count(u32),
}

/// How pressing the state that a badge stands for is.
#[derive(Debug, Clone, Copy, PartialEq, Eq, Structural)]
pub enum BadgeLevel {
    /// Nothing awaits review.
    Clear,
    /// Up to five requests await review.
    Low,
    /// Six to ten requests await review.
    Medium,
    /// More than ten requests await review, or the last fetch failed.
    High,
}

/// A badge: what it shows and how pressing that is.
#[derive(Debug, Clone, Copy, PartialEq, Eq, Structural)]
pub struct Badge {
    pub label: BadgeLabel,
    pub level: BadgeLevel,
}

/// How pressing a count is.
pub open spec fn count_level(count: u32) -> BadgeLevel {
    if count == 0 {
        BadgeLevel::Clear
    } else if count <= 5 {
        BadgeLevel::Low
    } else if count <= 10 {
        BadgeLevel::Medium
    } else {
        BadgeLevel::High
    }
}

/// The last known count and the last known error.
#[derive(Debug)]
pub struct Status {
    count: Option<u32>,
    error: Option<String>,
}

impl View for Status {
    type V = StatusView;

    closed spec fn view(&self) -> StatusView {
        StatusView {
            count: self.count,
            error: match self.error {
                Some(message) => Some(message@),
                None => None,
            },
        }
    }
}

impl Status {
    /// The status before any outcome has arrived.
    pub fn new() -> (status: Status)
        ensures
            status@ == StatusView::loading(),
    {
        Status { count: None, error: None }
    }

    /// Takes in an outcome.
    pub fn apply(&mut self, outcome: Result<u32, String>)
        ensures
            final(self)@ == old(self)@.apply(crate::fetch::outcome_view(outcome)),
        no_unwind
    {
        match outcome {
            Ok(count) => {
                self.count = Some(count);
                self.error = None;
            },
            Err(message) => {
                self.error = Some(message);
            },
        }
    }

    /// The last known count.
    pub fn count(&self) -> (count: Option<u32>)
        ensures
            count == self@.count,
    {
        self.count
    }

    /// The message of the last outcome, where that was a failure.
    pub fn error(&self) -> (error: Option<&String>)
        ensures
            match error {
                Some(message) => self@.error == Some(message@),
                None => self@.error is None,
            },
    {
        self.error.as_ref()
    }

    /// The state as one of three.
    pub fn state(&self) -> (state: StatusState)
        ensures
            state@ == self@.state(),
    {
        match (&self.error, self.count) {
            (Some(message), _) => StatusState::Failure(message.clone()),
            (None, Some(count)) => StatusState::Count(count),
            (None, None) => StatusState::Loading,
        }
    }

    /// The badge that stands for the status, if it has one.
    pub fn badge(&self) -> (badge: Option<Badge>)
        ensures
            badge == self@.badge(),
    {
        match (&self.error, self.count) {
            (Some(_), _) => Some(Badge { label: BadgeLabel::Alert, level: BadgeLevel::High }),
            (None, Some(count)) => {
                let level = if count == 0 {
                    BadgeLevel::Clear
                } else if count <= 5 {
                    BadgeLevel::Low
                } else if count <= 10 {
                    BadgeLevel::Medium
                } else {
                    BadgeLevel::High
                };
                Some(Badge { label: BadgeLabel::Count(count), level })
            },
            (None, None) => None,
        }
    }
}

impl Clone for Status {
    fn clone(&self) -> (copy: Self)
        ensures
            copy@ == self@,
    {
        Status { count: self.count, error: self.error.clone() }
    }
}

} // verus!
