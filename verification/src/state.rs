//! The cache of the latest reading and the latest failure, and what is told
//! to observers when it changes.

use crate::api::{UsageData, UsageDataView};
use crate::error::RefreshError;
use vstd::prelude::*;

verus! {

/// How one refresh cycle ended.
#[derive(Debug, PartialEq, Eq)]
pub enum Outcome {
    /// The fetch succeeded with this reading.
    Snapshot(UsageData),
    /// The cycle failed for this reason.
    Failure(RefreshError),
}

/// An `Outcome` as plain values.
pub enum OutcomeView {
    Snapshot(UsageDataView),
    Failure(RefreshError),
}

impl View for Outcome {
    type V = OutcomeView;

    open spec fn view(&self) -> OutcomeView {
        match self {
            Outcome::Snapshot(usage) => OutcomeView::Snapshot(usage@),
            Outcome::Failure(error) => OutcomeView::Failure(*error),
        }
    }
}

/// An event for the presentation layer.
#[derive(Debug, PartialEq, Eq)]
pub enum Notification {
    /// A new reading replaced the cached one.
    UsageUpdate(UsageData),
    /// A cycle failed; the payload is the failure's text.
    UsageError(String),
}

/// A `Notification` as plain values.
pub enum NotificationView {
    UsageUpdate(UsageDataView),
    UsageError(Seq<char>),
}

impl View for Notification {
    type V = NotificationView;

    open spec fn view(&self) -> NotificationView {
        match self {
            Notification::UsageUpdate(usage) => NotificationView::UsageUpdate(usage@),
            Notification::UsageError(text) => NotificationView::UsageError(text@),
        }
    }
}

impl Notification {
    /// The name of the event under which this notification is emitted.
    pub open spec fn kind_text(&self) -> Seq<char> {
        match self {
            Notification::UsageUpdate(_) => "usage-update"@,
            Notification::UsageError(_) => "usage-error"@,
        }
    }

    /// The name of the event under which this notification is emitted.
    pub fn kind(&self) -> (name: &'static str)
        ensures
            name@ == self.kind_text(),
    {
        match self {
            Notification::UsageUpdate(_) => "usage-update",
            Notification::UsageError(_) => "usage-error",
        }
    }
}

/// The notification that announces an outcome: the reading itself, or the
/// failure's text.
pub open spec fn notification_of(outcome: OutcomeView) -> NotificationView {
    match outcome {
        OutcomeView::Snapshot(usage) => NotificationView::UsageUpdate(usage),
        OutcomeView::Failure(error) => NotificationView::UsageError(error.message_text()),
    }
}

/// The cache's contents as plain values.
pub struct SharedStateView {
    pub usage: Option<UsageDataView>,
    pub error: Option<RefreshError>,
}

/// The cache after an outcome is published into it: a reading replaces the
/// cached reading and clears the failure; a failure is recorded and leaves the
/// cached reading as it is.
pub open spec fn publish_spec(state: SharedStateView, outcome: OutcomeView) -> SharedStateView {
    match outcome {
        OutcomeView::Snapshot(usage) => SharedStateView { usage: Some(usage), error: None },
        OutcomeView::Failure(error) => SharedStateView { usage: state.usage, error: Some(error) },
    }
}

/// The view of an optional reading.
pub open spec fn usage_view(usage: Option<UsageData>) -> Option<UsageDataView> {
    match usage {
        Some(u) => Some(u@),
        None => None,
    }
}

/// The last successful reading and the last failure.
#[derive(Debug)]
pub struct SharedState {
    usage: Option<UsageData>,
    error: Option<RefreshError>,
}

impl View for SharedState {
    type V = SharedStateView;

    closed spec fn view(&self) -> SharedStateView {
        SharedStateView { usage: usage_view(self.usage), error: self.error }
    }
}

impl SharedState {
    /// An empty cache: no reading, no failure.
    pub fn new() -> (state: SharedState)
        ensures
            state@ == (SharedStateView { usage: None, error: None }),
    {
        SharedState { usage: None, error: None }
    }

    /// The cached reading, if a cycle has succeeded so far.
    pub fn get_usage(&self) -> (usage: Option<UsageData>)
        ensures
            usage_view(usage) == self@.usage,
    {
        match &self.usage {
            Some(u) => Some(u.clone()),
            None => None,
        }
    }

    /// The failure of the latest cycle, if it failed.
    pub fn get_error(&self) -> (error: Option<RefreshError>)
        ensures
            error == self@.error,
    {
        match &self.error {
            Some(e) => Some(e.clone()),
            None => None,
        }
    }

    /// Records how a cycle ended and returns the notification to emit for it.
    pub fn publish(&mut self, outcome: Outcome) -> (note: Notification)
        ensures
            final(self)@ == publish_spec(old(self)@, outcome@),
            note@ == notification_of(outcome@),
    {
        match outcome {
            Outcome::Snapshot(usage) => {
                let payload = usage.clone();
                self.usage = Some(usage);
                self.error = None;
                Notification::UsageUpdate(payload)
            },
            Outcome::Failure(error) => {
                let text = error.message();
                self.error = Some(error);
                Notification::UsageError(text)
            },
        }
    }
}

} // verus!
