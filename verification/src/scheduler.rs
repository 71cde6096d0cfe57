//! The refresh scheduler: which cycle runs when, and what each cycle leaves
//! in the cache.
//!
//! The scheduler never waits or performs I/O itself. Its caller owns the
//! timer, reads the configuration and runs the fetch; it reports each trigger
//! and each completed fetch here and carries out what is returned.

use crate::api::{UsageData, UsageDataView};
use crate::config::{
    config_valid, effective_interval, is_config_valid, refresh_interval_or, ApiConfig,
    DEFAULT_REFRESH_INTERVAL,
};
use crate::error::{refresh_error_of, FetchError, RefreshError};
use crate::state::{
    notification_of, publish_spec, usage_view, Notification, NotificationView, Outcome,
    OutcomeView, SharedState, SharedStateView,
};
use vstd::prelude::*;

verus! {

/// Where the scheduler stands between two events.
#[derive(Debug, Clone, Copy, PartialEq, Eq, Structural)]
pub enum Phase {
    /// Waiting for the timer or for a manual trigger.
    Idle,
    /// A fetch is in flight.
    Fetching,
    /// Shut down; no cycle starts any more.
    Stopped,
}

/// The scheduler as plain values.
pub struct SchedulerView {
    pub phase: Phase,
    /// A trigger arrived during the fetch in flight and one more cycle is owed.
    pub pending: bool,
    pub state: SharedStateView,
    /// The timer's period in seconds.
    pub interval: u64,
}

/// A cycle is owed only while a fetch is in flight, and the period is usable.
pub open spec fn well_formed(s: SchedulerView) -> bool {
    &&& s.pending ==> s.phase == Phase::Fetching
    &&& s.interval >= 1
}

/// What the caller does when a cycle has ended.
#[derive(Debug, PartialEq, Eq)]
pub struct CycleEnd {
    /// The event to emit; the cache already holds what it announces.
    pub notification: Notification,
    /// A trigger was queued during the fetch: start one more cycle at once.
    pub rerun: bool,
    /// The new timer period, where the cycle changed it.
    pub retime: Option<u64>,
}

/// A `CycleEnd` as plain values.
pub struct CycleEndView {
    pub notification: NotificationView,
    pub rerun: bool,
    pub retime: Option<u64>,
}

impl View for CycleEnd {
    type V = CycleEndView;

    open spec fn view(&self) -> CycleEndView {
        CycleEndView {
            notification: self.notification@,
            rerun: self.rerun,
            retime: self.retime,
        }
    }
}

/// The answer to a trigger.
#[derive(Debug, PartialEq, Eq)]
pub enum CycleStart {
    /// A cycle began: run the fetch with this configuration and report its
    /// result with `complete_fetch`.
    Fetch(ApiConfig),
    /// A cycle began and ended at once, without a fetch.
    Finished(CycleEnd),
    /// A fetch is in flight; one more cycle will follow it.
    Queued,
    /// A fetch is in flight and a cycle is queued already: nothing to add.
    Coalesced,
    /// The scheduler is stopped.
    Dropped,
}

/// A `CycleStart` as plain values.
pub enum CycleStartView {
    Fetch(ApiConfig),
    Finished(CycleEndView),
    Queued,
    Coalesced,
    Dropped,
}

impl View for CycleStart {
    type V = CycleStartView;

    open spec fn view(&self) -> CycleStartView {
        match self {
            CycleStart::Fetch(config) => CycleStartView::Fetch(*config),
            CycleStart::Finished(end) => CycleStartView::Finished(end@),
            CycleStart::Queued => CycleStartView::Queued,
            CycleStart::Coalesced => CycleStartView::Coalesced,
            CycleStart::Dropped => CycleStartView::Dropped,
        }
    }
}

/// The view of an optional cycle end.
pub open spec fn end_view(end: Option<CycleEnd>) -> Option<CycleEndView> {
    match end {
        Some(e) => Some(e@),
        None => None,
    }
}

/// The view of a fetch result.
pub open spec fn result_view(result: Result<UsageData, FetchError>) -> Result<
    UsageDataView,
    FetchError,
> {
    match result {
        Ok(usage) => Ok(usage@),
        Err(error) => Err(error),
    }
}

/// The outcome of a cycle whose fetch returned `result`.
pub open spec fn outcome_of(result: Result<UsageDataView, FetchError>) -> OutcomeView {
    match result {
        Ok(usage) => OutcomeView::Snapshot(usage),
        Err(error) => OutcomeView::Failure(refresh_error_of(error)),
    }
}

/// The period to hand to the timer, where it differs from the one it has.
pub open spec fn retime_of(current: u64, next: u64) -> Option<u64> {
    if next != current {
        Some(next)
    } else {
        None
    }
}

/// The end of a cycle: the outcome is published, the scheduler is idle again,
/// a queued trigger is handed out as `rerun`, and the period follows the
/// configuration read for this cycle.
pub open spec fn end_cycle(s: SchedulerView, outcome: OutcomeView, config: Option<ApiConfig>) -> (
    SchedulerView,
    CycleEndView,
) {
    let interval = effective_interval(config, s.interval);
    (
        SchedulerView {
            phase: Phase::Idle,
            pending: false,
            state: publish_spec(s.state, outcome),
            interval,
        },
        CycleEndView {
            notification: notification_of(outcome),
            rerun: s.pending,
            retime: retime_of(s.interval, interval),
        },
    )
}

/// What a trigger does. `config` is the configuration as read at this moment.
pub open spec fn trigger_spec(s: SchedulerView, config: Option<ApiConfig>) -> (
    SchedulerView,
    CycleStartView,
) {
    match s.phase {
        Phase::Stopped => (s, CycleStartView::Dropped),
        Phase::Fetching => if s.pending {
            (s, CycleStartView::Coalesced)
        } else {
            (SchedulerView { pending: true, ..s }, CycleStartView::Queued)
        },
        Phase::Idle => match config {
            None => {
                let (next, end) = end_cycle(
                    s,
                    OutcomeView::Failure(RefreshError::NotConfigured),
                    config,
                );
                (next, CycleStartView::Finished(end))
            },
            Some(c) => if config_valid(c) {
                (SchedulerView { phase: Phase::Fetching, ..s }, CycleStartView::Fetch(c))
            } else {
                let (next, end) = end_cycle(
                    s,
                    OutcomeView::Failure(RefreshError::InvalidConfiguration),
                    config,
                );
                (next, CycleStartView::Finished(end))
            },
        },
    }
}

/// What the end of a fetch does. `config` is the configuration as read at this
/// moment. A result that arrives while no fetch is in flight is discarded.
pub open spec fn completion_spec(
    s: SchedulerView,
    result: Result<UsageDataView, FetchError>,
    config: Option<ApiConfig>,
) -> (SchedulerView, Option<CycleEndView>) {
    if s.phase == Phase::Fetching {
        let (next, end) = end_cycle(s, outcome_of(result), config);
        (next, Some(end))
    } else {
        (s, None)
    }
}

/// What shutting down does: nothing is owed any more and no cycle starts.
pub open spec fn stop_spec(s: SchedulerView) -> SchedulerView {
    SchedulerView { phase: Phase::Stopped, pending: false, ..s }
}

/// The scheduler before its first cycle: idle, with an empty cache.
pub open spec fn initial(config: Option<ApiConfig>) -> SchedulerView {
    SchedulerView {
        phase: Phase::Idle,
        pending: false,
        state: SharedStateView { usage: None, error: None },
        interval: effective_interval(config, DEFAULT_REFRESH_INTERVAL),
    }
}

/// Drives refresh cycles one at a time and owns the cache they fill.
#[derive(Debug)]
pub struct RefreshScheduler {
    phase: Phase,
    pending: bool,
    state: SharedState,
    interval: u64,
}

impl View for RefreshScheduler {
    type V = SchedulerView;

    closed spec fn view(&self) -> SchedulerView {
        SchedulerView {
            phase: self.phase,
            pending: self.pending,
            state: self.state@,
            interval: self.interval,
        }
    }
}

impl RefreshScheduler {
    /// A scheduler that waits for its first trigger. No cycle has run: the
    /// first automatic one is due when the first period has elapsed.
    pub fn new(config: Option<ApiConfig>) -> (scheduler: RefreshScheduler)
        ensures
            scheduler@ == initial(config),
            well_formed(scheduler@),
    {
        let interval = refresh_interval_or(&config, DEFAULT_REFRESH_INTERVAL);
        RefreshScheduler { phase: Phase::Idle, pending: false, state: SharedState::new(), interval }
    }

    /// The current phase.
    pub fn phase(&self) -> (phase: Phase)
        ensures
            phase == self@.phase,
    {
        self.phase
    }

    /// Whether one more cycle is owed after the fetch in flight.
    pub fn has_pending(&self) -> (pending: bool)
        ensures
            pending == self@.pending,
    {
        self.pending
    }

    /// The timer's period in seconds; at least 1.
    pub fn interval(&self) -> (seconds: u64)
        requires
            well_formed(self@),
        ensures
            seconds == self@.interval,
            seconds >= 1,
    {
        self.interval
    }

    /// The cached reading, if a cycle has succeeded so far.
    pub fn get_current_usage(&self) -> (usage: Option<UsageData>)
        ensures
            usage_view(usage) == self@.state.usage,
    {
        self.state.get_usage()
    }

    /// The failure of the latest cycle, if it failed.
    pub fn get_current_error(&self) -> (error: Option<RefreshError>)
        ensures
            error == self@.state.error,
    {
        self.state.get_error()
    }

    fn finish(&mut self, outcome: Outcome, config: &Option<ApiConfig>) -> (end: CycleEnd)
        requires
            well_formed(old(self)@),
        ensures
            (final(self)@, end@) == end_cycle(old(self)@, outcome@, *config),
            well_formed(final(self)@),
    {
        let notification = self.state.publish(outcome);
        let rerun = self.pending;
        let current = self.interval;
        let next = refresh_interval_or(config, current);
        self.pending = false;
        self.phase = Phase::Idle;
        self.interval = next;
        let retime = if next != current {
            Some(next)
        } else {
            None
        };
        CycleEnd { notification, rerun, retime }
    }

    fn begin_cycle(&mut self, config: Option<ApiConfig>) -> (start: CycleStart)
        requires
            well_formed(old(self)@),
        ensures
            (final(self)@, start@) == trigger_spec(old(self)@, config),
            well_formed(final(self)@),
    {
        match self.phase {
            Phase::Stopped => CycleStart::Dropped,
            Phase::Fetching => {
                if self.pending {
                    CycleStart::Coalesced
                } else {
                    self.pending = true;
                    CycleStart::Queued
                }
            },
            Phase::Idle => {
                let usable = match &config {
                    Some(c) => is_config_valid(c),
                    None => false,
                };
                if usable {
                    self.phase = Phase::Fetching;
                    CycleStart::Fetch(config.unwrap())
                } else {
                    let error = if config.is_some() {
                        RefreshError::InvalidConfiguration
                    } else {
                        RefreshError::NotConfigured
                    };
                    CycleStart::Finished(self.finish(Outcome::Failure(error), &config))
                }
            },
        }
    }

    /// The timer fired. `config` is the configuration as just read, `None`
    /// where none is stored.
    ///
    /// From `Idle` a cycle begins: without a configuration, or with an empty
    /// credential, it ends at once with that failure published; otherwise the
    /// scheduler is `Fetching` and the caller runs the fetch. While a fetch is
    /// in flight the tick is queued behind it, once. No failure stops the
    /// scheduler.
    pub fn tick(&mut self, config: Option<ApiConfig>) -> (start: CycleStart)
        requires
            well_formed(old(self)@),
        ensures
            (final(self)@, start@) == trigger_spec(old(self)@, config),
            well_formed(final(self)@),
    {
        self.begin_cycle(config)
    }

    /// A refresh was asked for out of band. It is treated as a tick is,
    /// whatever the timer's phase; the caller hands the cycle's notification
    /// to `direct_result` for the answer owed to whoever asked.
    pub fn manual_refresh(&mut self, config: Option<ApiConfig>) -> (start: CycleStart)
        requires
            well_formed(old(self)@),
        ensures
            (final(self)@, start@) == trigger_spec(old(self)@, config),
            well_formed(final(self)@),
    {
        self.begin_cycle(config)
    }

    /// The fetch has returned. `config` is the configuration as just read, for
    /// the timer's next period.
    ///
    /// The result is published and the scheduler is idle again; where a
    /// trigger was queued meanwhile, `rerun` asks for one more cycle. A result
    /// that arrives while no fetch is in flight (after `stop`) is discarded.
    pub fn complete_fetch(
        &mut self,
        result: Result<UsageData, FetchError>,
        config: Option<ApiConfig>,
    ) -> (end: Option<CycleEnd>)
        requires
            well_formed(old(self)@),
        ensures
            (final(self)@, end_view(end)) == completion_spec(
                old(self)@,
                result_view(result),
                config,
            ),
            well_formed(final(self)@),
    {
        match self.phase {
            Phase::Fetching => {
                let outcome = match result {
                    Ok(usage) => Outcome::Snapshot(usage),
                    Err(error) => Outcome::Failure(RefreshError::from_fetch(error)),
                };
                Some(self.finish(outcome, &config))
            },
            _ => None,
        }
    }

    /// Shuts the scheduler down. A fetch in flight is abandoned: its result
    /// will be discarded. The cache keeps what it holds.
    pub fn stop(&mut self)
        requires
            well_formed(old(self)@),
        ensures
            final(self)@ == stop_spec(old(self)@),
            well_formed(final(self)@),
    {
        self.pending = false;
        self.phase = Phase::Stopped;
    }
}

/// The view of the answer owed to whoever asked for a refresh.
pub open spec fn answer_view(answer: Result<Option<UsageData>, String>) -> Result<
    Option<UsageDataView>,
    Seq<char>,
> {
    match answer {
        Ok(usage) => Ok(usage_view(usage)),
        Err(text) => Err(text@),
    }
}

/// The answer owed to whoever asked for a refresh, given how the cycle that
/// served the request ended: the reading it published, the text of the failure
/// it published, or no reading where no cycle ran.
pub open spec fn direct_result_spec(end: Option<CycleEndView>) -> Result<
    Option<UsageDataView>,
    Seq<char>,
> {
    match end {
        Some(e) => match e.notification {
            NotificationView::UsageUpdate(usage) => Ok(Some(usage)),
            NotificationView::UsageError(text) => Err(text),
        },
        None => Ok(None),
    }
}

/// Derives the direct answer to a manual refresh from the end of its cycle,
/// so that the answer and the notification always agree.
pub fn direct_result(end: &Option<CycleEnd>) -> (answer: Result<Option<UsageData>, String>)
    ensures
        answer_view(answer) == direct_result_spec(end_view(*end)),
{
    match end {
        Some(e) => match &e.notification {
            Notification::UsageUpdate(usage) => Ok(Some(usage.clone())),
            Notification::UsageError(text) => Err(text.clone()),
        },
        None => Ok(None),
    }
}

} // verus!
