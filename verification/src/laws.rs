//! What holds of the scheduler over whole runs: sequences of triggers, fetch
//! results and shutdowns, in any order.

use crate::api::UsageDataView;
use crate::config::{config_valid, ApiConfig};
use crate::error::{refresh_error_of, FetchError, RefreshError};
use crate::scheduler::{
    completion_spec, initial, stop_spec, trigger_spec, well_formed, CycleStartView, Phase,
    SchedulerView,
};
use vstd::prelude::*;

verus! {

/// One thing that can happen to the scheduler.
pub enum Event {
    /// The timer fired or a refresh was asked for; the configuration as read then.
    Trigger(Option<ApiConfig>),
    /// The fetcher returned; the configuration as read then.
    FetchDone(Result<UsageDataView, FetchError>, Option<ApiConfig>),
    /// Shutdown.
    Stop,
}

/// The scheduler after one event.
pub open spec fn step(s: SchedulerView, event: Event) -> SchedulerView {
    match event {
        Event::Trigger(config) => trigger_spec(s, config).0,
        Event::FetchDone(result, config) => completion_spec(s, result, config).0,
        Event::Stop => stop_spec(s),
    }
}

/// The scheduler after a sequence of events.
pub open spec fn run(s: SchedulerView, events: Seq<Event>) -> SchedulerView
    decreases events.len(),
{
    if events.len() == 0 {
        s
    } else {
        step(run(s, events.drop_last()), events.last())
    }
}

/// Whether the scheduler answers this event by asking for a fetch.
pub open spec fn starts_fetch(s: SchedulerView, event: Event) -> bool {
    match event {
        Event::Trigger(config) => trigger_spec(s, config).1 is Fetch,
        _ => false,
    }
}

/// The number of fetches in flight after one event, as a counter around the
/// fetcher would see it: a fetch that is asked for enters, a fetch that
/// returns leaves.
pub open spec fn depth_step(depth: int, s: SchedulerView, event: Event) -> int {
    match event {
        Event::Trigger(_) => if starts_fetch(s, event) {
            depth + 1
        } else {
            depth
        },
        Event::FetchDone(_, _) => if depth > 0 {
            depth - 1
        } else {
            depth
        },
        Event::Stop => depth,
    }
}

/// The number of fetches in flight after a sequence of events that begins
/// with `depth` fetches in flight.
pub open spec fn in_flight(depth: int, s: SchedulerView, events: Seq<Event>) -> int
    decreases events.len(),
{
    if events.len() == 0 {
        depth
    } else {
        depth_step(
            in_flight(depth, s, events.drop_last()),
            run(s, events.drop_last()),
            events.last(),
        )
    }
}

/// The counter agrees with the phase: one fetch in flight while `Fetching`,
/// none while `Idle`, and at most the abandoned one once `Stopped`.
pub open spec fn depth_agrees(s: SchedulerView, depth: int) -> bool {
    &&& 0 <= depth <= 1
    &&& s.phase == Phase::Fetching ==> depth == 1
    &&& s.phase == Phase::Idle ==> depth == 0
}

/// Every event leaves a well-formed scheduler well-formed.
pub proof fn lemma_step_preserves_well_formed(s: SchedulerView, event: Event)
    requires
        well_formed(s),
    ensures
        well_formed(step(s, event)),
{
}

/// Every run leaves a well-formed scheduler well-formed.
pub proof fn lemma_run_preserves_well_formed(s: SchedulerView, events: Seq<Event>)
    requires
        well_formed(s),
    ensures
        well_formed(run(s, events)),
    decreases events.len(),
{
    if events.len() > 0 {
        lemma_run_preserves_well_formed(s, events.drop_last());
        lemma_step_preserves_well_formed(run(s, events.drop_last()), events.last());
    }
}

/// No overlap: whatever happens, in whatever order, the number of fetches in
/// flight stays in step with the phase, so it is never more than one.
pub proof fn lemma_depth_agrees(s: SchedulerView, depth: int, events: Seq<Event>)
    requires
        well_formed(s),
        depth_agrees(s, depth),
    ensures
        depth_agrees(run(s, events), in_flight(depth, s, events)),
    decreases events.len(),
{
    if events.len() > 0 {
        lemma_depth_agrees(s, depth, events.drop_last());
    }
}

/// No overlap, from the start: at every instant of every run of a new
/// scheduler at most one fetch is in flight.
pub proof fn lemma_at_most_one_fetch_in_flight(config: Option<ApiConfig>, events: Seq<Event>)
    ensures
        forall|k: int|
            0 <= k <= events.len() ==> 0 <= #[trigger] in_flight(
                0,
                initial(config),
                events.take(k),
            ) <= 1,
{
    assert forall|k: int| 0 <= k <= events.len() implies 0 <= #[trigger] in_flight(
        0,
        initial(config),
        events.take(k),
    ) <= 1 by {
        lemma_depth_agrees(initial(config), 0, events.take(k));
    }
}

/// A fetch is asked for only from `Idle`: never while another is in flight,
/// and never after shutdown.
pub proof fn lemma_fetch_starts_from_idle(s: SchedulerView, config: Option<ApiConfig>)
    requires
        trigger_spec(s, config).1 is Fetch,
    ensures
        s.phase == Phase::Idle,
        trigger_spec(s, config).0.phase == Phase::Fetching,
{
}

/// After a successful cycle the cache holds exactly the fetched reading and
/// no failure.
pub proof fn lemma_success_replaces_reading(
    s: SchedulerView,
    usage: UsageDataView,
    config: Option<ApiConfig>,
)
    requires
        s.phase == Phase::Fetching,
    ensures
        completion_spec(s, Ok(usage), config).0.state.usage == Some(usage),
        completion_spec(s, Ok(usage), config).0.state.error is None,
{
}

/// A failed fetch leaves the cached reading as it was and records the
/// failure.
pub proof fn lemma_failed_fetch_keeps_reading(
    s: SchedulerView,
    error: FetchError,
    config: Option<ApiConfig>,
)
    requires
        s.phase == Phase::Fetching,
    ensures
        completion_spec(s, Err(error), config).0.state.usage == s.state.usage,
        completion_spec(s, Err(error), config).0.state.error == Some(refresh_error_of(error)),
{
}

/// A cycle that fails before any fetch, for want of a usable configuration,
/// leaves the cached reading as it was and records which of the two it was.
pub proof fn lemma_unusable_config_keeps_reading(s: SchedulerView, config: Option<ApiConfig>)
    requires
        s.phase == Phase::Idle,
        config matches Some(c) ==> !config_valid(c),
    ensures
        trigger_spec(s, config).0.state.usage == s.state.usage,
        trigger_spec(s, config).0.state.error == Some(
            if config is None {
                RefreshError::NotConfigured
            } else {
                RefreshError::InvalidConfiguration
            },
        ),
        trigger_spec(s, config).0.phase == Phase::Idle,
{
}

/// A successful cycle followed by a failed one: the reading of the first is
/// still cached, beside the failure of the second.
pub proof fn lemma_failure_after_success(
    s: SchedulerView,
    usage: UsageDataView,
    error: FetchError,
    first: ApiConfig,
    second: ApiConfig,
)
    requires
        well_formed(s),
        s.phase == Phase::Fetching,
        !s.pending,
        config_valid(second),
    ensures
        ({
            let after_success = completion_spec(s, Ok(usage), Some(first)).0;
            let fetching_again = trigger_spec(after_success, Some(second)).0;
            let after_failure = completion_spec(fetching_again, Err(error), Some(second)).0;
            &&& after_failure.state.usage == Some(usage)
            &&& after_failure.state.error == Some(refresh_error_of(error))
        }),
{
}

/// Two successful cycles in sequence: the cache holds the second reading, and
/// at the boundary between them it held the first.
pub proof fn lemma_latest_reading_wins(
    s: SchedulerView,
    first_usage: UsageDataView,
    second_usage: UsageDataView,
    config: ApiConfig,
)
    requires
        well_formed(s),
        s.phase == Phase::Fetching,
        !s.pending,
        config_valid(config),
    ensures
        ({
            let after_first = completion_spec(s, Ok(first_usage), Some(config)).0;
            let fetching_again = trigger_spec(after_first, Some(config)).0;
            let after_second = completion_spec(fetching_again, Ok(second_usage), Some(config)).0;
            &&& after_first.state.usage == Some(first_usage)
            &&& fetching_again.state == after_first.state
            &&& after_second.state.usage == Some(second_usage)
            &&& after_second.state.error is None
        }),
{
}

/// The scheduler after a sequence of triggers.
pub open spec fn after_triggers(s: SchedulerView, configs: Seq<Option<ApiConfig>>) -> SchedulerView
    decreases configs.len(),
{
    if configs.len() == 0 {
        s
    } else {
        trigger_spec(after_triggers(s, configs.drop_last()), configs.last()).0
    }
}

/// Triggers that arrive during a fetch start nothing and change nothing but
/// the one queue slot, which is taken as soon as there is one trigger.
pub proof fn lemma_triggers_during_fetch(s: SchedulerView, configs: Seq<Option<ApiConfig>>)
    requires
        s.phase == Phase::Fetching,
    ensures
        after_triggers(s, configs) == (SchedulerView {
            pending: s.pending || configs.len() > 0,
            ..s
        }),
    decreases configs.len(),
{
    if configs.len() > 0 {
        lemma_triggers_during_fetch(s, configs.drop_last());
    }
}

/// Coalescing: however many refreshes are asked for while a fetch is in
/// flight, its completion asks for exactly one more cycle; and the cycle that
/// follows asks for none, whether it ends at once or fetches.
pub proof fn lemma_queued_triggers_run_once(
    s: SchedulerView,
    configs: Seq<Option<ApiConfig>>,
    result: Result<UsageDataView, FetchError>,
    config_at_end: Option<ApiConfig>,
    config_at_rerun: Option<ApiConfig>,
    rerun_result: Result<UsageDataView, FetchError>,
)
    requires
        well_formed(s),
        s.phase == Phase::Fetching,
        !s.pending,
        configs.len() >= 1,
    ensures
        ({
            let queued = after_triggers(s, configs);
            let (idle, end) = completion_spec(queued, result, config_at_end);
            let (next, start) = trigger_spec(idle, config_at_rerun);
            &&& end matches Some(e) && e.rerun
            &&& idle.phase == Phase::Idle && !idle.pending
            &&& match start {
                CycleStartView::Finished(e) => !e.rerun,
                CycleStartView::Fetch(_) => completion_spec(
                    next,
                    rerun_result,
                    config_at_rerun,
                ).1 matches Some(e) && !e.rerun,
                _ => false,
            }
        }),
{
    lemma_triggers_during_fetch(s, configs);
}

/// Without a trigger during the fetch, its completion asks for no further
/// cycle.
pub proof fn lemma_no_trigger_no_rerun(
    s: SchedulerView,
    result: Result<UsageDataView, FetchError>,
    config: Option<ApiConfig>,
)
    requires
        s.phase == Phase::Fetching,
        !s.pending,
    ensures
        completion_spec(s, result, config).1 matches Some(e) && !e.rerun,
{
}

/// The period is honoured without a restart: a cycle that ends under a
/// configuration with a usable period leaves the timer at that period, and
/// tells the caller so where it differs from the period before.
pub proof fn lemma_interval_follows_config(
    s: SchedulerView,
    config: ApiConfig,
    result: Result<UsageDataView, FetchError>,
)
    requires
        s.phase == Phase::Idle,
        config.refresh_interval >= 1,
    ensures
        ({
            let (next, start) = trigger_spec(s, Some(config));
            match start {
                CycleStartView::Finished(end) => {
                    &&& next.interval == config.refresh_interval
                    &&& end.retime == if config.refresh_interval != s.interval {
                        Some(config.refresh_interval)
                    } else {
                        None
                    }
                },
                CycleStartView::Fetch(_) => {
                    let (idle, end) = completion_spec(next, result, Some(config));
                    &&& next.interval == s.interval
                    &&& idle.interval == config.refresh_interval
                    &&& end matches Some(e) && e.retime == if config.refresh_interval
                        != s.interval {
                        Some(config.refresh_interval)
                    } else {
                        None
                    }
                },
                _ => false,
            }
        }),
{
}

/// Between two cycle ends the period does not move: triggers that queue, are
/// coalesced or dropped, and shutdown, leave it as it is.
pub proof fn lemma_interval_kept_between_cycles(s: SchedulerView, config: Option<ApiConfig>)
    requires
        s.phase != Phase::Idle,
    ensures
        trigger_spec(s, config).0.interval == s.interval,
        stop_spec(s).interval == s.interval,
{
}

/// Shutdown is final: no event leaves `Stopped`, asks for a fetch or touches
/// the cache.
pub proof fn lemma_stopped_is_terminal(s: SchedulerView, events: Seq<Event>)
    requires
        s.phase == Phase::Stopped,
    ensures
        run(s, events).phase == Phase::Stopped,
        run(s, events).state == s.state,
        forall|k: int|
            0 <= k < events.len() ==> !starts_fetch(
                #[trigger] run(s, events.take(k)),
                events[k],
            ),
    decreases events.len(),
{
    if events.len() > 0 {
        let shorter = events.drop_last();
        lemma_stopped_is_terminal(s, shorter);
        assert forall|k: int| 0 <= k < events.len() implies !starts_fetch(
            #[trigger] run(s, events.take(k)),
            events[k],
        ) by {
            if k < shorter.len() {
                assert(events.take(k) =~= shorter.take(k));
            } else {
                assert(events.take(k) =~= shorter);
            }
        }
    }
}

} // verus!
