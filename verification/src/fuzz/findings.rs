//! What holds of the crashes and the responses that a run records, and of
//! the health checks that it asks for.

use crate::error::ErrorView;
use crate::fuzz::engine::CONNECT_TRIES;
use crate::fuzz::engine::FuzzEngine;
use crate::fuzz::engine::Stage;
use crate::fuzz::laws;
use crate::fuzz::model;
use crate::fuzz::model::ActionView;
use crate::fuzz::model::EngineView;
use crate::fuzz::model::EventView;
use crate::fuzz::stats;
use crate::fuzz::stats::Clock;
use crate::fuzz::stats::StatsView;
use crate::output;
use crate::traits::Corpus;
use crate::traits::Mutable;
use vstd::prelude::*;

verus! {

/// Whether two states hold the same crashing buffers and the same digests
/// of responses, and count as many of each.
pub open spec fn same_findings<V>(before: EngineView<V>, after: EngineView<V>) -> bool {
    &&& after.crashes == before.crashes
    &&& after.responses == before.responses
    &&& after.stats.total_crashes == before.stats.total_crashes
    &&& after.stats.total_unique_responses == before.stats.total_unique_responses
}

/// The buffer that a step records as a new crash, if it records one: the
/// engine waits for a health check that is not the one after a reset, the
/// check does not report the target as well, and the oldest buffer of the
/// window is not among the crashing buffers yet.
pub open spec fn new_crash<V>(v: EngineView<V>, event: EventView) -> Option<Seq<u8>> {
    if v.stage == Stage::Checking && event is Health && event != EventView::Health(Ok(true))
        && !v.after_reset && v.window.len() > 0 && !v.crashes.contains(v.window.last())
        && v.crashes.len() < usize::MAX {
        Some(v.window.last())
    } else {
        None
    }
}

/// The digest that a step records as a new response, if it records one:
/// the engine waits for a response, some bytes were read, and their digest
/// is not among the digests yet.
pub open spec fn new_response<V>(v: EngineView<V>, event: EventView) -> Option<Seq<u8>> {
    match event {
        EventView::Read(Ok(response)) => if v.stage == Stage::Reading && response.len() > 0
            && !v.responses.contains(output::sha1_of(response)) && v.responses.len()
            < usize::MAX {
            Some(output::sha1_of(response))
        } else {
            None
        },
        _ => None,
    }
}

impl<M: Corpus + Mutable> FuzzEngine<M> {
    /// The way to the next mutation records nothing.
    proof fn lemma_next_mutation_findings(v: EngineView<M::Value>, abandon: bool)
        ensures
            same_findings(v, Self::model_next_mutation(v, abandon).0),
    {
    }

    /// The arbitration records nothing.
    proof fn lemma_arbitrate_findings(v: EngineView<M::Value>, clock: Clock)
        ensures
            same_findings(v, Self::model_arbitrate(v, clock).0),
    {
        Self::lemma_next_mutation_findings(
            EngineView {
                stats: StatsView {
                    total_executions: stats::bumped_u64(v.stats.total_executions),
                    executions_per_second: v.stats.executions_per_second.add(clock.millis),
                    ..v.stats
                },
                ..v
            },
            false,
        );
    }

    /// The end of a send records nothing.
    proof fn lemma_send_done_findings(v: EngineView<M::Value>, ok: bool, clock: Clock)
        ensures
            same_findings(v, Self::model_send_done(v, ok, clock).0),
    {
        if !v.exposing {
            Self::lemma_arbitrate_findings(EngineView { send_ok: ok, ..v }, clock);
        }
    }

    /// What a step does to the crashes and the responses on record: it
    /// adds the new crash, if there is one, and the new response, if there
    /// is one, and leaves the rest as it is.
    proof fn lemma_step_findings(v: EngineView<M::Value>, event: EventView, clock: Clock)
        requires
            v.inv(),
        ensures
            ({
                let next = Self::model_step(v, event, clock).0;
                &&& next.crashes == match new_crash(v, event) {
                    Some(buffer) => v.crashes.insert(buffer),
                    None => v.crashes,
                }
                &&& next.stats.total_crashes == v.stats.total_crashes + match new_crash(v, event) {
                    Some(_) => 1int,
                    None => 0int,
                }
                &&& next.responses == match new_response(v, event) {
                    Some(digest) => v.responses.insert(digest),
                    None => v.responses,
                }
                &&& next.stats.total_unique_responses == v.stats.total_unique_responses
                    + match new_response(v, event) {
                    Some(_) => 1int,
                    None => 0int,
                }
                &&& new_response(v, event) is Some ==> next.queue == v.queue.push(v.sent_input())
            }),
    {
        match (v.stage, event) {
            (Stage::Connecting, EventView::Connected(Err(_))) => {
                let tried = (v.reset_tried + 1) as u32;
                Self::lemma_send_done_findings(
                    EngineView {
                        reset_tried: tried,
                        stats: StatsView {
                            executions_per_second: v.stats.executions_per_second.clear(),
                            backoff_time: model::backoff_delay(tried as nat),
                            ..v.stats
                        },
                        ..v
                    },
                    false,
                    clock,
                );
            },
            (Stage::Writing, EventView::Written(Err(err))) => {
                Self::lemma_send_done_findings(v.count_timeout(err), false, clock);
            },
            (Stage::Reading, EventView::Read(Ok(_))) => {
                Self::lemma_send_done_findings(v, true, clock);
            },
            (Stage::Reading, EventView::Read(Err(err))) => {
                Self::lemma_send_done_findings(v.count_timeout(err), false, clock);
            },
            (Stage::Closing, EventView::Closed(_)) => {
                Self::lemma_send_done_findings(v, true, clock);
            },
            (Stage::Checking, EventView::Health(outcome)) => {
                if outcome == Ok::<bool, ErrorView>(true) {
                    Self::lemma_next_mutation_findings(
                        EngineView {
                            stats: StatsView { last_healt_check: Some(clock.now), ..v.stats },
                            last_health_check: clock.millis,
                            window: model::window_kept(v.window),
                            ..v
                        },
                        false,
                    );
                } else if v.after_reset {
                    Self::lemma_next_mutation_findings(v, true);
                }
            },
            (Stage::Settling, EventView::Slept) => {
                Self::lemma_arbitrate_findings(EngineView { after_reset: true, ..v }, clock);
            },
            _ => {},
        }
    }

    /// A crash is counted once. A step adds one to the count of crashes,
    /// and the buffer to the crashing buffers, exactly where it takes a
    /// health check that is not the one after a reset and does not report
    /// the target as well, and the oldest buffer of the window is not among
    /// the crashing buffers yet (and the set has room for it). Every other
    /// step leaves the count and the set as they are.
    pub proof fn lemma_crash_counted_once(v: EngineView<M::Value>, event: EventView, clock: Clock)
        requires
            v.inv(),
        ensures
            ({
                let next = Self::model_step(v, event, clock).0;
                match new_crash(v, event) {
                    Some(buffer) => {
                        &&& next.stats.total_crashes == v.stats.total_crashes + 1
                        &&& next.crashes == v.crashes.insert(buffer)
                        &&& next.crashes.len() == v.crashes.len() + 1
                    },
                    None => {
                        &&& next.stats.total_crashes == v.stats.total_crashes
                        &&& next.crashes == v.crashes
                    },
                }
            }),
            v.crashes.subset_of(Self::model_step(v, event, clock).0.crashes),
    {
        Self::lemma_step_findings(v, event, clock);
    }

    /// A response is counted once. A step adds one to the count of
    /// responses, the digest to the digests, and a copy of the input that
    /// was sent to the tail of the queue, exactly where it takes a read of
    /// some bytes whose digest is not among the digests yet (and the set
    /// has room for it). Every other step leaves the count and the set as
    /// they are.
    pub proof fn lemma_response_counted_once(
        v: EngineView<M::Value>,
        event: EventView,
        clock: Clock,
    )
        requires
            v.inv(),
        ensures
            ({
                let next = Self::model_step(v, event, clock).0;
                match new_response(v, event) {
                    Some(digest) => {
                        &&& next.stats.total_unique_responses == v.stats.total_unique_responses
                            + 1
                        &&& next.responses == v.responses.insert(digest)
                        &&& next.responses.len() == v.responses.len() + 1
                        &&& next.queue == v.queue.push(v.sent_input())
                    },
                    None => {
                        &&& next.stats.total_unique_responses == v.stats.total_unique_responses
                        &&& next.responses == v.responses
                    },
                }
            }),
            v.responses.subset_of(Self::model_step(v, event, clock).0.responses),
    {
        Self::lemma_step_findings(v, event, clock);
    }

    /// What a run has recorded stays recorded: the crashing buffers and the
    /// digests of responses at the start of a run are among those at its
    /// end. So a response that was counted is not counted again, however
    /// often the target gives it.
    pub proof fn lemma_findings_stay(v: EngineView<M::Value>, events: Seq<(EventView, Clock)>)
        requires
            v.inv(),
            forall|i: int|
                0 <= i < events.len() ==> ((#[trigger] events[i]).0 matches EventView::Seeds(
                    Ok(files),
                ) ==> files.len() <= usize::MAX),
        ensures
            v.crashes.subset_of(laws::model_run::<M>(v, events).0.crashes),
            v.responses.subset_of(laws::model_run::<M>(v, events).0.responses),
        decreases events.len(),
    {
        if events.len() > 0 {
            Self::lemma_findings_stay(v, events.drop_last());
            Self::lemma_run_keeps_inv(v, events.drop_last());
            let before = laws::model_run::<M>(v, events.drop_last());
            Self::lemma_crash_counted_once(before.0, events.last().0, events.last().1);
            Self::lemma_response_counted_once(before.0, events.last().0, events.last().1);
        }
    }

    /// A response that was counted is not counted again: after any run
    /// from a state that holds the digest of a response, a read of that
    /// response leaves the count, the digests and the queue as they are.
    pub proof fn lemma_known_response_is_not_counted(
        v: EngineView<M::Value>,
        events: Seq<(EventView, Clock)>,
        response: Seq<u8>,
        clock: Clock,
    )
        requires
            v.inv(),
            forall|i: int|
                0 <= i < events.len() ==> ((#[trigger] events[i]).0 matches EventView::Seeds(
                    Ok(files),
                ) ==> files.len() <= usize::MAX),
            v.responses.contains(output::sha1_of(response)),
            response.len() > 0,
            laws::model_run::<M>(v, events).0.stage == Stage::Reading,
        ensures
            ({
                let before = laws::model_run::<M>(v, events).0;
                let after = Self::model_step(before, EventView::Read(Ok(response)), clock);
                &&& after.0.responses == before.responses
                &&& after.0.stats.total_unique_responses == before.stats.total_unique_responses
                &&& after.0.queue == before.queue
                &&& after.1 == ActionView::Close
            }),
    {
        Self::lemma_findings_stay(v, events);
    }

    /// A crashing buffer that was counted is not counted again: after any
    /// run from a state that holds a buffer among the crashing buffers, a
    /// failed health check that is laid to that buffer leaves the count and
    /// the crashing buffers as they are. A record of it still goes to the
    /// journal.
    pub proof fn lemma_known_crash_is_not_counted(
        v: EngineView<M::Value>,
        events: Seq<(EventView, Clock)>,
        outcome: Result<bool, ErrorView>,
        clock: Clock,
    )
        requires
            v.inv(),
            forall|i: int|
                0 <= i < events.len() ==> ((#[trigger] events[i]).0 matches EventView::Seeds(
                    Ok(files),
                ) ==> files.len() <= usize::MAX),
            outcome != Ok::<bool, ErrorView>(true),
            laws::model_run::<M>(v, events).0.stage == Stage::Checking,
            !laws::model_run::<M>(v, events).0.after_reset,
            v.crashes.contains(laws::model_run::<M>(v, events).0.window.last()),
        ensures
            ({
                let before = laws::model_run::<M>(v, events).0;
                let after = Self::model_step(before, EventView::Health(outcome), clock);
                &&& after.0.crashes == before.crashes
                &&& after.0.stats.total_crashes == before.stats.total_crashes
                &&& after.1 matches ActionView::Journal(record) && record.buffer
                    == before.window.last()
            }),
    {
        Self::lemma_findings_stay(v, events);
        Self::lemma_run_keeps_inv(v, events);
    }

    /// A mutation whose send has failed is followed by a health check,
    /// whatever the window holds and whatever the clock shows: the third
    /// failed connect of the send, a failed write and a failed read each
    /// make the engine ask for one, as long as the run was not stopped.
    pub proof fn lemma_failed_send_is_checked(
        v: EngineView<M::Value>,
        error: ErrorView,
        clock: Clock,
    )
        requires
            v.inv(),
            !v.exposing,
            v.stats.running,
        ensures
            v.stage == Stage::Connecting && v.reset_tried + 1 == CONNECT_TRIES ==> Self::model_step(
                v,
                EventView::Connected(Err(error)),
                clock,
            ).1 == ActionView::HealthCheck,
            v.stage == Stage::Writing ==> Self::model_step(
                v,
                EventView::Written(Err(error)),
                clock,
            ).1 == ActionView::HealthCheck,
            v.stage == Stage::Reading ==> Self::model_step(v, EventView::Read(Err(error)), clock).1
                == ActionView::HealthCheck,
    {
    }

    /// A passed health check is followed by the next mutation: the engine
    /// asks to connect for it, no crash is recorded, and the run goes on.
    pub proof fn lemma_passed_check_goes_on(v: EngineView<M::Value>, clock: Clock)
        requires
            v.inv(),
            v.stage == Stage::Checking,
        ensures
            ({
                let next = Self::model_step(v, EventView::Health(Ok(true)), clock);
                &&& next.1 == ActionView::Connect
                &&& next.0.stage == Stage::Connecting
                &&& next.0.pending == M::serialized(next.0.current.unwrap())
                &&& next.0.crashes == v.crashes
                &&& next.0.stats.total_crashes == v.stats.total_crashes
                &&& next.0.stats.running == v.stats.running
            }),
    {
    }
}

} // verus!
