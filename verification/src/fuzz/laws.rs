//! What holds of every run of the engine.

use crate::buffer;
use crate::error::ErrorView;
use crate::fuzz::engine;
use crate::fuzz::engine::BACKOFF_BASE;
use crate::fuzz::engine::BACKOFF_CEILING;
use crate::fuzz::engine::FuzzEngine;
use crate::fuzz::engine::MUTATION_ROUNDS;
use crate::fuzz::engine::ROOT_ROUNDS;
use crate::fuzz::engine::Stage;
use crate::fuzz::engine::WINDOW_HIGH;
use crate::fuzz::engine::WINDOW_KEEP;
use crate::fuzz::model;
use crate::fuzz::model::ActionView;
use crate::fuzz::model::EngineView;
use crate::fuzz::model::EventView;
use crate::fuzz::stats;
use crate::fuzz::stats::Clock;
use crate::fuzz::stats::StatsView;
use crate::traits::Corpus;
use crate::traits::Mutable;
use vstd::prelude::*;

verus! {

/// Whether the counters of executions, timeouts, cycles, responses and
/// crashes of the second statistics are at least those of the first.
pub open spec fn counters_grow(before: StatsView, after: StatsView) -> bool {
    &&& after.total_executions >= before.total_executions
    &&& after.total_timeouts >= before.total_timeouts
    &&& after.cylcles_done >= before.cylcles_done
    &&& after.total_unique_responses >= before.total_unique_responses
    &&& after.total_crashes >= before.total_crashes
}

/// The state and the actions after a run of events, each with the clock at
/// which it is taken.
pub open spec fn model_run<M: Corpus + Mutable>(
    v: EngineView<M::Value>,
    events: Seq<(EventView, Clock)>,
) -> (EngineView<M::Value>, Seq<ActionView>)
    decreases events.len(),
{
    if events.len() == 0 {
        (v, Seq::empty())
    } else {
        let before = model_run::<M>(v, events.drop_last());
        let last = FuzzEngine::<M>::model_step(before.0, events.last().0, events.last().1);
        (last.0, before.1.push(last.1))
    }
}

/// The buffers that a list of actions asks to write, in their order.
pub open spec fn writes_of(actions: Seq<ActionView>) -> Seq<Seq<u8>>
    decreases actions.len(),
{
    if actions.len() == 0 {
        Seq::empty()
    } else {
        match actions.last() {
            ActionView::Write(buffer) => writes_of(actions.drop_last()).push(buffer),
            _ => writes_of(actions.drop_last()),
        }
    }
}

/// No more inputs are parsed than there are files.
pub proof fn lemma_parsed_seeds_len<M: Corpus>(files: Seq<Seq<u8>>)
    ensures
        model::parsed_seeds::<M>(files).len() <= files.len(),
    decreases files.len(),
{
    if files.len() > 0 {
        lemma_parsed_seeds_len::<M>(files.drop_last());
    }
}

/// A seed file that does not parse is left out, and the files around it
/// are taken as without it; one that parses is the last input.
pub proof fn lemma_seed_file<M: Corpus>(files: Seq<Seq<u8>>, file: Seq<u8>)
    ensures
        M::parsed(file) is None ==> model::parsed_seeds::<M>(files.push(file)) == model::parsed_seeds::<M>(files),
        M::parsed(file) matches Some(value) ==> model::parsed_seeds::<M>(files.push(file))
            == model::parsed_seeds::<M>(files).push(value),
{
    assert(files.push(file).drop_last() == files);
}

/// The delays after the first three failed attempts to connect are 100,
/// 200 and 400 milliseconds, and no delay is longer than five seconds.
pub proof fn lemma_backoff_schedule(failures: nat)
    ensures
        model::backoff_delay(1) == 100,
        model::backoff_delay(2) == 200,
        model::backoff_delay(3) == 400,
        BACKOFF_BASE <= model::backoff_delay(failures) <= BACKOFF_CEILING,
    decreases failures,
{
    reveal_with_fuel(model::backoff_delay, 4);
    if failures > 1 {
        lemma_backoff_schedule((failures - 1) as nat);
    }
}

impl<V> EngineView<V> {
    /// An engine that has not started is in a state in which `inv` holds.
    pub proof fn lemma_fresh_inv(seed: Seq<u8>)
        ensures
            Self::fresh(seed).inv(),
    {
    }

    /// The statistics never count more crashes than the set of crashing
    /// buffers holds.
    pub proof fn lemma_crashes_counted(self)
        requires
            self.inv(),
        ensures
            self.stats.total_crashes <= self.crashes.len(),
    {
    }

    /// The statistics count as many responses as the set of responses
    /// holds.
    pub proof fn lemma_responses_counted(self)
        requires
            self.inv(),
        ensures
            self.stats.total_unique_responses == self.responses.len(),
    {
    }

    /// The window never holds more than 20000 buffers, and a passed health
    /// check leaves at most 5000 of them.
    pub proof fn lemma_window_bounded(self)
        requires
            self.inv(),
        ensures
            self.window.len() <= WINDOW_HIGH,
            model::window_kept(self.window).len() <= WINDOW_KEEP,
            forall|buffer: Seq<u8>| #[trigger] model::window_with(self.window, buffer).len() <= WINDOW_HIGH,
    {
    }
}

impl<M: Corpus + Mutable> FuzzEngine<M> {
    /// A mutation that is sent leaves a state in which `inv` holds.
    proof fn lemma_mutate_and_send_inv(v: EngineView<M::Value>)
        requires
            v.base_inv(),
            v.exploring(),
            !v.exposing,
        ensures
            Self::model_mutate_and_send(v).0.inv(),
            Self::model_mutate_and_send(v).1 is Connect,
    {
    }

    /// The way to the next mutation leaves a state in which `inv` holds.
    proof fn lemma_next_mutation_inv(v: EngineView<M::Value>, abandon: bool)
        requires
            v.base_inv(),
            v.exploring(),
            !v.exposing,
        ensures
            Self::model_next_mutation(v, abandon).0.inv(),
            Self::model_next_mutation(v, abandon).1 is Connect,
    {
        if abandon || v.mutation_round + 1 >= MUTATION_ROUNDS {
            let ended = EngineView {
                root_round: (v.root_round + 1) as usize,
                mutation_round: 0,
                ..v
            };
            let rooted = if ended.root_round >= ROOT_ROUNDS {
                ended.model_next_root()
            } else {
                ended
            };
            Self::lemma_mutate_and_send_inv(EngineView { current: rooted.root, ..rooted });
        } else {
            Self::lemma_mutate_and_send_inv(
                EngineView { mutation_round: (v.mutation_round + 1) as usize, ..v },
            );
        }
    }

    /// The arbitration leaves a state in which `inv` holds.
    proof fn lemma_arbitrate_inv(v: EngineView<M::Value>, clock: Clock)
        requires
            v.base_inv(),
            v.exploring(),
            !v.exposing,
            v.window.len() > 0,
        ensures
            Self::model_arbitrate(v, clock).0.inv(),
            !(Self::model_arbitrate(v, clock).1 is Journal),
    {
        let counted = EngineView {
            stats: StatsView {
                total_executions: stats::bumped_u64(v.stats.total_executions),
                executions_per_second: v.stats.executions_per_second.add(clock.millis),
                ..v.stats
            },
            ..v
        };
        if v.stats.running && model::may_skip_health_check(
            v.window.len(),
            model::seconds_since(clock.millis, v.last_health_check),
            v.send_ok,
        ) {
            Self::lemma_next_mutation_inv(counted, false);
        }
    }

    /// The end of a send leaves a state in which `inv` holds.
    proof fn lemma_send_done_inv(v: EngineView<M::Value>, ok: bool, clock: Clock)
        requires
            v.base_inv(),
            v.exposing ==> v.exposed < v.seeds <= v.queue.len(),
            !v.exposing ==> v.exploring() && v.window.len() > 0,
        ensures
            Self::model_send_done(v, ok, clock).0.inv(),
            !(Self::model_send_done(v, ok, clock).1 is Journal),
    {
        if v.exposing {
            let exposed = (v.exposed + 1) as usize;
            if exposed >= v.seeds {
                let began = EngineView { exposed, ..v };
                Self::lemma_mutate_and_send_inv(
                    EngineView {
                        exposing: false,
                        stats: StatsView { corpus_count: began.queue.len() as usize, ..began.stats },
                        last_health_check: clock.millis,
                        root: Some(began.queue[0]),
                        current: Some(began.queue[0]),
                        queue: began.queue.drop_first(),
                        next_cycle: Seq::empty(),
                        root_round: 0,
                        mutation_round: 0,
                        ..began
                    },
                );
            }
        } else {
            Self::lemma_arbitrate_inv(EngineView { send_ok: ok, ..v }, clock);
        }
    }

    /// What holds of the state of an engine at all times holds after a step
    /// if it held before; and a crash record that a step hands to the
    /// journal ends with the buffer that is held to have triggered the
    /// crash.
    pub proof fn lemma_step_keeps_inv(v: EngineView<M::Value>, event: EventView, clock: Clock)
        requires
            v.inv(),
            event matches EventView::Seeds(Ok(files)) ==> files.len() <= usize::MAX,
        ensures
            Self::model_step(v, event, clock).0.inv(),
            Self::model_step(v, event, clock).1 matches ActionView::Journal(record)
                ==> record.well_formed(),
    {
        match (v.stage, event) {
            (Stage::Seeds, EventView::Seeds(Ok(files))) => {
                lemma_parsed_seeds_len::<M>(files);
            },
            (Stage::Connecting, EventView::Connected(Err(_))) => {
                let tried = (v.reset_tried + 1) as u32;
                let failed = EngineView {
                    reset_tried: tried,
                    stats: StatsView {
                        executions_per_second: v.stats.executions_per_second.clear(),
                        backoff_time: model::backoff_delay(tried as nat),
                        ..v.stats
                    },
                    ..v
                };
                Self::lemma_send_done_inv(failed, false, clock);
            },
            (Stage::Writing, EventView::Written(Err(err))) => {
                Self::lemma_send_done_inv(v.count_timeout(err), false, clock);
            },
            (Stage::Reading, EventView::Read(Ok(response))) => {
                if response.len() == 0 {
                    Self::lemma_send_done_inv(v, true, clock);
                }
            },
            (Stage::Reading, EventView::Read(Err(err))) => {
                Self::lemma_send_done_inv(v.count_timeout(err), false, clock);
            },
            (Stage::Closing, EventView::Closed(_)) => {
                Self::lemma_send_done_inv(v, true, clock);
            },
            (Stage::Checking, EventView::Health(outcome)) => {
                if outcome == Ok::<bool, ErrorView>(true) {
                    Self::lemma_next_mutation_inv(
                        EngineView {
                            stats: StatsView { last_healt_check: Some(clock.now), ..v.stats },
                            last_health_check: clock.millis,
                            window: model::window_kept(v.window),
                            ..v
                        },
                        false,
                    );
                } else if v.after_reset {
                    Self::lemma_next_mutation_inv(v, true);
                }
            },
            (Stage::Settling, EventView::Slept) => {
                Self::lemma_arbitrate_inv(EngineView { after_reset: true, ..v }, clock);
            },
            _ => {},
        }
    }

    /// A mutation that is sent changes no counter.
    proof fn lemma_mutate_and_send_counters(v: EngineView<M::Value>)
        ensures
            counters_grow(v.stats, Self::model_mutate_and_send(v).0.stats),
    {
    }

    /// The way to the next mutation lets no counter go down.
    proof fn lemma_next_mutation_counters(v: EngineView<M::Value>, abandon: bool)
        ensures
            counters_grow(v.stats, Self::model_next_mutation(v, abandon).0.stats),
    {
        if abandon || v.mutation_round + 1 >= MUTATION_ROUNDS {
            let ended = EngineView {
                root_round: (v.root_round + 1) as usize,
                mutation_round: 0,
                ..v
            };
            let rooted = if ended.root_round >= ROOT_ROUNDS {
                ended.model_next_root()
            } else {
                ended
            };
            Self::lemma_mutate_and_send_counters(EngineView { current: rooted.root, ..rooted });
        } else {
            Self::lemma_mutate_and_send_counters(
                EngineView { mutation_round: (v.mutation_round + 1) as usize, ..v },
            );
        }
    }

    /// The arbitration lets no counter go down.
    proof fn lemma_arbitrate_counters(v: EngineView<M::Value>, clock: Clock)
        ensures
            counters_grow(v.stats, Self::model_arbitrate(v, clock).0.stats),
    {
        let counted = EngineView {
            stats: StatsView {
                total_executions: stats::bumped_u64(v.stats.total_executions),
                executions_per_second: v.stats.executions_per_second.add(clock.millis),
                ..v.stats
            },
            ..v
        };
        if v.stats.running && model::may_skip_health_check(
            v.window.len(),
            model::seconds_since(clock.millis, v.last_health_check),
            v.send_ok,
        ) {
            Self::lemma_next_mutation_counters(counted, false);
        }
    }

    /// The end of a send lets no counter go down.
    proof fn lemma_send_done_counters(v: EngineView<M::Value>, ok: bool, clock: Clock)
        ensures
            counters_grow(v.stats, Self::model_send_done(v, ok, clock).0.stats),
    {
        if v.exposing {
            let exposed = (v.exposed + 1) as usize;
            if exposed >= v.seeds {
                let began = EngineView { exposed, ..v };
                Self::lemma_mutate_and_send_counters(
                    EngineView {
                        exposing: false,
                        stats: StatsView { corpus_count: began.queue.len() as usize, ..began.stats },
                        last_health_check: clock.millis,
                        root: Some(began.queue[0]),
                        current: Some(began.queue[0]),
                        queue: began.queue.drop_first(),
                        next_cycle: Seq::empty(),
                        root_round: 0,
                        mutation_round: 0,
                        ..began
                    },
                );
            }
        } else {
            Self::lemma_arbitrate_counters(EngineView { send_ok: ok, ..v }, clock);
        }
    }

    /// The outcome of a connect lets no counter go down.
    proof fn lemma_on_connected_counters(
        v: EngineView<M::Value>,
        outcome: Result<(), ErrorView>,
        clock: Clock,
    )
        ensures
            counters_grow(v.stats, Self::model_on_connected(v, outcome, clock).0.stats),
    {
        if outcome is Err {
            let tried = (v.reset_tried + 1) as u32;
            let failed = EngineView {
                reset_tried: tried,
                stats: StatsView {
                    executions_per_second: v.stats.executions_per_second.clear(),
                    backoff_time: model::backoff_delay(tried as nat),
                    ..v.stats
                },
                ..v
            };
            Self::lemma_send_done_counters(failed, false, clock);
        }
    }

    /// The outcome of a write lets no counter go down.
    proof fn lemma_on_written_counters(
        v: EngineView<M::Value>,
        outcome: Result<(), ErrorView>,
        clock: Clock,
    )
        ensures
            counters_grow(v.stats, Self::model_on_written(v, outcome, clock).0.stats),
    {
        if let Err(err) = outcome {
            Self::lemma_send_done_counters(v.count_timeout(err), false, clock);
        }
    }

    /// The outcome of a read lets no counter go down.
    proof fn lemma_on_read_counters(
        v: EngineView<M::Value>,
        outcome: Result<Seq<u8>, ErrorView>,
        clock: Clock,
    )
        requires
            v.base_inv(),
        ensures
            counters_grow(v.stats, Self::model_on_read(v, outcome, clock).0.stats),
    {
        match outcome {
            Ok(response) => {
                if response.len() == 0 {
                    Self::lemma_send_done_counters(v, true, clock);
                }
            },
            Err(err) => {
                Self::lemma_send_done_counters(v.count_timeout(err), false, clock);
            },
        }
    }

    /// The outcome of a health check lets no counter go down.
    proof fn lemma_on_health_counters(
        v: EngineView<M::Value>,
        outcome: Result<bool, ErrorView>,
        clock: Clock,
    )
        requires
            v.base_inv(),
        ensures
            counters_grow(v.stats, Self::model_on_health(v, outcome, clock).0.stats),
    {
        if outcome == Ok::<bool, ErrorView>(true) {
            Self::lemma_next_mutation_counters(
                EngineView {
                    stats: StatsView { last_healt_check: Some(clock.now), ..v.stats },
                    last_health_check: clock.millis,
                    window: model::window_kept(v.window),
                    ..v
                },
                false,
            );
        } else if v.after_reset {
            Self::lemma_next_mutation_counters(v, true);
        }
    }

    /// The counters of executions, timeouts, cycles, responses and crashes
    /// never go down.
    pub proof fn lemma_counters_grow(v: EngineView<M::Value>, event: EventView, clock: Clock)
        requires
            v.inv(),
        ensures
            counters_grow(v.stats, Self::model_step(v, event, clock).0.stats),
    {
        match (v.stage, event) {
            (Stage::Connecting, EventView::Connected(outcome)) => {
                Self::lemma_on_connected_counters(v, outcome, clock);
            },
            (Stage::Writing, EventView::Written(outcome)) => {
                Self::lemma_on_written_counters(v, outcome, clock);
            },
            (Stage::Reading, EventView::Read(outcome)) => {
                Self::lemma_on_read_counters(v, outcome, clock);
            },
            (Stage::Closing, EventView::Closed(_)) => {
                Self::lemma_send_done_counters(v, true, clock);
            },
            (Stage::Checking, EventView::Health(outcome)) => {
                Self::lemma_on_health_counters(v, outcome, clock);
            },
            (Stage::Settling, EventView::Slept) => {
                Self::lemma_arbitrate_counters(EngineView { after_reset: true, ..v }, clock);
            },
            _ => {},
        }
    }

    /// A read that returns no bytes is a clean close: the send went
    /// through, and no response is recorded or counted.
    pub proof fn lemma_empty_read_is_clean_close(v: EngineView<M::Value>, clock: Clock)
        requires
            v.inv(),
            v.stage == Stage::Reading,
        ensures
            Self::model_step(v, EventView::Read(Ok(Seq::empty())), clock)
                == Self::model_send_done(v, true, clock),
            Self::model_step(v, EventView::Read(Ok(Seq::empty())), clock).0.responses
                == v.responses,
            Self::model_step(
                v,
                EventView::Read(Ok(Seq::empty())),
                clock,
            ).0.stats.total_unique_responses == v.stats.total_unique_responses,
    {
    }

    /// A send is given up after exactly three failed attempts to connect.
    /// The first failure is followed by a sleep of 100 milliseconds and the
    /// second by one of 200; with the third, the delay shown is 400
    /// milliseconds and the send is over as failed.
    pub proof fn lemma_three_connect_attempts(
        v: EngineView<M::Value>,
        first: ErrorView,
        second: ErrorView,
        third: ErrorView,
        clock: Clock,
    )
        requires
            v.inv(),
            v.stage == Stage::Connecting,
            v.reset_tried == 0,
        ensures
            ({
                let one = Self::model_step(v, EventView::Connected(Err(first)), clock);
                let again = Self::model_step(one.0, EventView::Slept, clock);
                let two = Self::model_step(again.0, EventView::Connected(Err(second)), clock);
                let once_more = Self::model_step(two.0, EventView::Slept, clock);
                let failed = EngineView {
                    reset_tried: 3,
                    stats: StatsView {
                        executions_per_second: once_more.0.stats.executions_per_second.clear(),
                        backoff_time: 400,
                        ..once_more.0.stats
                    },
                    ..once_more.0
                };
                &&& one.1 == ActionView::Sleep(100)
                &&& again.1 == ActionView::Connect
                &&& two.1 == ActionView::Sleep(200)
                &&& once_more.1 == ActionView::Connect
                &&& Self::model_step(once_more.0, EventView::Connected(Err(third)), clock)
                    == Self::model_send_done(failed, false, clock)
            }),
    {
        reveal_with_fuel(model::backoff_delay, 4);
    }

    /// With no seed file that parses, the run ends with an error of its
    /// own.
    pub proof fn lemma_no_seeds_fails(v: EngineView<M::Value>, files: Seq<Seq<u8>>, clock: Clock)
        requires
            v.stage == Stage::Seeds,
            model::parsed_seeds::<M>(files).len() == 0,
        ensures
            Self::model_step(v, EventView::Seeds(Ok(files)), clock).1 == ActionView::Finish(
                Err(ErrorView::Custom { err_msg: model::no_corpus_text() }),
            ),
            Self::model_step(v, EventView::Seeds(Ok(files)), clock).0.stage == Stage::Finished,
    {
    }

    /// A passed health check cuts the window down to its most recent 5000
    /// buffers, before the next mutation is put in front.
    pub proof fn lemma_health_check_cuts_window(v: EngineView<M::Value>, clock: Clock)
        requires
            v.inv(),
            v.stage == Stage::Checking,
        ensures
            ({
                let next = Self::model_step(v, EventView::Health(Ok(true)), clock).0;
                &&& next.window == model::window_with(model::window_kept(v.window), next.pending)
                &&& next.window.len() <= WINDOW_KEEP + 1
            }),
    {
    }

    /// The buffers that an engine asks to write depend on the state it
    /// starts in and on the events it takes, and on nothing else: two runs
    /// from one state with the same events and clocks ask for the same
    /// actions, and so write the same bytes.
    pub proof fn lemma_same_run_same_writes(
        first: EngineView<M::Value>,
        second: EngineView<M::Value>,
        events: Seq<(EventView, Clock)>,
    )
        requires
            first == second,
        ensures
            model_run::<M>(first, events) == model_run::<M>(second, events),
            writes_of(model_run::<M>(first, events).1) == writes_of(
                model_run::<M>(second, events).1,
            ),
    {
    }

    /// `inv` holds after every run from a state in which it holds.
    pub proof fn lemma_run_keeps_inv(v: EngineView<M::Value>, events: Seq<(EventView, Clock)>)
        requires
            v.inv(),
            forall|i: int|
                0 <= i < events.len() ==> ((#[trigger] events[i]).0 matches EventView::Seeds(
                    Ok(files),
                ) ==> files.len() <= usize::MAX),
        ensures
            model_run::<M>(v, events).0.inv(),
        decreases events.len(),
    {
        if events.len() > 0 {
            Self::lemma_run_keeps_inv(v, events.drop_last());
            let before = model_run::<M>(v, events.drop_last());
            Self::lemma_step_keeps_inv(before.0, events.last().0, events.last().1);
        }
    }
}

} // verus!
