//! What the engine does, stated over its state as a mathematical value.
//!
//! `FuzzEngine::model_step` gives the state and the action that follow from
//! a state, an event and the clock. It is a function: the same state, event
//! and clock give the same next state and the same action.

use crate::buffer;
use crate::error::ErrorView;
use crate::error::ProFuzzError;
use crate::fuzz::engine::Action;
use crate::fuzz::engine::BACKOFF_BASE;
use crate::fuzz::engine::BACKOFF_CEILING;
use crate::fuzz::engine::CONNECT_TRIES;
use crate::fuzz::engine::Event;
use crate::fuzz::engine::FuzzEngine;
use crate::fuzz::engine::HEALTH_SKIP_SECS;
use crate::fuzz::engine::MUTATION_ROUNDS;
use crate::fuzz::engine::NOVELTY_BONUS;
use crate::fuzz::engine::RESET_WAIT;
use crate::fuzz::engine::ROOT_ROUNDS;
use crate::fuzz::engine::Stage;
use crate::fuzz::engine::WINDOW_HIGH;
use crate::fuzz::engine::WINDOW_KEEP;
use crate::fuzz::stats;
use crate::fuzz::stats::Clock;
use crate::fuzz::stats::StatsView;
use crate::mutator::MutatorView;
use crate::output;
use crate::traits::Corpus;
use crate::traits::Mutable;
use crate::types::CrashView;
use vstd::prelude::*;

verus! {

/// An event as a mathematical value.
pub enum EventView {
    /// The engine is to start.
    Start {
        /// The title shown with the statistics.
        title: Seq<char>,
    },
    /// The transport has connected, or failed to.
    Connected(Result<(), ErrorView>),
    /// The transport has closed, or failed to.
    Closed(Result<(), ErrorView>),
    /// The transport has written the buffer, or failed to.
    Written(Result<(), ErrorView>),
    /// The transport has read these bytes, or failed to.
    Read(Result<Seq<u8>, ErrorView>),
    /// The health check says whether the target is well, or has failed.
    Health(Result<bool, ErrorView>),
    /// The reset handler has reset the target, or failed to.
    Reset(Result<(), ErrorView>),
    /// The seed files have been read, or could not be.
    Seeds(Result<Seq<Seq<u8>>, ErrorView>),
    /// The time to sleep is over.
    Slept,
    /// The crash record has been handed to the journal.
    Journaled,
    /// The crashing input that triage found has been handed to the output
    /// directory.
    Stored,
}

/// An outcome with its error as a mathematical value.
pub open spec fn outcome_view<T>(outcome: Result<T, ProFuzzError>) -> Result<T, ErrorView> {
    match outcome {
        Ok(value) => Ok(value),
        Err(err) => Err(err@),
    }
}

/// The outcome of a read as a mathematical value.
pub open spec fn read_view(outcome: Result<Vec<u8>, ProFuzzError>) -> Result<Seq<u8>, ErrorView> {
    match outcome {
        Ok(response) => Ok(response@),
        Err(err) => Err(err@),
    }
}

/// The outcome of reading the seed files as a mathematical value.
pub open spec fn seeds_view(outcome: Result<Vec<Vec<u8>>, ProFuzzError>) -> Result<
    Seq<Seq<u8>>,
    ErrorView,
> {
    match outcome {
        Ok(files) => Ok(buffer::buffers_view(files@)),
        Err(err) => Err(err@),
    }
}

impl View for Event {
    type V = EventView;

    open spec fn view(&self) -> EventView {
        match *self {
            Event::Start { title } => EventView::Start { title: title@ },
            Event::Connected(outcome) => EventView::Connected(outcome_view(outcome)),
            Event::Closed(outcome) => EventView::Closed(outcome_view(outcome)),
            Event::Written(outcome) => EventView::Written(outcome_view(outcome)),
            Event::Read(outcome) => EventView::Read(read_view(outcome)),
            Event::Health(outcome) => EventView::Health(outcome_view(outcome)),
            Event::Reset(outcome) => EventView::Reset(outcome_view(outcome)),
            Event::Seeds(outcome) => EventView::Seeds(seeds_view(outcome)),
            Event::Slept => EventView::Slept,
            Event::Journaled => EventView::Journaled,
            Event::Stored => EventView::Stored,
        }
    }
}

/// An action as a mathematical value.
pub enum ActionView {
    /// Connect the transport.
    Connect,
    /// Close the transport.
    Close,
    /// Write the buffer to the transport.
    Write(Seq<u8>),
    /// Read from the transport.
    Read,
    /// Run the health check.
    HealthCheck,
    /// Reset the target.
    Reset,
    /// Sleep for so many milliseconds.
    Sleep(u64),
    /// Read the files of the input directory.
    LoadSeeds,
    /// Append the record to the crash journal.
    Journal(CrashView),
    /// Stop.
    Finish(Result<(), ErrorView>),
}

impl View for Action {
    type V = ActionView;

    open spec fn view(&self) -> ActionView {
        match *self {
            Action::Connect => ActionView::Connect,
            Action::Close => ActionView::Close,
            Action::Write(buffer) => ActionView::Write(buffer@),
            Action::Read => ActionView::Read,
            Action::HealthCheck => ActionView::HealthCheck,
            Action::Reset => ActionView::Reset,
            Action::Sleep(millis) => ActionView::Sleep(millis),
            Action::LoadSeeds => ActionView::LoadSeeds,
            Action::Journal(crash) => ActionView::Journal(crash@),
            Action::Finish(Ok(())) => ActionView::Finish(Ok(())),
            Action::Finish(Err(err)) => ActionView::Finish(Err(err@)),
        }
    }
}

/// The state of the engine as a mathematical value. `V` is the value of an
/// input.
pub struct EngineView<V> {
    /// What the engine waits for.
    pub stage: Stage,
    /// The state of the mutator.
    pub mutator: MutatorView,
    /// The statistics.
    pub stats: StatsView,
    /// The inputs that await exploration, head first.
    pub queue: Seq<V>,
    /// The inputs that have been explored in this cycle.
    pub next_cycle: Seq<V>,
    /// The recently sent buffers, most recent first.
    pub window: Seq<Seq<u8>>,
    /// The buffers that were held to have crashed the target.
    pub crashes: Set<Seq<u8>>,
    /// The digests of the responses seen.
    pub responses: Set<Seq<u8>>,
    /// Whether the seeds are being sent for the first time.
    pub exposing: bool,
    /// Number of seeds.
    pub seeds: usize,
    /// Number of seeds that have been sent.
    pub exposed: usize,
    /// The input under exploration.
    pub root: Option<V>,
    /// The input that the chain of mutations has reached.
    pub current: Option<V>,
    /// Number of chains that were started from the root and are over.
    pub root_round: usize,
    /// Number of mutations of the chain that are over.
    pub mutation_round: usize,
    /// The buffer that is being sent.
    pub pending: Seq<u8>,
    /// Number of failed attempts to connect in this send.
    pub reset_tried: u32,
    /// Whether the last send went through.
    pub send_ok: bool,
    /// Whether the target was reset since the last mutation.
    pub after_reset: bool,
    /// The clock at the last passed health check, in milliseconds.
    pub last_health_check: u64,
}

/// The delay after the given number of failed attempts to connect: 100
/// milliseconds after the first, twice the last delay after each further
/// one, and never more than five seconds.
pub open spec fn backoff_delay(failures: nat) -> u64
    decreases failures,
{
    if failures <= 1 {
        BACKOFF_BASE
    } else if backoff_delay((failures - 1) as nat) * 2 > BACKOFF_CEILING {
        BACKOFF_CEILING
    } else {
        (backoff_delay((failures - 1) as nat) * 2) as u64
    }
}

/// Whole seconds between two readings of the clock in milliseconds.
pub open spec fn seconds_since(clock_ms: u64, earlier_ms: u64) -> u64 {
    if clock_ms >= earlier_ms {
        ((clock_ms - earlier_ms) / 1000) as u64
    } else {
        0
    }
}

/// Whether the health check can be left out after a mutation was sent:
/// the window is below its high-water mark, the last passed check is not
/// more than four seconds ago, and the send went through.
pub open spec fn may_skip_health_check(window_len: nat, seconds: u64, send_ok: bool) -> bool {
    window_len < WINDOW_HIGH && seconds <= HEALTH_SKIP_SECS && send_ok
}

/// The window after a buffer is put in front. The oldest buffer leaves
/// where the window is full.
pub open spec fn window_with(window: Seq<Seq<u8>>, buffer: Seq<u8>) -> Seq<Seq<u8>> {
    if window.len() >= WINDOW_HIGH {
        seq![buffer] + window.take(WINDOW_HIGH - 1)
    } else {
        seq![buffer] + window
    }
}

/// The window after a passed health check: its most recent 5000 buffers.
pub open spec fn window_kept(window: Seq<Seq<u8>>) -> Seq<Seq<u8>> {
    if window.len() > WINDOW_KEEP {
        window.take(WINDOW_KEEP as int)
    } else {
        window
    }
}

/// The inputs that a list of seed files gives: each file that parses, in
/// the order of the files. A file that does not parse is left out.
pub open spec fn parsed_seeds<M: Corpus>(files: Seq<Seq<u8>>) -> Seq<M::Value>
    decreases files.len(),
{
    if files.len() == 0 {
        Seq::empty()
    } else {
        match M::parsed(files.last()) {
            Some(value) => parsed_seeds::<M>(files.drop_last()).push(value),
            None => parsed_seeds::<M>(files.drop_last()),
        }
    }
}

/// The text of the error for a target that is not well before the campaign.
pub open spec fn unhealthy_text() -> Seq<char> {
    "Initial healthcheck was not successfull. Exiting."@
}

/// The text of the error for an input directory without a usable file.
pub open spec fn no_corpus_text() -> Seq<char> {
    "No input corpus found!."@
}

/// The text of the error for an event that the engine did not wait for.
pub open spec fn unexpected_text() -> Seq<char> {
    "Unexpected event."@
}

impl<V> EngineView<V> {
    /// The state of an engine that has not started.
    pub open spec fn fresh(seed: Seq<u8>) -> EngineView<V> {
        EngineView {
            stage: Stage::Created,
            mutator: MutatorView::fresh(seed),
            stats: StatsView::empty(),
            queue: Seq::empty(),
            next_cycle: Seq::empty(),
            window: Seq::empty(),
            crashes: Set::empty(),
            responses: Set::empty(),
            exposing: false,
            seeds: 0,
            exposed: 0,
            root: None,
            current: None,
            root_round: 0,
            mutation_round: 0,
            pending: Seq::empty(),
            reset_tried: 0,
            send_ok: true,
            after_reset: false,
            last_health_check: 0,
        }
    }

    /// Whether the engine waits for a step of a send.
    pub open spec fn sending(self) -> bool {
        self.stage == Stage::Connecting || self.stage == Stage::Backoff || self.stage
            == Stage::Writing || self.stage == Stage::Reading || self.stage == Stage::Closing
    }

    /// Whether the engine waits for a step of the arbitration after a send.
    pub open spec fn arbitrating(self) -> bool {
        self.stage == Stage::Checking || self.stage == Stage::Journaling || self.stage
            == Stage::Resetting || self.stage == Stage::Settling
    }

    /// What holds of the state of an engine at all times:
    /// the window has at most 20000 buffers; the statistics count the
    /// responses and the crashes that the sets hold; while the seeds are
    /// sent for the first time, the one in turn is in the queue; and while
    /// mutations are sent, there is a root and a chain, both within their
    /// rounds, and the window holds the buffer of the mutation.
    pub open spec fn inv(self) -> bool {
        &&& self.base_inv()
        &&& (self.stage == Stage::Connecting || self.stage == Stage::Backoff)
            ==> self.reset_tried < CONNECT_TRIES
        &&& (self.sending() && self.exposing) ==> self.exposed < self.seeds <= self.queue.len()
        &&& self.arbitrating() ==> !self.exposing
        &&& ((self.sending() && !self.exposing) || self.arbitrating()) ==> self.exploring()
            && self.window.len() > 0
    }

    /// The part of `inv` that does not depend on what the engine waits
    /// for: the window has at most 20000 buffers, and the statistics count
    /// the responses and the crashes that the sets hold.
    pub open spec fn base_inv(self) -> bool {
        &&& self.window.len() <= WINDOW_HIGH
        &&& self.responses.finite()
        &&& self.stats.total_unique_responses == self.responses.len()
        &&& self.crashes.finite()
        &&& self.stats.total_crashes == self.crashes.len()
    }

    /// There is a root and a chain of mutations, both within their rounds.
    pub open spec fn exploring(self) -> bool {
        &&& self.root.is_some()
        &&& self.current.is_some()
        &&& self.root_round < ROOT_ROUNDS
        &&& self.mutation_round < MUTATION_ROUNDS
    }

    /// The input that is being sent.
    pub open spec fn sent_input(self) -> V {
        if self.exposing {
            self.queue[self.exposed as int]
        } else {
            self.current.unwrap()
        }
    }

    /// The run ends with an error.
    pub open spec fn model_fail(self, error: ErrorView) -> (EngineView<V>, ActionView) {
        (
            EngineView {
                stage: Stage::Finished,
                stats: StatsView { running: false, ..self.stats },
                ..self
            },
            ActionView::Finish(Err(error)),
        )
    }

    /// The statistics with one more timeout, if the error is one.
    pub open spec fn count_timeout(self, error: ErrorView) -> EngineView<V> {
        if error is Timeout {
            EngineView {
                stats: StatsView {
                    total_timeouts: stats::bumped(self.stats.total_timeouts),
                    ..self.stats
                },
                ..self
            }
        } else {
            self
        }
    }

    /// A send begins: the engine asks for a connection.
    pub open spec fn model_begin_send(self, buffer: Seq<u8>) -> (EngineView<V>, ActionView) {
        (
            EngineView {
                stage: Stage::Connecting,
                pending: buffer,
                reset_tried: 0,
                stats: StatsView { backoff_time: 0, ..self.stats },
                ..self
            },
            ActionView::Connect,
        )
    }

    /// The delay after a failed connect is over: the engine asks for a
    /// connection again.
    pub open spec fn model_on_backoff_slept(self) -> (EngineView<V>, ActionView) {
        (
            EngineView {
                stage: Stage::Connecting,
                stats: StatsView { backoff_time: 0, ..self.stats },
                ..self
            },
            ActionView::Connect,
        )
    }

    /// The record is with the journal: the engine asks for a reset.
    pub open spec fn model_on_journaled(self) -> (EngineView<V>, ActionView) {
        (EngineView { stage: Stage::Resetting, ..self }, ActionView::Reset)
    }

    /// The root is explored: it goes to the inputs of the next cycle, and
    /// the head of the queue is the new root. Where the queue is empty the
    /// cycle is over, and the explored inputs are the queue of the next one.
    pub open spec fn model_next_root(self) -> EngineView<V> {
        let done = self.next_cycle.push(self.root.unwrap());
        if self.queue.len() == 0 {
            EngineView {
                root: Some(done[0]),
                queue: done.drop_first(),
                next_cycle: Seq::empty(),
                root_round: 0,
                stats: StatsView {
                    cylcles_done: stats::bumped(self.stats.cylcles_done),
                    corpus_count: done.len() as usize,
                    ..self.stats
                },
                ..self
            }
        } else {
            EngineView {
                root: Some(self.queue[0]),
                queue: self.queue.drop_first(),
                next_cycle: done,
                root_round: 0,
                ..self
            }
        }
    }

    /// The run is stopped: the inputs of this cycle, explored or not, are
    /// the queue again, and the cycle counts as done.
    pub open spec fn model_finish_run(self) -> (EngineView<V>, ActionView) {
        let explored = match self.root {
            Some(root) => self.next_cycle.push(root),
            None => self.next_cycle,
        };
        (
            EngineView {
                stage: Stage::Finished,
                queue: explored + self.queue,
                next_cycle: Seq::empty(),
                root: None,
                current: None,
                stats: StatsView {
                    cylcles_done: stats::bumped(self.stats.cylcles_done),
                    running: false,
                    ..self.stats
                },
                ..self
            },
            ActionView::Finish(Ok(())),
        )
    }
}

impl<M: Corpus + Mutable> FuzzEngine<M> {
    /// A mutation is made and sent: the chain goes one step on, the buffer
    /// of the input it has reached goes to the front of the window, and a
    /// send begins.
    pub open spec fn model_mutate_and_send(v: EngineView<M::Value>) -> (
        EngineView<M::Value>,
        ActionView,
    ) {
        let mutation = M::mutated(v.current.unwrap(), v.mutator);
        let buffer = M::serialized(mutation.0);
        EngineView {
            current: Some(mutation.0),
            mutator: mutation.1,
            window: window_with(v.window, buffer),
            after_reset: false,
            ..v
        }.model_begin_send(buffer)
    }

    /// The engine goes on to the next mutation. The chain ends after its
    /// thousandth mutation, or at once where it is abandoned; the
    /// exploration of a root ends after fifty chains. A new chain starts
    /// from the root.
    pub open spec fn model_next_mutation(v: EngineView<M::Value>, abandon: bool) -> (
        EngineView<M::Value>,
        ActionView,
    ) {
        if abandon || v.mutation_round + 1 >= MUTATION_ROUNDS {
            let ended = EngineView {
                root_round: (v.root_round + 1) as usize,
                mutation_round: 0,
                ..v
            };
            let rooted = if ended.root_round >= ROOT_ROUNDS {
                ended.model_next_root()
            } else {
                ended
            };
            Self::model_mutate_and_send(EngineView { current: rooted.root, ..rooted })
        } else {
            Self::model_mutate_and_send(
                EngineView { mutation_round: (v.mutation_round + 1) as usize, ..v },
            )
        }
    }

    /// The seeds have been sent: the first cycle begins with the head of
    /// the queue as the root.
    pub open spec fn model_begin_exploration(v: EngineView<M::Value>, clock: Clock) -> (
        EngineView<M::Value>,
        ActionView,
    ) {
        Self::model_mutate_and_send(
            EngineView {
                exposing: false,
                stats: StatsView { corpus_count: v.queue.len() as usize, ..v.stats },
                last_health_check: clock.millis,
                root: Some(v.queue[0]),
                current: Some(v.queue[0]),
                queue: v.queue.drop_first(),
                next_cycle: Seq::empty(),
                root_round: 0,
                mutation_round: 0,
                ..v
            },
        )
    }

    /// A mutation has been sent, or the wait after a reset is over: the
    /// execution is counted; the run ends where it was stopped; the next
    /// mutation follows where the health check can be left out; else the
    /// engine asks for a health check.
    pub open spec fn model_arbitrate(v: EngineView<M::Value>, clock: Clock) -> (
        EngineView<M::Value>,
        ActionView,
    ) {
        let counted = EngineView {
            stats: StatsView {
                total_executions: stats::bumped_u64(v.stats.total_executions),
                executions_per_second: v.stats.executions_per_second.add(clock.millis),
                ..v.stats
            },
            ..v
        };
        if !v.stats.running {
            counted.model_finish_run()
        } else if may_skip_health_check(
            v.window.len(),
            seconds_since(clock.millis, v.last_health_check),
            v.send_ok,
        ) {
            Self::model_next_mutation(counted, false)
        } else {
            (EngineView { stage: Stage::Checking, ..counted }, ActionView::HealthCheck)
        }
    }

    /// A send is over. A seed is followed by the next seed, the last seed
    /// by the first cycle, a mutation by the arbitration.
    pub open spec fn model_send_done(v: EngineView<M::Value>, ok: bool, clock: Clock) -> (
        EngineView<M::Value>,
        ActionView,
    ) {
        if v.exposing {
            let exposed = (v.exposed + 1) as usize;
            if exposed < v.seeds {
                EngineView { exposed, ..v }.model_begin_send(M::serialized(v.queue[exposed as int]))
            } else {
                Self::model_begin_exploration(EngineView { exposed, ..v }, clock)
            }
        } else {
            Self::model_arbitrate(EngineView { send_ok: ok, ..v }, clock)
        }
    }

    /// The outcome of a connect. Connected, the engine asks to write the
    /// buffer. Else the failure is counted and the delay that belongs to it
    /// is shown; after the third failure the send is over, before that the
    /// engine asks to sleep for the delay.
    pub open spec fn model_on_connected(
        v: EngineView<M::Value>,
        outcome: Result<(), ErrorView>,
        clock: Clock,
    ) -> (EngineView<M::Value>, ActionView) {
        match outcome {
            Ok(()) => (EngineView { stage: Stage::Writing, ..v }, ActionView::Write(v.pending)),
            Err(_) => {
                let tried = (v.reset_tried + 1) as u32;
                let failed = EngineView {
                    reset_tried: tried,
                    stats: StatsView {
                        executions_per_second: v.stats.executions_per_second.clear(),
                        backoff_time: backoff_delay(tried as nat),
                        ..v.stats
                    },
                    ..v
                };
                if tried >= CONNECT_TRIES {
                    Self::model_send_done(failed, false, clock)
                } else {
                    (
                        EngineView { stage: Stage::Backoff, ..failed },
                        ActionView::Sleep(backoff_delay(tried as nat)),
                    )
                }
            },
        }
    }

    /// The outcome of a write. Written, the engine asks to read. Else the
    /// send is over and has failed; a timeout is counted.
    pub open spec fn model_on_written(
        v: EngineView<M::Value>,
        outcome: Result<(), ErrorView>,
        clock: Clock,
    ) -> (EngineView<M::Value>, ActionView) {
        match outcome {
            Ok(()) => (EngineView { stage: Stage::Reading, ..v }, ActionView::Read),
            Err(err) => Self::model_send_done(v.count_timeout(err), false, clock),
        }
    }

    /// The outcome of a read. No bytes: the target has closed the
    /// connection, the send is over and went through, and nothing is
    /// recorded. Some bytes: their digest is looked up; if it is new, it is
    /// recorded and counted, and a copy of the input that was sent goes to
    /// the tail of the queue; the engine asks to close the connection. An
    /// error: the send is over and has failed; a timeout is counted.
    pub open spec fn model_on_read(
        v: EngineView<M::Value>,
        outcome: Result<Seq<u8>, ErrorView>,
        clock: Clock,
    ) -> (EngineView<M::Value>, ActionView) {
        match outcome {
            Ok(response) => if response.len() == 0 {
                Self::model_send_done(v, true, clock)
            } else {
                let digest = output::sha1_of(response);
                if !v.responses.contains(digest) && v.responses.len() < usize::MAX {
                    (
                        EngineView {
                            stage: Stage::Closing,
                            responses: v.responses.insert(digest),
                            queue: v.queue.push(v.sent_input()),
                            stats: StatsView {
                                total_unique_responses: (v.stats.total_unique_responses
                                    + 1) as usize,
                                last_new_path: Some(clock.now),
                                corpus_count: stats::raised(v.stats.corpus_count, NOVELTY_BONUS),
                                ..v.stats
                            },
                            ..v
                        },
                        ActionView::Close,
                    )
                } else {
                    (EngineView { stage: Stage::Closing, ..v }, ActionView::Close)
                }
            },
            Err(err) => Self::model_send_done(v.count_timeout(err), false, clock),
        }
    }

    /// The outcome of a health check after a mutation. The target is well:
    /// the time is noted, the window is cut down to its most recent 5000
    /// buffers, and the next mutation follows. The target is not well, or
    /// the check has failed, after a reset: the chain is abandoned. Else a
    /// crash is recorded: the oldest buffer of the window is held to have
    /// triggered it; it is counted if it is new; and the engine asks to
    /// append the record to the journal.
    pub open spec fn model_on_health(
        v: EngineView<M::Value>,
        outcome: Result<bool, ErrorView>,
        clock: Clock,
    ) -> (EngineView<M::Value>, ActionView) {
        if outcome == Ok::<bool, ErrorView>(true) {
            Self::model_next_mutation(
                EngineView {
                    stats: StatsView { last_healt_check: Some(clock.now), ..v.stats },
                    last_health_check: clock.millis,
                    window: window_kept(v.window),
                    ..v
                },
                false,
            )
        } else if v.after_reset {
            Self::model_next_mutation(v, true)
        } else if v.window.len() == 0 {
            (EngineView { stage: Stage::Resetting, ..v }, ActionView::Reset)
        } else {
            let record = CrashView { buffer: v.window.last(), window: v.window, stats: v.stats };
            if !v.crashes.contains(record.buffer) && v.crashes.len() < usize::MAX {
                (
                    EngineView {
                        stage: Stage::Journaling,
                        crashes: v.crashes.insert(record.buffer),
                        stats: StatsView {
                            total_crashes: (v.stats.total_crashes + 1) as usize,
                            last_unique_crash: Some(clock.now),
                            ..v.stats
                        },
                        ..v
                    },
                    ActionView::Journal(record),
                )
            } else {
                (EngineView { stage: Stage::Journaling, ..v }, ActionView::Journal(record))
            }
        }
    }

    /// The outcome of a reset. Reset, the engine asks to sleep for a
    /// second. A failed reset ends the run.
    pub open spec fn model_on_reset(v: EngineView<M::Value>, outcome: Result<(), ErrorView>) -> (
        EngineView<M::Value>,
        ActionView,
    ) {
        match outcome {
            Ok(()) => (EngineView { stage: Stage::Settling, ..v }, ActionView::Sleep(RESET_WAIT)),
            Err(err) => v.model_fail(err),
        }
    }

    /// The wait after a reset is over: the arbitration goes on.
    pub open spec fn model_on_settled(v: EngineView<M::Value>, clock: Clock) -> (
        EngineView<M::Value>,
        ActionView,
    ) {
        Self::model_arbitrate(EngineView { after_reset: true, ..v }, clock)
    }

    /// The seed files. Each file that parses is an input of the queue; the
    /// others are left out. With no input the run ends with an error. Else
    /// the campaign has started, and the first seed is sent.
    pub open spec fn model_on_seeds(
        v: EngineView<M::Value>,
        outcome: Result<Seq<Seq<u8>>, ErrorView>,
        clock: Clock,
    ) -> (EngineView<M::Value>, ActionView) {
        match outcome {
            Ok(files) => {
                let inputs = parsed_seeds::<M>(files);
                if inputs.len() == 0 {
                    v.model_fail(ErrorView::Custom { err_msg: no_corpus_text() })
                } else {
                    EngineView {
                        stats: StatsView { running: true, started: Some(clock.now), ..v.stats },
                        queue: inputs,
                        next_cycle: Seq::empty(),
                        seeds: inputs.len() as usize,
                        exposed: 0,
                        exposing: true,
                        ..v
                    }.model_begin_send(M::serialized(inputs[0]))
                }
            },
            Err(err) => v.model_fail(err),
        }
    }

    /// The checks before the campaign: the transport connects and closes,
    /// and the target is well. Then the engine asks for the seed files. A
    /// check that fails ends the run: the target cannot be reached.
    pub open spec fn model_preflight(v: EngineView<M::Value>, event: EventView) -> (
        EngineView<M::Value>,
        ActionView,
    ) {
        match (v.stage, event) {
            (Stage::PreflightConnect, EventView::Connected(Ok(()))) => (
                EngineView { stage: Stage::PreflightClose, ..v },
                ActionView::Close,
            ),
            (Stage::PreflightConnect, EventView::Connected(Err(err))) => v.model_fail(
                ErrorView::ConnectionFailed { err_msg: err.text() },
            ),
            (Stage::PreflightClose, EventView::Closed(Ok(()))) => (
                EngineView { stage: Stage::PreflightHealth, ..v },
                ActionView::HealthCheck,
            ),
            (Stage::PreflightClose, EventView::Closed(Err(err))) => v.model_fail(
                ErrorView::ConnectionFailed { err_msg: err.text() },
            ),
            (Stage::PreflightHealth, EventView::Health(Ok(true))) => (
                EngineView { stage: Stage::Seeds, ..v },
                ActionView::LoadSeeds,
            ),
            (Stage::PreflightHealth, EventView::Health(Ok(false))) => v.model_fail(
                ErrorView::ConnectionFailed { err_msg: unhealthy_text() },
            ),
            (Stage::PreflightHealth, EventView::Health(Err(err))) => v.model_fail(
                ErrorView::ConnectionFailed { err_msg: err.text() },
            ),
            _ => v.model_fail(ErrorView::Custom { err_msg: unexpected_text() }),
        }
    }

    /// One step of the engine: the state and the action that follow from a
    /// state, an event and the clock. An event that the engine did not
    /// wait for ends the run with an error.
    pub open spec fn model_step(v: EngineView<M::Value>, event: EventView, clock: Clock) -> (
        EngineView<M::Value>,
        ActionView,
    ) {
        match (v.stage, event) {
            (Stage::Created, EventView::Start { title }) => (
                EngineView {
                    stage: Stage::PreflightConnect,
                    stats: StatsView { title, ..v.stats },
                    ..v
                },
                ActionView::Connect,
            ),
            (Stage::PreflightConnect, EventView::Connected(_)) => Self::model_preflight(v, event),
            (Stage::PreflightClose, EventView::Closed(_)) => Self::model_preflight(v, event),
            (Stage::PreflightHealth, EventView::Health(_)) => Self::model_preflight(v, event),
            (Stage::Seeds, EventView::Seeds(outcome)) => Self::model_on_seeds(v, outcome, clock),
            (Stage::Connecting, EventView::Connected(outcome)) => Self::model_on_connected(
                v,
                outcome,
                clock,
            ),
            (Stage::Backoff, EventView::Slept) => v.model_on_backoff_slept(),
            (Stage::Writing, EventView::Written(outcome)) => Self::model_on_written(
                v,
                outcome,
                clock,
            ),
            (Stage::Reading, EventView::Read(outcome)) => Self::model_on_read(v, outcome, clock),
            (Stage::Closing, EventView::Closed(_)) => Self::model_send_done(v, true, clock),
            (Stage::Checking, EventView::Health(outcome)) => Self::model_on_health(
                v,
                outcome,
                clock,
            ),
            (Stage::Journaling, EventView::Journaled) => v.model_on_journaled(),
            (Stage::Resetting, EventView::Reset(outcome)) => Self::model_on_reset(v, outcome),
            (Stage::Settling, EventView::Slept) => Self::model_on_settled(v, clock),
            _ => v.model_fail(ErrorView::Custom { err_msg: unexpected_text() }),
        }
    }
}

} // verus!
