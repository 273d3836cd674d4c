//! The fuzzing engine as a state machine.
//!
//! The engine owns the queue of inputs, the window of recently sent
//! buffers, the sets of responses and crashes seen, the mutator and the
//! statistics. It does not talk to the target. `FuzzEngine::step` takes what
//! happened last, decides, and answers with the next thing to do: connect,
//! write these bytes, read, check the health of the target, reset it, sleep,
//! append a record to the crash journal, or stop. The caller performs the
//! action and comes back with its outcome.
//!
//! What `step` does is stated in the module `model`, over the state as a
//! mathematical value; what holds of every run is proved in the module
//! `laws`.

use crate::buffer;
use crate::buffer::copy_of;
use crate::byteset::ByteSet;
use crate::error::ErrorView;
use crate::error::ProFuzzError;
use crate::fuzz::model;
use crate::fuzz::model::ActionView;
use crate::fuzz::model::EngineView;
use crate::fuzz::stats;
use crate::fuzz::stats::Clock;
use crate::fuzz::stats::Stats;
use crate::fuzz::stats::StatsView;
use crate::mutator::Mutator;
use crate::output;
use crate::traits::Corpus;
use crate::traits::Mutable;
use crate::types;
use crate::types::Crash;
use std::collections::VecDeque;
use vstd::prelude::*;
use vstd::string::StringExecFns;

verus! {

/// Number of times that an input of the queue is taken as the root of a
/// chain of mutations, in one cycle.
pub const ROOT_ROUNDS: usize = 50;

/// Number of mutations in a chain.
pub const MUTATION_ROUNDS: usize = 1000;

/// Number of buffers in the window at which a health check is due, and
/// which the window never exceeds.
pub const WINDOW_HIGH: usize = 20000;

/// Number of buffers that stay in the window after a health check that
/// the target passed.
pub const WINDOW_KEEP: usize = 5000;

/// Number of seconds after a passed health check in which none is made
/// unless there is a reason.
pub const HEALTH_SKIP_SECS: u64 = 4;

/// What the count of the corpus goes up by for a new response.
pub const NOVELTY_BONUS: usize = 3;

/// Delay after the first failed attempt to connect, in milliseconds.
pub const BACKOFF_BASE: u64 = 100;

/// Longest delay between two attempts to connect, in milliseconds.
pub const BACKOFF_CEILING: u64 = 5000;

/// Number of failed attempts to connect after which a send is given up.
pub const CONNECT_TRIES: u32 = 3;

/// Time to wait after a reset before the target is looked at again, in
/// milliseconds.
pub const RESET_WAIT: u64 = 1000;

/// What the engine waits for.
#[derive(Debug, Clone, Copy, PartialEq, Eq, Structural)]
pub enum Stage {
    /// The start.
    Created,
    /// The outcome of the first connect, before the campaign.
    PreflightConnect,
    /// The outcome of the first close, before the campaign.
    PreflightClose,
    /// The outcome of the first health check, before the campaign.
    PreflightHealth,
    /// The seed files.
    Seeds,
    /// The outcome of a connect, to send an input.
    Connecting,
    /// The end of the delay after a failed connect.
    Backoff,
    /// The outcome of the write of an input.
    Writing,
    /// The response of the target.
    Reading,
    /// The outcome of the close after a response.
    Closing,
    /// The outcome of a health check.
    Checking,
    /// The crash journal.
    Journaling,
    /// The outcome of a reset.
    Resetting,
    /// The end of the wait after a reset.
    Settling,
    /// Nothing: the run is over.
    Finished,
}

/// What happened, as the caller tells the engine or the triage.
#[derive(Debug)]
pub enum Event {
    /// The engine is to start. The title names the transport.
    Start {
        /// The title shown with the statistics.
        title: String,
    },
    /// The transport has connected, or failed to.
    Connected(Result<(), ProFuzzError>),
    /// The transport has closed, or failed to.
    Closed(Result<(), ProFuzzError>),
    /// The transport has written the buffer, or failed to.
    Written(Result<(), ProFuzzError>),
    /// The transport has read these bytes, or failed to. No bytes mean that
    /// the target has closed the connection.
    Read(Result<Vec<u8>, ProFuzzError>),
    /// The health check says whether the target is well, or has failed.
    Health(Result<bool, ProFuzzError>),
    /// The reset handler has reset the target, or failed to.
    Reset(Result<(), ProFuzzError>),
    /// The seed files have been read, each as one buffer, or could not be.
    Seeds(Result<Vec<Vec<u8>>, ProFuzzError>),
    /// The time to sleep is over.
    Slept,
    /// The crash record has been handed to the journal.
    Journaled,
    /// The crashing input that triage found has been handed to the output
    /// directory.
    Stored,
}

/// What the caller is to do next.
#[derive(Debug)]
pub enum Action {
    /// Connect the transport, and come back with `Event::Connected`.
    Connect,
    /// Close the transport, and come back with `Event::Closed`.
    Close,
    /// Write the buffer to the transport, and come back with
    /// `Event::Written`.
    Write(Vec<u8>),
    /// Read from the transport, and come back with `Event::Read`.
    Read,
    /// Run the health check, and come back with `Event::Health`.
    HealthCheck,
    /// Reset the target, and come back with `Event::Reset`.
    Reset,
    /// Sleep for so many milliseconds, and come back with `Event::Slept`.
    Sleep(u64),
    /// Read the files of the input directory, and come back with
    /// `Event::Seeds`.
    LoadSeeds,
    /// Append the record to the crash journal, and come back with
    /// `Event::Journaled`, whether or not it could be written.
    Journal(Crash),
    /// Stop: the run is over, with this result.
    Finish(Result<(), ProFuzzError>),
}

/// The main fuzzing engine. It coordinates what the collaborators do:
/// connecting to the target, checking its health, resetting it.
pub struct FuzzEngine<M: Corpus + Mutable> {
    mutator: Mutator,
    stats: Stats,
    queue: VecDeque<M>,
    next_cycle: VecDeque<M>,
    last_send_buffers: VecDeque<Vec<u8>>,
    unique_crashes: ByteSet,
    unique_responses: ByteSet,
    stage: Stage,
    exposing: bool,
    seeds: usize,
    exposed: usize,
    root: Option<M>,
    current: Option<M>,
    root_round: usize,
    mutation_round: usize,
    pending: Vec<u8>,
    reset_tried: u32,
    send_ok: bool,
    after_reset: bool,
    last_health_check: u64,
}

/// The values of a list of inputs.
pub open spec fn values_of<M: Corpus>(items: Seq<M>) -> Seq<M::Value> {
    items.map_values(|item: M| item.value())
}

/// The value of an input that may be missing.
pub open spec fn value_of<M: Corpus>(item: Option<M>) -> Option<M::Value> {
    match item {
        Some(item) => Some(item.value()),
        None => None,
    }
}

impl<M: Corpus + Mutable> View for FuzzEngine<M> {
    type V = EngineView<M::Value>;

    closed spec fn view(&self) -> EngineView<M::Value> {
        EngineView {
            stage: self.stage,
            mutator: self.mutator@,
            stats: self.stats@,
            queue: values_of(self.queue@),
            next_cycle: values_of(self.next_cycle@),
            window: buffer::buffers_view(self.last_send_buffers@),
            crashes: self.unique_crashes@,
            responses: self.unique_responses@,
            exposing: self.exposing,
            seeds: self.seeds,
            exposed: self.exposed,
            root: value_of(self.root),
            current: value_of(self.current),
            root_round: self.root_round,
            mutation_round: self.mutation_round,
            pending: self.pending@,
            reset_tried: self.reset_tried,
            send_ok: self.send_ok,
            after_reset: self.after_reset,
            last_health_check: self.last_health_check,
        }
    }
}

broadcast use vstd::std_specs::vecdeque::axiom_spec_len;

/// Computes the delay after the given number of failed attempts to
/// connect.
pub fn backoff_after(failures: u32) -> (delay: u64)
    ensures
        delay == model::backoff_delay(failures as nat),
        BACKOFF_BASE <= delay <= BACKOFF_CEILING,
{
    let mut delay: u64 = BACKOFF_BASE;
    let mut counted: u32 = 1;
    while counted < failures
        invariant
            1 <= counted,
            counted <= failures || (failures == 0 && counted == 1),
            delay == model::backoff_delay(counted as nat),
            BACKOFF_BASE <= delay <= BACKOFF_CEILING,
        decreases failures - counted,
    {
        counted = counted + 1;
        if delay * 2 > BACKOFF_CEILING {
            delay = BACKOFF_CEILING;
        } else {
            delay = delay * 2;
        }
    }
    delay
}

/// Computes the whole seconds between two readings of the clock in
/// milliseconds.
pub fn seconds_between(clock_ms: u64, earlier_ms: u64) -> (seconds: u64)
    ensures
        seconds == model::seconds_since(clock_ms, earlier_ms),
{
    if clock_ms >= earlier_ms {
        (clock_ms - earlier_ms) / 1000
    } else {
        0
    }
}

/// Decides whether the health check can be left out after a mutation was
/// sent.
pub fn skip_health_check(window_len: usize, seconds: u64, send_ok: bool) -> (skip: bool)
    ensures
        skip == model::may_skip_health_check(window_len as nat, seconds, send_ok),
{
    window_len < WINDOW_HIGH && seconds <= HEALTH_SKIP_SECS && send_ok
}

/// Parses the seed files. A file that does not parse is left out.
pub fn load_initial_corpus<M: Corpus>(files: &Vec<Vec<u8>>) -> (inputs: Vec<M>)
    ensures
        values_of(inputs@) == model::parsed_seeds::<M>(buffer::buffers_view(files@)),
{
    let mut inputs: Vec<M> = Vec::new();
    let mut i: usize = 0;
    while i < files.len()
        invariant
            i <= files@.len(),
            values_of(inputs@) == model::parsed_seeds::<M>(buffer::buffers_view(files@).take(i as int)),
        decreases files@.len() - i,
    {
        let ghost views = buffer::buffers_view(files@);
        proof {
            assert(views.take(i + 1).drop_last() == views.take(i as int));
        }
        let file = copy_of(&files[i]);
        match M::from_bytes(file) {
            Some(input) => {
                inputs.push(input);
            },
            None => {},
        }
        i = i + 1;
    }
    proof {
        assert(buffer::buffers_view(files@).take(i as int) == buffer::buffers_view(files@));
    }
    inputs
}

/// The values of a list of inputs go with the list when an input is added
/// at its end.
proof fn lemma_values_push<M: Corpus>(items: Seq<M>, item: M)
    ensures
        values_of(items.push(item)) == values_of(items).push(item.value()),
{
}

/// The values of a list of inputs go with the list when its head leaves.
proof fn lemma_values_drop_first<M: Corpus>(items: Seq<M>)
    requires
        items.len() > 0,
    ensures
        values_of(items.subrange(1, items.len() as int)) == values_of(items).drop_first(),
        values_of(items)[0] == items[0].value(),
{
}

/// The value of the input at a place of a list.
proof fn lemma_values_index<M: Corpus>(items: Seq<M>, at: int)
    requires
        0 <= at < items.len(),
    ensures
        values_of(items)[at] == items[at].value(),
        values_of(items).len() == items.len(),
{
}

impl<M: Corpus + Mutable> FuzzEngine<M> {
    /// The sets are well formed, and what holds of the state of an engine at
    /// all times holds of this one.
    pub closed spec fn wf(&self) -> bool {
        self.sets_wf() && self@.inv()
    }

    /// What holds of the state of an engine at all times.
    pub proof fn lemma_inv(&self)
        requires
            self.wf(),
        ensures
            self@.inv(),
    {
    }

    /// An engine that has not started, with a mutator for the given seed.
    pub fn with_seed(seed: [u8; 32]) -> (engine: Self)
        ensures
            engine.wf(),
            engine@ == EngineView::<M::Value>::fresh(seed@),
    {
        let engine = FuzzEngine {
            mutator: Mutator::new(seed),
            stats: Stats::default(),
            queue: VecDeque::new(),
            next_cycle: VecDeque::new(),
            last_send_buffers: VecDeque::new(),
            unique_crashes: ByteSet::new(),
            unique_responses: ByteSet::new(),
            stage: Stage::Created,
            exposing: false,
            seeds: 0,
            exposed: 0,
            root: None,
            current: None,
            root_round: 0,
            mutation_round: 0,
            pending: Vec::new(),
            reset_tried: 0,
            send_ok: true,
            after_reset: false,
            last_health_check: 0,
        };
        proof {
            assert(engine@.queue =~= Seq::<M::Value>::empty());
            assert(engine@.window =~= Seq::<Seq<u8>>::empty());
        }
        engine
    }

    /// An engine that has not started. Its mutator has the seed of all
    /// zeros.
    pub fn new() -> (engine: Self)
        ensures
            engine.wf(),
            engine@ == EngineView::<M::Value>::fresh(Seq::new(32, |i: int| 0u8)),
    {
        let seed = [0u8; 32];
        assert(seed@ =~= Seq::new(32, |i: int| 0u8));
        Self::with_seed(seed)
    }

    /// The statistics.
    pub fn stats(&self) -> (stats: &Stats)
        ensures
            stats@ == self@.stats,
    {
        &self.stats
    }

    /// What the engine waits for.
    pub fn stage(&self) -> (stage: Stage)
        ensures
            stage == self@.stage,
    {
        self.stage
    }

    /// Number of inputs in the queue.
    pub fn queue_len(&self) -> (len: usize)
        ensures
            len == self@.queue.len(),
    {
        self.queue.len()
    }

    /// Number of inputs that were explored in this cycle.
    pub fn explored_len(&self) -> (len: usize)
        ensures
            len == self@.next_cycle.len(),
    {
        self.next_cycle.len()
    }

    /// Whether an input is under exploration.
    pub fn has_root(&self) -> (rooted: bool)
        ensures
            rooted == self@.root.is_some(),
    {
        self.root.is_some()
    }

    /// Number of buffers in the window of recently sent buffers.
    pub fn window_len(&self) -> (len: usize)
        ensures
            len == self@.window.len(),
    {
        self.last_send_buffers.len()
    }

    /// Number of different buffers that were held to have crashed the
    /// target.
    pub fn unique_crashes(&self) -> (len: usize)
        requires
            self.wf(),
        ensures
            len == self@.crashes.len(),
    {
        self.unique_crashes.len()
    }

    /// Number of different responses seen.
    pub fn unique_responses(&self) -> (len: usize)
        requires
            self.wf(),
        ensures
            len == self@.responses.len(),
    {
        self.unique_responses.len()
    }

    /// Stops the run: the engine ends it at the next execution it counts.
    pub fn stop(&mut self)
        requires
            old(self).wf(),
        ensures
            final(self).wf(),
            final(self)@ == (EngineView {
                stats: StatsView { running: false, ..old(self)@.stats },
                ..old(self)@
            }),
    {
        self.stats.running = false;
    }

    /// Ends the run with an error.
    fn fail(&mut self, error: ProFuzzError) -> (action: Action)
        requires
            old(self).wf(),
        ensures
            final(self).wf(),
            (final(self)@, action@) == old(self)@.model_fail(error@),
    {
        self.stage = Stage::Finished;
        self.stats.running = false;
        Action::Finish(Err(error))
    }

    /// The sets are well formed.
    spec fn sets_wf(&self) -> bool {
        self.unique_crashes.wf() && self.unique_responses.wf()
    }

    /// Begins a send.
    fn begin_send(&mut self, buffer: Vec<u8>) -> (action: Action)
        requires
            old(self).sets_wf(),
            (old(self)@.model_begin_send(buffer@).0).inv(),
        ensures
            final(self).wf(),
            (final(self)@, action@) == old(self)@.model_begin_send(buffer@),
    {
        self.stage = Stage::Connecting;
        self.pending = buffer;
        self.reset_tried = 0;
        self.stats.backoff_time = 0;
        Action::Connect
    }

    /// The delay after a failed connect is over.
    fn on_backoff_slept(&mut self) -> (action: Action)
        requires
            old(self).wf(),
            old(self)@.stage == Stage::Backoff,
        ensures
            final(self).wf(),
            (final(self)@, action@) == old(self)@.model_on_backoff_slept(),
    {
        self.stage = Stage::Connecting;
        self.stats.backoff_time = 0;
        Action::Connect
    }

    /// The record is with the journal.
    fn on_journaled(&mut self) -> (action: Action)
        requires
            old(self).wf(),
            old(self)@.stage == Stage::Journaling,
        ensures
            final(self).wf(),
            (final(self)@, action@) == old(self)@.model_on_journaled(),
    {
        self.stage = Stage::Resetting;
        Action::Reset
    }
}

/// The views of a list of buffers go with the list when a buffer is put in
/// front.
proof fn lemma_buffers_push_front(buffers: Seq<Vec<u8>>, buffer: Vec<u8>)
    ensures
        buffer::buffers_view(seq![buffer] + buffers) == seq![buffer@] + buffer::buffers_view(
            buffers,
        ),
{
    assert(buffer::buffers_view(seq![buffer] + buffers) =~= seq![buffer@] + buffer::buffers_view(
        buffers,
    ));
}

/// The views of a list of buffers go with the list when it is cut.
proof fn lemma_buffers_take(buffers: Seq<Vec<u8>>, len: int)
    requires
        0 <= len <= buffers.len(),
    ensures
        buffer::buffers_view(buffers.subrange(0, len)) == buffer::buffers_view(buffers).take(len),
{
    assert(buffer::buffers_view(buffers.subrange(0, len)) =~= buffer::buffers_view(buffers).take(
        len,
    ));
}

/// The bytes of an input.
fn serialize<M: Corpus>(input: &M) -> (buffer: Vec<u8>)
    ensures
        buffer@ == M::serialized(input.value()),
{
    input.duplicate().to_bytes()
}

impl<M: Corpus + Mutable> FuzzEngine<M> {
    /// Makes a mutation and begins to send it.
    fn mutate_and_send(&mut self) -> (action: Action)
        requires
            old(self).sets_wf(),
            old(self)@.base_inv(),
            old(self)@.exploring(),
            !old(self)@.exposing,
        ensures
            final(self).wf(),
            (final(self)@, action@) == Self::model_mutate_and_send(old(self)@),
    {
        let mut current = self.current.take().unwrap();
        current.mutate(&mut self.mutator);
        let buffer = serialize(&current);
        let copy = copy_of(&buffer);
        self.current = Some(current);
        let ghost before = self.last_send_buffers@;
        if self.last_send_buffers.len() >= WINDOW_HIGH {
            self.last_send_buffers.truncate(WINDOW_HIGH - 1);
            proof {
                lemma_buffers_take(before, WINDOW_HIGH - 1);
            }
        }
        proof {
            lemma_buffers_push_front(self.last_send_buffers@, copy);
        }
        self.last_send_buffers.push_front(copy);
        self.after_reset = false;
        self.begin_send(buffer)
    }

    /// Takes the head of the queue as the new root.
    fn next_root(&mut self)
        requires
            old(self).sets_wf(),
            old(self)@.base_inv(),
            old(self)@.root.is_some(),
        ensures
            final(self).sets_wf(),
            final(self)@ == old(self)@.model_next_root(),
            final(self)@.base_inv(),
            final(self)@.root.is_some(),
    {
        let root = self.root.take().unwrap();
        proof {
            lemma_values_push(self.next_cycle@, root);
        }
        self.next_cycle.push_back(root);
        if self.queue.len() == 0 {
            assert(values_of(self.queue@) =~= Seq::<M::Value>::empty());
            std::mem::swap(&mut self.queue, &mut self.next_cycle);
            self.stats.cylcles_done = stats::raise(self.stats.cylcles_done, 1);
            self.stats.corpus_count = self.queue.len();
        }
        proof {
            lemma_values_drop_first(self.queue@);
        }
        self.root = self.queue.pop_front();
        self.root_round = 0;
    }

    /// Goes on to the next mutation.
    fn next_mutation(&mut self, abandon: bool) -> (action: Action)
        requires
            old(self).sets_wf(),
            old(self)@.base_inv(),
            old(self)@.exploring(),
            !old(self)@.exposing,
        ensures
            final(self).wf(),
            (final(self)@, action@) == Self::model_next_mutation(old(self)@, abandon),
    {
        if abandon || self.mutation_round + 1 >= MUTATION_ROUNDS {
            self.root_round = self.root_round + 1;
            self.mutation_round = 0;
            if self.root_round >= ROOT_ROUNDS {
                self.next_root();
            }
            let fresh = match &self.root {
                Some(root) => Some(root.duplicate()),
                None => None,
            };
            self.current = fresh;
        } else {
            self.mutation_round = self.mutation_round + 1;
        }
        self.mutate_and_send()
    }

    /// Begins the first cycle.
    fn begin_exploration(&mut self, clock: Clock) -> (action: Action)
        requires
            old(self).sets_wf(),
            old(self)@.base_inv(),
            old(self)@.queue.len() > 0,
        ensures
            final(self).wf(),
            (final(self)@, action@) == Self::model_begin_exploration(old(self)@, clock),
    {
        self.exposing = false;
        self.stats.corpus_count = self.queue.len();
        self.last_health_check = clock.millis;
        proof {
            lemma_values_drop_first(self.queue@);
        }
        let root = self.queue.pop_front().unwrap();
        self.current = Some(root.duplicate());
        self.root = Some(root);
        self.next_cycle = VecDeque::new();
        assert(values_of(self.next_cycle@) =~= Seq::<M::Value>::empty());
        self.root_round = 0;
        self.mutation_round = 0;
        self.mutate_and_send()
    }

    /// Ends the run after a stop.
    fn finish_run(&mut self) -> (action: Action)
        requires
            old(self).wf(),
        ensures
            final(self).wf(),
            (final(self)@, action@) == old(self)@.model_finish_run(),
    {
        match self.root.take() {
            Some(root) => {
                proof {
                    lemma_values_push(self.next_cycle@, root);
                }
                self.next_cycle.push_back(root);
            },
            None => {},
        }
        let ghost explored = self.next_cycle@;
        let ghost waiting = self.queue@;
        self.next_cycle.append(&mut self.queue);
        std::mem::swap(&mut self.queue, &mut self.next_cycle);
        proof {
            assert(values_of(explored + waiting) =~= values_of(explored) + values_of(waiting));
            assert(values_of(self.next_cycle@) =~= Seq::<M::Value>::empty());
        }
        self.current = None;
        self.stats.cylcles_done = stats::raise(self.stats.cylcles_done, 1);
        self.stats.running = false;
        self.stage = Stage::Finished;
        Action::Finish(Ok(()))
    }

    /// Counts an execution and decides what follows it.
    fn arbitrate(&mut self, clock: Clock) -> (action: Action)
        requires
            old(self).sets_wf(),
            old(self)@.base_inv(),
            old(self)@.exploring(),
            !old(self)@.exposing,
            old(self)@.window.len() > 0,
        ensures
            final(self).wf(),
            (final(self)@, action@) == Self::model_arbitrate(old(self)@, clock),
    {
        let running = self.stats.running;
        self.stats.total_executions = stats::bump_u64(self.stats.total_executions);
        self.stats.executions_per_second.add(clock.millis);
        if !running {
            self.stage = Stage::Finished;
            return self.finish_run();
        }
        let seconds = seconds_between(clock.millis, self.last_health_check);
        if skip_health_check(self.last_send_buffers.len(), seconds, self.send_ok) {
            self.next_mutation(false)
        } else {
            self.stage = Stage::Checking;
            Action::HealthCheck
        }
    }

    /// Ends a send.
    fn send_done(&mut self, ok: bool, clock: Clock) -> (action: Action)
        requires
            old(self).sets_wf(),
            old(self)@.base_inv(),
            old(self)@.exposing ==> old(self)@.exposed < old(self)@.seeds <= old(self)@.queue.len(),
            !old(self)@.exposing ==> old(self)@.exploring() && old(self)@.window.len() > 0,
        ensures
            final(self).wf(),
            (final(self)@, action@) == Self::model_send_done(old(self)@, ok, clock),
    {
        if self.exposing {
            self.exposed = self.exposed + 1;
            if self.exposed < self.seeds {
                let buffer = serialize(&self.queue[self.exposed]);
                self.begin_send(buffer)
            } else {
                self.begin_exploration(clock)
            }
        } else {
            self.send_ok = ok;
            self.arbitrate(clock)
        }
    }
}

/// Copies the buffers of the window, most recent first.
fn snapshot_of(window: &VecDeque<Vec<u8>>) -> (buffers: Vec<Vec<u8>>)
    ensures
        buffer::buffers_view(buffers@) == buffer::buffers_view(window@),
{
    let mut buffers: Vec<Vec<u8>> = Vec::new();
    let mut i: usize = 0;
    while i < window.len()
        invariant
            i <= window@.len(),
            buffer::buffers_view(buffers@) == buffer::buffers_view(window@).take(i as int),
        decreases window@.len() - i,
    {
        let copy = copy_of(&window[i]);
        let ghost before = buffers@;
        buffers.push(copy);
        proof {
            let copied = buffer::buffers_view(buffers@);
            let wanted = buffer::buffers_view(window@).take(i + 1);
            assert(buffer::buffers_view(before).len() == before.len());
            assert forall|j: int| 0 <= j < i + 1 implies copied[j] == wanted[j] by {
                if j < i {
                    assert(buffer::buffers_view(before)[j] == buffer::buffers_view(window@).take(
                        i as int,
                    )[j]);
                }
            }
        }
        i = i + 1;
    }
    buffers
}

/// Moves the inputs of a list into a queue, in their order.
fn queue_of<M: Corpus>(inputs: Vec<M>) -> (queue: VecDeque<M>)
    ensures
        queue@ == inputs@,
{
    let mut inputs = inputs;
    let mut queue: VecDeque<M> = VecDeque::new();
    let ghost all = inputs@;
    while inputs.len() > 0
        invariant
            inputs@.len() <= all.len(),
            inputs@ == all.take(inputs@.len() as int),
            queue@ == all.subrange(inputs@.len() as int, all.len() as int),
        decreases inputs@.len(),
    {
        match inputs.pop() {
            Some(input) => {
                queue.push_front(input);
            },
            None => {},
        }
    }
    queue
}

impl<M: Corpus + Mutable> FuzzEngine<M> {
    /// Counts a timeout, if the error is one.
    fn note_timeout(&mut self, error: &ProFuzzError)
        requires
            old(self).wf(),
        ensures
            final(self).wf(),
            final(self)@ == old(self)@.count_timeout(error@),
    {
        if error.is_timeout() {
            self.stats.total_timeouts = stats::raise(self.stats.total_timeouts, 1);
        }
    }

    /// Takes the outcome of a connect.
    fn on_connected(&mut self, outcome: Result<(), ProFuzzError>, clock: Clock) -> (action: Action)
        requires
            old(self).wf(),
            old(self)@.stage == Stage::Connecting,
        ensures
            final(self).wf(),
            (final(self)@, action@) == Self::model_on_connected(
                old(self)@,
                model::outcome_view(outcome),
                clock,
            ),
    {
        match outcome {
            Ok(()) => {
                self.stage = Stage::Writing;
                Action::Write(copy_of(&self.pending))
            },
            Err(_) => {
                self.reset_tried = self.reset_tried + 1;
                let delay = backoff_after(self.reset_tried);
                self.stats.executions_per_second.clear();
                self.stats.backoff_time = delay;
                if self.reset_tried >= CONNECT_TRIES {
                    self.send_done(false, clock)
                } else {
                    self.stage = Stage::Backoff;
                    Action::Sleep(delay)
                }
            },
        }
    }

    /// Takes the outcome of a write.
    fn on_written(&mut self, outcome: Result<(), ProFuzzError>, clock: Clock) -> (action: Action)
        requires
            old(self).wf(),
            old(self)@.stage == Stage::Writing,
        ensures
            final(self).wf(),
            (final(self)@, action@) == Self::model_on_written(
                old(self)@,
                model::outcome_view(outcome),
                clock,
            ),
    {
        match outcome {
            Ok(()) => {
                self.stage = Stage::Reading;
                Action::Read
            },
            Err(err) => {
                self.note_timeout(&err);
                self.send_done(false, clock)
            },
        }
    }

    /// Takes the outcome of a read.
    fn on_read(&mut self, outcome: Result<Vec<u8>, ProFuzzError>, clock: Clock) -> (action:
        Action)
        requires
            old(self).wf(),
            old(self)@.stage == Stage::Reading,
        ensures
            final(self).wf(),
            (final(self)@, action@) == Self::model_on_read(
                old(self)@,
                model::read_view(outcome),
                clock,
            ),
    {
        match outcome {
            Ok(response) => {
                if response.len() == 0 {
                    return self.send_done(true, clock);
                }
                let digest = output::sha1_digest(response.as_slice());
                proof {
                    self.unique_responses.lemma_finite();
                }
                if self.unique_responses.insert(digest) {
                    self.stats.total_unique_responses = self.stats.total_unique_responses + 1;
                    self.stats.last_new_path = Some(clock.now);
                    self.stats.corpus_count = stats::raise(self.stats.corpus_count, NOVELTY_BONUS);
                    let copy = if self.exposing {
                        proof {
                            lemma_values_index(self.queue@, self.exposed as int);
                        }
                        self.queue[self.exposed].duplicate()
                    } else {
                        self.current.as_ref().unwrap().duplicate()
                    };
                    proof {
                        lemma_values_push(self.queue@, copy);
                    }
                    self.queue.push_back(copy);
                }
                self.stage = Stage::Closing;
                Action::Close
            },
            Err(err) => {
                self.note_timeout(&err);
                self.send_done(false, clock)
            },
        }
    }

    /// Takes the outcome of a health check after a mutation.
    fn on_health(&mut self, outcome: Result<bool, ProFuzzError>, clock: Clock) -> (action: Action)
        requires
            old(self).wf(),
            old(self)@.stage == Stage::Checking,
        ensures
            final(self).wf(),
            (final(self)@, action@) == Self::model_on_health(
                old(self)@,
                model::outcome_view(outcome),
                clock,
            ),
            action@ matches ActionView::Journal(record) ==> record.well_formed(),
    {
        let healthy = match outcome {
            Ok(well) => well,
            Err(_) => false,
        };
        if healthy {
            self.stats.last_healt_check = Some(clock.now);
            self.last_health_check = clock.millis;
            if self.last_send_buffers.len() > WINDOW_KEEP {
                proof {
                    lemma_buffers_take(self.last_send_buffers@, WINDOW_KEEP as int);
                }
                self.last_send_buffers.truncate(WINDOW_KEEP);
            }
            return self.next_mutation(false);
        }
        if self.after_reset {
            return self.next_mutation(true);
        }
        let len = self.last_send_buffers.len();
        if len == 0 {
            self.stage = Stage::Resetting;
            return Action::Reset;
        }
        let buffer = copy_of(&self.last_send_buffers[len - 1]);
        let record = Crash {
            buffer: copy_of(&buffer),
            last_send_buffers: snapshot_of(&self.last_send_buffers),
            stats: self.stats.snapshot(),
        };
        proof {
            self.unique_crashes.lemma_finite();
        }
        if self.unique_crashes.insert(buffer) {
            self.stats.total_crashes = self.stats.total_crashes + 1;
            self.stats.last_unique_crash = Some(clock.now);
        }
        self.stage = Stage::Journaling;
        Action::Journal(record)
    }

    /// Takes the outcome of a reset.
    fn on_reset(&mut self, outcome: Result<(), ProFuzzError>) -> (action: Action)
        requires
            old(self).wf(),
            old(self)@.stage == Stage::Resetting,
        ensures
            final(self).wf(),
            (final(self)@, action@) == Self::model_on_reset(old(self)@, model::outcome_view(outcome)),
    {
        match outcome {
            Ok(()) => {
                self.stage = Stage::Settling;
                Action::Sleep(RESET_WAIT)
            },
            Err(err) => self.fail(err),
        }
    }

    /// The wait after a reset is over.
    fn on_settled(&mut self, clock: Clock) -> (action: Action)
        requires
            old(self).wf(),
            old(self)@.stage == Stage::Settling,
        ensures
            final(self).wf(),
            (final(self)@, action@) == Self::model_on_settled(old(self)@, clock),
    {
        self.after_reset = true;
        self.arbitrate(clock)
    }

    /// Takes the seed files.
    fn on_seeds(&mut self, outcome: Result<Vec<Vec<u8>>, ProFuzzError>, clock: Clock) -> (action:
        Action)
        requires
            old(self).wf(),
            old(self)@.stage == Stage::Seeds,
        ensures
            final(self).wf(),
            (final(self)@, action@) == Self::model_on_seeds(
                old(self)@,
                model::seeds_view(outcome),
                clock,
            ),
    {
        match outcome {
            Ok(files) => {
                let inputs = load_initial_corpus::<M>(&files);
                if inputs.len() == 0 {
                    return self.fail(
                        ProFuzzError::Custom { err_msg: String::from_str("No input corpus found!.") },
                    );
                }
                self.stats.running = true;
                self.stats.started = Some(clock.now);
                self.seeds = inputs.len();
                self.queue = queue_of(inputs);
                self.next_cycle = VecDeque::new();
                assert(values_of(self.next_cycle@) =~= Seq::<M::Value>::empty());
                self.exposed = 0;
                self.exposing = true;
                proof {
                    lemma_values_index(self.queue@, 0);
                }
                let buffer = serialize(&self.queue[0]);
                self.begin_send(buffer)
            },
            Err(err) => self.fail(err),
        }
    }

    /// Takes the outcome of a check before the campaign.
    fn preflight(&mut self, event: Event) -> (action: Action)
        requires
            old(self).wf(),
        ensures
            final(self).wf(),
            (final(self)@, action@) == Self::model_preflight(old(self)@, event@),
    {
        match event {
            Event::Connected(outcome) => {
                if self.stage == Stage::PreflightConnect {
                    match outcome {
                        Ok(()) => {
                            self.stage = Stage::PreflightClose;
                            return Action::Close;
                        },
                        Err(err) => {
                            return self.fail(
                                ProFuzzError::ConnectionFailed { err_msg: err.message() },
                            );
                        },
                    }
                }
            },
            Event::Closed(outcome) => {
                if self.stage == Stage::PreflightClose {
                    match outcome {
                        Ok(()) => {
                            self.stage = Stage::PreflightHealth;
                            return Action::HealthCheck;
                        },
                        Err(err) => {
                            return self.fail(
                                ProFuzzError::ConnectionFailed { err_msg: err.message() },
                            );
                        },
                    }
                }
            },
            Event::Health(outcome) => {
                if self.stage == Stage::PreflightHealth {
                    match outcome {
                        Ok(well) => {
                            if well {
                                self.stage = Stage::Seeds;
                                return Action::LoadSeeds;
                            }
                            return self.fail(
                                ProFuzzError::ConnectionFailed {
                                    err_msg: String::from_str(
                                        "Initial healthcheck was not successfull. Exiting.",
                                    ),
                                },
                            );
                        },
                        Err(err) => {
                            return self.fail(
                                ProFuzzError::ConnectionFailed { err_msg: err.message() },
                            );
                        },
                    }
                }
            },
            _ => {},
        }
        self.unexpected()
    }

    /// Ends the run for an event that the engine did not wait for.
    fn unexpected(&mut self) -> (action: Action)
        requires
            old(self).wf(),
        ensures
            final(self).wf(),
            (final(self)@, action@) == old(self)@.model_fail(
                ErrorView::Custom { err_msg: model::unexpected_text() },
            ),
    {
        self.fail(ProFuzzError::Custom { err_msg: String::from_str("Unexpected event.") })
    }

    /// Makes one step: takes what happened and a reading of the clock, and
    /// returns what the caller is to do next.
    pub fn step(&mut self, event: Event, clock: Clock) -> (action: Action)
        requires
            old(self).wf(),
        ensures
            final(self).wf(),
            (final(self)@, action@) == Self::model_step(old(self)@, event@, clock),
            action@ matches ActionView::Journal(record) ==> record.well_formed(),
    {
        let stage = self.stage;
        match event {
            Event::Start { title } => {
                if stage == Stage::Created {
                    self.stage = Stage::PreflightConnect;
                    self.stats.title = title;
                    return Action::Connect;
                }
            },
            Event::Connected(outcome) => {
                if stage == Stage::PreflightConnect {
                    return self.preflight(Event::Connected(outcome));
                }
                if stage == Stage::Connecting {
                    return self.on_connected(outcome, clock);
                }
            },
            Event::Closed(outcome) => {
                if stage == Stage::PreflightClose {
                    return self.preflight(Event::Closed(outcome));
                }
                if stage == Stage::Closing {
                    return self.send_done(true, clock);
                }
            },
            Event::Written(outcome) => {
                if stage == Stage::Writing {
                    return self.on_written(outcome, clock);
                }
            },
            Event::Read(outcome) => {
                if stage == Stage::Reading {
                    return self.on_read(outcome, clock);
                }
            },
            Event::Health(outcome) => {
                if stage == Stage::PreflightHealth {
                    return self.preflight(Event::Health(outcome));
                }
                if stage == Stage::Checking {
                    return self.on_health(outcome, clock);
                }
            },
            Event::Reset(outcome) => {
                if stage == Stage::Resetting {
                    return self.on_reset(outcome);
                }
            },
            Event::Seeds(outcome) => {
                if stage == Stage::Seeds {
                    return self.on_seeds(outcome, clock);
                }
            },
            Event::Slept => {
                if stage == Stage::Backoff {
                    return self.on_backoff_slept();
                }
                if stage == Stage::Settling {
                    return self.on_settled(clock);
                }
            },
            Event::Journaled => {
                if stage == Stage::Journaling {
                    return self.on_journaled();
                }
            },
            Event::Stored => {},
        }
        self.unexpected()
    }
}

} // verus!
