//! Dynamic triage: the buffers of a crash record are sent to the target one
//! at a time, with a health check after each, until the one is found after
//! which the target is not well.
//!
//! Like the engine, the triage is a state machine: `DynamicTriage::step`
//! takes what happened last and answers with what the caller is to do next.

use crate::buffer;
use crate::buffer::copy_of;
use crate::error::ErrorView;
use crate::error::ProFuzzError;
use crate::fuzz::engine::Event;
use crate::fuzz::model;
use crate::fuzz::model::EventView;
use crate::output;
use crate::output::Output;
use crate::traits::Corpus;
use crate::triage::utils;
use crate::types::Crash;
use vstd::prelude::*;
use vstd::string::StringExecFns;

verus! {

/// Time between two looks at a target that is not well, in milliseconds.
pub const HEALTH_PACE: u64 = 1000;

/// What the triage waits for.
#[derive(Debug, Clone, Copy, PartialEq, Eq, Structural)]
pub enum TriageStage {
    /// The start.
    Created,
    /// The health check before a buffer is sent.
    Healing,
    /// The end of the pause before the target is looked at again, before a
    /// buffer is sent.
    Waiting,
    /// The outcome of the connect.
    Connecting,
    /// The outcome of the write.
    Writing,
    /// The outcome of the read.
    Reading,
    /// The outcome of the close.
    Closing,
    /// The health check after a buffer was sent.
    Probing,
    /// The output directory.
    Storing,
    /// The outcome of the reset.
    Resetting,
    /// The end of the pause before the target is looked at again, after a
    /// buffer was sent.
    Recovering,
    /// Nothing: the triage is over.
    Finished,
}

/// What the caller of the triage is to do next.
#[derive(Debug)]
pub enum TriageAction {
    /// Run the health check, and come back with `Event::Health`.
    HealthCheck,
    /// Connect the transport, and come back with `Event::Connected`.
    Connect,
    /// Write the buffer to the transport, and come back with
    /// `Event::Written`.
    Write(Vec<u8>),
    /// Read from the transport, and come back with `Event::Read`.
    Read,
    /// Close the transport, and come back with `Event::Closed`.
    Close,
    /// Sleep for so many milliseconds, and come back with `Event::Slept`.
    Sleep(u64),
    /// The buffer crashes the target: show the report, write the buffer to
    /// the file, and come back with `Event::Stored`, whether or not the
    /// file could be written.
    Store {
        /// Path of the file.
        file: String,
        /// The crashing buffer.
        buffer: Vec<u8>,
        /// The crashing input as text, with the lines marked that differ
        /// from its nearest neighbour.
        report: String,
    },
    /// Reset the target, and come back with `Event::Reset`.
    Reset,
    /// Stop: the triage is over. `true` says that a crashing buffer was
    /// found.
    Finish(Result<bool, ProFuzzError>),
}

/// An action of the triage as a mathematical value.
pub enum TriageActionView {
    /// Run the health check.
    HealthCheck,
    /// Connect the transport.
    Connect,
    /// Write the buffer to the transport.
    Write(Seq<u8>),
    /// Read from the transport.
    Read,
    /// Close the transport.
    Close,
    /// Sleep for so many milliseconds.
    Sleep(u64),
    /// Show the report and write the buffer to the file.
    Store {
        /// Path of the file.
        file: Seq<char>,
        /// The crashing buffer.
        buffer: Seq<u8>,
        /// The report.
        report: Seq<char>,
    },
    /// Reset the target.
    Reset,
    /// Stop.
    Finish(Result<bool, ErrorView>),
}

impl View for TriageAction {
    type V = TriageActionView;

    open spec fn view(&self) -> TriageActionView {
        match *self {
            TriageAction::HealthCheck => TriageActionView::HealthCheck,
            TriageAction::Connect => TriageActionView::Connect,
            TriageAction::Write(buffer) => TriageActionView::Write(buffer@),
            TriageAction::Read => TriageActionView::Read,
            TriageAction::Close => TriageActionView::Close,
            TriageAction::Sleep(millis) => TriageActionView::Sleep(millis),
            TriageAction::Store { file, buffer, report } => TriageActionView::Store {
                file: file@,
                buffer: buffer@,
                report: report@,
            },
            TriageAction::Reset => TriageActionView::Reset,
            TriageAction::Finish(outcome) => TriageActionView::Finish(model::outcome_view(outcome)),
        }
    }
}

/// The state of a triage as a mathematical value.
pub struct TriageView {
    /// What the triage waits for.
    pub stage: TriageStage,
    /// Path of the output directory.
    pub folder: Seq<char>,
    /// The buffers in the order in which they are sent.
    pub candidates: Seq<Seq<u8>>,
    /// Number of buffers that have been sent and found harmless.
    pub position: usize,
    /// Whether the target was found not well after the buffer in turn.
    pub crashed: bool,
}

/// The buffers of a crash record in the order in which triage sends them:
/// the triggering buffer alone, then the window from its oldest buffer to
/// its most recent.
pub open spec fn candidates_of(buffer: Seq<u8>, window: Seq<Seq<u8>>) -> Seq<Seq<u8>> {
    seq![buffer] + window.reverse()
}

/// The place of the nearest neighbour of a candidate among the buffers
/// seen.
pub open spec fn nearest_of(candidate: Seq<u8>, seen: Seq<Seq<u8>>) -> Option<int> {
    if seen.len() == 0 {
        None
    } else {
        Some(choose|at: int| utils::is_nearest(candidate, seen, at))
    }
}

/// The text of the error for a crashing buffer that does not parse.
pub open spec fn unparsed_text() -> Seq<char> {
    "Could not create a structured representation of the crash"@
}

/// The text of the error for an event that the triage did not wait for.
pub open spec fn unexpected_text() -> Seq<char> {
    "Unexpected event."@
}

/// The text of the error for a crash record with a buffer that is too long
/// to be compared.
pub open spec fn too_long_text() -> Seq<char> {
    "A buffer of the crash record is too long."@
}

/// The report on a crashing buffer: the input as text, with the lines
/// marked that differ from its nearest neighbour among the buffers seen; the
/// input alone where there is no neighbour or the neighbour does not parse.
/// There is no report where the buffer does not parse.
pub open spec fn report_of<M: Corpus>(candidate: Seq<u8>, seen: Seq<Seq<u8>>) -> Option<
    Seq<char>,
> {
    match M::parsed(candidate) {
        None => None,
        Some(base) => match nearest_of(candidate, seen) {
            None => Some(M::shown(base)),
            Some(at) => match M::parsed(seen[at]) {
                None => Some(M::shown(base)),
                Some(neighbor) => Some(utils::marked(M::shown(base), M::shown(neighbor))),
            },
        },
    }
}

/// Whether the length of a buffer allows to count its bits.
pub open spec fn countable(buffer: Seq<u8>) -> bool {
    buffer.len() * 8 <= usize::MAX
}

impl TriageView {
    /// What holds of the state of a triage at all times: the buffer in
    /// turn is one of the buffers of the record, unless the triage is over
    /// or has not started.
    pub open spec fn inv(self) -> bool {
        &&& self.position <= self.candidates.len()
        &&& (self.stage != TriageStage::Finished && self.stage != TriageStage::Created)
            ==> self.position < self.candidates.len()
        &&& forall|i: int| 0 <= i < self.candidates.len() ==> countable(#[trigger] self.candidates[i])
    }

    /// The buffer in turn.
    pub open spec fn candidate(self) -> Seq<u8> {
        self.candidates[self.position as int]
    }

    /// The buffers that were sent before the buffer in turn, and found
    /// harmless.
    pub open spec fn seen(self) -> Seq<Seq<u8>> {
        self.candidates.take(self.position as int)
    }

    /// The triage ends.
    pub open spec fn model_finish(self, outcome: Result<bool, ErrorView>) -> (
        TriageView,
        TriageActionView,
    ) {
        (TriageView { stage: TriageStage::Finished, ..self }, TriageActionView::Finish(outcome))
    }

    /// The triage turns to the buffer at `position`: it asks for a health
    /// check, or ends without a finding where no buffer is left.
    pub open spec fn model_turn_to(self, position: usize) -> (TriageView, TriageActionView) {
        if position < self.candidates.len() {
            (
                TriageView { stage: TriageStage::Healing, position, crashed: false, ..self },
                TriageActionView::HealthCheck,
            )
        } else {
            TriageView { position, ..self }.model_finish(Ok(false))
        }
    }

    /// The outcome of the health check after the buffer in turn was sent.
    ///
    /// The target is well: if it was not before, the buffer in turn is the
    /// finding and the triage ends; else the buffer is harmless and the
    /// triage turns to the next. The target is not well, for the first time
    /// after this buffer: the buffer crashes it, and the triage asks to show
    /// the report and to store the buffer, or ends with an error where the
    /// buffer does not parse. The target is still not well: the triage asks
    /// to sleep for a second.
    pub open spec fn model_on_probe<M: Corpus>(self, healthy: bool) -> (
        TriageView,
        TriageActionView,
    ) {
        if healthy {
            if self.crashed {
                self.model_finish(Ok(true))
            } else {
                self.model_turn_to((self.position + 1) as usize)
            }
        } else if self.crashed {
            (
                TriageView { stage: TriageStage::Recovering, ..self },
                TriageActionView::Sleep(HEALTH_PACE),
            )
        } else {
            match report_of::<M>(self.candidate(), self.seen()) {
                None => self.model_finish(Err(ErrorView::Custom { err_msg: unparsed_text() })),
                Some(report) => (
                    TriageView { stage: TriageStage::Storing, crashed: true, ..self },
                    TriageActionView::Store {
                        file: output::below(
                            output::below(self.folder, "crashes"@),
                            output::crash_name_of(output::sha1_of(self.candidate())),
                        ),
                        buffer: self.candidate(),
                        report,
                    },
                ),
            }
        }
    }

    /// One step of the triage: the state and the action that follow from a
    /// state and an event. Before a buffer is sent the target has to be
    /// well, and the triage looks at it once a second until it is. What the
    /// transport reports of the send is not looked at. An event that the
    /// triage did not wait for ends it with an error.
    pub open spec fn model_step<M: Corpus>(self, event: EventView) -> (
        TriageView,
        TriageActionView,
    ) {
        match (self.stage, event) {
            (TriageStage::Created, EventView::Start { title }) => self.model_turn_to(0),
            (TriageStage::Healing, EventView::Health(outcome)) => if outcome == Ok::<
                bool,
                ErrorView,
            >(true) {
                (
                    TriageView { stage: TriageStage::Connecting, ..self },
                    TriageActionView::Connect,
                )
            } else {
                (
                    TriageView { stage: TriageStage::Waiting, ..self },
                    TriageActionView::Sleep(HEALTH_PACE),
                )
            },
            (TriageStage::Waiting, EventView::Slept) => (
                TriageView { stage: TriageStage::Healing, ..self },
                TriageActionView::HealthCheck,
            ),
            (TriageStage::Connecting, EventView::Connected(_)) => (
                TriageView { stage: TriageStage::Writing, ..self },
                TriageActionView::Write(self.candidate()),
            ),
            (TriageStage::Writing, EventView::Written(_)) => (
                TriageView { stage: TriageStage::Reading, ..self },
                TriageActionView::Read,
            ),
            (TriageStage::Reading, EventView::Read(_)) => (
                TriageView { stage: TriageStage::Closing, ..self },
                TriageActionView::Close,
            ),
            (TriageStage::Closing, EventView::Closed(_)) => (
                TriageView { stage: TriageStage::Probing, ..self },
                TriageActionView::HealthCheck,
            ),
            (TriageStage::Probing, EventView::Health(outcome)) => self.model_on_probe::<M>(
                outcome == Ok::<bool, ErrorView>(true),
            ),
            (TriageStage::Storing, EventView::Stored) => (
                TriageView { stage: TriageStage::Resetting, ..self },
                TriageActionView::Reset,
            ),
            (TriageStage::Resetting, EventView::Reset(Ok(()))) => (
                TriageView { stage: TriageStage::Recovering, ..self },
                TriageActionView::Sleep(HEALTH_PACE),
            ),
            (TriageStage::Resetting, EventView::Reset(Err(err))) => self.model_finish(Err(err)),
            (TriageStage::Recovering, EventView::Slept) => (
                TriageView { stage: TriageStage::Probing, ..self },
                TriageActionView::HealthCheck,
            ),
            _ => self.model_finish(Err(ErrorView::Custom { err_msg: unexpected_text() })),
        }
    }
}

/// Only one place is that of the nearest neighbour.
pub proof fn lemma_nearest_unique(candidate: Seq<u8>, seen: Seq<Seq<u8>>, a: int, b: int)
    requires
        utils::is_nearest(candidate, seen, a),
        utils::is_nearest(candidate, seen, b),
    ensures
        a == b,
{
}

/// Dynamic approach for identifying the crash cause.
/// - This iterates over all buffers sent since the last successful health
///   check.
/// - Every time a single buffer is sent, a health check is made to
///   determine if it was the cause.
pub struct DynamicTriage {
    output: Output,
    candidates: Vec<Vec<u8>>,
    position: usize,
    crashed: bool,
    stage: TriageStage,
}

impl View for DynamicTriage {
    type V = TriageView;

    closed spec fn view(&self) -> TriageView {
        TriageView {
            stage: self.stage,
            folder: self.output.path(),
            candidates: buffer::buffers_view(self.candidates@),
            position: self.position,
            crashed: self.crashed,
        }
    }
}

/// Whether the bits of each buffer of a list can be counted.
fn all_countable(buffers: &Vec<Vec<u8>>) -> (countable: bool)
    ensures
        countable == forall|i: int|
            0 <= i < buffers@.len() ==> self::countable(#[trigger] buffer::buffers_view(buffers@)[i]),
{
    let mut i: usize = 0;
    while i < buffers.len()
        invariant
            i <= buffers@.len(),
            forall|j: int| 0 <= j < i ==> self::countable(#[trigger] buffer::buffers_view(buffers@)[j]),
        decreases buffers@.len() - i,
    {
        if buffers[i].len() > usize::MAX / 8 {
            assert(!self::countable(buffer::buffers_view(buffers@)[i as int]));
            return false;
        }
        i = i + 1;
    }
    true
}

/// The buffers of a crash record in the order in which triage sends them.
fn order_candidates(crash: &Crash) -> (candidates: Vec<Vec<u8>>)
    ensures
        buffer::buffers_view(candidates@) == candidates_of(crash@.buffer, crash@.window),
{
    let mut candidates: Vec<Vec<u8>> = Vec::new();
    candidates.push(copy_of(&crash.buffer));
    let ghost window = crash@.window;
    let len = crash.last_send_buffers.len();
    let mut taken: usize = 0;
    while taken < len
        invariant
            taken <= len,
            len == window.len(),
            len == crash.last_send_buffers@.len(),
            window == crash@.window,
            buffer::buffers_view(candidates@) == seq![crash@.buffer] + window.reverse().take(
                taken as int,
            ),
        decreases len - taken,
    {
        let copy = copy_of(&crash.last_send_buffers[len - 1 - taken]);
        let ghost before = candidates@;
        candidates.push(copy);
        proof {
            let wanted = seq![crash@.buffer] + window.reverse().take(taken + 1);
            let got = buffer::buffers_view(candidates@);
            assert(buffer::buffers_view(before).len() == taken + 1);
            assert forall|j: int| 0 <= j < got.len() implies got[j] == wanted[j] by {
                if j <= taken {
                    assert(buffer::buffers_view(before)[j] == (seq![crash@.buffer]
                        + window.reverse().take(taken as int))[j]);
                }
            }
        }
        taken = taken + 1;
    }
    candidates
}

impl DynamicTriage {
    /// What holds of the state of a triage at all times holds of this one.
    pub closed spec fn wf(&self) -> bool {
        self@.inv()
    }

    /// What holds of the state of a triage at all times.
    pub proof fn lemma_inv(&self)
        requires
            self.wf(),
        ensures
            self@.inv(),
    {
    }

    /// Creates a new instance of the dynamic triage for a crash record.
    /// A record with a buffer of more than an eighth of the largest length
    /// is refused.
    pub fn new(crash: &Crash, output: Output) -> (triage: Result<Self, ProFuzzError>)
        ensures
            triage.is_ok() == forall|i: int|
                0 <= i < candidates_of(crash@.buffer, crash@.window).len() ==> countable(
                    #[trigger] candidates_of(crash@.buffer, crash@.window)[i],
                ),
            triage matches Ok(machine) ==> machine.wf() && machine@ == (TriageView {
                stage: TriageStage::Created,
                folder: output.path(),
                candidates: candidates_of(crash@.buffer, crash@.window),
                position: 0,
                crashed: false,
            }),
            triage matches Err(err) ==> err@ == (ErrorView::Custom { err_msg: too_long_text() }),
    {
        let candidates = order_candidates(crash);
        if !all_countable(&candidates) {
            return Err(
                ProFuzzError::Custom {
                    err_msg: String::from_str("A buffer of the crash record is too long."),
                },
            );
        }
        Ok(
            DynamicTriage {
                output,
                candidates,
                position: 0,
                crashed: false,
                stage: TriageStage::Created,
            },
        )
    }

    /// What the triage waits for.
    pub fn stage(&self) -> (stage: TriageStage)
        ensures
            stage == self@.stage,
    {
        self.stage
    }

    /// Ends the triage.
    fn finish(&mut self, outcome: Result<bool, ProFuzzError>) -> (action: TriageAction)
        requires
            old(self).wf(),
        ensures
            final(self).wf(),
            (final(self)@, action@) == old(self)@.model_finish(model::outcome_view(outcome)),
    {
        self.stage = TriageStage::Finished;
        TriageAction::Finish(outcome)
    }

    /// Turns to the buffer at `position`.
    fn turn_to(&mut self, position: usize) -> (action: TriageAction)
        requires
            old(self).wf(),
            position <= old(self)@.candidates.len(),
        ensures
            final(self).wf(),
            (final(self)@, action@) == old(self)@.model_turn_to(position),
    {
        self.position = position;
        if position < self.candidates.len() {
            self.stage = TriageStage::Healing;
            self.crashed = false;
            TriageAction::HealthCheck
        } else {
            self.stage = TriageStage::Finished;
            TriageAction::Finish(Ok(false))
        }
    }

    /// Writes the report on the buffer in turn.
    fn report<M: Corpus>(&self) -> (report: Option<String>)
        requires
            self.wf(),
            self@.position < self@.candidates.len(),
        ensures
            report.is_some() == report_of::<M>(self@.candidate(), self@.seen()).is_some(),
            report matches Some(text) ==> Some(text@) == report_of::<M>(
                self@.candidate(),
                self@.seen(),
            ),
    {
        let candidate = &self.candidates[self.position];
        let base = match M::from_bytes(copy_of(candidate)) {
            Some(base) => base,
            None => {
                return None;
            },
        };
        let mut seen: Vec<Vec<u8>> = Vec::new();
        let mut i: usize = 0;
        while i < self.position
            invariant
                i <= self.position,
                self.position < self.candidates@.len(),
                buffer::buffers_view(seen@) == buffer::buffers_view(self.candidates@).take(i as int),
            decreases self.position - i,
        {
            let copy = copy_of(&self.candidates[i]);
            let ghost before = seen@;
            seen.push(copy);
            proof {
                let got = buffer::buffers_view(seen@);
                let wanted = buffer::buffers_view(self.candidates@).take(i + 1);
                assert(buffer::buffers_view(before).len() == i);
                assert forall|j: int| 0 <= j < got.len() implies got[j] == wanted[j] by {
                    if j < i {
                        assert(buffer::buffers_view(before)[j] == buffer::buffers_view(
                            self.candidates@,
                        ).take(i as int)[j]);
                    }
                }
            }
            i = i + 1;
        }
        let text = match utils::nearest_neighbor(candidate.as_slice(), &seen) {
            Some(at) => {
                proof {
                    let chosen = choose|place: int|
                        utils::is_nearest(candidate@, buffer::buffers_view(seen@), place);
                    lemma_nearest_unique(candidate@, buffer::buffers_view(seen@), at as int, chosen);
                }
                match M::from_bytes(copy_of(&seen[at])) {
                    Some(neighbor) => utils::mark_differences(
                        base.show().as_str(),
                        neighbor.show().as_str(),
                    ),
                    None => base.show(),
                }
            },
            None => base.show(),
        };
        Some(text)
    }

    /// Takes the outcome of the health check after the buffer in turn was
    /// sent.
    fn on_probe<M: Corpus>(&mut self, healthy: bool) -> (action: TriageAction)
        requires
            old(self).wf(),
            old(self)@.stage == TriageStage::Probing,
        ensures
            final(self).wf(),
            (final(self)@, action@) == old(self)@.model_on_probe::<M>(healthy),
    {
        if healthy {
            if self.crashed {
                return self.finish(Ok(true));
            }
            let len = self.candidates.len();
            let next = self.position + 1;
            return self.turn_to(next);
        }
        if self.crashed {
            self.stage = TriageStage::Recovering;
            return TriageAction::Sleep(HEALTH_PACE);
        }
        match self.report::<M>() {
            None => self.finish(
                Err(
                    ProFuzzError::Custom {
                        err_msg: String::from_str(
                            "Could not create a structured representation of the crash",
                        ),
                    },
                ),
            ),
            Some(report) => {
                let buffer = copy_of(&self.candidates[self.position]);
                let file = self.output.crash_path(buffer.as_slice());
                self.stage = TriageStage::Storing;
                self.crashed = true;
                TriageAction::Store { file, buffer, report }
            },
        }
    }

    /// Makes one step: takes what happened, and returns what the caller is
    /// to do next. `M` is the kind of input that the buffers are parsed as.
    pub fn step<M: Corpus>(&mut self, event: Event) -> (action: TriageAction)
        requires
            old(self).wf(),
        ensures
            final(self).wf(),
            (final(self)@, action@) == old(self)@.model_step::<M>(event@),
    {
        let stage = self.stage;
        match event {
            Event::Start { title } => {
                if stage == TriageStage::Created {
                    return self.turn_to(0);
                }
            },
            Event::Health(outcome) => {
                let healthy = match outcome {
                    Ok(well) => well,
                    Err(_) => false,
                };
                if stage == TriageStage::Healing {
                    if healthy {
                        self.stage = TriageStage::Connecting;
                        return TriageAction::Connect;
                    }
                    self.stage = TriageStage::Waiting;
                    return TriageAction::Sleep(HEALTH_PACE);
                }
                if stage == TriageStage::Probing {
                    return self.on_probe::<M>(healthy);
                }
            },
            Event::Slept => {
                if stage == TriageStage::Waiting {
                    self.stage = TriageStage::Healing;
                    return TriageAction::HealthCheck;
                }
                if stage == TriageStage::Recovering {
                    self.stage = TriageStage::Probing;
                    return TriageAction::HealthCheck;
                }
            },
            Event::Connected(_) => {
                if stage == TriageStage::Connecting {
                    self.stage = TriageStage::Writing;
                    return TriageAction::Write(copy_of(&self.candidates[self.position]));
                }
            },
            Event::Written(_) => {
                if stage == TriageStage::Writing {
                    self.stage = TriageStage::Reading;
                    return TriageAction::Read;
                }
            },
            Event::Read(_) => {
                if stage == TriageStage::Reading {
                    self.stage = TriageStage::Closing;
                    return TriageAction::Close;
                }
            },
            Event::Closed(_) => {
                if stage == TriageStage::Closing {
                    self.stage = TriageStage::Probing;
                    return TriageAction::HealthCheck;
                }
            },
            Event::Stored => {
                if stage == TriageStage::Storing {
                    self.stage = TriageStage::Resetting;
                    return TriageAction::Reset;
                }
            },
            Event::Reset(outcome) => {
                if stage == TriageStage::Resetting {
                    match outcome {
                        Ok(()) => {
                            self.stage = TriageStage::Recovering;
                            return TriageAction::Sleep(HEALTH_PACE);
                        },
                        Err(err) => {
                            return self.finish(Err(err));
                        },
                    }
                }
            },
            _ => {},
        }
        self.finish(
            Err(ProFuzzError::Custom { err_msg: String::from_str("Unexpected event.") }),
        )
    }
}

/// The order of the triage: first the triggering buffer alone, then the
/// buffers of the window from the oldest to the most recent.
pub proof fn lemma_candidates_order(buffer: Seq<u8>, window: Seq<Seq<u8>>, i: int)
    requires
        0 <= i < window.len(),
    ensures
        candidates_of(buffer, window).len() == window.len() + 1,
        candidates_of(buffer, window)[0] == buffer,
        candidates_of(buffer, window)[i + 1] == window[window.len() - 1 - i],
{
}

impl TriageView {
    /// What holds of the state of a triage at all times holds after a step
    /// if it held before.
    pub proof fn lemma_step_keeps_inv<M: Corpus>(self, event: EventView)
        requires
            self.inv(),
        ensures
            self.model_step::<M>(event).0.inv(),
    {
    }

    /// The buffer that is stored as the finding is the buffer that was
    /// sent last before the target was found not well, under the name of
    /// its digest; and only a buffer that the triage has sent is stored.
    pub proof fn lemma_finding_is_the_last_sent<M: Corpus>(self, event: EventView)
        requires
            self.inv(),
        ensures
            self.model_step::<M>(event).1 matches TriageActionView::Store { file, buffer, report }
                ==> {
                &&& self.stage == TriageStage::Probing
                &&& event matches EventView::Health(outcome) && outcome != Ok::<bool, ErrorView>(
                    true,
                )
                &&& buffer == self.candidate()
                &&& file == output::below(
                    output::below(self.folder, "crashes"@),
                    output::crash_name_of(output::sha1_of(buffer)),
                )
                &&& Some(report) == report_of::<M>(buffer, self.seen())
            },
    {
    }

    /// A health check that fails before a buffer is sent is not laid to
    /// the buffer: the triage waits, and nothing is stored or reset.
    pub proof fn lemma_failed_check_before_send<M: Corpus>(self, outcome: Result<bool, ErrorView>)
        requires
            self.stage == TriageStage::Healing,
            outcome != Ok::<bool, ErrorView>(true),
        ensures
            self.model_step::<M>(EventView::Health(outcome)) == (
                TriageView { stage: TriageStage::Waiting, ..self },
                TriageActionView::Sleep(HEALTH_PACE),
            ),
    {
    }

    /// Only the buffer in turn is ever written, and a step changes neither
    /// the buffers nor their order; the turn moves on by one buffer, and
    /// only after a health check that found the target well after a buffer
    /// that had not crashed it.
    pub proof fn lemma_written_is_in_turn<M: Corpus>(self, event: EventView)
        requires
            self.inv(),
            self.stage != TriageStage::Created,
        ensures
            ({
                let next = self.model_step::<M>(event);
                let moves = self.stage == TriageStage::Probing && event == EventView::Health(
                    Ok(true),
                ) && !self.crashed;
                &&& next.1 matches TriageActionView::Write(buffer) ==> self.stage
                    == TriageStage::Connecting && buffer == self.candidate()
                &&& next.0.candidates == self.candidates
                &&& next.0.position == if moves {
                    (self.position + 1) as usize
                } else {
                    self.position
                }
            }),
    {
    }

    /// A buffer that does not crash the target is sent once: with the
    /// target well before and after, the triage connects, writes the buffer
    /// in turn, reads, closes and checks, whatever the transport reports,
    /// and then turns to the next buffer.
    pub proof fn lemma_harmless_buffer<M: Corpus>(
        self,
        connected: Result<(), ErrorView>,
        written: Result<(), ErrorView>,
        read: Result<Seq<u8>, ErrorView>,
        closed: Result<(), ErrorView>,
    )
        requires
            self.inv(),
            self.stage == TriageStage::Healing,
            !self.crashed,
        ensures
            ({
                let well = EventView::Health(Ok(true));
                let one = self.model_step::<M>(well);
                let two = one.0.model_step::<M>(EventView::Connected(connected));
                let three = two.0.model_step::<M>(EventView::Written(written));
                let four = three.0.model_step::<M>(EventView::Read(read));
                let five = four.0.model_step::<M>(EventView::Closed(closed));
                let six = five.0.model_step::<M>(well);
                &&& one.1 == TriageActionView::Connect
                &&& two.1 == TriageActionView::Write(self.candidate())
                &&& three.1 == TriageActionView::Read
                &&& four.1 == TriageActionView::Close
                &&& five.1 == TriageActionView::HealthCheck
                &&& six == self.model_turn_to((self.position + 1) as usize)
            }),
    {
    }

    /// A buffer after which the target is not well is the finding: it is
    /// stored in the folder of crashes under the name of its digest, the
    /// target is reset once, and when the target is well again the triage
    /// ends with a finding. No buffer behind it is sent.
    pub proof fn lemma_crashing_buffer<M: Corpus>(
        self,
        connected: Result<(), ErrorView>,
        written: Result<(), ErrorView>,
        read: Result<Seq<u8>, ErrorView>,
        closed: Result<(), ErrorView>,
        failed: Result<bool, ErrorView>,
    )
        requires
            self.inv(),
            self.stage == TriageStage::Healing,
            !self.crashed,
            failed != Ok::<bool, ErrorView>(true),
            report_of::<M>(self.candidate(), self.seen()) is Some,
        ensures
            ({
                let well = EventView::Health(Ok(true));
                let one = self.model_step::<M>(well);
                let two = one.0.model_step::<M>(EventView::Connected(connected));
                let three = two.0.model_step::<M>(EventView::Written(written));
                let four = three.0.model_step::<M>(EventView::Read(read));
                let five = four.0.model_step::<M>(EventView::Closed(closed));
                let six = five.0.model_step::<M>(EventView::Health(failed));
                let seven = six.0.model_step::<M>(EventView::Stored);
                let eight = seven.0.model_step::<M>(EventView::Reset(Ok(())));
                let nine = eight.0.model_step::<M>(EventView::Slept);
                let ten = nine.0.model_step::<M>(well);
                &&& two.1 == TriageActionView::Write(self.candidate())
                &&& six.1 == (TriageActionView::Store {
                    file: output::below(
                        output::below(self.folder, "crashes"@),
                        output::crash_name_of(output::sha1_of(self.candidate())),
                    ),
                    buffer: self.candidate(),
                    report: report_of::<M>(self.candidate(), self.seen()).unwrap(),
                })
                &&& seven.1 == TriageActionView::Reset
                &&& eight.1 == TriageActionView::Sleep(HEALTH_PACE)
                &&& nine.1 == TriageActionView::HealthCheck
                &&& ten.1 == TriageActionView::Finish(Ok(true))
                &&& ten.0.stage == TriageStage::Finished
                &&& ten.0.position == self.position
            }),
    {
    }
}

} // verus!
