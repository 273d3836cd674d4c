//! Counters and time stamps of a campaign, and the count of executions in
//! the last second.

use std::time::Instant;
use vstd::prelude::*;

verus! {

/// `std::time::Instant`, a point on the monotonic clock. Nothing is known of
/// its value.
#[verifier::external_type_specification]
#[verifier::external_body]
pub struct ExInstant(Instant);

/// `Instant::now` returns the current point on the monotonic clock. Nothing
/// is claimed of it.
pub assume_specification[ Instant::now ]() -> (now: Instant)
;

/// Number of buckets of the execution counter.
pub const BUCKET_SIZE: usize = 10;

/// Length of the time slot of one bucket, in milliseconds.
pub const SLOT_MILLIS: u64 = 100;

/// A structure to hold statistics related to execution and performance metrics.
#[derive(Clone, Debug)]
pub struct Stats {
    /// The title or name of the statistics instance.
    pub title: String,
    /// The total number of executions that have been performed.
    pub total_executions: u64,
    /// The timestamp when the execution started, if applicable.
    /// This field is `None` if the execution has not started yet.
    pub started: Option<SerializableInstant>,
    /// The number of executions performed per second.
    pub executions_per_second: ExecsPerSecond,
    /// The timestamp of the last health check performed.
    /// This field is `None` if no health check has been performed yet.
    pub last_healt_check: Option<SerializableInstant>,
    /// A boolean indicating whether the execution is currently running.
    pub running: bool,
    /// The total number of cycles completed during the execution.
    pub cylcles_done: usize,
    /// The timestamp of the last new path discovered during execution.
    /// This field is `None` if no new path has been found yet.
    pub last_new_path: Option<SerializableInstant>,
    /// The timestamp of the last unique crash encountered.
    /// This field is `None` if no unique crash has been recorded.
    pub last_unique_crash: Option<SerializableInstant>,
    /// The total number of crashes that have occurred during execution.
    pub total_crashes: usize,
    /// The total number of unique responses received during execution.
    pub total_unique_responses: usize,
    /// The count of items in the corpus, representing the number of unique inputs processed.
    pub corpus_count: usize,
    /// The total number of timeouts that have occurred during execution.
    pub total_timeouts: usize,
    /// The backoff time in milliseconds, used to manage retries or delays in execution.
    pub backoff_time: u64,
}

impl Default for Stats {
    fn default() -> (stats: Stats)
        ensures
            stats@ == StatsView::empty(),
    {
        Stats {
            title: String::new(),
            total_executions: 0,
            started: None,
            executions_per_second: ExecsPerSecond::default(),
            last_healt_check: None,
            running: false,
            cylcles_done: 0,
            last_new_path: None,
            last_unique_crash: None,
            total_crashes: 0,
            total_unique_responses: 0,
            corpus_count: 0,
            total_timeouts: 0,
            backoff_time: 0,
        }
    }
}

/// The statistics as a mathematical value.
pub struct StatsView {
    /// The title.
    pub title: Seq<char>,
    /// The total number of executions.
    pub total_executions: u64,
    /// When the campaign started.
    pub started: Option<SerializableInstant>,
    /// The executions of the last second.
    pub executions_per_second: ExecsPerSecondView,
    /// When the target last passed a health check in the main loop.
    pub last_healt_check: Option<SerializableInstant>,
    /// Whether the campaign is running.
    pub running: bool,
    /// The number of cycles done.
    pub cylcles_done: usize,
    /// When a new response was last seen.
    pub last_new_path: Option<SerializableInstant>,
    /// When a crash was last counted.
    pub last_unique_crash: Option<SerializableInstant>,
    /// The number of unique crashes.
    pub total_crashes: usize,
    /// The number of unique responses.
    pub total_unique_responses: usize,
    /// The count of items in the corpus.
    pub corpus_count: usize,
    /// The number of timeouts.
    pub total_timeouts: usize,
    /// The backoff time in milliseconds.
    pub backoff_time: u64,
}

impl View for Stats {
    type V = StatsView;

    open spec fn view(&self) -> StatsView {
        StatsView {
            title: self.title@,
            total_executions: self.total_executions,
            started: self.started,
            executions_per_second: self.executions_per_second@,
            last_healt_check: self.last_healt_check,
            running: self.running,
            cylcles_done: self.cylcles_done,
            last_new_path: self.last_new_path,
            last_unique_crash: self.last_unique_crash,
            total_crashes: self.total_crashes,
            total_unique_responses: self.total_unique_responses,
            corpus_count: self.corpus_count,
            total_timeouts: self.total_timeouts,
            backoff_time: self.backoff_time,
        }
    }
}

impl StatsView {
    /// The statistics before anything happened.
    pub open spec fn empty() -> StatsView {
        StatsView {
            title: Seq::empty(),
            total_executions: 0,
            started: None,
            executions_per_second: ExecsPerSecondView::empty(),
            last_healt_check: None,
            running: false,
            cylcles_done: 0,
            last_new_path: None,
            last_unique_crash: None,
            total_crashes: 0,
            total_unique_responses: 0,
            corpus_count: 0,
            total_timeouts: 0,
            backoff_time: 0,
        }
    }
}

impl Stats {
    /// A copy of the record as it stands.
    pub fn snapshot(&self) -> (copy: Stats)
        ensures
            copy == *self,
    {
        Stats {
            title: self.title.clone(),
            total_executions: self.total_executions,
            started: self.started,
            executions_per_second: self.executions_per_second,
            last_healt_check: self.last_healt_check,
            running: self.running,
            cylcles_done: self.cylcles_done,
            last_new_path: self.last_new_path,
            last_unique_crash: self.last_unique_crash,
            total_crashes: self.total_crashes,
            total_unique_responses: self.total_unique_responses,
            corpus_count: self.corpus_count,
            total_timeouts: self.total_timeouts,
            backoff_time: self.backoff_time,
        }
    }
}

/// The execution counter as a mathematical value: for each bucket the
/// number it holds and the time slot that the number was counted in.
pub struct ExecsPerSecondView {
    /// The number that each bucket holds.
    pub counter: Seq<usize>,
    /// The time slot that each bucket counts for.
    pub slots: Seq<u64>,
}

/// Sum of the numbers of a list.
pub open spec fn sum(numbers: Seq<usize>) -> nat
    decreases numbers.len(),
{
    if numbers.len() == 0 {
        0
    } else {
        sum(numbers.drop_last()) + numbers.last() as nat
    }
}

/// `count` and `more`, but not beyond the largest number of the type.
pub open spec fn raised(count: usize, more: usize) -> usize {
    if count + more <= usize::MAX {
        (count + more) as usize
    } else {
        usize::MAX
    }
}

/// One more, but not beyond the largest number of the type.
pub open spec fn bumped(count: usize) -> usize {
    raised(count, 1)
}

/// One more, but not beyond the largest number of the type.
pub open spec fn bumped_u64(count: u64) -> u64 {
    if count < u64::MAX {
        (count + 1) as u64
    } else {
        count
    }
}

/// Adds to a counter, but not beyond the largest number of the type.
pub fn raise(count: usize, more: usize) -> (sum: usize)
    ensures
        sum == raised(count, more),
{
    if count <= usize::MAX - more {
        count + more
    } else {
        usize::MAX
    }
}

/// Adds one to a counter, but not beyond the largest number of the type.
pub fn bump_u64(count: u64) -> (next: u64)
    ensures
        next == bumped_u64(count),
{
    if count < u64::MAX {
        count + 1
    } else {
        count
    }
}

/// The time slot that a point in time falls in.
pub open spec fn slot_of(elapsed_ms: u64) -> u64 {
    elapsed_ms / SLOT_MILLIS
}

/// The bucket that counts for a time slot.
pub open spec fn bucket_of(slot: u64) -> int {
    (slot % 10) as int
}

impl ExecsPerSecondView {
    /// The counter that has counted nothing.
    pub open spec fn empty() -> ExecsPerSecondView {
        ExecsPerSecondView {
            counter: Seq::new(10, |i: int| 0usize),
            slots: Seq::new(10, |i: int| 0u64),
        }
    }

    /// There is a number and a time slot for each bucket.
    pub open spec fn well_formed(self) -> bool {
        self.counter.len() == 10 && self.slots.len() == 10
    }

    /// The number of executions that are remembered of a time slot.
    pub open spec fn counted(self, slot: u64) -> usize {
        if self.slots[bucket_of(slot)] == slot {
            self.counter[bucket_of(slot)]
        } else {
            0
        }
    }

    /// The counter after one more execution at a point in time: the bucket
    /// of its time slot goes up by one, and starts from zero where it still
    /// held the count of an earlier slot.
    pub open spec fn add(self, elapsed_ms: u64) -> ExecsPerSecondView {
        let slot = slot_of(elapsed_ms);
        ExecsPerSecondView {
            counter: self.counter.update(bucket_of(slot), bumped(self.counted(slot))),
            slots: self.slots.update(bucket_of(slot), slot),
        }
    }

    /// Whether a bucket still counts at a point in time: its time slot is
    /// one of the last ten.
    pub open spec fn fresh(self, bucket: int, elapsed_ms: u64) -> bool {
        self.slots[bucket] <= slot_of(elapsed_ms) < self.slots[bucket] + 10
    }

    /// The counter after the buckets that are older than a second at a
    /// point in time are set to zero.
    pub open spec fn expire(self, elapsed_ms: u64) -> ExecsPerSecondView {
        ExecsPerSecondView {
            counter: Seq::new(
                10,
                |i: int|
                    if self.fresh(i, elapsed_ms) {
                        self.counter[i]
                    } else {
                        0usize
                    },
            ),
            slots: self.slots,
        }
    }

    /// The counter with all buckets set to zero.
    pub open spec fn clear(self) -> ExecsPerSecondView {
        ExecsPerSecondView { counter: Seq::new(10, |i: int| 0usize), slots: self.slots }
    }
}

impl ExecsPerSecondView {
    /// An execution is counted in the bucket of its time slot, and in no
    /// other bucket.
    pub proof fn lemma_add_counts(self, elapsed_ms: u64)
        requires
            self.well_formed(),
        ensures
            self.add(elapsed_ms).well_formed(),
            self.add(elapsed_ms).counted(slot_of(elapsed_ms)) == bumped(
                self.counted(slot_of(elapsed_ms)),
            ),
            forall|bucket: int|
                0 <= bucket < 10 && bucket != bucket_of(slot_of(elapsed_ms)) ==> self.add(
                    elapsed_ms,
                ).counter[bucket] == self.counter[bucket],
    {
    }

    /// After the old buckets are set to zero, only executions of the last ten
    /// time slots, which make up a second, are counted.
    pub proof fn lemma_expire_keeps_last_second(self, elapsed_ms: u64, bucket: int)
        requires
            self.well_formed(),
            0 <= bucket < 10,
        ensures
            self.expire(elapsed_ms).well_formed(),
            self.expire(elapsed_ms).counter[bucket] != 0 ==> self.slots[bucket] <= slot_of(
                elapsed_ms,
            ) < self.slots[bucket] + 10,
            self.fresh(bucket, elapsed_ms) ==> self.expire(elapsed_ms).counter[bucket]
                == self.counter[bucket],
    {
    }
}

/// Executions per second: ten buckets, one for each tenth of a second, used
/// in turn. Each bucket remembers the time slot that its count belongs to.
#[derive(Clone, Copy, Debug)]
pub struct ExecsPerSecond {
    counter: [usize; 10],
    slots: [u64; 10],
}

impl View for ExecsPerSecond {
    type V = ExecsPerSecondView;

    closed spec fn view(&self) -> ExecsPerSecondView {
        ExecsPerSecondView { counter: self.counter@, slots: self.slots@ }
    }
}

impl Default for ExecsPerSecond {
    fn default() -> (counter: ExecsPerSecond)
        ensures
            counter@ == ExecsPerSecondView::empty(),
    {
        let counter = ExecsPerSecond { counter: [0usize; 10], slots: [0u64; 10] };
        assert(counter@.counter =~= ExecsPerSecondView::empty().counter);
        assert(counter@.slots =~= ExecsPerSecondView::empty().slots);
        counter
    }
}

impl ExecsPerSecond {
    /// The counter with the given numbers and time slots of its buckets.
    pub fn from_parts(counter: [usize; 10], slots: [u64; 10]) -> (made: ExecsPerSecond)
        ensures
            made@ == (ExecsPerSecondView { counter: counter@, slots: slots@ }),
    {
        ExecsPerSecond { counter, slots }
    }

    /// The number that each bucket holds.
    pub fn counter(&self) -> (counter: [usize; 10])
        ensures
            counter@ == self@.counter,
    {
        self.counter
    }

    /// The time slot that each bucket counts for.
    pub fn slots(&self) -> (slots: [u64; 10])
        ensures
            slots@ == self@.slots,
    {
        self.slots
    }

    /// The views of this type have ten buckets.
    pub proof fn lemma_well_formed(&self)
        ensures
            self@.well_formed(),
    {
    }

    /// The sum of all buckets, or the largest number of the type where the
    /// sum is beyond it.
    pub fn get(&self) -> (count: usize)
        ensures
            count == if sum(self@.counter) <= usize::MAX {
                sum(self@.counter)
            } else {
                usize::MAX as nat
            },
    {
        let mut count: usize = 0;
        let mut full = false;
        let mut i: usize = 0;
        while i < 10
            invariant
                i <= 10,
                self.counter@.len() == 10,
                !full ==> count == sum(self.counter@.take(i as int)),
                full ==> count == usize::MAX && sum(self.counter@.take(i as int)) > usize::MAX,
            decreases 10 - i,
        {
            proof {
                assert(self.counter@.take(i + 1).drop_last() == self.counter@.take(i as int));
            }
            if !full {
                if count <= usize::MAX - self.counter[i] {
                    count = count + self.counter[i];
                } else {
                    count = usize::MAX;
                    full = true;
                }
            }
            i = i + 1;
        }
        proof {
            assert(self.counter@.take(10) == self.counter@);
        }
        count
    }

    /// Sets all buckets to zero.
    pub fn clear(&mut self)
        ensures
            final(self)@ == old(self)@.clear(),
    {
        self.counter = [0usize; 10];
        assert(self@.counter =~= old(self)@.clear().counter);
    }

    /// Sets the buckets to zero that are older than a second at
    /// `elapsed_ms`.
    pub fn reseter(&mut self, elapsed_ms: u64)
        ensures
            final(self)@ == old(self)@.expire(elapsed_ms),
    {
        let slot = elapsed_ms / SLOT_MILLIS;
        let mut i: usize = 0;
        while i < 10
            invariant
                i <= 10,
                slot == slot_of(elapsed_ms),
                self.slots == old(self).slots,
                self.counter@.len() == 10,
                forall|j: int|
                    0 <= j < i ==> self.counter@[j] == old(self)@.expire(elapsed_ms).counter[j],
                forall|j: int| i <= j < 10 ==> self.counter@[j] == old(self).counter@[j],
            decreases 10 - i,
        {
            let stamp = self.slots[i];
            if !(stamp <= slot && slot - stamp < 10) {
                self.counter[i] = 0;
            }
            i = i + 1;
        }
        assert(self@.counter =~= old(self)@.expire(elapsed_ms).counter);
    }

    /// Counts one execution at `elapsed_ms`.
    pub fn add(&mut self, elapsed_ms: u64)
        ensures
            final(self)@ == old(self)@.add(elapsed_ms),
    {
        let slot = elapsed_ms / SLOT_MILLIS;
        let bucket = (slot % 10) as usize;
        let before = if self.slots[bucket] == slot {
            self.counter[bucket]
        } else {
            0
        };
        let after = if before < usize::MAX {
            before + 1
        } else {
            before
        };
        self.counter[bucket] = after;
        self.slots[bucket] = slot;
    }
}

/// A reading of the clock, as the caller of the engine takes it with each
/// step.
#[derive(Debug, Clone, Copy)]
pub struct Clock {
    /// Milliseconds on a monotonic clock. Where the clock starts does not
    /// matter.
    pub millis: u64,
    /// The point in time, for the time stamps of the statistics.
    pub now: SerializableInstant,
}

/// A point on the monotonic clock, as the statistics hold it.
#[derive(Debug, Clone, Copy)]
pub struct SerializableInstant(Instant);

impl SerializableInstant {
    /// The instant that is wrapped.
    pub closed spec fn instant(self) -> Instant {
        self.0
    }

    /// Wraps the given instant.
    pub fn new(instant: Instant) -> (wrapped: Self)
        ensures
            wrapped.instant() == instant,
    {
        Self(instant)
    }

    /// Creates a new instant with the current time
    #[must_use]
    pub fn now() -> Self {
        Self(Instant::now())
    }

    /// Returns the inner `Instant`
    #[must_use]
    pub fn into_inner(self) -> (instant: Instant)
        ensures
            instant == self.instant(),
    {
        self.0
    }
}

} // verus!
