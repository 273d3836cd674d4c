use profuzz::error::ProFuzzError;
use profuzz::fuzz::engine::backoff_after;
use profuzz::fuzz::engine::load_initial_corpus;
use profuzz::fuzz::engine::seconds_between;
use profuzz::fuzz::engine::skip_health_check;
use profuzz::fuzz::engine::Action;
use profuzz::fuzz::engine::Event;
use profuzz::fuzz::engine::FuzzEngine;
use profuzz::fuzz::engine::Stage;
use profuzz::fuzz::stats::Clock;
use profuzz::fuzz::stats::SerializableInstant;
use profuzz::mutator::Mutator;
use profuzz::traits::Corpus;
use profuzz::traits::Mutable;
use profuzz::types::Crash;
use std::cell::Cell;
use std::rc::Rc;

/// A reading of the clock at so many milliseconds.
fn at(millis: u64) -> Clock {
    Clock { millis, now: SerializableInstant::now() }
}

/// An input that is its bytes; a mutation changes one byte.
#[derive(Clone, Debug, PartialEq)]
struct Bytes {
    buf: Vec<u8>,
}

impl Corpus for Bytes {
    type Value = ();

    fn from_bytes(buf: Vec<u8>) -> Option<Self> {
        if buf.is_empty() || buf[0] == 0xff {
            None
        } else {
            Some(Bytes { buf })
        }
    }

    fn to_bytes(self) -> Vec<u8> {
        self.buf
    }

    fn build(self) -> Vec<u8> {
        self.buf
    }

    fn show(&self) -> String {
        format!("{:?}", self.buf)
    }

    fn duplicate(&self) -> Self {
        self.clone()
    }
}

impl Mutable for Bytes {
    fn mutate(&mut self, mutator: &mut Mutator) {
        let at = mutator.gen_range(0, self.buf.len());
        mutator.mutate(&mut self.buf[at]);
    }
}

/// An input whose mutations are numbered over all its copies: mutation
/// number `hit` gives a buffer that starts with 0xDE 0xAD.
#[derive(Clone, Debug)]
struct Scripted {
    buf: Vec<u8>,
    count: Rc<Cell<u32>>,
    hit: u32,
}

impl Corpus for Scripted {
    type Value = ();

    fn from_bytes(buf: Vec<u8>) -> Option<Self> {
        Some(Scripted { buf, count: Rc::new(Cell::new(0)), hit: 1 })
    }

    fn to_bytes(self) -> Vec<u8> {
        self.buf
    }

    fn build(self) -> Vec<u8> {
        self.buf
    }

    fn show(&self) -> String {
        format!("{:?}", self.buf)
    }

    fn duplicate(&self) -> Self {
        self.clone()
    }
}

impl Mutable for Scripted {
    fn mutate(&mut self, _mutator: &mut Mutator) {
        let number = self.count.get() + 1;
        self.count.set(number);
        if number == self.hit {
            self.buf = vec![0xDE, 0xAD, 0x00];
        } else {
            self.buf = vec![0x00, (number % 251) as u8, (number / 251 % 251) as u8];
        }
    }
}

enum Reads {
    Nothing,
    Listed(Vec<Vec<u8>>, Vec<u8>),
    Fails,
    TimesOut,
}

/// The target and the collaborators, as far as a test needs them.
struct World {
    seeds: Vec<Vec<u8>>,
    connects_that_work: usize,
    reads: Reads,
    unhealthy_after: Option<Vec<u8>>,
    health_fails: bool,
    reset_fails: bool,
    millis_per_step: u64,
    clock: u64,
    connects: usize,
    written: Vec<Vec<u8>>,
    read_count: usize,
    closes: usize,
    health_checks: usize,
    resets: usize,
    sleeps: Vec<u64>,
    journal: Vec<Crash>,
    actions: usize,
}

impl World {
    fn new(seeds: Vec<Vec<u8>>) -> World {
        World {
            seeds,
            connects_that_work: usize::MAX,
            reads: Reads::Nothing,
            unhealthy_after: None,
            health_fails: false,
            reset_fails: false,
            millis_per_step: 0,
            clock: 0,
            connects: 0,
            written: Vec::new(),
            read_count: 0,
            closes: 0,
            health_checks: 0,
            resets: 0,
            sleeps: Vec::new(),
            journal: Vec::new(),
            actions: 0,
        }
    }

    fn refused() -> ProFuzzError {
        ProFuzzError::ConnectionFailed { err_msg: "refused".to_string() }
    }

    /// Performs an action and says what happened; the result of the run
    /// where the action ends it.
    fn perform(&mut self, action: Action) -> Result<Event, Result<(), ProFuzzError>> {
        self.actions += 1;
        self.clock += self.millis_per_step;
        Ok(match action {
            Action::Connect => {
                self.connects += 1;
                if self.connects <= self.connects_that_work {
                    Event::Connected(Ok(()))
                } else {
                    Event::Connected(Err(World::refused()))
                }
            }
            Action::Close => {
                self.closes += 1;
                Event::Closed(Ok(()))
            }
            Action::Write(buffer) => {
                self.written.push(buffer);
                Event::Written(Ok(()))
            }
            Action::Read => {
                self.read_count += 1;
                match &self.reads {
                    Reads::Nothing => Event::Read(Ok(Vec::new())),
                    Reads::Listed(list, then) => {
                        let at = self.read_count - 1;
                        if at < list.len() {
                            Event::Read(Ok(list[at].clone()))
                        } else {
                            Event::Read(Ok(then.clone()))
                        }
                    }
                    Reads::Fails => Event::Read(Err(ProFuzzError::TransporterRead)),
                    Reads::TimesOut => {
                        Event::Read(Err(ProFuzzError::Timeout { elapsed: "late".to_string() }))
                    }
                }
            }
            Action::HealthCheck => {
                self.health_checks += 1;
                if self.health_fails {
                    Event::Health(Err(ProFuzzError::TransporterRead))
                } else {
                    let well = match (&self.unhealthy_after, self.written.last()) {
                        (Some(prefix), Some(last)) => !last.starts_with(prefix),
                        _ => true,
                    };
                    Event::Health(Ok(well))
                }
            }
            Action::Reset => {
                self.resets += 1;
                if self.reset_fails {
                    Event::Reset(Err(ProFuzzError::Custom { err_msg: "no reset".to_string() }))
                } else {
                    Event::Reset(Ok(()))
                }
            }
            Action::Sleep(millis) => {
                self.sleeps.push(millis);
                self.clock += millis;
                Event::Slept
            }
            Action::LoadSeeds => Event::Seeds(Ok(self.seeds.clone())),
            Action::Journal(crash) => {
                self.journal.push(crash);
                Event::Journaled
            }
            Action::Finish(result) => return Err(result),
        })
    }

    /// Runs the engine until `done` holds or the run ends.
    fn run<M: Corpus + Mutable>(
        &mut self,
        engine: &mut FuzzEngine<M>,
        first: Event,
        done: &dyn Fn(&World, &FuzzEngine<M>) -> bool,
    ) -> Result<Event, Result<(), ProFuzzError>> {
        let mut event = first;
        loop {
            if done(self, engine) {
                return Ok(event);
            }
            let action = engine.step(event, at(self.clock));
            event = self.perform(action)?;
        }
    }
}

fn start() -> Event {
    Event::Start { title: "mock".to_string() }
}

#[test]
fn clean_run_without_crashes() {
    let mut world = World::new(vec![vec![0x00]]);
    let mut engine: FuzzEngine<Bytes> = FuzzEngine::new();
    let event = world
        .run(&mut engine, start(), &|_, engine| engine.stats().cylcles_done == 9)
        .expect("the run goes on");
    engine.stop();
    let end = world.run(&mut engine, event, &|_, _| false);
    assert!(matches!(end, Err(Ok(()))));
    assert_eq!(engine.stats().total_crashes, 0);
    assert_eq!(engine.stats().cylcles_done, 10);
    assert!(world.journal.is_empty());
    assert_eq!(engine.unique_crashes(), 0);
    assert_eq!(engine.unique_responses(), 0);
    assert_eq!(engine.stats().total_unique_responses, 0);
    assert!(!engine.stats().running);
    assert_eq!(engine.stage(), Stage::Finished);
    // one seed stays one input
    assert_eq!(engine.queue_len(), 1);
    // the seed once, then fifty chains of a thousand mutations in each full cycle
    assert!(world.written.len() > 9 * 50 * 1000);
    assert_eq!(world.written[0], vec![0x00]);
    assert_eq!(engine.stats().total_executions as usize, world.written.len() - 1);
    assert!(engine.window_len() <= 20_000);
    assert_eq!(world.resets, 0);
    assert_eq!(engine.stats().title, "mock");
}

#[test]
fn one_deterministic_crash() {
    let mut world = World::new(vec![vec![0x00]]);
    world.unhealthy_after = Some(vec![0xDE, 0xAD]);
    world.millis_per_step = 5_000;
    let mut engine: FuzzEngine<Scripted> = FuzzEngine::new();
    world
        .run(&mut engine, start(), &|world, _| world.written.len() >= 200)
        .expect("the run goes on");
    assert_eq!(world.journal.len(), 1);
    let record = &world.journal[0];
    assert_eq!(&record.buffer[0..2], &[0xDE, 0xAD]);
    assert_eq!(record.last_send_buffers.last(), Some(&record.buffer));
    assert_eq!(record.stats.total_crashes, 0);
    assert_eq!(engine.unique_crashes(), 1);
    assert_eq!(engine.stats().total_crashes, 1);
    assert!(engine.stats().last_unique_crash.is_some());
    assert_eq!(world.resets, 1);
    assert!(world.sleeps.contains(&1000));
}

#[test]
fn novel_response_is_enqueued() {
    let mut world = World::new(vec![vec![0x00]]);
    world.reads = Reads::Listed(vec![vec![0x01], vec![0x02]], vec![0x01]);
    let mut engine: FuzzEngine<Bytes> = FuzzEngine::new();
    world
        .run(&mut engine, start(), &|world, _| world.read_count == 3 && world.closes == 4)
        .expect("the run goes on");
    assert_eq!(world.written.len(), 3);
    assert_eq!(engine.stats().total_unique_responses, 2);
    assert_eq!(engine.unique_responses(), 2);
    // one seed at the start: the root under exploration and two more inputs
    assert!(engine.has_root());
    assert_eq!(engine.queue_len() + engine.explored_len() + 1, 1 + 2);
    assert!(engine.stats().last_new_path.is_some());
    // the count of the corpus is set to the length of the queue when the
    // first cycle begins, and goes up by three for the new response after it
    assert_eq!(engine.stats().corpus_count, 2 + 3);
}

#[test]
fn backoff_exhaustion() {
    let mut world = World::new(vec![vec![0x00]]);
    // the connect before the campaign works, no other
    world.connects_that_work = 1;
    let mut engine: FuzzEngine<Bytes> = FuzzEngine::new();
    world
        .run(&mut engine, start(), &|world, _| world.health_checks == 2)
        .expect("the run goes on");
    // one connect before the campaign, three for the seed, three for the
    // first mutation
    assert_eq!(world.connects, 1 + 3 + 3);
    assert_eq!(world.sleeps, vec![100, 200, 100, 200]);
    assert_eq!(engine.stats().backoff_time, 400);
    assert!(world.written.is_empty());
    assert_eq!(engine.stats().total_executions, 1);
    assert_eq!(engine.stage(), Stage::Checking);
    // the engine goes on
    world
        .run(&mut engine, Event::Health(Ok(true)), &|world, _| world.health_checks == 4)
        .expect("the run goes on");
    assert_eq!(engine.stats().total_crashes, 0);
}

#[test]
fn empty_input_dir_fails() {
    let mut world = World::new(Vec::new());
    let mut engine: FuzzEngine<Bytes> = FuzzEngine::new();
    let end = world.run(&mut engine, start(), &|_, _| false);
    match end {
        Err(Err(ProFuzzError::Custom { err_msg })) => assert_eq!(err_msg, "No input corpus found!."),
        other => panic!("unexpected end: {other:?}"),
    }
    assert_eq!(engine.stage(), Stage::Finished);
    assert!(world.written.is_empty());
}

#[test]
fn unparsable_seed_is_skipped() {
    let files = vec![vec![0xff, 0x01], vec![0x01, 0x02], Vec::new(), vec![0x03]];
    let inputs: Vec<Bytes> = load_initial_corpus(&files);
    assert_eq!(inputs, vec![Bytes { buf: vec![0x01, 0x02] }, Bytes { buf: vec![0x03] }]);
    let none: Vec<Bytes> = load_initial_corpus(&vec![vec![0xff], Vec::new()]);
    assert!(none.is_empty());

    let mut world = World::new(files);
    let mut engine: FuzzEngine<Bytes> = FuzzEngine::new();
    world
        .run(&mut engine, start(), &|world, _| world.written.len() == 3)
        .expect("the run goes on");
    assert_eq!(world.written[0], vec![0x01, 0x02]);
    assert_eq!(world.written[1], vec![0x03]);
    assert_eq!(engine.stats().corpus_count, 2);
    assert!(engine.stats().running);
    assert!(engine.stats().started.is_some());
}

#[test]
fn empty_read_is_clean_close() {
    let mut world = World::new(vec![vec![0x00]]);
    let mut engine: FuzzEngine<Bytes> = FuzzEngine::new();
    world
        .run(&mut engine, start(), &|world, _| world.written.len() == 100)
        .expect("the run goes on");
    assert_eq!(engine.unique_responses(), 0);
    assert_eq!(engine.stats().total_unique_responses, 0);
    assert_eq!(engine.stats().total_timeouts, 0);
    // the connection is not closed after a clean close; once before the campaign
    assert_eq!(world.closes, 1);
    // no health check but the one before the campaign
    assert_eq!(world.health_checks, 1);
}

#[test]
fn failed_read_forces_health_check() {
    let mut world = World::new(vec![vec![0x00]]);
    world.reads = Reads::Fails;
    let mut engine: FuzzEngine<Bytes> = FuzzEngine::new();
    world
        .run(&mut engine, start(), &|world, _| world.written.len() == 11)
        .expect("the run goes on");
    // one check before the campaign, one after each of nine mutations
    assert_eq!(world.health_checks, 1 + 9);
    assert_eq!(engine.stats().total_timeouts, 0);
    assert!(engine.stats().last_healt_check.is_some());
}

#[test]
fn timeouts_are_counted() {
    let mut world = World::new(vec![vec![0x00]]);
    world.reads = Reads::TimesOut;
    let mut engine: FuzzEngine<Bytes> = FuzzEngine::new();
    world
        .run(&mut engine, start(), &|world, _| world.written.len() == 5)
        .expect("the run goes on");
    assert_eq!(engine.stats().total_timeouts, 4);
}

#[test]
fn window_is_bounded_and_cut() {
    let mut world = World::new(vec![vec![0x00]]);
    let mut engine: FuzzEngine<Bytes> = FuzzEngine::new();
    let mut largest = 0;
    let mut event = start();
    let mut cut = false;
    while world.written.len() < 60_000 {
        let before = engine.window_len();
        let checking = engine.stage() == Stage::Checking;
        let action = engine.step(event, at(world.clock));
        if checking {
            // a passed health check leaves 5000 buffers; the next mutation
            // is put in front at once
            assert_eq!(before, 20_000);
            assert_eq!(engine.window_len(), 5_001);
            cut = true;
        }
        if engine.window_len() > largest {
            largest = engine.window_len();
        }
        event = world.perform(action).expect("the run goes on");
    }
    assert!(cut);
    assert_eq!(largest, 20_000);
}

#[test]
fn unhealthy_target_after_reset_abandons_chain() {
    let mut world = World::new(vec![vec![0x00]]);
    world.health_fails = true;
    world.connects_that_work = usize::MAX;
    let mut engine: FuzzEngine<Bytes> = FuzzEngine::new();
    // the check before the campaign fails: the target cannot be reached
    let end = world.run(&mut engine, start(), &|_, _| false);
    match end {
        Err(Err(ProFuzzError::ConnectionFailed { err_msg })) => {
            assert_eq!(err_msg, "Could not read from the transport");
        }
        other => panic!("unexpected end: {other:?}"),
    }

    let mut world = World::new(vec![vec![0x00]]);
    world.millis_per_step = 5_000;
    let mut engine: FuzzEngine<Bytes> = FuzzEngine::new();
    let event = world
        .run(&mut engine, start(), &|world, _| world.written.len() == 2)
        .expect("the run goes on");
    world.health_fails = true;
    world
        .run(&mut engine, event, &|world, _| world.written.len() == 12)
        .expect("the run goes on");
    // each mutation that is followed by a failed check is a crash; the
    // check after the reset fails too, which gives up the chain
    assert_eq!(world.journal.len(), 10);
    assert_eq!(world.resets, 10);
    for record in &world.journal {
        assert_eq!(record.last_send_buffers.last(), Some(&record.buffer));
    }
    // the oldest buffer of the window is held to have triggered each of them
    assert_eq!(engine.unique_crashes(), 1);
    assert_eq!(engine.stats().total_crashes, 1);
    // a chain was given up after each reset
    let mut chains = 0;
    for pair in world.written[2..].windows(2) {
        if pair[1].len() == 1 && pair[0] != pair[1] {
            chains += 1;
        }
    }
    assert!(chains > 0);
}

#[test]
fn failed_reset_ends_the_run() {
    let mut world = World::new(vec![vec![0x00]]);
    world.millis_per_step = 5_000;
    world.reset_fails = true;
    let mut engine: FuzzEngine<Bytes> = FuzzEngine::new();
    let event = world
        .run(&mut engine, start(), &|world, _| world.written.len() == 2)
        .expect("the run goes on");
    world.health_fails = true;
    let end = world.run(&mut engine, event, &|_, _| false);
    match end {
        Err(Err(ProFuzzError::Custom { err_msg })) => assert_eq!(err_msg, "no reset"),
        other => panic!("unexpected end: {other:?}"),
    }
    assert_eq!(world.journal.len(), 1);
    assert!(!engine.stats().running);
}

#[test]
fn unexpected_event_ends_the_run() {
    let mut engine: FuzzEngine<Bytes> = FuzzEngine::new();
    match engine.step(Event::Slept, at(0)) {
        Action::Finish(Err(ProFuzzError::Custom { err_msg })) => {
            assert_eq!(err_msg, "Unexpected event.");
        }
        other => panic!("unexpected action: {other:?}"),
    }
    assert_eq!(engine.stage(), Stage::Finished);
}

#[test]
fn unhealthy_target_before_the_campaign() {
    let mut world = World::new(vec![vec![0x00]]);
    world.unhealthy_after = Some(Vec::new());
    let mut engine: FuzzEngine<Bytes> = FuzzEngine::new();
    assert!(matches!(engine.step(start(), at(0)), Action::Connect));
    assert!(matches!(engine.step(Event::Connected(Ok(())), at(0)), Action::Close));
    assert!(matches!(engine.step(Event::Closed(Ok(())), at(0)), Action::HealthCheck));
    match engine.step(Event::Health(Ok(false)), at(0)) {
        Action::Finish(Err(ProFuzzError::ConnectionFailed { err_msg })) => {
            assert_eq!(err_msg, "Initial healthcheck was not successfull. Exiting.");
        }
        other => panic!("unexpected action: {other:?}"),
    }
    assert!(world.written.is_empty());
}

#[test]
fn same_seed_same_writes() {
    let mut first_world = World::new(vec![vec![1, 2, 3, 4], vec![9, 9]]);
    first_world.reads = Reads::Listed(vec![vec![1], vec![2], vec![3]], vec![1]);
    let mut second_world = World::new(vec![vec![1, 2, 3, 4], vec![9, 9]]);
    second_world.reads = Reads::Listed(vec![vec![1], vec![2], vec![3]], vec![1]);
    let mut first: FuzzEngine<Bytes> = FuzzEngine::new();
    let mut second: FuzzEngine<Bytes> = FuzzEngine::with_seed([0u8; 32]);
    first_world
        .run(&mut first, start(), &|world, _| world.written.len() == 5_000)
        .expect("the run goes on");
    second_world
        .run(&mut second, start(), &|world, _| world.written.len() == 5_000)
        .expect("the run goes on");
    assert_eq!(first_world.written, second_world.written);

    let mut other_world = World::new(vec![vec![1, 2, 3, 4], vec![9, 9]]);
    other_world.reads = Reads::Listed(vec![vec![1], vec![2], vec![3]], vec![1]);
    let mut other: FuzzEngine<Bytes> = FuzzEngine::with_seed([3u8; 32]);
    other_world
        .run(&mut other, start(), &|world, _| world.written.len() == 5_000)
        .expect("the run goes on");
    assert_ne!(first_world.written, other_world.written);
}

#[test]
fn backoff_schedule() {
    assert_eq!(backoff_after(0), 100);
    assert_eq!(backoff_after(1), 100);
    assert_eq!(backoff_after(2), 200);
    assert_eq!(backoff_after(3), 400);
    assert_eq!(backoff_after(4), 800);
    assert_eq!(backoff_after(6), 3200);
    assert_eq!(backoff_after(7), 5000);
    assert_eq!(backoff_after(1000), 5000);
}

#[test]
fn health_check_arbitration() {
    assert!(skip_health_check(19_999, 4, true));
    assert!(!skip_health_check(20_000, 4, true));
    assert!(!skip_health_check(19_999, 5, true));
    assert!(!skip_health_check(19_999, 4, false));
    assert!(skip_health_check(0, 0, true));
    assert_eq!(seconds_between(4_999, 0), 4);
    assert_eq!(seconds_between(5_000, 0), 5);
    assert_eq!(seconds_between(10_500, 10_000), 0);
    assert_eq!(seconds_between(0, 10_000), 0);
}

#[test]
fn time_stamps_are_those_of_the_clock() {
    let now = SerializableInstant::now();
    let clock = Clock { millis: 9_000, now };
    let mut engine: FuzzEngine<Bytes> = FuzzEngine::new();
    assert!(matches!(engine.step(start(), clock), Action::Connect));
    assert!(matches!(engine.step(Event::Connected(Ok(())), clock), Action::Close));
    assert!(matches!(engine.step(Event::Closed(Ok(())), clock), Action::HealthCheck));
    assert!(matches!(engine.step(Event::Health(Ok(true)), clock), Action::LoadSeeds));
    assert!(engine.stats().started.is_none());
    assert!(matches!(engine.step(Event::Seeds(Ok(vec![vec![1]])), clock), Action::Connect));
    assert_eq!(engine.stats().started.map(|at| at.into_inner()), Some(now.into_inner()));
    assert!(matches!(engine.step(Event::Connected(Ok(())), clock), Action::Write(_)));
    assert!(matches!(engine.step(Event::Written(Ok(())), clock), Action::Read));
    assert!(engine.stats().last_new_path.is_none());
    assert!(matches!(engine.step(Event::Read(Ok(vec![7])), clock), Action::Close));
    assert_eq!(engine.stats().last_new_path.map(|at| at.into_inner()), Some(now.into_inner()));
    // the first mutation follows; its send fails, which asks for a health check
    assert!(matches!(engine.step(Event::Closed(Ok(())), clock), Action::Connect));
    assert!(matches!(engine.step(Event::Connected(Ok(())), clock), Action::Write(_)));
    let later = Clock { millis: 9_500, now: SerializableInstant::now() };
    assert!(matches!(
        engine.step(Event::Written(Err(ProFuzzError::TransporterWrite)), later),
        Action::HealthCheck
    ));
    assert!(engine.stats().last_healt_check.is_none());
    assert!(matches!(engine.step(Event::Health(Ok(true)), later), Action::Connect));
    assert_eq!(
        engine.stats().last_healt_check.map(|at| at.into_inner()),
        Some(later.now.into_inner())
    );
    assert_eq!(engine.stats().total_executions, 1);
}
