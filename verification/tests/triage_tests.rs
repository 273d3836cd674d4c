use profuzz::error::ProFuzzError;
use profuzz::fuzz::engine::Event;
use profuzz::fuzz::stats::Stats;
use profuzz::mutator::Mutator;
use profuzz::output::Output;
use profuzz::traits::Corpus;
use profuzz::traits::Mutable;
use profuzz::triage::dynamic::DynamicTriage;
use profuzz::triage::dynamic::TriageAction;
use profuzz::triage::dynamic::TriageStage;
use profuzz::triage::utils::hamming_distance;
use profuzz::triage::utils::mark_differences;
use profuzz::triage::utils::nearest_neighbor;
use profuzz::triage::utils::Colored;
use profuzz::types::Crash;

/// An input that is a list of bytes, shown one byte a line. A buffer that
/// starts with 0xff does not parse.
#[derive(Clone, Debug)]
struct Lines {
    buf: Vec<u8>,
}

impl Corpus for Lines {
    type Value = ();

    fn from_bytes(buf: Vec<u8>) -> Option<Self> {
        if buf.first() == Some(&0xff) {
            None
        } else {
            Some(Lines { buf })
        }
    }

    fn to_bytes(self) -> Vec<u8> {
        self.buf
    }

    fn build(self) -> Vec<u8> {
        self.buf
    }

    fn show(&self) -> String {
        let mut text = String::new();
        for byte in &self.buf {
            text.push_str(&format!("byte {byte}\n"));
        }
        text
    }

    fn duplicate(&self) -> Self {
        self.clone()
    }
}

impl Mutable for Lines {
    fn mutate(&mut self, _mutator: &mut Mutator) {}
}

struct Target {
    crashes_on: Vec<Vec<u8>>,
    down: bool,
    sick_checks_before: usize,
    sick_checks_after: usize,
    reset_fails: bool,
    written: Vec<Vec<u8>>,
    stored: Vec<(String, Vec<u8>, String)>,
    resets: usize,
    sleeps: Vec<u64>,
    health_checks: usize,
}

impl Target {
    fn new(crashes_on: Vec<Vec<u8>>) -> Target {
        Target {
            crashes_on,
            down: false,
            sick_checks_before: 0,
            sick_checks_after: 0,
            reset_fails: false,
            written: Vec::new(),
            stored: Vec::new(),
            resets: 0,
            sleeps: Vec::new(),
            health_checks: 0,
        }
    }

    fn triage(&mut self, crash: &Crash) -> Result<bool, ProFuzzError> {
        let output = Output::init("out".to_string(), true, true).expect("resumed");
        let mut machine = DynamicTriage::new(crash, output).expect("short buffers");
        assert_eq!(machine.stage(), TriageStage::Created);
        let mut event = Event::Start { title: String::new() };
        loop {
            event = match machine.step::<Lines>(event) {
                TriageAction::HealthCheck => {
                    self.health_checks += 1;
                    if self.sick_checks_before > 0 {
                        self.sick_checks_before -= 1;
                        Event::Health(Ok(false))
                    } else if self.down && self.sick_checks_after > 0 {
                        self.sick_checks_after -= 1;
                        Event::Health(Err(ProFuzzError::TransporterRead))
                    } else {
                        let well = !self.down;
                        Event::Health(Ok(well))
                    }
                }
                TriageAction::Connect => Event::Connected(Ok(())),
                TriageAction::Write(buffer) => {
                    if self.crashes_on.contains(&buffer) {
                        self.down = true;
                    }
                    self.written.push(buffer);
                    Event::Written(Ok(()))
                }
                TriageAction::Read => Event::Read(Err(ProFuzzError::TransporterRead)),
                TriageAction::Close => Event::Closed(Ok(())),
                TriageAction::Sleep(millis) => {
                    self.sleeps.push(millis);
                    Event::Slept
                }
                TriageAction::Store { file, buffer, report } => {
                    self.stored.push((file, buffer, report));
                    Event::Stored
                }
                TriageAction::Reset => {
                    self.resets += 1;
                    if self.reset_fails {
                        Event::Reset(Err(ProFuzzError::Custom { err_msg: "no reset".to_string() }))
                    } else {
                        self.down = false;
                        Event::Reset(Ok(()))
                    }
                }
                TriageAction::Finish(result) => {
                    assert_eq!(machine.stage(), TriageStage::Finished);
                    return result;
                }
            };
        }
    }
}

fn record(buffer: Vec<u8>, window: Vec<Vec<u8>>) -> Crash {
    Crash { buffer, last_send_buffers: window, stats: Stats::default() }
}

const A: [u8; 3] = [1, 2, 3];
const B: [u8; 3] = [1, 2, 7];
const C: [u8; 3] = [1, 6, 7];
const D: [u8; 3] = [9, 9, 9];

#[test]
fn dynamic_triage_isolation() {
    let crash = record(A.to_vec(), vec![A.to_vec(), B.to_vec(), C.to_vec(), D.to_vec()]);
    let mut target = Target::new(vec![C.to_vec()]);
    let found = target.triage(&crash).expect("no error");
    assert!(found);
    // the triggering buffer alone, then the window from its oldest buffer on
    assert_eq!(target.written, vec![A.to_vec(), D.to_vec(), C.to_vec()]);
    assert_eq!(target.stored.len(), 1);
    let (file, buffer, report) = &target.stored[0];
    assert_eq!(buffer, &C.to_vec());
    // the name of the file is the SHA-1 of the buffer in lowercase hex
    assert_eq!(file, "out/crashes/bc44db6be41d6638787884744e41dbb87a4ed3e1");
    // of the buffers seen, A and D, the nearest to C is A; two lines differ
    assert_eq!(report, "byte 1\n\x1b[33;1mbyte 6\x1b[0m\n\x1b[33;1mbyte 7\x1b[0m\n");
    assert_eq!(target.resets, 1);
    assert_eq!(target.sleeps, vec![1000]);
}

#[test]
fn triggering_buffer_alone_reproduces() {
    let crash = record(A.to_vec(), vec![A.to_vec(), B.to_vec()]);
    let mut target = Target::new(vec![A.to_vec()]);
    target.sick_checks_after = 2;
    let found = target.triage(&crash).expect("no error");
    assert!(found);
    assert_eq!(target.written, vec![A.to_vec()]);
    assert_eq!(target.stored.len(), 1);
    // nothing was seen before: the input is shown as it is
    assert_eq!(target.stored[0].2, "byte 1\nbyte 2\nbyte 3\n");
    assert_eq!(target.stored[0].1, A.to_vec());
    assert_eq!(target.resets, 1);
    assert_eq!(target.sleeps, vec![1000]);
}

#[test]
fn target_has_to_be_well_before_a_send() {
    let crash = record(A.to_vec(), vec![A.to_vec()]);
    let mut target = Target::new(Vec::new());
    target.sick_checks_before = 3;
    let found = target.triage(&crash).expect("no error");
    // a failed check before the send is not laid to the send
    assert!(!found);
    assert_eq!(target.sleeps, vec![1000, 1000, 1000]);
    assert_eq!(target.written, vec![A.to_vec(), A.to_vec()]);
    assert!(target.stored.is_empty());
    assert_eq!(target.resets, 0);
}

#[test]
fn no_buffer_reproduces() {
    let crash = record(A.to_vec(), vec![A.to_vec(), B.to_vec(), C.to_vec()]);
    let mut target = Target::new(Vec::new());
    let found = target.triage(&crash).expect("no error");
    assert!(!found);
    assert_eq!(target.written, vec![A.to_vec(), C.to_vec(), B.to_vec(), A.to_vec()]);
    assert!(target.stored.is_empty());
}

#[test]
fn empty_window_is_triaged() {
    let crash = record(A.to_vec(), Vec::new());
    let mut target = Target::new(Vec::new());
    assert!(!target.triage(&crash).expect("no error"));
    assert_eq!(target.written, vec![A.to_vec()]);
}

#[test]
fn crashing_buffer_that_does_not_parse() {
    let bad = vec![0xff, 0x00];
    let crash = record(bad.clone(), vec![bad.clone()]);
    let mut target = Target::new(vec![bad]);
    match target.triage(&crash) {
        Err(ProFuzzError::Custom { err_msg }) => {
            assert_eq!(err_msg, "Could not create a structured representation of the crash");
        }
        other => panic!("unexpected end: {other:?}"),
    }
    assert!(target.stored.is_empty());
    assert_eq!(target.resets, 0);
}

#[test]
fn failed_reset_ends_triage() {
    let crash = record(A.to_vec(), vec![A.to_vec()]);
    let mut target = Target::new(vec![A.to_vec()]);
    target.reset_fails = true;
    match target.triage(&crash) {
        Err(ProFuzzError::Custom { err_msg }) => assert_eq!(err_msg, "no reset"),
        other => panic!("unexpected end: {other:?}"),
    }
    assert_eq!(target.stored.len(), 1);
}

#[test]
fn unexpected_event_ends_triage() {
    let crash = record(A.to_vec(), vec![A.to_vec()]);
    let output = Output::init("out".to_string(), false, false).expect("new");
    let mut machine = DynamicTriage::new(&crash, output).expect("short buffers");
    match machine.step::<Lines>(Event::Stored) {
        TriageAction::Finish(Err(ProFuzzError::Custom { err_msg })) => {
            assert_eq!(err_msg, "Unexpected event.");
        }
        other => panic!("unexpected action: {other:?}"),
    }
}

#[test]
fn hamming_distance_counts_bits() {
    assert_eq!(hamming_distance(&[], &[]), Some(0));
    assert_eq!(hamming_distance(&[0x00], &[0xff]), Some(8));
    assert_eq!(hamming_distance(&[0x0f, 0x01], &[0xf0, 0x01]), Some(8));
    assert_eq!(hamming_distance(&[1, 2, 3], &[1, 2, 7]), Some(1));
    assert_eq!(hamming_distance(&[1, 2, 3], &[1, 2]), None);
    assert_eq!(hamming_distance(&[], &[0]), None);
    assert_eq!(hamming_distance(&[0xaa, 0x55, 0xff], &[0x55, 0xaa, 0x00]), Some(24));
}

#[test]
fn nearest_neighbor_is_the_first_of_the_nearest() {
    let candidate = [1u8, 6, 7];
    assert_eq!(nearest_neighbor(&candidate, &Vec::new()), None);
    // same length and different: distances 2 and 7
    assert_eq!(nearest_neighbor(&candidate, &vec![vec![9, 9, 9], vec![1, 2, 3]]), Some(1));
    // the candidate itself and buffers of another length do not count
    assert_eq!(
        nearest_neighbor(&candidate, &vec![vec![1, 6, 7], vec![1, 6], vec![1, 6, 6], vec![1, 6, 5]]),
        Some(2)
    );
    // ties go to the first
    assert_eq!(nearest_neighbor(&candidate, &vec![vec![1, 6, 6], vec![0, 6, 7]]), Some(0));
    // nothing comparable: the first buffer
    assert_eq!(nearest_neighbor(&candidate, &vec![vec![1], vec![1, 6, 7]]), Some(0));
}

#[test]
fn mark_differences_marks_lines() {
    assert_eq!(mark_differences("", ""), "");
    assert_eq!(mark_differences("a\nb\n", "a\nb\n"), "a\nb\n");
    assert_eq!(mark_differences("a\nb", "a\nc"), "a\n\x1b[33;1mb\x1b[0m\n");
    // the longer text decides the number of lines
    assert_eq!(mark_differences("a", "a\nb"), "a\n\x1b[33;1m\x1b[0m\n");
    assert_eq!(mark_differences("a\nb", "a"), "a\n\x1b[33;1mb\x1b[0m\n");
    // a carriage return before a line feed is part of the line ending
    assert_eq!(mark_differences("a\r\nb\r\n", "a\nb"), "a\nb\n");
    assert_eq!(mark_differences("a\rb", "a\rb"), "a\rb\n");
    assert_eq!(mark_differences("\n\nx", "\n\ny"), "\n\n\x1b[33;1mx\x1b[0m\n");
}

#[test]
fn yellow_wraps_in_escape_sequences() {
    assert_eq!("warn".yellow(), "\x1b[33;1mwarn\x1b[0m");
    assert_eq!("warn".to_string().yellow(), "\x1b[33;1mwarn\x1b[0m");
    assert_eq!(String::new().yellow(), "\x1b[33;1m\x1b[0m");
}
