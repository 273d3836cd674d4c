use profuzz::fuzz::engine::Action;
use profuzz::fuzz::engine::Event;
use profuzz::fuzz::engine::FuzzEngine;
use profuzz::fuzz::stats::Clock;
use profuzz::fuzz::stats::SerializableInstant;
use profuzz::mutator::Mutator;
use profuzz::tether::tether_checksum;
use profuzz::tether::TetherLayer;
use profuzz::text::decimal;
use profuzz::text::format_duration;
use profuzz::traits::Corpus;
use profuzz::traits::Mutable;

fn packet() -> Vec<u8> {
    vec![1, 0, 5, 0, 0, 0, 0, 0, 0, 0, 0, 0, 0, 0, 0, 0, 0, 7, 0, 2, 0xaa, 0xbb, 0xcc]
}

#[test]
fn tether_parses_type_five_only() {
    assert!(TetherLayer::from_bytes(packet()).is_some());
    assert!(TetherLayer::from_bytes(packet()[..20].to_vec()).is_some());
    assert!(TetherLayer::from_bytes(packet()[..19].to_vec()).is_none());
    assert!(TetherLayer::from_bytes(Vec::new()).is_none());
    let mut other = packet();
    other[2] = 4;
    assert!(TetherLayer::from_bytes(other).is_none());
}

#[test]
fn tether_round_trip() {
    let layer = TetherLayer::from_bytes(packet()).expect("a packet");
    let bytes = layer.duplicate().to_bytes();
    assert_eq!(bytes, packet());
    let again = TetherLayer::from_bytes(bytes).expect("a packet");
    assert_eq!(again.to_bytes(), packet());
    assert_eq!(layer.to_bytes(), packet());
}

#[test]
fn tether_checksum_is_a_crc32() {
    // too short for a checksum
    assert_eq!(tether_checksum(&vec![0; 15]), 0);
    assert_eq!(tether_checksum(&packet()), 4_283_386_421);
    // the bytes of the checksum do not count
    let mut other = packet();
    other[12] = 1;
    other[15] = 9;
    assert_eq!(tether_checksum(&other), 4_283_386_421);
    other[16] = 1;
    assert_ne!(tether_checksum(&other), 4_283_386_421);
}

#[test]
fn tether_build_sets_length_and_checksum() {
    let layer = TetherLayer::from_bytes(packet()).expect("a packet");
    assert_eq!(
        layer.build(),
        vec![1, 0, 5, 0, 0, 7, 0, 0, 0, 0, 0, 0, 30, 97, 64, 81, 0, 7, 0, 2, 170, 187, 204]
    );
}

#[test]
fn tether_show_lists_the_header() {
    let mut bytes = packet();
    bytes[5] = 7;
    bytes[8] = 0x01;
    bytes[12..16].copy_from_slice(&[30, 97, 64, 81]);
    bytes[18] = 0x01;
    let layer = TetherLayer::from_bytes(bytes).expect("a packet");
    assert_eq!(
        layer.show(),
        "###[ Tether ]###\n version: 1\n unknown0: 0\n tether_type: 5\n unknown1: 0\n length: 7\n \
         unknown2: 0\n unknown3: 16777216\n crc32: 509689937\n options: 7\n function_id: 258\n"
    );
}

#[test]
fn decimal_digits() {
    assert_eq!(decimal(0), "0");
    assert_eq!(decimal(7), "7");
    assert_eq!(decimal(10), "10");
    assert_eq!(decimal(1234567890), "1234567890");
    assert_eq!(decimal(u64::MAX), "18446744073709551615");
}

#[test]
fn durations_in_days_hours_minutes_seconds() {
    assert_eq!(format_duration(0), "0 days, 0 hrs, 0 min, 0 secs");
    assert_eq!(format_duration(59), "0 days, 0 hrs, 0 min, 59 secs");
    assert_eq!(format_duration(60), "0 days, 0 hrs, 1 min, 0 secs");
    assert_eq!(format_duration(3_600), "0 days, 1 hrs, 0 min, 0 secs");
    assert_eq!(format_duration(86_399), "0 days, 23 hrs, 59 min, 59 secs");
    assert_eq!(format_duration(86_400), "1 days, 0 hrs, 0 min, 0 secs");
    assert_eq!(format_duration(1_000_000), "11 days, 13 hrs, 46 min, 40 secs");
}

#[test]
fn tether_mutation_keeps_the_packet_an_input() {
    let mut mutator = Mutator::new([0u8; 32]);
    let mut layer = TetherLayer::from_bytes(packet()).expect("a packet");
    let mut changed = false;
    let mut right_sums = 0;
    for _ in 0..2000 {
        layer.mutate(&mut mutator);
        let bytes = layer.duplicate().to_bytes();
        assert_eq!(bytes.len(), packet().len());
        assert_eq!(bytes[2], 5);
        // version and the unknown fields are never touched
        assert_eq!(bytes[0], 1);
        assert_eq!(&bytes[6..12], &[0, 0, 0, 0, 0, 0]);
        // a function id above 100 is never sent
        assert!(u16::from_be_bytes([bytes[18], bytes[19]]) <= 100);
        if bytes[20..] != packet()[20..] {
            changed = true;
        }
        let sum = u32::from_be_bytes([bytes[12], bytes[13], bytes[14], bytes[15]]);
        if sum == tether_checksum(&bytes) {
            right_sums += 1;
        }
        assert!(TetherLayer::from_bytes(bytes).is_some());
    }
    assert!(changed);
    // the checksum is set right but for 1 in 10000 mutations
    assert!(right_sums >= 1990);
}

#[test]
fn tether_mutation_is_repeatable() {
    let mut first = Mutator::new([5u8; 32]);
    let mut second = Mutator::new([5u8; 32]);
    let mut a = TetherLayer::from_bytes(packet()).expect("a packet");
    let mut b = a.duplicate();
    for _ in 0..500 {
        a.mutate(&mut first);
        b.mutate(&mut second);
        assert_eq!(a.duplicate().to_bytes(), b.duplicate().to_bytes());
    }
    assert_eq!(first.word_pos(), second.word_pos());
    assert_eq!(first.seed(), [5u8; 32]);
    assert!(first.word_pos() > 0);
}

#[test]
fn engine_fuzzes_tether_packets() {
    let mut engine: FuzzEngine<TetherLayer> = FuzzEngine::new();
    let mut event = Event::Start { title: "tether".to_string() };
    let mut written: Vec<Vec<u8>> = Vec::new();
    while written.len() < 200 {
        event = match engine.step(event, Clock { millis: 0, now: SerializableInstant::now() }) {
            Action::Connect => Event::Connected(Ok(())),
            Action::Close => Event::Closed(Ok(())),
            Action::Write(buffer) => {
                written.push(buffer);
                Event::Written(Ok(()))
            }
            Action::Read => Event::Read(Ok(Vec::new())),
            Action::HealthCheck => Event::Health(Ok(true)),
            Action::LoadSeeds => Event::Seeds(Ok(vec![vec![1, 2, 3], packet()])),
            other => panic!("unexpected action: {other:?}"),
        };
    }
    // the file that is no packet is left out
    assert_eq!(written[0], packet());
    for buffer in &written {
        assert!(TetherLayer::from_bytes(buffer.clone()).is_some());
    }
    assert_eq!(engine.stats().corpus_count, 1);
}

#[test]
fn test_checksum() {
    let mut corpuses = Vec::new();
    for payload in [vec![], vec![0u8], vec![1, 2, 3], vec![0xff; 300]] {
        let mut buf = packet()[..20].to_vec();
        buf.extend_from_slice(&payload);
        let built = TetherLayer::from_bytes(buf).expect("a packet").build();
        corpuses.push(built);
    }
    for buf in corpuses {
        let checksum = u32::from_be_bytes([buf[12], buf[13], buf[14], buf[15]]);
        assert_eq!(checksum, tether_checksum(&buf))
    }
}
