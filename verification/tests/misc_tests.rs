use profuzz::buffer::same_bytes;
use profuzz::byteset::ByteSet;
use profuzz::constraints::EthPayload;
use profuzz::constraints::Ipv4Payload;
use profuzz::constraints::set_mutation_constraints;
use profuzz::constraints::Layers;
use profuzz::constraints::MutationConstraints;
use profuzz::constraints::Payload;
use profuzz::constraints::Port;
use profuzz::constraints::Rpv;
use profuzz::constraints::RuleIpv4;
use profuzz::constraints::RuleLayer;
use profuzz::constraints::RulePacket;
use profuzz::constraints::RuleTcp;
use profuzz::constraints::RuleUpd;
use profuzz::constraints::RuleVlan;
use profuzz::constraints::VlanPayload;
use profuzz::dangerous_numbers::dangerous_number_at_index;
use profuzz::dangerous_numbers::dangerous_numbers_len;
use profuzz::error::ProFuzzError;
use profuzz::fuzz::stats::raise;
use profuzz::fuzz::stats::ExecsPerSecond;
use profuzz::fuzz::stats::SerializableInstant;
use profuzz::fuzz::stats::Stats;
use profuzz::dangerous_numbers::DangerousNumber;
use profuzz::mutator::Mutator;
use profuzz::output::Output;

#[test]
fn resume_refused() {
    match Output::init("out".to_string(), true, false) {
        Err(err) => {
            assert_eq!(err, ProFuzzError::AutoResumeNotEnabled);
            assert_eq!(
                err.message(),
                "Output directory already exists, please enable `AUTO_RESUME` to resume the session."
            );
        }
        Ok(_) => panic!("resumed without being asked to"),
    }
    assert!(Output::init("out".to_string(), true, true).is_ok());
    assert!(Output::init("out".to_string(), false, false).is_ok());
    assert!(Output::init("out".to_string(), false, true).is_ok());
}

#[test]
fn output_paths() {
    let output = Output::init("some/out".to_string(), false, false).expect("new");
    assert_eq!(output.get_crash_file(), "some/out/crashes.json");
    assert_eq!(output.get_crash_folder(), "some/out/crashes");
    // SHA-1 of "abc"
    assert_eq!(
        output.crash_path(b"abc"),
        "some/out/crashes/a9993e364706816aba3e25717850c26c9cd0d89d"
    );
    // SHA-1 of the empty buffer
    assert_eq!(
        output.crash_path(&[]),
        "some/out/crashes/da39a3ee5e6b4b0d3255bfef95601890afd80709"
    );
    assert_eq!(output.crash_path_for_digest(&[0x00, 0x0f, 0xa0, 0xff]), "some/out/crashes/000fa0ff");
}

#[test]
fn error_messages() {
    let custom = ProFuzzError::Custom { err_msg: "x".to_string() };
    assert_eq!(custom.message(), "x");
    let failed = ProFuzzError::ConnectionFailed { err_msg: "eth0".to_string() };
    assert_eq!(failed.message(), "Could not connect to eth0");
    assert_eq!(ProFuzzError::TransporterWrite.message(), "Could not write to the transport");
    assert_eq!(ProFuzzError::TransporterRead.message(), "Could not read from the transport");
    let command = ProFuzzError::CommandLineError { command: "fuzz".to_string() };
    assert_eq!(command.message(), "Command line error fuzz");
    let timeout = ProFuzzError::Timeout { elapsed: "deadline has elapsed".to_string() };
    assert_eq!(timeout.message(), "Run into a timeout deadline has elapsed.");
    assert!(timeout.is_timeout());
    assert!(!custom.is_timeout());
    assert_eq!(ProFuzzError::IoError { err: "io".to_string() }.message(), "io");
    assert_eq!(ProFuzzError::Serde { err: "json".to_string() }.message(), "json");
}

#[test]
fn byte_set_holds_each_string_once() {
    let mut set = ByteSet::new();
    assert_eq!(set.len(), 0);
    assert!(!set.contains(&[]));
    assert!(set.insert(vec![1, 2, 3]));
    assert!(!set.insert(vec![1, 2, 3]));
    assert!(set.insert(Vec::new()));
    assert!(set.insert(vec![1, 2]));
    assert!(set.insert(vec![3, 2, 1]));
    assert!(!set.insert(Vec::new()));
    assert_eq!(set.len(), 4);
    assert!(set.contains(&[1, 2, 3]));
    assert!(set.contains(&[]));
    assert!(!set.contains(&[1, 2, 3, 4]));
    for i in 0..2000u32 {
        assert!(set.insert(i.to_le_bytes().to_vec()));
    }
    for i in 0..2000u32 {
        assert!(set.contains(&i.to_le_bytes()));
        assert!(!set.insert(i.to_le_bytes().to_vec()));
    }
    assert_eq!(set.len(), 2004);
    assert!(same_bytes(&[1, 2], &[1, 2]));
    assert!(!same_bytes(&[1, 2], &[1, 3]));
    assert!(!same_bytes(&[1, 2], &[1]));
    assert!(same_bytes(&[], &[]));
}

#[test]
fn executions_per_second_is_a_sliding_window() {
    let mut counter = ExecsPerSecond::default();
    assert_eq!(counter.get(), 0);
    for _ in 0..5 {
        counter.add(0);
    }
    counter.add(99);
    counter.add(100);
    counter.add(950);
    assert_eq!(counter.get(), 8);
    // one second later the bucket of the first tenth is used again
    counter.add(1_050);
    assert_eq!(counter.get(), 3);
    // buckets older than a second are set to zero
    counter.reseter(1_100);
    assert_eq!(counter.get(), 2);
    counter.reseter(1_899);
    assert_eq!(counter.get(), 2);
    counter.reseter(1_900);
    assert_eq!(counter.get(), 1);
    counter.reseter(60_000);
    assert_eq!(counter.get(), 0);
    counter.add(60_000);
    counter.clear();
    assert_eq!(counter.get(), 0);
    let mut stats = Stats::default();
    stats.executions_per_second.add(7);
    assert_eq!(stats.snapshot().executions_per_second.get(), 1);
    assert_eq!(raise(usize::MAX - 1, 3), usize::MAX);
    assert_eq!(raise(1, 3), 4);
}

#[test]
fn stats_start_empty() {
    let stats = Stats::default();
    assert_eq!(stats.title, "");
    assert_eq!(stats.total_executions, 0);
    assert!(stats.started.is_none());
    assert!(!stats.running);
    assert_eq!(stats.cylcles_done, 0);
    assert_eq!(stats.total_crashes, 0);
    assert_eq!(stats.total_unique_responses, 0);
    assert_eq!(stats.corpus_count, 0);
    assert_eq!(stats.total_timeouts, 0);
    assert_eq!(stats.backoff_time, 0);
    let copy = stats.snapshot();
    assert_eq!(copy.title, stats.title);
}

#[test]
fn serializable_instant_wraps_an_instant() {
    let before = std::time::Instant::now();
    let now = SerializableInstant::now();
    let after = std::time::Instant::now();
    assert!(before <= now.into_inner());
    assert!(now.into_inner() <= after);
    assert_eq!(SerializableInstant::new(before).into_inner(), before);
}

#[test]
fn dangerous_numbers_by_width() {
    assert_eq!(dangerous_numbers_len(8), 4);
    assert_eq!(dangerous_numbers_len(16), 6);
    assert_eq!(dangerous_numbers_len(32), 6);
    assert_eq!(dangerous_numbers_len(64), 6);
    let of8: Vec<u64> = (0..4).map(|i| dangerous_number_at_index(8, i)).collect();
    assert_eq!(of8, vec![0x00, 0xff, 0x7f, 0x80]);
    let of16: Vec<u64> = (0..6).map(|i| dangerous_number_at_index(16, i)).collect();
    assert_eq!(of16, vec![0x0000, 0xffff, 0x7fff, 0x8000, 0xff7f, 0x0080]);
    let of32: Vec<u64> = (0..6).map(|i| dangerous_number_at_index(32, i)).collect();
    assert_eq!(of32, vec![0, 0xffff_ffff, 0x7fff_ffff, 0x8000_0000, 0xffff_ff7f, 0x0000_0080]);
    let of64: Vec<u64> = (0..6).map(|i| dangerous_number_at_index(64, i)).collect();
    assert_eq!(
        of64,
        vec![
            0,
            u64::MAX,
            0x7fff_ffff_ffff_ffff,
            0x8000_0000_0000_0000,
            0xffff_ffff_ffff_ff7f,
            0x0000_0000_0000_0080
        ]
    );
    assert_eq!(<u8 as DangerousNumber>::dangerous_numbers_len(), 4);
    assert_eq!(<u16 as DangerousNumber>::dangerous_number_at_index(4), 0xff7f);
    assert_eq!(<u32 as DangerousNumber>::dangerous_number_at_index(3), 0x8000_0000);
    assert_eq!(<u64 as DangerousNumber>::dangerous_number_at_index(1), u64::MAX);
    assert_eq!(<u8 as DangerousNumber>::width(), 8);
    assert_eq!(<u64 as DangerousNumber>::width(), 64);
    assert_eq!(0xabu8.to_pattern(), 0xab);
    assert_eq!(<u16 as DangerousNumber>::from_pattern(0xabcd), 0xabcd);
}

#[test]
fn rule_values() {
    let any: Rpv<u16> = Rpv::Any;
    assert!(any.is_any());
    assert!(!Rpv::Equal(3u16).is_any());
    assert_eq!(any.as_u16(), 1);
    assert_eq!(Rpv::Equal(7u16).as_u16(), 7);
    assert_eq!(Rpv::Contains(vec![13u16, 37]).as_u16(), 13);
    assert_eq!(Rpv::NotContains(vec![13u16, 37]).as_u16(), 50);
    assert_eq!(Rpv::NotContains(Vec::<u16>::new()).as_u16(), 0);
    let any: Rpv<usize> = Rpv::Any;
    assert_eq!(any.as_usize(), 1);
    assert_eq!(Rpv::Equal(7usize).as_usize(), 7);
    assert_eq!(Rpv::Contains(vec![5usize, 6]).as_usize(), 5);
    assert_eq!(Rpv::NotContains(vec![5usize, 6, 7]).as_usize(), 18);

    let any: Rpv<Port> = Rpv::Any;
    assert_eq!(any.as_port(), Some(9999));
    assert_eq!(Rpv::Equal(Port::Single(80)).as_port(), Some(80));
    assert_eq!(Rpv::Contains(vec![Port::Range(1000, 2000), Port::Single(1)]).as_port(), Some(1001));
    assert_eq!(Rpv::Contains(vec![Port::Single(53), Port::Range(1, 2)]).as_port(), Some(53));
    assert_eq!(Rpv::Contains(Vec::<Port>::new()).as_port(), None);

    let any: Rpv<String> = Rpv::Any;
    assert_eq!(any.as_mac_addr(), Some([0x3c, 0xce, 0x33, 0x33, 0x33, 0x33]));
    assert_eq!(
        Rpv::NotEqual("00:00:00:00:00:00".to_string()).as_mac_addr(),
        Some([0x3c, 0xce, 0x33, 0x33, 0x33, 0x33])
    );
    assert_eq!(
        Rpv::Equal("12:34:56:78:90:ab".to_string()).as_mac_addr(),
        Some([0x12, 0x34, 0x56, 0x78, 0x90, 0xab])
    );
    assert_eq!(Rpv::Equal("12:34:56".to_string()).as_mac_addr(), None);
    assert_eq!(
        Rpv::Contains(vec!["ff:ff:ff:ff:ff:ff".to_string(), "x".to_string()]).as_mac_addr(),
        Some([0xff; 6])
    );
    assert_eq!(Rpv::GreaterThan("00:00:00:00:00:00".to_string()).as_mac_addr(), None);
}

#[test]
fn rule_layers() {
    let udp = RuleUpd { sport: Rpv::Any, dport: Rpv::Equal(Port::Single(53)), payload: Payload::Any };
    let ipv4 = RuleIpv4 { payload: Ipv4Payload::Udp(udp.clone()), ..RuleIpv4::default() };
    let vlan = RuleVlan { id: Rpv::Contains(vec![13, 37]), payload: VlanPayload::Ipv4(ipv4.clone()) };
    let rule = RulePacket { eth_payload: EthPayload::Vlan(vlan.clone()), ..RulePacket::default() };
    assert!(matches!(rule.get_layer(&Layers::Ether), Some(RuleLayer::Ether(found)) if found == rule));
    assert!(matches!(rule.get_layer(&Layers::Vlan), Some(RuleLayer::Vlan(found)) if found == vlan));
    assert!(matches!(rule.get_layer(&Layers::Ipv4), Some(RuleLayer::Ipv4(found)) if found == ipv4));
    assert!(matches!(rule.get_layer(&Layers::Udp), Some(RuleLayer::Udp(found)) if found == udp));
    assert!(rule.get_layer(&Layers::Tcp).is_none());
    assert!(matches!(rule.get_layer(&Layers::Payload), Some(RuleLayer::Payload(Payload::Any))));
    assert!(rule.get_layer(&Layers::Other).is_none());

    let tcp = RuleTcp { sport: Rpv::Any, dport: Rpv::Any, payload: Payload::Any };
    let ipv4 = RuleIpv4 { payload: Ipv4Payload::Tcp(tcp.clone()), ..RuleIpv4::default() };
    let rule = RulePacket { eth_payload: EthPayload::Ipv4(ipv4), ..RulePacket::default() };
    assert!(rule.get_layer(&Layers::Vlan).is_none());
    assert!(matches!(rule.get_layer(&Layers::Tcp), Some(RuleLayer::Tcp(found)) if found == tcp));
    assert!(rule.get_layer(&Layers::Udp).is_none());

    let rule = RulePacket::default();
    assert!(rule.get_layer(&Layers::Ether).is_some());
    assert!(rule.get_layer(&Layers::Vlan).is_none());
    assert!(rule.get_layer(&Layers::Ipv4).is_none());
    assert!(rule.get_layer(&Layers::Payload).is_none());
    let rule = RulePacket {
        eth_payload: EthPayload::Vlan(RuleVlan { id: Rpv::Any, payload: VlanPayload::Any }),
        ..RulePacket::default()
    };
    assert!(rule.get_layer(&Layers::Vlan).is_some());
    assert!(rule.get_layer(&Layers::Ipv4).is_none());
    let copy = Rpv::Multiple(vec![Rpv::Equal(1u16), Rpv::Multiple(vec![Rpv::Any])]).clone();
    assert_eq!(copy, Rpv::Multiple(vec![Rpv::Equal(1u16), Rpv::Multiple(vec![Rpv::Any])]));
}

#[test]
fn constraints_are_picked_with_a_sticky_index() {
    let mut mutator = Mutator::new([0u8; 32]);
    let mut constraints = MutationConstraints::new();
    assert_eq!(constraints.len(), 0);
    let before = mutator.word_pos();
    assert!(constraints.pick(&mut mutator).is_none());
    assert_eq!(mutator.word_pos(), before);
    let rules: Vec<RulePacket> = (0..5u16)
        .map(|i| RulePacket { eth_type: Rpv::Equal(i), ..RulePacket::default() })
        .collect();
    assert!(set_mutation_constraints(&mut constraints, rules.clone()).is_ok());
    assert_eq!(constraints.len(), 5);
    let mut seen = [false; 5];
    let mut kept = 0;
    let mut last = None;
    for _ in 0..1000 {
        let rule = constraints.pick(&mut mutator).expect("a rule");
        let at = rules.iter().position(|r| *r == rule).expect("one of the rules");
        seen[at] = true;
        if last == Some(at) {
            kept += 1;
        }
        last = Some(at);
    }
    assert_eq!(seen, [true; 5]);
    // the index is kept with a chance of 0.6, and drawn again to the same
    // value with a chance of 0.4 in 5
    assert!(kept > 600 && kept < 760, "kept = {kept}");
    assert!(set_mutation_constraints(&mut constraints, Vec::new()).is_ok());
    assert!(constraints.pick(&mut mutator).is_none());
}

#[test]
fn signed_numbers_are_mutated_by_their_bit_pattern() {
    assert_eq!((-1i8).to_pattern(), 0xff);
    assert_eq!(i8::MIN.to_pattern(), 0x80);
    assert_eq!(<i8 as DangerousNumber>::from_pattern(0xff), -1);
    assert_eq!(<i16 as DangerousNumber>::from_pattern(0x8000), i16::MIN);
    assert_eq!((-2i32).to_pattern(), 0xffff_fffe);
    assert_eq!(<i64 as DangerousNumber>::from_pattern(u64::MAX), -1);
    assert_eq!(<i8 as DangerousNumber>::dangerous_number_at_index(1), -1);
    assert_eq!(<i8 as DangerousNumber>::dangerous_number_at_index(2), i8::MAX);
    assert_eq!(<i8 as DangerousNumber>::dangerous_number_at_index(3), i8::MIN);
    assert_eq!(<i16 as DangerousNumber>::dangerous_number_at_index(5), 0x0080);
    assert_eq!(<i32 as DangerousNumber>::dangerous_number_at_index(3), i32::MIN);
    assert_eq!(<i64 as DangerousNumber>::dangerous_number_at_index(2), i64::MAX);
    assert!(<i32 as DangerousNumber>::is_signed());
    assert!(!<u32 as DangerousNumber>::is_signed());
    let mut mutator = Mutator::new([9u8; 32]);
    let mut number: i16 = 0;
    let mut changed = false;
    for _ in 0..100 {
        let before = number;
        mutator.mutate(&mut number);
        if number != before {
            changed = true;
        }
    }
    assert!(changed);
}

#[test]
fn copies_of_rules_hold_the_same_values() {
    let udp = RuleUpd {
        sport: Rpv::Equal(Port::Single(53)),
        dport: Rpv::Any,
        payload: Payload::Any,
    };
    let ipv4 = RuleIpv4 {
        mf: Rpv::NotEqual(true),
        fragment_offset: Rpv::GreaterThan(3),
        ihl: Rpv::NotContains(vec![5, 6]),
        protocol: Rpv::Multiple(vec![Rpv::Equal(17), Rpv::Multiple(vec![Rpv::Any, Rpv::Contains(vec![6])])]),
        daddr: Rpv::Contains(vec![
            profuzz::constraints::Ipv4Address::Range("10.0.0.0".to_string(), "10.0.0.9".to_string()),
            profuzz::constraints::Ipv4Address::Single("10.1.1.1".to_string()),
        ]),
        saddr: Rpv::Equal(profuzz::constraints::Ipv4Address::Single("10.0.0.1".to_string())),
        payload: Ipv4Payload::Udp(udp),
    };
    let rule = RulePacket {
        eth_saddr: Rpv::Contains(vec!["12:34:56:78:90:ab".to_string(), "x".to_string()]),
        eth_daddr: Rpv::NotEqual("ff:ff:ff:ff:ff:ff".to_string()),
        eth_type: Rpv::Equal(0x8100),
        eth_payload: EthPayload::Vlan(RuleVlan {
            id: Rpv::Contains(vec![13, 37]),
            payload: VlanPayload::Ipv4(ipv4),
        }),
    };
    let copy = rule.clone();
    assert_eq!(copy, rule);
    assert_eq!(copy.eth_saddr, Rpv::Contains(vec!["12:34:56:78:90:ab".to_string(), "x".to_string()]));
    // the rule of the udp layer holds the ports of the nested rule
    match rule.get_layer(&Layers::Udp) {
        Some(RuleLayer::Udp(found)) => {
            assert_eq!(found.sport, Rpv::Equal(Port::Single(53)));
            assert_eq!(found.dport, Rpv::Any);
        }
        _ => panic!("no rule for udp"),
    }
    match rule.get_layer(&Layers::Ether) {
        Some(RuleLayer::Ether(found)) => assert_eq!(found, rule),
        _ => panic!("no rule for ethernet"),
    }
    match rule.get_layer(&Layers::Ipv4) {
        Some(RuleLayer::Ipv4(found)) => {
            assert_eq!(found.ihl, Rpv::NotContains(vec![5, 6]));
            assert_eq!(
                found.protocol,
                Rpv::Multiple(vec![Rpv::Equal(17), Rpv::Multiple(vec![Rpv::Any, Rpv::Contains(vec![6])])])
            );
            assert_eq!(found.mf, Rpv::NotEqual(true));
            assert_eq!(found.fragment_offset, Rpv::GreaterThan(3));
        }
        _ => panic!("no rule for ipv4"),
    }
    // a picked rule is one of the rules, value for value
    let mut constraints = MutationConstraints::new();
    assert!(set_mutation_constraints(&mut constraints, vec![rule.clone()]).is_ok());
    let mut mutator = Mutator::new([1u8; 32]);
    assert_eq!(constraints.pick(&mut mutator), Some(rule));
}
