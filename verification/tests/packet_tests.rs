use profuzz::constraints::EthPayload;
use profuzz::constraints::Ipv4Address;
use profuzz::constraints::Ipv4Payload;
use profuzz::constraints::Payload;
use profuzz::constraints::Port;
use profuzz::constraints::Rpv;
use profuzz::constraints::RuleIpv4;
use profuzz::constraints::RulePacket;
use profuzz::constraints::RuleTcp;
use profuzz::constraints::RuleUpd;
use profuzz::constraints::RuleVlan;
use profuzz::constraints::VlanPayload;
use profuzz::mutator::Mutator;
use profuzz::packet::ether_pins;
use profuzz::packet::ipv4_address_texts;
use profuzz::packet::ipv4_pins;
use profuzz::packet::mutate_ether;
use profuzz::packet::mutate_ipv4;
use profuzz::packet::mutate_payload;
use profuzz::packet::mutate_udp;
use profuzz::packet::mutate_vlan;
use profuzz::packet::udp_pins;
use profuzz::packet::vlan_pin;
use profuzz::packet::EtherHeader;
use profuzz::packet::EtherPins;
use profuzz::packet::Ipv4Header;
use profuzz::packet::Ipv4Pins;
use profuzz::packet::UdpHeader;
use profuzz::packet::UdpPins;
use profuzz::packet::VlanHeader;

fn udp_rule() -> RuleUpd {
    RuleUpd {
        sport: Rpv::Equal(Port::Single(53)),
        dport: Rpv::Contains(vec![Port::Range(1000, 2000)]),
        payload: Payload::Any,
    }
}

fn full_rule() -> RulePacket {
    let ipv4 = RuleIpv4 {
        saddr: Rpv::Equal(Ipv4Address::Single("10.0.0.1".to_string())),
        daddr: Rpv::Contains(vec![Ipv4Address::Range("10.0.0.0".to_string(), "10.0.0.9".to_string())]),
        payload: Ipv4Payload::Udp(udp_rule()),
        ..RuleIpv4::default()
    };
    RulePacket {
        eth_saddr: Rpv::Equal("12:34:56:78:90:ab".to_string()),
        eth_daddr: Rpv::Any,
        eth_type: Rpv::Equal(0x0800),
        eth_payload: EthPayload::Vlan(RuleVlan {
            id: Rpv::Contains(vec![13, 37]),
            payload: VlanPayload::Ipv4(ipv4),
        }),
    }
}

#[test]
fn pins_of_a_rule() {
    let rule = Some(full_rule());
    assert!(full_rule().is_usable());
    assert_eq!(
        ether_pins(&rule),
        EtherPins {
            destination: Some([0x3c, 0xce, 0x33, 0x33, 0x33, 0x33]),
            source: Some([0x12, 0x34, 0x56, 0x78, 0x90, 0xab]),
            ethertype: Some(0x0800),
        }
    );
    assert_eq!(vlan_pin(&rule), Some(13));
    assert_eq!(
        ipv4_address_texts(&rule),
        (Some("10.0.0.1".to_string()), Some("19.9.9.9".to_string()))
    );
    assert_eq!(
        ipv4_pins(&rule, Some([10, 0, 0, 1]), None),
        Ipv4Pins { source: Some([10, 0, 0, 1]), destination: None, next_level_protocol: Some(17) }
    );
    assert_eq!(udp_pins(&rule), UdpPins { source: Some(53), destination: Some(1001) });

    let none: Option<RulePacket> = None;
    assert_eq!(ether_pins(&none), EtherPins { destination: None, source: None, ethertype: None });
    assert_eq!(vlan_pin(&none), None);
    assert_eq!(ipv4_address_texts(&none), (None, None));
    assert_eq!(
        ipv4_pins(&none, None, None),
        Ipv4Pins { source: None, destination: None, next_level_protocol: None }
    );
    assert_eq!(udp_pins(&none), UdpPins { source: None, destination: None });

    // a rule that lets all be any pins the default address alone
    let any = Some(RulePacket::default());
    assert_eq!(
        ether_pins(&any),
        EtherPins {
            destination: Some([0x3c, 0xce, 0x33, 0x33, 0x33, 0x33]),
            source: Some([0x3c, 0xce, 0x33, 0x33, 0x33, 0x33]),
            ethertype: None,
        }
    );
    let tcp = RuleTcp { sport: Rpv::Any, dport: Rpv::Any, payload: Payload::Any };
    let over_tcp = Some(RulePacket {
        eth_payload: EthPayload::Ipv4(RuleIpv4 {
            payload: Ipv4Payload::Tcp(tcp),
            ..RuleIpv4::default()
        }),
        ..RulePacket::default()
    });
    assert_eq!(ipv4_pins(&over_tcp, None, None).next_level_protocol, Some(6));
    assert_eq!(ipv4_address_texts(&over_tcp), (None, None));
    assert_eq!(udp_pins(&over_tcp), UdpPins { source: None, destination: None });
}

#[test]
fn rules_that_no_mutation_can_work_with() {
    assert!(RulePacket::default().is_usable());
    let mut rule = full_rule();
    rule.eth_type = Rpv::GreaterThan(1);
    assert!(!rule.is_usable());
    let mut rule = full_rule();
    rule.eth_saddr = Rpv::Contains(Vec::new());
    assert!(!rule.is_usable());
    let mut rule = full_rule();
    rule.eth_type = Rpv::NotContains(vec![u16::MAX, 1]);
    assert!(!rule.is_usable());
    rule.eth_type = Rpv::NotContains(vec![u16::MAX - 1, 1]);
    assert!(rule.is_usable());
    let mut rule = full_rule();
    rule.eth_payload = EthPayload::Vlan(RuleVlan { id: Rpv::Contains(Vec::new()), payload: VlanPayload::Any });
    assert!(!rule.is_usable());
    let ipv4 = RuleIpv4 {
        payload: Ipv4Payload::Udp(RuleUpd {
            sport: Rpv::Contains(vec![Port::Range(u16::MAX, 0)]),
            dport: Rpv::Any,
            payload: Payload::Any,
        }),
        ..RuleIpv4::default()
    };
    let rule = RulePacket { eth_payload: EthPayload::Ipv4(ipv4), ..RulePacket::default() };
    assert!(!rule.is_usable());
    assert!(Rpv::Equal(Port::Single(1)).can_port());
    assert!(!Rpv::Equal(Port::Range(1, 2)).can_port());
    assert!(Rpv::Contains(Vec::<Port>::new()).can_port());
    assert!(Rpv::Equal(5u16).can_number());
    assert!(!Rpv::Contains(Vec::<u16>::new()).can_number());
    assert!(Rpv::Equal("x".to_string()).can_mac_addr());
}

#[test]
fn address_texts() {
    let any: Rpv<Ipv4Address> = Rpv::Any;
    assert_eq!(any.as_ipv4_text(), Some("99.99.99.99".to_string()));
    assert_eq!(
        Rpv::Equal(Ipv4Address::Single("1.2.3.4".to_string())).as_ipv4_text(),
        Some("1.2.3.4".to_string())
    );
    assert_eq!(
        Rpv::Contains(vec![Ipv4Address::Range("10.20.0.0".to_string(), "x".to_string())])
            .as_ipv4_text(),
        Some("19.29.9.9".to_string())
    );
    assert_eq!(Rpv::Contains(Vec::<Ipv4Address>::new()).as_ipv4_text(), None);
    assert_eq!(Rpv::Equal(Ipv4Address::Range("1".to_string(), "2".to_string())).as_ipv4_text(), None);
    assert_eq!(Rpv::NotEqual(Ipv4Address::Single("1.2.3.4".to_string())).as_ipv4_text(), None);
}

#[test]
fn pinned_fields_are_set_and_not_mutated() {
    let mut mutator = Mutator::new([0u8; 32]);
    let pins = EtherPins {
        destination: Some([1, 2, 3, 4, 5, 6]),
        source: None,
        ethertype: Some(0x8100),
    };
    let before = mutator.word_pos();
    for _ in 0..100 {
        let mut header = EtherHeader { destination: [0; 6], source: [9; 6], ethertype: 7 };
        mutate_ether(&mut header, &pins, &mut mutator);
        assert_eq!(header, EtherHeader { destination: [1, 2, 3, 4, 5, 6], source: [9; 6], ethertype: 0x8100 });
    }
    // nothing was drawn
    assert_eq!(mutator.word_pos(), before);

    for _ in 0..200 {
        let mut header = VlanHeader { vlan_identifier: 1, priority_code_point: 2, drop_eligible_indicator: 0 };
        mutate_vlan(&mut header, Some(37), &mut mutator);
        assert_eq!(header.vlan_identifier, 37);
        let mut header = Ipv4Header {
            version: 4,
            header_length: 5,
            dscp: 0,
            ecn: 0,
            total_length: 40,
            identification: 1,
            next_level_protocol: 1,
            source: [1, 1, 1, 1],
            destination: [2, 2, 2, 2],
        };
        let pins = Ipv4Pins {
            source: Some([10, 0, 0, 1]),
            destination: Some([10, 0, 0, 2]),
            next_level_protocol: Some(17),
        };
        mutate_ipv4(&mut header, &pins, &mut mutator);
        assert_eq!(header.source, [10, 0, 0, 1]);
        assert_eq!(header.destination, [10, 0, 0, 2]);
        assert_eq!(header.next_level_protocol, 17);
        let mut header = UdpHeader { source: 1, destination: 2, length: 8, checksum: 0 };
        mutate_udp(&mut header, &UdpPins { source: Some(53), destination: None }, &mut mutator);
        assert_eq!(header.source, 53);
    }
}

#[test]
fn free_fields_are_mutated_by_chance() {
    let mut mutator = Mutator::new([1u8; 32]);
    let free = EtherPins { destination: None, source: None, ethertype: None };
    let mut types = 0;
    for _ in 0..10_000 {
        let mut header = EtherHeader { destination: [1; 6], source: [2; 6], ethertype: 0x0800 };
        mutate_ether(&mut header, &free, &mut mutator);
        assert_eq!(header.destination, [1; 6]);
        assert_eq!(header.source, [2; 6]);
        if header.ethertype != 0x0800 {
            types += 1;
        }
    }
    // a chance of 1 in 10
    assert!(types > 800 && types < 1200, "types = {types}");

    let free = Ipv4Pins { source: None, destination: None, next_level_protocol: None };
    let start = Ipv4Header {
        version: 4,
        header_length: 5,
        dscp: 0,
        ecn: 0,
        total_length: 40,
        identification: 1,
        next_level_protocol: 17,
        source: [1, 1, 1, 1],
        destination: [2, 2, 2, 2],
    };
    let mut sources = 0;
    let mut identifications = 0;
    let mut versions = 0;
    for _ in 0..10_000 {
        let mut header = start;
        mutate_ipv4(&mut header, &free, &mut mutator);
        if header.source != start.source {
            sources += 1;
        }
        if header.identification != start.identification {
            identifications += 1;
        }
        if header.version != start.version {
            versions += 1;
        }
    }
    assert!(sources > 3_700 && sources < 4_300, "sources = {sources}");
    assert!(identifications > 4_700 && identifications < 5_300, "identifications = {identifications}");
    assert!(versions < 40, "versions = {versions}");

    // a pinned destination port is mutated unless a chance of 1 in 100 occurs
    let mut kept = 0;
    for _ in 0..10_000 {
        let mut header = UdpHeader { source: 1, destination: 2, length: 8, checksum: 0 };
        mutate_udp(&mut header, &UdpPins { source: None, destination: Some(80) }, &mut mutator);
        if header.destination == 80 {
            kept += 1;
        }
    }
    assert!(kept < 300, "kept = {kept}");
}

#[test]
fn payload_changes_its_length() {
    let mut mutator = Mutator::new([2u8; 32]);
    let mut kept = 0;
    let mut short = 0;
    let mut long = 0;
    for _ in 0..10_000 {
        let mut payload: Vec<u8> = (1..=60).collect();
        mutate_payload(&mut payload, &mut mutator);
        assert!(payload.len() < 1000);
        for (i, byte) in payload.iter().enumerate() {
            // what stays is as it was, what is added is zero
            assert_eq!(*byte as usize, if i < 60 { i + 1 } else { 0 });
        }
        if payload.len() == 60 {
            kept += 1;
        } else if payload.len() < 50 {
            short += 1;
        } else {
            long += 1;
        }
    }
    assert!(kept > 4_600 && kept < 5_300, "kept = {kept}");
    assert!(short > 4_600 && short < 5_300, "short = {short}");
    assert!(long > 40 && long < 200, "long = {long}");
}

/// Whether `after` is what one mutation can make of a byte.
fn one_mutation_of_byte(before: u8, after: u8) -> bool {
    let dangerous = (0..profuzz::dangerous_numbers::dangerous_numbers_len(8))
        .any(|i| profuzz::dangerous_numbers::dangerous_number_at_index(8, i) == u64::from(after));
    let bit_flip = (before ^ after).count_ones() == 1;
    let flip = after == !before;
    let arithmetic = (1..=16).contains(&after.wrapping_sub(before))
        || (1..=16).contains(&before.wrapping_sub(after));
    dangerous || bit_flip || flip || arithmetic
}

/// Whether `after` is what one mutation can make of a number of 16 bits.
fn one_mutation_of_short(before: u16, after: u16) -> bool {
    let dangerous = (0..profuzz::dangerous_numbers::dangerous_numbers_len(16))
        .any(|i| profuzz::dangerous_numbers::dangerous_number_at_index(16, i) == u64::from(after));
    let bit_flip = (before ^ after).count_ones() == 1;
    let flip = after == !before;
    let arithmetic = (1..=16).contains(&after.wrapping_sub(before))
        || (1..=16).contains(&before.wrapping_sub(after));
    dangerous || bit_flip || flip || arithmetic
}

#[test]
fn free_fields_are_one_mutation_away() {
    let mut mutator = Mutator::new([5u8; 32]);
    let mut changed = 0;
    for round in 0..5_000u16 {
        let before = VlanHeader {
            vlan_identifier: round,
            priority_code_point: (round % 251) as u8,
            drop_eligible_indicator: 1,
        };
        let mut header = before;
        mutate_vlan(&mut header, None, &mut mutator);
        for (old, new) in [
            (before.priority_code_point, header.priority_code_point),
            (before.drop_eligible_indicator, header.drop_eligible_indicator),
        ] {
            assert!(new == old || one_mutation_of_byte(old, new), "{old:#x} -> {new:#x}");
        }
        let (old, new) = (before.vlan_identifier, header.vlan_identifier);
        assert!(new == old || one_mutation_of_short(old, new), "{old:#x} -> {new:#x}");
        if header != before {
            changed += 1;
        }

        let before = UdpHeader { source: round, destination: 7, length: 8, checksum: round ^ 0x5a5a };
        let mut header = before;
        let pins = UdpPins { source: None, destination: Some(4000) };
        mutate_udp(&mut header, &pins, &mut mutator);
        assert!(header.source == before.source || one_mutation_of_short(before.source, header.source));
        // a pinned destination port is its pin or one mutation of the pin
        assert!(header.destination == 4000 || one_mutation_of_short(4000, header.destination));
        assert!(header.length == 8 || one_mutation_of_short(8, header.length));
        assert!(
            header.checksum == before.checksum
                || one_mutation_of_short(before.checksum, header.checksum)
        );

        let before = Ipv4Header {
            version: 4,
            header_length: 5,
            dscp: 0,
            ecn: 0,
            total_length: round,
            identification: 1,
            next_level_protocol: 17,
            source: [10, 0, 0, 1],
            destination: [10, 0, 0, 2],
        };
        let mut header = before;
        let pins = Ipv4Pins { source: None, destination: Some([1, 2, 3, 4]), next_level_protocol: None };
        mutate_ipv4(&mut header, &pins, &mut mutator);
        assert_eq!(header.destination, [1, 2, 3, 4]);
        for i in 0..4 {
            let (old, new) = (before.source[i], header.source[i]);
            assert!(new == old || one_mutation_of_byte(old, new), "{old:#x} -> {new:#x}");
        }
        for (old, new) in [
            (before.version, header.version),
            (before.header_length, header.header_length),
            (before.dscp, header.dscp),
            (before.ecn, header.ecn),
            (before.next_level_protocol, header.next_level_protocol),
        ] {
            assert!(new == old || one_mutation_of_byte(old, new), "{old:#x} -> {new:#x}");
        }
    }
    assert!(changed > 3_000, "changed = {changed}");
}

#[test]
fn payload_length_is_drawn_below_its_bounds() {
    let mut mutator = Mutator::new([8u8; 32]);
    let mut grown = 0;
    for _ in 0..20_000 {
        let mut payload = vec![0xaau8; 1200];
        mutate_payload(&mut payload, &mut mutator);
        // a payload that is longer than any drawn length is kept or cut
        assert!(payload.len() == 1200 || payload.len() < 1000, "len = {}", payload.len());
        assert!(payload.iter().all(|byte| *byte == 0xaa));
        let mut payload: Vec<u8> = Vec::new();
        mutate_payload(&mut payload, &mut mutator);
        assert!(payload.len() < 1000);
        assert!(payload.iter().all(|byte| *byte == 0));
        if payload.len() >= 50 {
            grown += 1;
        }
    }
    assert!(grown > 100 && grown < 320, "grown = {grown}");
}
