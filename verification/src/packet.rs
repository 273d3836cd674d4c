//! Mutation of the headers of a network packet: ethernet, vlan, ipv4, udp
//! and payload. A rule can pin fields to values; a pinned field is set to
//! its value and not mutated.
//!
//! The headers are plain values here. Reading them from a packet and
//! writing them back is left to the caller.

use crate::constraints::Ipv4Payload;
use crate::constraints::Port;
use crate::constraints::Rpv;
use crate::constraints::RuleIpv4;
use crate::constraints::RulePacket;
use crate::mutator;
use crate::mutator::Mutator;
use crate::mutator::MutatorView;
use vstd::prelude::*;

verus! {

/// The protocol number of UDP in an ipv4 header.
pub const PROTOCOL_UDP: u8 = 17;

/// The protocol number of TCP in an ipv4 header.
pub const PROTOCOL_TCP: u8 = 6;

/// The fields of an ethernet header.
#[derive(Debug, Clone, Copy, PartialEq, Eq)]
pub struct EtherHeader {
    /// destination address
    pub destination: [u8; 6],
    /// source address
    pub source: [u8; 6],
    /// ethernet type
    pub ethertype: u16,
}

/// The fields of a vlan header.
#[derive(Debug, Clone, Copy, PartialEq, Eq)]
pub struct VlanHeader {
    /// vlan id
    pub vlan_identifier: u16,
    /// priority
    pub priority_code_point: u8,
    /// drop eligible indicator
    pub drop_eligible_indicator: u8,
}

/// The fields of an ipv4 header that are mutated.
#[derive(Debug, Clone, Copy, PartialEq, Eq)]
pub struct Ipv4Header {
    /// version
    pub version: u8,
    /// header length
    pub header_length: u8,
    /// differentiated services code point
    pub dscp: u8,
    /// explicit congestion notification
    pub ecn: u8,
    /// total length
    pub total_length: u16,
    /// identification
    pub identification: u16,
    /// protocol of the next level
    pub next_level_protocol: u8,
    /// source address
    pub source: [u8; 4],
    /// destination address
    pub destination: [u8; 4],
}

/// The fields of a udp header.
#[derive(Debug, Clone, Copy, PartialEq, Eq)]
pub struct UdpHeader {
    /// source port
    pub source: u16,
    /// destination port
    pub destination: u16,
    /// length
    pub length: u16,
    /// checksum
    pub checksum: u16,
}

/// The values that a rule pins the fields of an ethernet header to.
#[derive(Debug, Clone, Copy, PartialEq, Eq)]
pub struct EtherPins {
    /// destination address
    pub destination: Option<[u8; 6]>,
    /// source address
    pub source: Option<[u8; 6]>,
    /// ethernet type
    pub ethertype: Option<u16>,
}

/// The values that a rule pins the fields of an ipv4 header to.
#[derive(Debug, Clone, Copy, PartialEq, Eq)]
pub struct Ipv4Pins {
    /// source address
    pub source: Option<[u8; 4]>,
    /// destination address
    pub destination: Option<[u8; 4]>,
    /// protocol of the next level
    pub next_level_protocol: Option<u8>,
}

/// The values that a rule pins the fields of a udp header to.
#[derive(Debug, Clone, Copy, PartialEq, Eq)]
pub struct UdpPins {
    /// source port
    pub source: Option<u16>,
    /// destination port
    pub destination: Option<u16>,
}

/// A field after its turn in a mutation: set to its pin if it has one, else
/// mutated with the given chance.
pub open spec fn turn_u16(
    field: u16,
    pin: Option<u16>,
    chance: (u32, u32),
    mutator: MutatorView,
) -> (u16, MutatorView) {
    match pin {
        Some(value) => (value, mutator),
        None => chance_u16(field, chance, mutator),
    }
}

/// A number of 16 bits after a mutation that takes place with the given
/// chance.
pub open spec fn chance_u16(field: u16, chance: (u32, u32), mutator: MutatorView) -> (
    u16,
    MutatorView,
) {
    let gate = mutator.chance(chance.0, chance.1);
    if gate.0 {
        gate.1.mutate_u16(field)
    } else {
        (field, gate.1)
    }
}

/// A byte after a mutation that takes place with the given chance.
pub open spec fn chance_u8(field: u8, chance: (u32, u32), mutator: MutatorView) -> (
    u8,
    MutatorView,
) {
    let gate = mutator.chance(chance.0, chance.1);
    if gate.0 {
        gate.1.mutate_u8(field)
    } else {
        (field, gate.1)
    }
}

/// An ipv4 address with its bytes mutated, one after the other.
pub open spec fn address_mutated(address: [u8; 4], mutator: MutatorView) -> (
    [u8; 4],
    MutatorView,
) {
    let first = mutator.mutate_u8(address[0]);
    let second = first.1.mutate_u8(address[1]);
    let third = second.1.mutate_u8(address[2]);
    let fourth = third.1.mutate_u8(address[3]);
    ([first.0, second.0, third.0, fourth.0], fourth.1)
}

/// An ipv4 address after its turn in a mutation: set to its pin if it has
/// one, else all its bytes are mutated with the given chance.
pub open spec fn turn_address(
    address: [u8; 4],
    pin: Option<[u8; 4]>,
    chance: (u32, u32),
    mutator: MutatorView,
) -> ([u8; 4], MutatorView) {
    match pin {
        Some(value) => (value, mutator),
        None => {
            let gate = mutator.chance(chance.0, chance.1);
            if gate.0 {
                address_mutated(address, gate.1)
            } else {
                (address, gate.1)
            }
        },
    }
}

/// Whether a byte is as it was, or is what one mutation can make of it.
pub open spec fn byte_turned(before: u8, after: u8) -> bool {
    after == before || mutator::one_mutation(before as u64, after as u64, 8, false)
}

/// Whether a number of 16 bits is as it was, or is what one mutation can
/// make of it.
pub open spec fn short_turned(before: u16, after: u16) -> bool {
    after == before || mutator::one_mutation(before as u64, after as u64, 16, false)
}

/// Whether each byte of an address is as it was, or is what one mutation
/// can make of it.
pub open spec fn address_turned(before: [u8; 4], after: [u8; 4]) -> bool {
    forall|i: int| 0 <= i < 4 ==> byte_turned(before[i], #[trigger] after[i])
}

/// Mutates a number of 16 bits with the given chance.
fn mutate_u16_with_chance(field: &mut u16, numerator: u32, denominator: u32, mutator: &mut Mutator)
    ensures
        (*final(field), final(mutator)@) == chance_u16(
            *old(field),
            (numerator, denominator),
            old(mutator)@,
        ),
        short_turned(*old(field), *final(field)),
{
    if mutator.gen_chance(numerator, denominator) {
        *field = mutator.mutated_u16(*field);
    }
}

/// Mutates a byte with the given chance.
fn mutate_u8_with_chance(field: &mut u8, numerator: u32, denominator: u32, mutator: &mut Mutator)
    ensures
        (*final(field), final(mutator)@) == chance_u8(
            *old(field),
            (numerator, denominator),
            old(mutator)@,
        ),
        byte_turned(*old(field), *final(field)),
{
    if mutator.gen_chance(numerator, denominator) {
        *field = mutator.mutated_u8(*field);
    }
}

/// Sets a number of 16 bits to its pin, or mutates it with the given chance.
fn turn_of_u16(
    field: &mut u16,
    pin: Option<u16>,
    numerator: u32,
    denominator: u32,
    mutator: &mut Mutator,
)
    ensures
        (*final(field), final(mutator)@) == turn_u16(
            *old(field),
            pin,
            (numerator, denominator),
            old(mutator)@,
        ),
        match pin {
            Some(value) => *final(field) == value,
            None => short_turned(*old(field), *final(field)),
        },
{
    match pin {
        Some(value) => {
            *field = value;
        },
        None => {
            mutate_u16_with_chance(field, numerator, denominator, mutator);
        },
    }
}

/// Sets an ipv4 address to its pin, or mutates its bytes with the given
/// chance.
fn turn_of_address(
    address: &mut [u8; 4],
    pin: Option<[u8; 4]>,
    numerator: u32,
    denominator: u32,
    mutator: &mut Mutator,
)
    ensures
        (*final(address), final(mutator)@) == turn_address(
            *old(address),
            pin,
            (numerator, denominator),
            old(mutator)@,
        ),
        match pin {
            Some(value) => *final(address) == value,
            None => address_turned(*old(address), *final(address)),
        },
{
    match pin {
        Some(value) => {
            *address = value;
        },
        None => {
            if mutator.gen_chance(numerator, denominator) {
                let first = mutator.mutated_u8(address[0]);
                let second = mutator.mutated_u8(address[1]);
                let third = mutator.mutated_u8(address[2]);
                let fourth = mutator.mutated_u8(address[3]);
                let mutated = [first, second, third, fourth];
                *address = mutated;
            }
        },
    }
}

/// An ethernet header after a mutation: the addresses are set to their
/// pins; the type is set to its pin, or mutated with a chance of 1 in 10.
pub open spec fn ether_mutated(header: EtherHeader, pins: EtherPins, mutator: MutatorView) -> (
    EtherHeader,
    MutatorView,
) {
    let ethertype = turn_u16(header.ethertype, pins.ethertype, (1, 10), mutator);
    (
        EtherHeader {
            destination: match pins.destination {
                Some(address) => address,
                None => header.destination,
            },
            source: match pins.source {
                Some(address) => address,
                None => header.source,
            },
            ethertype: ethertype.0,
        },
        ethertype.1,
    )
}

/// Mutates an ethernet header. Whatever is drawn, a type that is not pinned
/// is as it was or one mutation of it.
pub fn mutate_ether(header: &mut EtherHeader, pins: &EtherPins, mutator: &mut Mutator)
    ensures
        (*final(header), final(mutator)@) == ether_mutated(*old(header), *pins, old(mutator)@),
        pins.ethertype is None ==> short_turned(old(header).ethertype, final(header).ethertype),
{
    match pins.destination {
        Some(address) => {
            header.destination = address;
        },
        None => {},
    }
    match pins.source {
        Some(address) => {
            header.source = address;
        },
        None => {},
    }
    let mut ethertype = header.ethertype;
    turn_of_u16(&mut ethertype, pins.ethertype, 1, 10, mutator);
    header.ethertype = ethertype;
}

/// A vlan header after a mutation: the id is set to its pin, or mutated
/// with a chance of 1 in 2; the priority and the drop eligible indicator are
/// mutated with a chance of 1 in 2 each.
pub open spec fn vlan_mutated(header: VlanHeader, id: Option<u16>, mutator: MutatorView) -> (
    VlanHeader,
    MutatorView,
) {
    let vlan_identifier = turn_u16(header.vlan_identifier, id, (1, 2), mutator);
    let priority = chance_u8(header.priority_code_point, (1, 2), vlan_identifier.1);
    let indicator = chance_u8(header.drop_eligible_indicator, (1, 2), priority.1);
    (
        VlanHeader {
            vlan_identifier: vlan_identifier.0,
            priority_code_point: priority.0,
            drop_eligible_indicator: indicator.0,
        },
        indicator.1,
    )
}

/// Mutates a vlan header. Whatever is drawn, each field that is not pinned
/// is as it was or one mutation of it.
pub fn mutate_vlan(header: &mut VlanHeader, id: Option<u16>, mutator: &mut Mutator)
    ensures
        (*final(header), final(mutator)@) == vlan_mutated(*old(header), id, old(mutator)@),
        id is None ==> short_turned(old(header).vlan_identifier, final(header).vlan_identifier),
        byte_turned(old(header).priority_code_point, final(header).priority_code_point),
        byte_turned(old(header).drop_eligible_indicator, final(header).drop_eligible_indicator),
{
    let mut vlan_identifier = header.vlan_identifier;
    turn_of_u16(&mut vlan_identifier, id, 1, 2, mutator);
    let mut priority = header.priority_code_point;
    mutate_u8_with_chance(&mut priority, 1, 2, mutator);
    let mut indicator = header.drop_eligible_indicator;
    mutate_u8_with_chance(&mut indicator, 1, 2, mutator);
    header.vlan_identifier = vlan_identifier;
    header.priority_code_point = priority;
    header.drop_eligible_indicator = indicator;
}

/// The protocol of an ipv4 header after its turn in a mutation: set to its
/// pin if it has one, else mutated with a chance of 1 in 100.
pub open spec fn protocol_turn(field: u8, pin: Option<u8>, mutator: MutatorView) -> (
    u8,
    MutatorView,
) {
    match pin {
        Some(value) => (value, mutator),
        None => chance_u8(field, (1, 100), mutator),
    }
}

/// An ipv4 header after a mutation. In this order: the protocol is set to
/// its pin or mutated (1 in 100); the source address is set to its pin or
/// mutated (2 in 5); the destination address is set to its pin or mutated
/// (1 in 10); then version (1 in 1000), header length (1 in 100), dscp (1
/// in 5), ecn (1 in 5), total length (1 in 100) and identification (1 in 2)
/// are mutated.
pub open spec fn ipv4_mutated(header: Ipv4Header, pins: Ipv4Pins, mutator: MutatorView) -> (
    Ipv4Header,
    MutatorView,
) {
    let protocol = protocol_turn(header.next_level_protocol, pins.next_level_protocol, mutator);
    let source = turn_address(header.source, pins.source, (2, 5), protocol.1);
    let destination = turn_address(header.destination, pins.destination, (1, 10), source.1);
    let version = chance_u8(header.version, (1, 1000), destination.1);
    let header_length = chance_u8(header.header_length, (1, 100), version.1);
    let dscp = chance_u8(header.dscp, (1, 5), header_length.1);
    let ecn = chance_u8(header.ecn, (1, 5), dscp.1);
    let total_length = chance_u16(header.total_length, (1, 100), ecn.1);
    let identification = chance_u16(header.identification, (1, 2), total_length.1);
    (
        Ipv4Header {
            version: version.0,
            header_length: header_length.0,
            dscp: dscp.0,
            ecn: ecn.0,
            total_length: total_length.0,
            identification: identification.0,
            next_level_protocol: protocol.0,
            source: source.0,
            destination: destination.0,
        },
        identification.1,
    )
}

/// Mutates an ipv4 header. Whatever is drawn, each field that is not pinned
/// is as it was or one mutation of it, and so is each byte of an address
/// that is not pinned.
pub fn mutate_ipv4(header: &mut Ipv4Header, pins: &Ipv4Pins, mutator: &mut Mutator)
    ensures
        (*final(header), final(mutator)@) == ipv4_mutated(*old(header), *pins, old(mutator)@),
        pins.next_level_protocol is None ==> byte_turned(
            old(header).next_level_protocol,
            final(header).next_level_protocol,
        ),
        pins.source is None ==> address_turned(old(header).source, final(header).source),
        pins.destination is None ==> address_turned(
            old(header).destination,
            final(header).destination,
        ),
        byte_turned(old(header).version, final(header).version),
        byte_turned(old(header).header_length, final(header).header_length),
        byte_turned(old(header).dscp, final(header).dscp),
        byte_turned(old(header).ecn, final(header).ecn),
        short_turned(old(header).total_length, final(header).total_length),
        short_turned(old(header).identification, final(header).identification),
{
    let mut protocol = header.next_level_protocol;
    match pins.next_level_protocol {
        Some(value) => {
            protocol = value;
        },
        None => {
            mutate_u8_with_chance(&mut protocol, 1, 100, mutator);
        },
    }
    let mut source = header.source;
    turn_of_address(&mut source, pins.source, 2, 5, mutator);
    let mut destination = header.destination;
    turn_of_address(&mut destination, pins.destination, 1, 10, mutator);
    let mut version = header.version;
    mutate_u8_with_chance(&mut version, 1, 1000, mutator);
    let mut header_length = header.header_length;
    mutate_u8_with_chance(&mut header_length, 1, 100, mutator);
    let mut dscp = header.dscp;
    mutate_u8_with_chance(&mut dscp, 1, 5, mutator);
    let mut ecn = header.ecn;
    mutate_u8_with_chance(&mut ecn, 1, 5, mutator);
    let mut total_length = header.total_length;
    mutate_u16_with_chance(&mut total_length, 1, 100, mutator);
    let mut identification = header.identification;
    mutate_u16_with_chance(&mut identification, 1, 2, mutator);
    header.next_level_protocol = protocol;
    header.source = source;
    header.destination = destination;
    header.version = version;
    header.header_length = header_length;
    header.dscp = dscp;
    header.ecn = ecn;
    header.total_length = total_length;
    header.identification = identification;
}

/// The destination port of a udp header after its turn. A port that is
/// not pinned is mutated with a chance of 1 in 100; a pinned port is set to
/// its pin and then mutated with a chance of 99 in 100.
pub open spec fn destination_turn(field: u16, pin: Option<u16>, mutator: MutatorView) -> (
    u16,
    MutatorView,
) {
    let gate = mutator.chance(1, 100);
    match pin {
        Some(value) => if gate.0 {
            (value, gate.1)
        } else {
            gate.1.mutate_u16(value)
        },
        None => if gate.0 {
            gate.1.mutate_u16(field)
        } else {
            (field, gate.1)
        },
    }
}

/// A udp header after a mutation. In this order: the source port is set
/// to its pin or mutated (2 in 5); the destination port has its turn; the
/// length (1 in 100) and the checksum (1 in 1000) are mutated.
pub open spec fn udp_mutated(header: UdpHeader, pins: UdpPins, mutator: MutatorView) -> (
    UdpHeader,
    MutatorView,
) {
    let source = turn_u16(header.source, pins.source, (2, 5), mutator);
    let destination = destination_turn(header.destination, pins.destination, source.1);
    let length = chance_u16(header.length, (1, 100), destination.1);
    let checksum = chance_u16(header.checksum, (1, 1000), length.1);
    (
        UdpHeader {
            source: source.0,
            destination: destination.0,
            length: length.0,
            checksum: checksum.0,
        },
        checksum.1,
    )
}

/// Mutates a udp header. Whatever is drawn, each field that is not pinned
/// is as it was or one mutation of it, and a pinned destination port is its
/// pin or one mutation of the pin.
pub fn mutate_udp(header: &mut UdpHeader, pins: &UdpPins, mutator: &mut Mutator)
    ensures
        (*final(header), final(mutator)@) == udp_mutated(*old(header), *pins, old(mutator)@),
        pins.source is None ==> short_turned(old(header).source, final(header).source),
        match pins.destination {
            Some(value) => short_turned(value, final(header).destination),
            None => short_turned(old(header).destination, final(header).destination),
        },
        short_turned(old(header).length, final(header).length),
        short_turned(old(header).checksum, final(header).checksum),
{
    let mut source = header.source;
    turn_of_u16(&mut source, pins.source, 2, 5, mutator);
    let mut destination = match pins.destination {
        Some(value) => value,
        None => header.destination,
    };
    let mutate_dst_port = pins.destination.is_none();
    if mutate_dst_port == mutator.gen_chance(1, 100) {
        destination = mutator.mutated_u16(destination);
    }
    let mut length = header.length;
    mutate_u16_with_chance(&mut length, 1, 100, mutator);
    let mut checksum = header.checksum;
    mutate_u16_with_chance(&mut checksum, 1, 1000, mutator);
    header.source = source;
    header.destination = destination;
    header.length = length;
    header.checksum = checksum;
}

/// The length of a payload after a mutation, and the state that drawing it
/// leaves the mutator in: with a chance of 1 in 100 a length below 1000,
/// else with a chance of 1 in 2 a length below 50, else the length it has.
pub open spec fn payload_size(len: usize, mutator: MutatorView) -> (usize, MutatorView) {
    let long = mutator.chance(1, 100);
    if long.0 {
        long.1.range(0, 1000)
    } else {
        let short = long.1.chance(1, 2);
        if short.0 {
            short.1.range(0, 50)
        } else {
            (len, short.1)
        }
    }
}

/// A payload at another length: cut, or filled up with zeros.
pub open spec fn resized(payload: Seq<u8>, len: nat) -> Seq<u8> {
    Seq::new(
        len,
        |i: int|
            if i < payload.len() {
                payload[i]
            } else {
                0u8
            },
    )
}

/// Mutates a payload: its length changes. Whatever is drawn, the new length
/// lies below 1000 where the first gate opened, below 50 where the second
/// did, and is the old length where neither did.
pub fn mutate_payload(payload: &mut Vec<u8>, mutator: &mut Mutator)
    ensures
        final(mutator)@ == payload_size(old(payload)@.len() as usize, old(mutator)@).1,
        final(payload)@ == resized(
            old(payload)@,
            payload_size(old(payload)@.len() as usize, old(mutator)@).0 as nat,
        ),
        ({
            let long = old(mutator)@.chance(1, 100);
            if long.0 {
                final(payload)@.len() < 1000
            } else if long.1.chance(1, 2).0 {
                final(payload)@.len() < 50
            } else {
                final(payload)@ == old(payload)@
            }
        }),
        final(payload)@.len() < 1000 || final(payload)@ == old(payload)@,
{
    let len = payload.len();
    let size = if mutator.gen_chance(1, 100) {
        mutator.gen_range(0, 1000)
    } else if mutator.gen_chance(1, 2) {
        mutator.gen_range(0, 50)
    } else {
        len
    };
    if size <= len {
        payload.truncate(size);
    } else {
        let mut i: usize = len;
        while i < size
            invariant
                len <= i <= size,
                payload@ == resized(old(payload)@, i as nat),
                len == old(payload)@.len(),
            decreases size - i,
        {
            payload.push(0);
            i = i + 1;
        }
    }
}

/// The values that a rule pins the fields of an ethernet header to: the
/// addresses that the rule has, and its type unless that may be any.
pub open spec fn ether_pins_of(rule: Option<RulePacket>) -> EtherPins {
    match rule {
        None => EtherPins { destination: None, source: None, ethertype: None },
        Some(rule) => EtherPins {
            destination: rule.eth_daddr.mac(),
            source: rule.eth_saddr.mac(),
            ethertype: if rule.eth_type is Any {
                None
            } else {
                Some(rule.eth_type.number() as u16)
            },
        },
    }
}

/// The value that a rule pins the id of a vlan header to.
pub open spec fn vlan_pin_of(rule: Option<RulePacket>) -> Option<u16> {
    match rule {
        Some(rule) => match rule.vlan() {
            Some(vlan) => if vlan.id is Any {
                None
            } else {
                Some(vlan.id.number() as u16)
            },
            None => None,
        },
        None => None,
    }
}

/// The protocol that a rule pins the next level of an ipv4 header to: that
/// of the rule below its ipv4 rule.
pub open spec fn protocol_pin_of(rule: Option<RulePacket>) -> Option<u8> {
    match rule {
        Some(rule) => match rule.ipv4() {
            Some(RuleIpv4 { payload: Ipv4Payload::Udp(_), .. }) => Some(PROTOCOL_UDP),
            Some(RuleIpv4 { payload: Ipv4Payload::Tcp(_), .. }) => Some(PROTOCOL_TCP),
            _ => None,
        },
        None => None,
    }
}

/// The texts of the addresses that a rule pins an ipv4 header to, source
/// first: those of its ipv4 rule, unless they may be any.
pub open spec fn address_texts_of(rule: Option<RulePacket>) -> (
    Option<Seq<char>>,
    Option<Seq<char>>,
) {
    match rule {
        Some(rule) => match rule.ipv4() {
            Some(ipv4) => (
                if ipv4.saddr is Any {
                    None
                } else {
                    ipv4.saddr.ipv4_text()
                },
                if ipv4.daddr is Any {
                    None
                } else {
                    ipv4.daddr.ipv4_text()
                },
            ),
            None => (None, None),
        },
        None => (None, None),
    }
}

/// A port that a rule pins a field to, unless it may be any.
pub open spec fn port_pin_of(port: Rpv<Port>) -> Option<u16> {
    if port is Any {
        None
    } else {
        port.port()
    }
}

/// The values that a rule pins the ports of a udp header to.
pub open spec fn udp_pins_of(rule: Option<RulePacket>) -> UdpPins {
    match rule {
        Some(rule) => match rule.udp() {
            Some(udp) => UdpPins {
                source: port_pin_of(udp.sport),
                destination: port_pin_of(udp.dport),
            },
            None => UdpPins { source: None, destination: None },
        },
        None => UdpPins { source: None, destination: None },
    }
}

/// The text of a pinned text.
pub open spec fn text_of(text: Option<String>) -> Option<Seq<char>> {
    match text {
        Some(text) => Some(text@),
        None => None,
    }
}

/// Computes the values that a rule pins the fields of an ethernet header
/// to.
pub fn ether_pins(rule: &Option<RulePacket>) -> (pins: EtherPins)
    requires
        *rule matches Some(packet) ==> packet.usable(),
    ensures
        pins == ether_pins_of(*rule),
{
    match rule {
        None => EtherPins { destination: None, source: None, ethertype: None },
        Some(rule) => EtherPins {
            destination: rule.eth_daddr.as_mac_addr(),
            source: rule.eth_saddr.as_mac_addr(),
            ethertype: if rule.eth_type.is_any() {
                None
            } else {
                Some(rule.eth_type.as_u16())
            },
        },
    }
}

/// Computes the value that a rule pins the id of a vlan header to.
pub fn vlan_pin(rule: &Option<RulePacket>) -> (pin: Option<u16>)
    requires
        *rule matches Some(packet) ==> packet.usable(),
    ensures
        pin == vlan_pin_of(*rule),
{
    match rule {
        Some(rule) => match rule.vlan_rule() {
            Some(vlan) => if vlan.id.is_any() {
                None
            } else {
                Some(vlan.id.as_u16())
            },
            None => None,
        },
        None => None,
    }
}

/// Returns the texts of the addresses that a rule pins an ipv4 header to,
/// source first. They are to be read as ipv4 addresses; one that cannot be
/// read pins nothing.
pub fn ipv4_address_texts(rule: &Option<RulePacket>) -> (texts: (Option<String>, Option<String>))
    ensures
        (text_of(texts.0), text_of(texts.1)) == address_texts_of(*rule),
{
    match rule {
        Some(rule) => match rule.ipv4_rule() {
            Some(ipv4) => {
                let source = if ipv4.saddr.is_any() {
                    None
                } else {
                    ipv4.saddr.as_ipv4_text()
                };
                let destination = if ipv4.daddr.is_any() {
                    None
                } else {
                    ipv4.daddr.as_ipv4_text()
                };
                (source, destination)
            },
            None => (None, None),
        },
        None => (None, None),
    }
}

/// Computes the values that a rule pins the fields of an ipv4 header to,
/// from the addresses that were read from its texts.
pub fn ipv4_pins(
    rule: &Option<RulePacket>,
    source: Option<[u8; 4]>,
    destination: Option<[u8; 4]>,
) -> (pins: Ipv4Pins)
    ensures
        pins == (Ipv4Pins { source, destination, next_level_protocol: protocol_pin_of(*rule) }),
{
    let next_level_protocol = match rule {
        Some(rule) => match rule.ipv4_rule() {
            Some(ipv4) => match &ipv4.payload {
                Ipv4Payload::Udp(_) => Some(PROTOCOL_UDP),
                Ipv4Payload::Tcp(_) => Some(PROTOCOL_TCP),
                Ipv4Payload::Any => None,
            },
            None => None,
        },
        None => None,
    };
    Ipv4Pins { source, destination, next_level_protocol }
}

/// Computes the values that a rule pins the ports of a udp header to.
pub fn udp_pins(rule: &Option<RulePacket>) -> (pins: UdpPins)
    requires
        *rule matches Some(packet) ==> packet.usable(),
    ensures
        pins == udp_pins_of(*rule),
{
    match rule {
        Some(rule) => match rule.udp_rule() {
            Some(udp) => UdpPins {
                source: if udp.sport.is_any() {
                    None
                } else {
                    udp.sport.as_port()
                },
                destination: if udp.dport.is_any() {
                    None
                } else {
                    udp.dport.as_port()
                },
            },
            None => UdpPins { source: None, destination: None },
        },
        None => UdpPins { source: None, destination: None },
    }
}

} // verus!
