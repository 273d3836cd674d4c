//! Rules that hold fields of a network packet to given values while the rest
//! of the packet is mutated.

use crate::mutator::Mutator;
use pnet::util::MacAddr;
use std::str::FromStr;
use vstd::prelude::*;

verus! {

/// This struct represents a single rule.
/// Every value which must be checked must not be `Rpv::Any`.
#[derive(Debug, Ord, PartialOrd, Eq, PartialEq, Default, Hash)]
pub struct RulePacket {
    /// eth source address
    pub eth_saddr: Rpv<String>,
    /// eth dest address
    pub eth_daddr: Rpv<String>,
    /// ethernet type
    pub eth_type: Rpv<u16>,
    /// eth payload
    pub eth_payload: EthPayload,
}

/// The layers of a packet that a rule can speak of.
#[derive(Debug, Clone, Copy, PartialEq, Eq, Structural)]
pub enum Layers {
    /// ether
    Ether,
    /// vlan
    Vlan,
    /// ipv4
    Ipv4,
    /// udp
    Udp,
    /// tcp
    Tcp,
    /// payload
    Payload,
    /// a layer that no rule speaks of
    Other,
}

/// Different rules for the different layers
pub enum RuleLayer {
    /// ether
    Ether(RulePacket),
    /// vlan
    Vlan(RuleVlan),
    /// ipv4
    Ipv4(RuleIpv4),
    /// udp
    Udp(RuleUpd),
    /// tcp
    Tcp(RuleTcp),
    /// payload
    Payload(Payload),
}

/// Rule Packet Value
#[derive(Debug, Ord, PartialOrd, Eq, PartialEq, Default, Hash)]
pub enum Rpv<T: Clone> {
    #[default]
    /// Any
    Any,
    /// Equal
    Equal(T),
    /// Not Equal
    NotEqual(T),
    /// Greater Than
    GreaterThan(T),
    /// Contains
    Contains(Vec<T>),
    /// Not Contains
    NotContains(Vec<T>),
    /// Multiple
    Multiple(Vec<Rpv<T>>),
}

/// The different Rpv values
#[derive(Debug, Ord, PartialOrd, Eq, PartialEq, Clone, Default)]
pub enum RpvType {
    #[default]
    /// Any
    Any,
    /// Equal
    Equal,
    /// Not equal
    NotEqual,
    /// Greater Than
    GreaterThan,
    /// contains
    Contains,
    /// not contains
    NotContains,
}

/// Ethernet payload
#[derive(Debug, Ord, PartialOrd, Eq, PartialEq, Default, Hash)]
pub enum EthPayload {
    #[default]
    /// Any
    Any,
    /// Vlan
    Vlan(RuleVlan),
    /// Ipv4
    Ipv4(RuleIpv4),
}

/// Vlan rule params
#[derive(Debug, Ord, PartialOrd, Eq, PartialEq, Default, Hash)]
pub struct RuleVlan {
    /// vlan id
    pub id: Rpv<u16>,
    /// Payload of the vlan
    pub payload: VlanPayload,
}

/// Payload of a vlan frame. There is no double tagging.
#[derive(Debug, Ord, PartialOrd, Eq, PartialEq, Default, Hash)]
pub enum VlanPayload {
    #[default]
    /// any
    Any,
    /// Ipv4
    Ipv4(RuleIpv4),
}

/// Contains ipv4 rule params
#[derive(Debug, Ord, PartialOrd, Eq, PartialEq, Default, Hash)]
pub struct RuleIpv4 {
    /// mf
    pub mf: Rpv<bool>,
    /// fragment offset
    pub fragment_offset: Rpv<usize>,
    /// ihl
    pub ihl: Rpv<usize>,
    /// proto
    pub protocol: Rpv<u16>,
    /// destination ip
    pub daddr: Rpv<Ipv4Address>,
    /// source ip
    pub saddr: Rpv<Ipv4Address>,
    /// ipv4 payload
    pub payload: Ipv4Payload,
}

/// ipv4 payload
#[derive(Debug, Ord, PartialOrd, Eq, PartialEq, Default, Hash)]
pub enum Ipv4Payload {
    #[default]
    /// any
    Any,
    /// udp
    Udp(RuleUpd),
    /// tcp
    Tcp(RuleTcp),
}

/// udp rule params
#[derive(Debug, Ord, PartialOrd, Eq, PartialEq, Default, Hash)]
pub struct RuleUpd {
    /// source port
    pub sport: Rpv<Port>,
    /// dest port
    pub dport: Rpv<Port>,
    /// udp payload
    pub payload: Payload,
}

/// tcp rule params
#[derive(Debug, Ord, PartialOrd, Eq, PartialEq, Default, Hash)]
pub struct RuleTcp {
    /// source port
    pub sport: Rpv<Port>,
    /// dest port
    pub dport: Rpv<Port>,
    /// tcp payload
    pub payload: Payload,
}

/// packet payload
#[derive(Debug, Ord, PartialOrd, Eq, PartialEq, Default, Hash)]
pub enum Payload {
    #[default]
    /// any
    Any,
}

/// Port either a range or a single port
#[derive(Debug, Ord, PartialOrd, Eq, PartialEq, Hash)]
pub enum Port {
    /// Range
    Range(u16, u16),
    /// Single
    Single(u16),
}

/// Ipv4 Address either a range or a single address
#[derive(Debug, Ord, PartialOrd, Eq, PartialEq, Hash)]
pub enum Ipv4Address {
    /// Range
    Range(String, String),
    /// Single
    Single(String),
}

/// The address that `MacAddr::from_str` reads from a text, as its six
/// octets; `None` where it reports an error.
pub uninterp spec fn mac_addr_of(text: Seq<char>) -> Option<[u8; 6]>;

/// Calls `MacAddr::from_str` of pnet. Claims that the outcome depends on the
/// text alone.
#[verifier::external_body]
fn parse_mac_addr(text: &str) -> (octets: Option<[u8; 6]>)
    ensures
        octets == mac_addr_of(text@),
{
    match MacAddr::from_str(text) {
        Ok(addr) => Some(addr.octets()),
        Err(_) => None,
    }
}

/// Sum of the numbers of a list.
pub open spec fn total(numbers: Seq<int>) -> int
    decreases numbers.len(),
{
    if numbers.len() == 0 {
        0
    } else {
        total(numbers.drop_last()) + numbers.last()
    }
}

/// The sum of a list of natural numbers grows with the list.
proof fn lemma_total_grows(numbers: Seq<int>, n: int)
    requires
        0 <= n <= numbers.len(),
        forall|i: int| 0 <= i < numbers.len() ==> 0 <= #[trigger] numbers[i],
    ensures
        0 <= total(numbers.take(n)) <= total(numbers),
    decreases numbers.len() - n,
{
    if n == 0 {
        lemma_total_nonnegative(numbers);
    } else if n == numbers.len() {
        assert(numbers.take(n) == numbers);
        lemma_total_nonnegative(numbers);
    } else {
        lemma_total_grows(numbers, n + 1);
        assert(numbers.take(n + 1).drop_last() == numbers.take(n));
        lemma_total_nonnegative(numbers.take(n));
    }
}

/// The sum of a list of natural numbers is a natural number.
proof fn lemma_total_nonnegative(numbers: Seq<int>)
    requires
        forall|i: int| 0 <= i < numbers.len() ==> 0 <= #[trigger] numbers[i],
    ensures
        0 <= total(numbers),
    decreases numbers.len(),
{
    if numbers.len() > 0 {
        lemma_total_nonnegative(numbers.drop_last());
    }
}

impl Clone for Port {
    fn clone(&self) -> (copy: Self)
        ensures
            copy == *self,
    {
        match self {
            Port::Range(low, high) => Port::Range(*low, *high),
            Port::Single(port) => Port::Single(*port),
        }
    }
}

impl Clone for Ipv4Address {
    fn clone(&self) -> (copy: Self)
        ensures
            copy == *self,
    {
        match self {
            Ipv4Address::Range(low, high) => Ipv4Address::Range(low.clone(), high.clone()),
            Ipv4Address::Single(address) => Ipv4Address::Single(address.clone()),
        }
    }
}

impl Clone for Payload {
    fn clone(&self) -> (copy: Self)
        ensures
            copy == *self,
    {
        Payload::Any
    }
}

impl<T: Clone> Rpv<T> {
    /// Whether `copy` says what this value says: the same variant, holding
    /// a copy of the same item, or copies of the same items in the same
    /// order. Two lists of the same items are not the same list, so this
    /// speaks of the items.
    pub open spec fn copied_as(self, copy: Self) -> bool
        decreases self,
    {
        match self {
            Rpv::Any => copy is Any,
            Rpv::Equal(value) => copy matches Rpv::Equal(other) && cloned(value, other),
            Rpv::NotEqual(value) => copy matches Rpv::NotEqual(other) && cloned(value, other),
            Rpv::GreaterThan(value) => copy matches Rpv::GreaterThan(other) && cloned(
                value,
                other,
            ),
            Rpv::Contains(list) => copy matches Rpv::Contains(others) && items_copied(
                list@,
                others@,
            ),
            Rpv::NotContains(list) => copy matches Rpv::NotContains(others) && items_copied(
                list@,
                others@,
            ),
            Rpv::Multiple(list) => copy matches Rpv::Multiple(others) && list@.len()
                == others@.len() && forall|i: int|
                0 <= i < list@.len() ==> (#[trigger] list@[i]).copied_as(others@[i]),
        }
    }
}

/// Whether `copies` holds a copy of each item of `items`, in the same order.
pub open spec fn items_copied<T: Clone>(items: Seq<T>, copies: Seq<T>) -> bool {
    &&& items.len() == copies.len()
    &&& forall|i: int| 0 <= i < items.len() ==> cloned(#[trigger] items[i], copies[i])
}

impl<T: Clone> Clone for Rpv<T> {
    fn clone(&self) -> (copy: Self)
        ensures
            self.copied_as(copy),
        decreases self,
    {
        match self {
            Rpv::Any => Rpv::Any,
            Rpv::Equal(value) => Rpv::Equal(value.clone()),
            Rpv::NotEqual(value) => Rpv::NotEqual(value.clone()),
            Rpv::GreaterThan(value) => Rpv::GreaterThan(value.clone()),
            Rpv::Contains(list) => Rpv::Contains(list.clone()),
            Rpv::NotContains(list) => Rpv::NotContains(list.clone()),
            Rpv::Multiple(list) => {
                let mut copies: Vec<Rpv<T>> = Vec::new();
                let mut i: usize = 0;
                while i < list.len()
                    invariant
                        i <= list@.len(),
                        copies@.len() == i,
                        *self == Rpv::<T>::Multiple(*list),
                        forall|j: int|
                            0 <= j < i ==> (#[trigger] list@[j]).copied_as(copies@[j]),
                    decreases list@.len() - i,
                {
                    proof {
                        broadcast use vstd::std_specs::vec::axiom_vec_index_decreases;

                        assert(decreases_to!(*self => self->Multiple_0));
                    }
                    copies.push(list[i].clone());
                    i = i + 1;
                }
                Rpv::Multiple(copies)
            },
        }
    }
}

impl RuleUpd {
    /// Whether `copy` holds a copy of each field of this rule.
    pub open spec fn copied_as(self, copy: Self) -> bool {
        &&& self.sport.copied_as(copy.sport)
        &&& self.dport.copied_as(copy.dport)
        &&& self.payload == copy.payload
    }
}

impl Clone for RuleUpd {
    fn clone(&self) -> (copy: Self)
        ensures
            self.copied_as(copy),
    {
        RuleUpd {
            sport: self.sport.clone(),
            dport: self.dport.clone(),
            payload: self.payload.clone(),
        }
    }
}

impl RuleTcp {
    /// Whether `copy` holds a copy of each field of this rule.
    pub open spec fn copied_as(self, copy: Self) -> bool {
        &&& self.sport.copied_as(copy.sport)
        &&& self.dport.copied_as(copy.dport)
        &&& self.payload == copy.payload
    }
}

impl Clone for RuleTcp {
    fn clone(&self) -> (copy: Self)
        ensures
            self.copied_as(copy),
    {
        RuleTcp {
            sport: self.sport.clone(),
            dport: self.dport.clone(),
            payload: self.payload.clone(),
        }
    }
}

impl Ipv4Payload {
    /// Whether `copy` is the same variant, with a copy of the rule in it.
    pub open spec fn copied_as(self, copy: Self) -> bool {
        match self {
            Ipv4Payload::Any => copy is Any,
            Ipv4Payload::Udp(udp) => copy matches Ipv4Payload::Udp(other) && udp.copied_as(other),
            Ipv4Payload::Tcp(tcp) => copy matches Ipv4Payload::Tcp(other) && tcp.copied_as(other),
        }
    }
}

impl Clone for Ipv4Payload {
    fn clone(&self) -> (copy: Self)
        ensures
            self.copied_as(copy),
    {
        match self {
            Ipv4Payload::Any => Ipv4Payload::Any,
            Ipv4Payload::Udp(udp) => Ipv4Payload::Udp(udp.clone()),
            Ipv4Payload::Tcp(tcp) => Ipv4Payload::Tcp(tcp.clone()),
        }
    }
}

impl RuleIpv4 {
    /// Whether `copy` holds a copy of each field of this rule.
    pub open spec fn copied_as(self, copy: Self) -> bool {
        &&& self.mf.copied_as(copy.mf)
        &&& self.fragment_offset.copied_as(copy.fragment_offset)
        &&& self.ihl.copied_as(copy.ihl)
        &&& self.protocol.copied_as(copy.protocol)
        &&& self.daddr.copied_as(copy.daddr)
        &&& self.saddr.copied_as(copy.saddr)
        &&& self.payload.copied_as(copy.payload)
    }
}

impl Clone for RuleIpv4 {
    fn clone(&self) -> (copy: Self)
        ensures
            self.copied_as(copy),
    {
        RuleIpv4 {
            mf: self.mf.clone(),
            fragment_offset: self.fragment_offset.clone(),
            ihl: self.ihl.clone(),
            protocol: self.protocol.clone(),
            daddr: self.daddr.clone(),
            saddr: self.saddr.clone(),
            payload: self.payload.clone(),
        }
    }
}

impl VlanPayload {
    /// Whether `copy` is the same variant, with a copy of the rule in it.
    pub open spec fn copied_as(self, copy: Self) -> bool {
        match self {
            VlanPayload::Any => copy is Any,
            VlanPayload::Ipv4(ipv4) => copy matches VlanPayload::Ipv4(other) && ipv4.copied_as(
                other,
            ),
        }
    }
}

impl Clone for VlanPayload {
    fn clone(&self) -> (copy: Self)
        ensures
            self.copied_as(copy),
    {
        match self {
            VlanPayload::Any => VlanPayload::Any,
            VlanPayload::Ipv4(ipv4) => VlanPayload::Ipv4(ipv4.clone()),
        }
    }
}

impl RuleVlan {
    /// Whether `copy` holds a copy of each field of this rule.
    pub open spec fn copied_as(self, copy: Self) -> bool {
        &&& self.id.copied_as(copy.id)
        &&& self.payload.copied_as(copy.payload)
    }
}

impl Clone for RuleVlan {
    fn clone(&self) -> (copy: Self)
        ensures
            self.copied_as(copy),
    {
        RuleVlan { id: self.id.clone(), payload: self.payload.clone() }
    }
}

impl EthPayload {
    /// Whether `copy` is the same variant, with a copy of the rule in it.
    pub open spec fn copied_as(self, copy: Self) -> bool {
        match self {
            EthPayload::Any => copy is Any,
            EthPayload::Vlan(vlan) => copy matches EthPayload::Vlan(other) && vlan.copied_as(other),
            EthPayload::Ipv4(ipv4) => copy matches EthPayload::Ipv4(other) && ipv4.copied_as(other),
        }
    }
}

impl Clone for EthPayload {
    fn clone(&self) -> (copy: Self)
        ensures
            self.copied_as(copy),
    {
        match self {
            EthPayload::Any => EthPayload::Any,
            EthPayload::Vlan(vlan) => EthPayload::Vlan(vlan.clone()),
            EthPayload::Ipv4(ipv4) => EthPayload::Ipv4(ipv4.clone()),
        }
    }
}

impl RulePacket {
    /// Whether `copy` holds a copy of each field of this rule.
    pub open spec fn copied_as(self, copy: Self) -> bool {
        &&& self.eth_saddr.copied_as(copy.eth_saddr)
        &&& self.eth_daddr.copied_as(copy.eth_daddr)
        &&& self.eth_type.copied_as(copy.eth_type)
        &&& self.eth_payload.copied_as(copy.eth_payload)
    }
}

impl Clone for RulePacket {
    fn clone(&self) -> (copy: Self)
        ensures
            self.copied_as(copy),
    {
        RulePacket {
            eth_saddr: self.eth_saddr.clone(),
            eth_daddr: self.eth_daddr.clone(),
            eth_type: self.eth_type.clone(),
            eth_payload: self.eth_payload.clone(),
        }
    }
}

impl<T: Clone> Rpv<T> {
    /// Checks if the Rpv is any
    pub fn is_any(&self) -> (any: bool)
        ensures
            any == (*self is Any),
    {
        matches!(self, Rpv::Any)
    }
}

impl<T: Clone> Rpv<T> {
    /// Whether the value holds no list.
    pub open spec fn listless(self) -> bool {
        self is Any || self is Equal || self is NotEqual || self is GreaterThan
    }

    /// A copy of a value that holds no list is the value, where a copy of
    /// an item is the item.
    pub proof fn lemma_copy_is_the_value(self, copy: Self)
        requires
            self.listless(),
            self.copied_as(copy),
            forall|item: T, other: T| #[trigger] cloned(item, other) ==> item == other,
        ensures
            copy == self,
    {
    }
}

impl RuleUpd {
    /// Whether no value of the rule holds a list.
    pub open spec fn listless(self) -> bool {
        self.sport.listless() && self.dport.listless()
    }

    /// A copy of a rule that holds no list is the rule.
    pub proof fn lemma_copy_is_the_rule(self, copy: Self)
        requires
            self.listless(),
            self.copied_as(copy),
        ensures
            copy == self,
    {
        self.sport.lemma_copy_is_the_value(copy.sport);
        self.dport.lemma_copy_is_the_value(copy.dport);
    }
}

impl RuleTcp {
    /// Whether no value of the rule holds a list.
    pub open spec fn listless(self) -> bool {
        self.sport.listless() && self.dport.listless()
    }

    /// A copy of a rule that holds no list is the rule.
    pub proof fn lemma_copy_is_the_rule(self, copy: Self)
        requires
            self.listless(),
            self.copied_as(copy),
        ensures
            copy == self,
    {
        self.sport.lemma_copy_is_the_value(copy.sport);
        self.dport.lemma_copy_is_the_value(copy.dport);
    }
}

impl RuleIpv4 {
    /// Whether no value of the rule, or of the rule below it, holds a list.
    pub open spec fn listless(self) -> bool {
        &&& self.mf.listless()
        &&& self.fragment_offset.listless()
        &&& self.ihl.listless()
        &&& self.protocol.listless()
        &&& self.daddr.listless()
        &&& self.saddr.listless()
        &&& match self.payload {
            Ipv4Payload::Any => true,
            Ipv4Payload::Udp(udp) => udp.listless(),
            Ipv4Payload::Tcp(tcp) => tcp.listless(),
        }
    }

    /// A copy of a rule that holds no list is the rule.
    pub proof fn lemma_copy_is_the_rule(self, copy: Self)
        requires
            self.listless(),
            self.copied_as(copy),
        ensures
            copy == self,
    {
        self.mf.lemma_copy_is_the_value(copy.mf);
        self.fragment_offset.lemma_copy_is_the_value(copy.fragment_offset);
        self.ihl.lemma_copy_is_the_value(copy.ihl);
        self.protocol.lemma_copy_is_the_value(copy.protocol);
        self.daddr.lemma_copy_is_the_value(copy.daddr);
        self.saddr.lemma_copy_is_the_value(copy.saddr);
        match (self.payload, copy.payload) {
            (Ipv4Payload::Udp(udp), Ipv4Payload::Udp(other)) => {
                udp.lemma_copy_is_the_rule(other);
            },
            (Ipv4Payload::Tcp(tcp), Ipv4Payload::Tcp(other)) => {
                tcp.lemma_copy_is_the_rule(other);
            },
            _ => {},
        }
    }
}

impl RuleVlan {
    /// Whether no value of the rule, or of a rule below it, holds a list.
    pub open spec fn listless(self) -> bool {
        &&& self.id.listless()
        &&& match self.payload {
            VlanPayload::Any => true,
            VlanPayload::Ipv4(ipv4) => ipv4.listless(),
        }
    }

    /// A copy of a rule that holds no list is the rule.
    pub proof fn lemma_copy_is_the_rule(self, copy: Self)
        requires
            self.listless(),
            self.copied_as(copy),
        ensures
            copy == self,
    {
        self.id.lemma_copy_is_the_value(copy.id);
        match (self.payload, copy.payload) {
            (VlanPayload::Ipv4(ipv4), VlanPayload::Ipv4(other)) => {
                ipv4.lemma_copy_is_the_rule(other);
            },
            _ => {},
        }
    }
}

impl RulePacket {
    /// Whether no value of the rule, or of a rule below it, holds a list.
    pub open spec fn listless(self) -> bool {
        &&& self.eth_saddr.listless()
        &&& self.eth_daddr.listless()
        &&& self.eth_type.listless()
        &&& match self.eth_payload {
            EthPayload::Any => true,
            EthPayload::Ipv4(ipv4) => ipv4.listless(),
            EthPayload::Vlan(vlan) => vlan.listless(),
        }
    }

    /// A copy of a rule that holds no list is the rule. (Of a rule with
    /// lists the copy holds lists of the same items, which are not the same
    /// lists.)
    pub proof fn lemma_copy_is_the_rule(self, copy: Self)
        requires
            self.listless(),
            self.copied_as(copy),
        ensures
            copy == self,
    {
        self.eth_saddr.lemma_copy_is_the_value(copy.eth_saddr);
        self.eth_daddr.lemma_copy_is_the_value(copy.eth_daddr);
        self.eth_type.lemma_copy_is_the_value(copy.eth_type);
        match (self.eth_payload, copy.eth_payload) {
            (EthPayload::Ipv4(ipv4), EthPayload::Ipv4(other)) => {
                ipv4.lemma_copy_is_the_rule(other);
            },
            (EthPayload::Vlan(vlan), EthPayload::Vlan(other)) => {
                vlan.lemma_copy_is_the_rule(other);
            },
            _ => {},
        }
    }

    /// The rule that this rule has for a layer: the rule itself for
    /// ethernet, the rule nested in it for a layer below, and none where
    /// the rule does not reach down to the layer.
    pub open spec fn layer(self, kind: Layers) -> Option<RuleLayer> {
        match kind {
            Layers::Ether => Some(RuleLayer::Ether(self)),
            Layers::Vlan => match self.eth_payload {
                EthPayload::Vlan(vlan) => Some(RuleLayer::Vlan(vlan)),
                _ => None,
            },
            Layers::Ipv4 => match self.ipv4() {
                Some(ipv4) => Some(RuleLayer::Ipv4(ipv4)),
                None => None,
            },
            Layers::Tcp => match self.ipv4() {
                Some(RuleIpv4 { payload: Ipv4Payload::Tcp(tcp), .. }) => Some(RuleLayer::Tcp(tcp)),
                _ => None,
            },
            Layers::Udp => match self.ipv4() {
                Some(RuleIpv4 { payload: Ipv4Payload::Udp(udp), .. }) => Some(RuleLayer::Udp(udp)),
                _ => None,
            },
            Layers::Payload => match self.ipv4() {
                Some(RuleIpv4 { payload: Ipv4Payload::Tcp(tcp), .. }) => Some(
                    RuleLayer::Payload(tcp.payload),
                ),
                Some(RuleIpv4 { payload: Ipv4Payload::Udp(udp), .. }) => Some(
                    RuleLayer::Payload(udp.payload),
                ),
                _ => None,
            },
            Layers::Other => None,
        }
    }

    /// A copy of a layer of a rule that holds no list is that layer.
    pub proof fn lemma_layers_of_listless(self, kind: Layers, copy: Option<RuleLayer>)
        requires
            self.listless(),
            self.layer_of(kind, copy),
        ensures
            copy == self.layer(kind),
    {
        match (self.layer(kind), copy) {
            (Some(RuleLayer::Ether(rule)), Some(RuleLayer::Ether(other))) => {
                rule.lemma_copy_is_the_rule(other);
            },
            (Some(RuleLayer::Vlan(rule)), Some(RuleLayer::Vlan(other))) => {
                rule.lemma_copy_is_the_rule(other);
            },
            (Some(RuleLayer::Ipv4(rule)), Some(RuleLayer::Ipv4(other))) => {
                rule.lemma_copy_is_the_rule(other);
            },
            (Some(RuleLayer::Udp(rule)), Some(RuleLayer::Udp(other))) => {
                rule.lemma_copy_is_the_rule(other);
            },
            (Some(RuleLayer::Tcp(rule)), Some(RuleLayer::Tcp(other))) => {
                rule.lemma_copy_is_the_rule(other);
            },
            _ => {},
        }
    }
}

impl RuleLayer {
    /// Whether `copy` is a rule for the same layer that holds a copy of
    /// each field of this rule.
    pub open spec fn copied_as(self, copy: Self) -> bool {
        match self {
            RuleLayer::Ether(rule) => copy matches RuleLayer::Ether(other) && rule.copied_as(other),
            RuleLayer::Vlan(rule) => copy matches RuleLayer::Vlan(other) && rule.copied_as(other),
            RuleLayer::Ipv4(rule) => copy matches RuleLayer::Ipv4(other) && rule.copied_as(other),
            RuleLayer::Udp(rule) => copy matches RuleLayer::Udp(other) && rule.copied_as(other),
            RuleLayer::Tcp(rule) => copy matches RuleLayer::Tcp(other) && rule.copied_as(other),
            RuleLayer::Payload(_) => copy == self,
        }
    }
}

impl RulePacket {
    /// Whether `copy` holds a copy of the rule that this rule has for the
    /// layer `kind`: field for field the same values (see
    /// `Rpv::copied_as`), and nothing where this rule has none for that
    /// layer.
    pub open spec fn layer_of(&self, kind: Layers, copy: Option<RuleLayer>) -> bool {
        match self.layer(kind) {
            Some(layer) => copy matches Some(other) && layer.copied_as(other),
            None => copy is None,
        }
    }

    /// The ipv4 rule, which stands below the ethernet rule or below its vlan
    /// rule.
    pub open spec fn ipv4(&self) -> Option<RuleIpv4> {
        match self.eth_payload {
            EthPayload::Any => None,
            EthPayload::Ipv4(ipv4) => Some(ipv4),
            EthPayload::Vlan(vlan) => match vlan.payload {
                VlanPayload::Any => None,
                VlanPayload::Ipv4(ipv4) => Some(ipv4),
            },
        }
    }

    /// Returns the rule for the given layer: a copy of the rule that this
    /// rule has for it, which is that rule itself where no list is held.
    pub fn get_layer(&self, layer: &Layers) -> (rule: Option<RuleLayer>)
        ensures
            self.layer_of(*layer, rule),
            self.listless() ==> rule == self.layer(*layer),
    {
        let rule = self.copy_of_layer(layer);
        proof {
            if self.listless() {
                self.lemma_layers_of_listless(*layer, rule);
            }
        }
        rule
    }

    /// A copy of the rule for the given layer.
    fn copy_of_layer(&self, layer: &Layers) -> (rule: Option<RuleLayer>)
        ensures
            self.layer_of(*layer, rule),
    {
        if matches!(layer, Layers::Ether) {
            return Some(RuleLayer::Ether(self.clone()));
        }
        let ipv4 = match &self.eth_payload {
            EthPayload::Any => {
                return None;
            },
            EthPayload::Ipv4(ipv4) => ipv4,
            EthPayload::Vlan(vlan) => {
                if matches!(layer, Layers::Vlan) {
                    return Some(RuleLayer::Vlan(vlan.clone()));
                }
                match &vlan.payload {
                    VlanPayload::Any => {
                        return None;
                    },
                    VlanPayload::Ipv4(ipv4) => ipv4,
                }
            },
        };
        if matches!(layer, Layers::Vlan) {
            return None;
        }
        if matches!(layer, Layers::Ipv4) {
            return Some(RuleLayer::Ipv4(ipv4.clone()));
        }
        let payload = match &ipv4.payload {
            Ipv4Payload::Any => {
                return None;
            },
            Ipv4Payload::Tcp(tcp) => {
                if matches!(layer, Layers::Tcp) {
                    return Some(RuleLayer::Tcp(tcp.clone()));
                }
                &tcp.payload
            },
            Ipv4Payload::Udp(udp) => {
                if matches!(layer, Layers::Udp) {
                    return Some(RuleLayer::Udp(udp.clone()));
                }
                &udp.payload
            },
        };
        if matches!(layer, Layers::Payload) {
            return Some(RuleLayer::Payload(payload.clone()));
        }
        None
    }
}

impl Rpv<String> {
    /// The text that stands for the address of this value, if it has one.
    pub open spec fn mac_text(&self) -> Option<Seq<char>> {
        match *self {
            Rpv::Any | Rpv::NotEqual(_) => Some("3c:ce:33:33:33:33"@),
            Rpv::Equal(text) => Some(text@),
            Rpv::Contains(list) => Some(list@[0]@),
            _ => None,
        }
    }

    /// The values that an address can be asked of: a list that the address
    /// is to be taken from is not empty.
    pub open spec fn has_mac(&self) -> bool {
        *self matches Rpv::Contains(list) ==> list@.len() > 0
    }

    /// The address of this value, if it has one.
    pub open spec fn mac(&self) -> Option<[u8; 6]> {
        match self.mac_text() {
            Some(text) => mac_addr_of(text),
            None => None,
        }
    }

    /// Whether an address can be asked of this value.
    pub fn can_mac_addr(&self) -> (can: bool)
        ensures
            can == self.has_mac(),
    {
        match self {
            Rpv::Contains(list) => list.len() > 0,
            _ => true,
        }
    }

    /// Converts the `Rpv` to a mac address, given by its six octets. A list
    /// that the address is to be taken from must not be empty.
    pub fn as_mac_addr(&self) -> (addr: Option<[u8; 6]>)
        requires
            self.has_mac(),
        ensures
            addr == self.mac(),
    {
        match self {
            Rpv::Any | Rpv::NotEqual(_) => parse_mac_addr("3c:ce:33:33:33:33"),
            Rpv::Equal(a) => parse_mac_addr(a.as_str()),
            Rpv::Contains(a) => parse_mac_addr(a[0].as_str()),
            _ => None,
        }
    }
}

impl Rpv<Port> {
    /// The values that have a port.
    pub open spec fn has_port(&self) -> bool {
        match *self {
            Rpv::Any => true,
            Rpv::Equal(Port::Single(_)) => true,
            Rpv::Contains(ports) => ports@.len() > 0 ==> (ports@[0] matches Port::Range(low, _)
                ==> low < u16::MAX),
            _ => false,
        }
    }

    /// The port of this value: any port is 9999; of a list the first entry
    /// decides, a single port by itself and a range by the port after its
    /// start; an empty list has none.
    pub open spec fn port(&self) -> Option<u16> {
        match *self {
            Rpv::Any => Some(9999u16),
            Rpv::Equal(Port::Single(port)) => Some(port),
            Rpv::Contains(ports) => if ports@.len() == 0 {
                None
            } else {
                match ports@[0] {
                    Port::Range(low, _) => Some((low + 1) as u16),
                    Port::Single(port) => Some(port),
                }
            },
            _ => None,
        }
    }

    /// Whether this value has a port.
    pub fn can_port(&self) -> (can: bool)
        ensures
            can == self.has_port(),
    {
        match self {
            Rpv::Any => true,
            Rpv::Equal(Port::Single(_)) => true,
            Rpv::Contains(ports) => {
                if ports.len() == 0 {
                    return true;
                }
                match &ports[0] {
                    Port::Range(low, _) => *low < u16::MAX,
                    Port::Single(_) => true,
                }
            },
            _ => false,
        }
    }

    /// Converts the `Rpv` to a port number
    pub fn as_port(&self) -> (port: Option<u16>)
        requires
            self.has_port(),
        ensures
            port == self.port(),
    {
        match self {
            Rpv::Any => Some(9999),
            Rpv::Equal(Port::Single(a)) => Some(*a),
            Rpv::Contains(ports) => {
                if ports.len() == 0 {
                    return None;
                }
                match &ports[0] {
                    Port::Range(a, _b) => Some(*a + 1),
                    Port::Single(a) => Some(*a),
                }
            },
            _ => None,
        }
    }
}

impl Rpv<u16> {
    /// The number of this value: any number is 1; a list to choose from
    /// gives its first entry, a list to avoid gives the sum of its entries.
    pub open spec fn number(&self) -> int {
        match *self {
            Rpv::Any => 1,
            Rpv::Equal(number) => number as int,
            Rpv::Contains(list) => list@[0] as int,
            Rpv::NotContains(list) => total(list@.map_values(|n: u16| n as int)),
            _ => 0,
        }
    }

    /// The values that have a number that fits the type.
    pub open spec fn has_number(&self) -> bool {
        match *self {
            Rpv::Any => true,
            Rpv::Equal(_) => true,
            Rpv::Contains(list) => list@.len() > 0,
            Rpv::NotContains(list) => total(list@.map_values(|n: u16| n as int)) <= u16::MAX,
            _ => false,
        }
    }

    /// Whether this value has a number that fits the type.
    pub fn can_number(&self) -> (can: bool)
        ensures
            can == self.has_number(),
    {
        match self {
            Rpv::Any => true,
            Rpv::Equal(_) => true,
            Rpv::Contains(list) => list.len() > 0,
            Rpv::NotContains(list) => {
                let ghost numbers = list@.map_values(|n: u16| n as int);
                let mut sum: u16 = 0;
                let mut i: usize = 0;
                while i < list.len()
                    invariant
                        i <= list@.len(),
                        numbers == list@.map_values(|n: u16| n as int),
                        sum == total(numbers.take(i as int)),
                        self.has_number() == (total(numbers) <= u16::MAX),
                    decreases list@.len() - i,
                {
                    proof {
                        assert(numbers.take(i + 1).drop_last() == numbers.take(i as int));
                    }
                    if list[i] > u16::MAX - sum {
                        proof {
                            lemma_total_grows(numbers, i + 1);
                        }
                        return false;
                    }
                    sum = sum + list[i];
                    i = i + 1;
                }
                proof {
                    assert(numbers.take(i as int) == numbers);
                }
                true
            },
            _ => false,
        }
    }

    /// converts the rpv value to an u16
    pub fn as_u16(&self) -> (number: u16)
        requires
            self.has_number(),
        ensures
            number == self.number(),
    {
        match self {
            Rpv::Any => 1,
            Rpv::Equal(a) => *a,
            Rpv::Contains(a) => a[0],
            Rpv::NotContains(a) => {
                let ghost numbers = a@.map_values(|n: u16| n as int);
                let mut sum: u16 = 0;
                let mut i: usize = 0;
                while i < a.len()
                    invariant
                        i <= a@.len(),
                        numbers == a@.map_values(|n: u16| n as int),
                        total(numbers) <= u16::MAX,
                        sum == total(numbers.take(i as int)),
                    decreases a@.len() - i,
                {
                    proof {
                        lemma_total_grows(numbers, i + 1);
                        assert(numbers.take(i + 1).drop_last() == numbers.take(i as int));
                    }
                    sum = sum + a[i];
                    i = i + 1;
                }
                proof {
                    assert(numbers.take(i as int) == numbers);
                }
                sum
            },
            _ => 0,
        }
    }
}

impl Rpv<usize> {
    /// The number of this value: any number is 1; a list to choose from
    /// gives its first entry, a list to avoid gives the sum of its entries.
    pub open spec fn number(&self) -> int {
        match *self {
            Rpv::Any => 1,
            Rpv::Equal(number) => number as int,
            Rpv::Contains(list) => list@[0] as int,
            Rpv::NotContains(list) => total(list@.map_values(|n: usize| n as int)),
            _ => 0,
        }
    }

    /// The values that have a number that fits the type.
    pub open spec fn has_number(&self) -> bool {
        match *self {
            Rpv::Any => true,
            Rpv::Equal(_) => true,
            Rpv::Contains(list) => list@.len() > 0,
            Rpv::NotContains(list) => total(list@.map_values(|n: usize| n as int)) <= usize::MAX,
            _ => false,
        }
    }

    /// converts the rpv value to an usize
    pub fn as_usize(&self) -> (number: usize)
        requires
            self.has_number(),
        ensures
            number == self.number(),
    {
        match self {
            Rpv::Any => 1,
            Rpv::Equal(a) => *a,
            Rpv::Contains(a) => a[0],
            Rpv::NotContains(a) => {
                let ghost numbers = a@.map_values(|n: usize| n as int);
                let mut sum: usize = 0;
                let mut i: usize = 0;
                while i < a.len()
                    invariant
                        i <= a@.len(),
                        numbers == a@.map_values(|n: usize| n as int),
                        total(numbers) <= usize::MAX,
                        sum == total(numbers.take(i as int)),
                    decreases a@.len() - i,
                {
                    proof {
                        lemma_total_grows(numbers, i + 1);
                        assert(numbers.take(i + 1).drop_last() == numbers.take(i as int));
                    }
                    sum = sum + a[i];
                    i = i + 1;
                }
                proof {
                    assert(numbers.take(i as int) == numbers);
                }
                sum
            },
            _ => 0,
        }
    }
}

/// The rules that a mutation of a packet is held to. One of them is picked
/// for each mutation.
pub struct MutationConstraints {
    rules: Vec<RulePacket>,
}

impl MutationConstraints {
    /// The rules.
    pub closed spec fn rules(&self) -> Seq<RulePacket> {
        self.rules@
    }

    /// No rules: every field of a packet may be mutated.
    pub fn new() -> (constraints: MutationConstraints)
        ensures
            constraints.rules().len() == 0,
    {
        MutationConstraints { rules: Vec::new() }
    }

    /// Number of rules.
    pub fn len(&self) -> (len: usize)
        ensures
            len == self.rules().len(),
    {
        self.rules.len()
    }

    /// Picks the rule for a mutation, if there are rules: a copy of the one
    /// at the sticky index of the mutator for the key `constraints`, which
    /// lies below the number of rules.
    pub fn pick(&self, mutator: &mut Mutator) -> (rule: Option<RulePacket>)
        ensures
            self.rules().len() == 0 ==> rule.is_none() && final(mutator)@ == old(mutator)@,
            self.rules().len() > 0 ==> {
                let picked = old(mutator)@.index("constraints"@, self.rules().len() as usize);
                &&& final(mutator)@ == picked.1
                &&& picked.0 < self.rules().len()
                &&& rule matches Some(copy) && self.rules()[picked.0 as int].copied_as(copy)
                &&& self.rules()[picked.0 as int].listless() ==> rule == Some(
                    self.rules()[picked.0 as int],
                )
            },
    {
        if self.rules.len() == 0 {
            return None;
        }
        let index = mutator.gen_index("constraints", self.rules.len());
        let copy = self.rules[index].clone();
        proof {
            if self.rules[index as int].listless() {
                self.rules[index as int].lemma_copy_is_the_rule(copy);
            }
        }
        Some(copy)
    }
}

/// Sets the rules that mutations are held to from now on.
pub fn set_mutation_constraints(
    constraints: &mut MutationConstraints,
    update: Vec<RulePacket>,
) -> (done: Result<(), String>)
    ensures
        done.is_ok(),
        final(constraints).rules() == update@,
{
    constraints.rules = update;
    Ok(())
}

/// A text with each `0` replaced by `9`.
pub open spec fn nines(text: Seq<char>) -> Seq<char> {
    text.map_values(
        |c: char|
            if c == '0' {
                '9'
            } else {
                c
            },
    )
}

/// Calls `str::replace` of std, which replaces each `0` of the text by `9`.
#[verifier::external_body]
fn replace_zeros(text: &str) -> (replaced: String)
    ensures
        replaced@ == nines(text@),
{
    text.replace('0', "9")
}

impl Rpv<Ipv4Address> {
    /// The text of the address of this value, if it has one: any address
    /// is 99.99.99.99; of a list the first entry decides, a single address
    /// by itself and a range by its start with each `0` replaced by `9`.
    pub open spec fn ipv4_text(&self) -> Option<Seq<char>> {
        match *self {
            Rpv::Any => Some("99.99.99.99"@),
            Rpv::Equal(Ipv4Address::Single(text)) => Some(text@),
            Rpv::Contains(list) => if list@.len() == 0 {
                None
            } else {
                match list@[0] {
                    Ipv4Address::Range(low, _) => Some(nines(low@)),
                    Ipv4Address::Single(text) => Some(text@),
                }
            },
            _ => None,
        }
    }

    /// Returns the text of the address of this value, to be read as an
    /// ipv4 address.
    pub fn as_ipv4_text(&self) -> (text: Option<String>)
        ensures
            text.is_some() == self.ipv4_text().is_some(),
            text matches Some(found) ==> self.ipv4_text() == Some(found@),
    {
        match self {
            Rpv::Any => Some("99.99.99.99".to_owned()),
            Rpv::Equal(Ipv4Address::Single(a)) => Some(a.clone()),
            Rpv::Contains(list) => {
                if list.len() == 0 {
                    return None;
                }
                match &list[0] {
                    Ipv4Address::Range(a, _b) => Some(replace_zeros(a.as_str())),
                    Ipv4Address::Single(a) => Some(a.clone()),
                }
            },
            _ => None,
        }
    }
}

impl RulePacket {
    /// The vlan rule, which stands below the ethernet rule.
    pub open spec fn vlan(&self) -> Option<RuleVlan> {
        match self.eth_payload {
            EthPayload::Vlan(vlan) => Some(vlan),
            _ => None,
        }
    }

    /// The udp rule, which stands below the ipv4 rule.
    pub open spec fn udp(&self) -> Option<RuleUpd> {
        match self.ipv4() {
            Some(RuleIpv4 { payload: Ipv4Payload::Udp(udp), .. }) => Some(udp),
            _ => None,
        }
    }

    /// The rules that a mutation can work with: each value that a field is
    /// to be set to can be had.
    pub open spec fn usable(&self) -> bool {
        &&& self.eth_daddr.has_mac()
        &&& self.eth_saddr.has_mac()
        &&& self.eth_type is Any || self.eth_type.has_number()
        &&& self.vlan() matches Some(vlan) ==> vlan.id is Any || vlan.id.has_number()
        &&& self.udp() matches Some(udp) ==> {
            &&& udp.sport is Any || udp.sport.has_port()
            &&& udp.dport is Any || udp.dport.has_port()
        }
    }

    /// Returns the vlan rule.
    pub fn vlan_rule(&self) -> (rule: Option<&RuleVlan>)
        ensures
            rule.is_some() == self.vlan().is_some(),
            rule matches Some(vlan) ==> self.vlan() == Some(*vlan),
    {
        match &self.eth_payload {
            EthPayload::Vlan(vlan) => Some(vlan),
            _ => None,
        }
    }

    /// Returns the ipv4 rule.
    pub fn ipv4_rule(&self) -> (rule: Option<&RuleIpv4>)
        ensures
            rule.is_some() == self.ipv4().is_some(),
            rule matches Some(ipv4) ==> self.ipv4() == Some(*ipv4),
    {
        match &self.eth_payload {
            EthPayload::Any => None,
            EthPayload::Ipv4(ipv4) => Some(ipv4),
            EthPayload::Vlan(vlan) => match &vlan.payload {
                VlanPayload::Any => None,
                VlanPayload::Ipv4(ipv4) => Some(ipv4),
            },
        }
    }

    /// Returns the udp rule.
    pub fn udp_rule(&self) -> (rule: Option<&RuleUpd>)
        ensures
            rule.is_some() == self.udp().is_some(),
            rule matches Some(udp) ==> self.udp() == Some(*udp),
    {
        match self.ipv4_rule() {
            Some(ipv4) => match &ipv4.payload {
                Ipv4Payload::Udp(udp) => Some(udp),
                _ => None,
            },
            None => None,
        }
    }

    /// Whether a mutation can work with this rule.
    pub fn is_usable(&self) -> (usable: bool)
        ensures
            usable == self.usable(),
    {
        if !self.eth_daddr.can_mac_addr() || !self.eth_saddr.can_mac_addr() {
            return false;
        }
        if !self.eth_type.is_any() && !self.eth_type.can_number() {
            return false;
        }
        match self.vlan_rule() {
            Some(vlan) => {
                if !vlan.id.is_any() && !vlan.id.can_number() {
                    return false;
                }
            },
            None => {},
        }
        match self.udp_rule() {
            Some(udp) => {
                if !udp.sport.is_any() && !udp.sport.can_port() {
                    return false;
                }
                if !udp.dport.is_any() && !udp.dport.can_port() {
                    return false;
                }
            },
            None => {},
        }
        true
    }
}

} // verus!
