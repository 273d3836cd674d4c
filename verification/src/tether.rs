//! An input for a target that speaks the tether protocol: a header of
//! twenty bytes and a payload, guarded by a CRC-32.
//!
//! | bytes  | field         |
//! |--------|---------------|
//! | 0      | version       |
//! | 1      | unknown0      |
//! | 2      | tether type   |
//! | 3      | unknown1      |
//! | 4..6   | length        |
//! | 6..8   | unknown2      |
//! | 8..12  | unknown3      |
//! | 12..16 | crc32         |
//! | 16..18 | options       |
//! | 18..20 | function id   |
//! | 20..   | payload       |
//!
//! All numbers are big-endian. Only packets of tether type 5 are inputs.

use crate::buffer::copy_of;
use crate::mutator::Mutator;
use crate::mutator::MutatorView;
use crate::text;
use crate::traits::Corpus;
use crate::traits::Mutable;
use vstd::prelude::*;
use vstd::string::StringExecFns;

verus! {

/// Length of the header.
pub const HEADER_LEN: usize = 20;

/// The tether type of the packets that are fuzzed.
pub const TETHER_TYPE: u8 = 5;

/// Number of times that a function id that is not allowed is mutated
/// again before the field is left as it was.
pub const ID_TRIES: usize = 1000;

/// Whether a buffer holds a packet that is an input.
pub open spec fn is_tether(buf: Seq<u8>) -> bool {
    buf.len() >= HEADER_LEN && buf[2] == TETHER_TYPE
}

/// The number that two bytes stand for, the first being the high one.
pub open spec fn u16_of(high: u8, low: u8) -> u16 {
    (high as u16 * 256 + low as u16) as u16
}

/// The big-endian number of 16 bits at a place of a buffer.
pub open spec fn u16_at(buf: Seq<u8>, at: int) -> u16 {
    u16_of(buf[at], buf[at + 1])
}

/// The big-endian number of 32 bits at a place of a buffer.
pub open spec fn u32_at(buf: Seq<u8>, at: int) -> u32 {
    (u16_at(buf, at) as u32 * 65536 + u16_at(buf, at + 2) as u32) as u32
}

/// The buffer with a big-endian number of 16 bits written at a place.
pub open spec fn with_u16(buf: Seq<u8>, at: int, value: u16) -> Seq<u8> {
    buf.update(at, (value / 256) as u8).update(at + 1, (value % 256) as u8)
}

/// The buffer with a big-endian number of 32 bits written at a place.
pub open spec fn with_u32(buf: Seq<u8>, at: int, value: u32) -> Seq<u8> {
    with_u16(with_u16(buf, at, (value / 65536) as u16), at + 2, (value % 65536) as u16)
}

/// Reads a big-endian number of 16 bits.
fn get_u16(buf: &Vec<u8>, at: usize) -> (value: u16)
    requires
        at + 1 < buf.len(),
    ensures
        value == u16_at(buf@, at as int),
{
    (buf[at] as u16) * 256 + (buf[at + 1] as u16)
}

/// Reads a big-endian number of 32 bits.
fn get_u32(buf: &Vec<u8>, at: usize) -> (value: u32)
    requires
        at + 3 < buf.len(),
    ensures
        value == u32_at(buf@, at as int),
{
    (get_u16(buf, at) as u32) * 65536 + (get_u16(buf, at + 2) as u32)
}

/// Writes a big-endian number of 16 bits.
fn set_u16(buf: &mut Vec<u8>, at: usize, value: u16)
    requires
        at + 1 < old(buf).len(),
    ensures
        final(buf)@ == with_u16(old(buf)@, at as int, value),
{
    buf.set(at, (value / 256) as u8);
    buf.set(at + 1, (value % 256) as u8);
}

/// Writes a big-endian number of 32 bits.
fn set_u32(buf: &mut Vec<u8>, at: usize, value: u32)
    requires
        at + 3 < old(buf).len(),
    ensures
        final(buf)@ == with_u32(old(buf)@, at as int, value),
{
    set_u16(buf, at, (value / 65536) as u16);
    set_u16(buf, at + 2, (value % 65536) as u16);
}

/// The CRC-32 of a sequence of bytes, in the variant of ISO HDLC.
pub uninterp spec fn crc32_of(data: Seq<u8>) -> u32;

/// Calls `Crc::<u32>::checksum` of crc with the algorithm
/// `CRC_32_ISO_HDLC`. Claims that the checksum depends on the data alone.
#[verifier::external_body]
fn crc32_checksum(data: &[u8]) -> (checksum: u32)
    ensures
        checksum == crc32_of(data@),
{
    crc::Crc::<u32>::new(&crc::CRC_32_ISO_HDLC).checksum(data)
}

/// The buffer as it is summed: with four fixed bytes in place of the
/// checksum.
pub open spec fn summed(buf: Seq<u8>) -> Seq<u8> {
    buf.update(12, 0x5Au8).update(13, 0x6Bu8).update(14, 0x7Cu8).update(15, 0x8Du8)
}

/// The checksum of a packet: the CRC-32 of the buffer with four fixed
/// bytes in place of the checksum, and zero for a buffer that is too short
/// to hold a checksum.
pub open spec fn checksum_of(buf: Seq<u8>) -> u32 {
    if buf.len() < 16 {
        0
    } else {
        crc32_of(summed(buf))
    }
}

/// Computes the checksum of a packet.
pub fn tether_checksum(bytes: &Vec<u8>) -> (checksum: u32)
    ensures
        checksum == checksum_of(bytes@),
{
    if bytes.len() < 16 {
        return 0;
    }
    let mut bytes = copy_of(bytes);
    bytes.set(12, 0x5A);
    bytes.set(13, 0x6B);
    bytes.set(14, 0x7C);
    bytes.set(15, 0x8D);
    crc32_checksum(bytes.as_slice())
}

/// The length that the header of a packet is to hold: the length of the
/// buffer less sixteen, as far as it fits the field.
pub open spec fn length_field(len: nat) -> u16 {
    if len > 16 {
        ((len - 16) % 65536) as u16
    } else {
        0
    }
}

/// The packet with its length and its checksum made final.
pub open spec fn built_of(buf: Seq<u8>) -> Seq<u8> {
    let sized = with_u16(buf, 4, length_field(buf.len()));
    with_u32(sized, 12, checksum_of(sized))
}

/// A line of the rendering of a packet: the name of a field and its value.
pub open spec fn field_line(name: Seq<char>, value: nat) -> Seq<char> {
    " "@ + name + ": "@ + text::decimal_of(value) + "\n"@
}

/// The rendering of a packet: a heading, and a line for each field of the
/// header.
pub open spec fn shown_of(buf: Seq<u8>) -> Seq<char> {
    "###[ Tether ]###\n"@ + field_line("version"@, buf[0] as nat) + field_line(
        "unknown0"@,
        buf[1] as nat,
    ) + field_line("tether_type"@, buf[2] as nat) + field_line("unknown1"@, buf[3] as nat)
        + field_line("length"@, u16_at(buf, 4) as nat) + field_line(
        "unknown2"@,
        u16_at(buf, 6) as nat,
    ) + field_line("unknown3"@, u32_at(buf, 8) as nat) + field_line(
        "crc32"@,
        u32_at(buf, 12) as nat,
    ) + field_line("options"@, u16_at(buf, 16) as nat) + field_line(
        "function_id"@,
        u16_at(buf, 18) as nat,
    )
}

/// Adds the line of a field to a text.
fn push_field(text: &mut String, name: &str, value: u64)
    ensures
        final(text)@ == old(text)@ + field_line(name@, value as nat),
{
    text.append(" ");
    text.append(name);
    text.append(": ");
    let number = text::decimal(value);
    text.append(number.as_str());
    text.append("\n");
}

/// Whether a function id may be sent: ids above 100 are not sent, for some
/// of them reset the target.
pub open spec fn allowed_id(id: u16) -> bool {
    id <= 100
}

/// A packet of the tether protocol as an input of the fuzzer.
#[derive(Debug)]
pub struct TetherLayer {
    buf: Vec<u8>,
}

impl TetherLayer {
    /// The buffer holds a packet that is an input.
    #[verifier::type_invariant]
    spec fn well_formed(self) -> bool {
        is_tether(self.buf@)
    }

    /// The bytes of the packet.
    pub closed spec fn bytes(&self) -> Seq<u8> {
        self.buf@
    }
}

/// The chance with which a byte of the payload is mutated, for a packet
/// of the given length: 1 for a payload of up to 98 bytes, else 1 in 10.
pub open spec fn payload_chance(len: nat) -> (u32, u32) {
    if len <= HEADER_LEN + 98 {
        (1, 1)
    } else {
        (1, 10)
    }
}

/// The function id after a mutation and up to `tries` more while it is not
/// allowed, and the state that this leaves the mutator in.
pub open spec fn retried_id(id: u16, mutator: MutatorView, tries: nat) -> (u16, MutatorView)
    decreases tries,
{
    if tries == 0 || allowed_id(id) {
        (id, mutator)
    } else {
        let again = mutator.mutate_u16(id);
        retried_id(again.0, again.1, (tries - 1) as nat)
    }
}

/// The packet after the mutation of its function id: the id is mutated
/// until it is allowed; if it is not after a thousand and one mutations,
/// the field stays as it was.
pub open spec fn with_mutated_id(buf: Seq<u8>, mutator: MutatorView) -> (Seq<u8>, MutatorView) {
    let first = mutator.mutate_u16(u16_at(buf, 18));
    let last = retried_id(first.0, first.1, ID_TRIES as nat);
    if allowed_id(last.0) {
        (with_u16(buf, 18, last.0), last.1)
    } else {
        (buf, last.1)
    }
}

/// The packet after the bytes of its payload before `upto` had their
/// turn: each is mutated with the given chance.
pub open spec fn with_mutated_payload(
    buf: Seq<u8>,
    mutator: MutatorView,
    chance: (u32, u32),
    upto: int,
) -> (Seq<u8>, MutatorView)
    decreases upto,
{
    if upto <= HEADER_LEN {
        (buf, mutator)
    } else {
        let before = with_mutated_payload(buf, mutator, chance, upto - 1);
        let gate = before.1.chance(chance.0, chance.1);
        if gate.0 {
            let byte = gate.1.mutate_u8(before.0[upto - 1]);
            (before.0.update(upto - 1, byte.0), byte.1)
        } else {
            (before.0, gate.1)
        }
    }
}

/// The packet after a mutation. In this order, each with a chance of its
/// own: the length is set right (999 in 1000); the function id is mutated
/// (1 in 100); the options are mutated (1 in 100); each byte of the payload
/// is mutated; the checksum is set right (9999 in 10000).
pub open spec fn mutated_of(buf: Seq<u8>, mutator: MutatorView) -> (Seq<u8>, MutatorView) {
    let length_gate = mutator.chance(999, 1000);
    let sized = if length_gate.0 {
        with_u16(buf, 4, length_field(buf.len()))
    } else {
        buf
    };
    let id_gate = length_gate.1.chance(1, 100);
    let named = if id_gate.0 {
        with_mutated_id(sized, id_gate.1)
    } else {
        (sized, id_gate.1)
    };
    let options_gate = named.1.chance(1, 100);
    let optioned = if options_gate.0 {
        let options = options_gate.1.mutate_u16(u16_at(named.0, 16));
        (with_u16(named.0, 16, options.0), options.1)
    } else {
        (named.0, options_gate.1)
    };
    let filled = with_mutated_payload(
        optioned.0,
        optioned.1,
        payload_chance(buf.len()),
        buf.len() as int,
    );
    let sum_gate = filled.1.chance(9999, 10000);
    if sum_gate.0 {
        (with_u32(filled.0, 12, checksum_of(filled.0)), sum_gate.1)
    } else {
        (filled.0, sum_gate.1)
    }
}

impl Corpus for TetherLayer {
    type Value = Seq<u8>;

    open spec fn value(&self) -> Seq<u8> {
        self.bytes()
    }

    open spec fn parsed(buf: Seq<u8>) -> Option<Seq<u8>> {
        if is_tether(buf) {
            Some(buf)
        } else {
            None
        }
    }

    open spec fn serialized(value: Seq<u8>) -> Seq<u8> {
        value
    }

    open spec fn built(value: Seq<u8>) -> Seq<u8> {
        built_of(value)
    }

    open spec fn shown(value: Seq<u8>) -> Seq<char> {
        shown_of(value)
    }

    fn from_bytes(buf: Vec<u8>) -> (item: Option<Self>) {
        if buf.len() >= HEADER_LEN && buf[2] == TETHER_TYPE {
            Some(TetherLayer { buf })
        } else {
            None
        }
    }

    fn to_bytes(self) -> (buf: Vec<u8>) {
        proof {
            use_type_invariant(&self);
        }
        self.buf
    }

    fn build(self) -> (buf: Vec<u8>) {
        proof {
            use_type_invariant(&self);
        }
        let mut buf = self.buf;
        let len = buf.len() - 16;
        set_u16(&mut buf, 4, (len % 65536) as u16);
        let checksum = tether_checksum(&buf);
        set_u32(&mut buf, 12, checksum);
        buf
    }

    fn show(&self) -> (text: String) {
        proof {
            use_type_invariant(self);
        }
        let mut text = String::from_str("###[ Tether ]###\n");
        push_field(&mut text, "version", self.buf[0] as u64);
        push_field(&mut text, "unknown0", self.buf[1] as u64);
        push_field(&mut text, "tether_type", self.buf[2] as u64);
        push_field(&mut text, "unknown1", self.buf[3] as u64);
        push_field(&mut text, "length", get_u16(&self.buf, 4) as u64);
        push_field(&mut text, "unknown2", get_u16(&self.buf, 6) as u64);
        push_field(&mut text, "unknown3", get_u32(&self.buf, 8) as u64);
        push_field(&mut text, "crc32", get_u32(&self.buf, 12) as u64);
        push_field(&mut text, "options", get_u16(&self.buf, 16) as u64);
        push_field(&mut text, "function_id", get_u16(&self.buf, 18) as u64);
        text
    }

    fn duplicate(&self) -> (copy: Self) {
        proof {
            use_type_invariant(self);
        }
        TetherLayer { buf: copy_of(&self.buf) }
    }
}

/// Mutates the function id of a packet.
fn mutate_id(buf: &mut Vec<u8>, mutator: &mut Mutator)
    requires
        is_tether(old(buf)@),
    ensures
        (final(buf)@, final(mutator)@) == with_mutated_id(old(buf)@, old(mutator)@),
        is_tether(final(buf)@),
        final(buf)@.len() == old(buf)@.len(),
{
    let mut id = mutator.mutated_u16(get_u16(buf, 18));
    let ghost first = (id, mutator@);
    let mut tries: usize = 0;
    while !(id <= 100) && tries < ID_TRIES
        invariant
            tries <= ID_TRIES,
            retried_id(first.0, first.1, ID_TRIES as nat) == retried_id(
                id,
                mutator@,
                (ID_TRIES - tries) as nat,
            ),
        decreases ID_TRIES - tries,
    {
        id = mutator.mutated_u16(id);
        tries = tries + 1;
    }
    if id <= 100 {
        set_u16(buf, 18, id);
    }
}

/// The mutation of the payload leaves the header and the length of a
/// packet as they are.
proof fn lemma_payload_keeps_header(
    buf: Seq<u8>,
    mutator: MutatorView,
    chance: (u32, u32),
    upto: int,
)
    requires
        upto <= buf.len(),
    ensures
        with_mutated_payload(buf, mutator, chance, upto).0.len() == buf.len(),
        forall|i: int|
            0 <= i < HEADER_LEN && i < buf.len() ==> with_mutated_payload(
                buf,
                mutator,
                chance,
                upto,
            ).0[i] == buf[i],
    decreases upto,
{
    if upto > HEADER_LEN {
        lemma_payload_keeps_header(buf, mutator, chance, upto - 1);
    }
}

impl Mutable for TetherLayer {
    open spec fn mutated(value: Seq<u8>, mutator: MutatorView) -> (Seq<u8>, MutatorView) {
        mutated_of(value, mutator)
    }

    fn mutate(&mut self, mutator: &mut Mutator) {
        proof {
            use_type_invariant(&*self);
        }
        let mut buf = copy_of(&self.buf);
        let len = buf.len();
        if mutator.gen_chance(999, 1000) {
            set_u16(&mut buf, 4, ((len - 16) % 65536) as u16);
        }
        if mutator.gen_chance(1, 100) {
            mutate_id(&mut buf, mutator);
        }
        if mutator.gen_chance(1, 100) {
            let options = mutator.mutated_u16(get_u16(&buf, 16));
            set_u16(&mut buf, 16, options);
        }
        let chance: (u32, u32) = if len <= HEADER_LEN + 98 {
            (1, 1)
        } else {
            (1, 10)
        };
        let ghost optioned = (buf@, mutator@);
        assert(is_tether(optioned.0) && optioned.0.len() == len);
        let mut i: usize = HEADER_LEN;
        while i < len
            invariant
                HEADER_LEN <= i <= len,
                len == buf@.len(),
                len == optioned.0.len(),
                (buf@, mutator@) == with_mutated_payload(
                    optioned.0,
                    optioned.1,
                    chance,
                    i as int,
                ),
            decreases len - i,
        {
            if mutator.gen_chance(chance.0, chance.1) {
                let byte = mutator.mutated_u8(buf[i]);
                buf.set(i, byte);
            }
            i = i + 1;
        }
        proof {
            lemma_payload_keeps_header(optioned.0, optioned.1, chance, len as int);
        }
        let checksum = tether_checksum(&buf);
        if mutator.gen_chance(9999, 10000) {
            set_u32(&mut buf, 12, checksum);
        }
        self.buf = buf;
    }
}

/// The bytes of a packet parse to the packet: parsing what was serialized
/// gives an input that serializes to the same bytes.
pub proof fn lemma_tether_round_trip(layer: TetherLayer)
    requires
        is_tether(layer.value()),
    ensures
        TetherLayer::parsed(TetherLayer::serialized(layer.value())) == Some(layer.value()),
        TetherLayer::serialized(
            TetherLayer::parsed(TetherLayer::serialized(layer.value())).unwrap(),
        ) == TetherLayer::serialized(layer.value()),
{
}

/// A mutation leaves a packet a packet of the same length.
pub proof fn lemma_mutation_keeps_packet(buf: Seq<u8>, mutator: MutatorView)
    requires
        is_tether(buf),
    ensures
        is_tether(mutated_of(buf, mutator).0),
        mutated_of(buf, mutator).0.len() == buf.len(),
{
    let length_gate = mutator.chance(999, 1000);
    let sized = if length_gate.0 {
        with_u16(buf, 4, length_field(buf.len()))
    } else {
        buf
    };
    let id_gate = length_gate.1.chance(1, 100);
    let named = if id_gate.0 {
        with_mutated_id(sized, id_gate.1)
    } else {
        (sized, id_gate.1)
    };
    let options_gate = named.1.chance(1, 100);
    let optioned = if options_gate.0 {
        let options = options_gate.1.mutate_u16(u16_at(named.0, 16));
        (with_u16(named.0, 16, options.0), options.1)
    } else {
        (named.0, options_gate.1)
    };
    assert(is_tether(optioned.0) && optioned.0.len() == buf.len());
    lemma_payload_keeps_header(
        optioned.0,
        optioned.1,
        payload_chance(buf.len()),
        buf.len() as int,
    );
}

/// Whatever is drawn, a mutation leaves the function id of a packet as it
/// was or sets it to an id that is allowed: no mutation makes an id that
/// resets the target.
pub proof fn lemma_mutation_keeps_id_allowed(buf: Seq<u8>, mutator: MutatorView)
    requires
        is_tether(buf),
    ensures
        u16_at(mutated_of(buf, mutator).0, 18) == u16_at(buf, 18) || allowed_id(
            u16_at(mutated_of(buf, mutator).0, 18),
        ),
{
    let length_gate = mutator.chance(999, 1000);
    let sized = if length_gate.0 {
        with_u16(buf, 4, length_field(buf.len()))
    } else {
        buf
    };
    let id_gate = length_gate.1.chance(1, 100);
    let named = if id_gate.0 {
        with_mutated_id(sized, id_gate.1)
    } else {
        (sized, id_gate.1)
    };
    assert(u16_at(named.0, 18) == u16_at(buf, 18) || allowed_id(u16_at(named.0, 18))) by {
        if id_gate.0 {
            let first = id_gate.1.mutate_u16(u16_at(sized, 18));
            let last = retried_id(first.0, first.1, ID_TRIES as nat);
            if allowed_id(last.0) {
                assert(u16_at(with_u16(sized, 18, last.0), 18) == last.0);
            }
        }
    }
    let options_gate = named.1.chance(1, 100);
    let optioned = if options_gate.0 {
        let options = options_gate.1.mutate_u16(u16_at(named.0, 16));
        (with_u16(named.0, 16, options.0), options.1)
    } else {
        (named.0, options_gate.1)
    };
    assert(is_tether(optioned.0) && optioned.0.len() == buf.len());
    lemma_payload_keeps_header(
        optioned.0,
        optioned.1,
        payload_chance(buf.len()),
        buf.len() as int,
    );
    let filled = with_mutated_payload(
        optioned.0,
        optioned.1,
        payload_chance(buf.len()),
        buf.len() as int,
    );
    assert(filled.0[18] == optioned.0[18] && filled.0[19] == optioned.0[19]);
}

/// Whatever is drawn, a mutation touches only the length, the checksum,
/// the options, the function id and the payload: the four bytes in front
/// of the length and the six bytes behind it stay as they are.
pub proof fn lemma_mutation_keeps_fixed_fields(buf: Seq<u8>, mutator: MutatorView, i: int)
    requires
        is_tether(buf),
        0 <= i < 4 || 6 <= i < 12,
    ensures
        mutated_of(buf, mutator).0[i] == buf[i],
{
    let length_gate = mutator.chance(999, 1000);
    let sized = if length_gate.0 {
        with_u16(buf, 4, length_field(buf.len()))
    } else {
        buf
    };
    let id_gate = length_gate.1.chance(1, 100);
    let named = if id_gate.0 {
        with_mutated_id(sized, id_gate.1)
    } else {
        (sized, id_gate.1)
    };
    assert(named.0[i] == buf[i] && named.0.len() == buf.len());
    let options_gate = named.1.chance(1, 100);
    let optioned = if options_gate.0 {
        let options = options_gate.1.mutate_u16(u16_at(named.0, 16));
        (with_u16(named.0, 16, options.0), options.1)
    } else {
        (named.0, options_gate.1)
    };
    assert(optioned.0[i] == buf[i] && optioned.0.len() == buf.len());
    lemma_payload_keeps_header(
        optioned.0,
        optioned.1,
        payload_chance(buf.len()),
        buf.len() as int,
    );
}

} // verus!
