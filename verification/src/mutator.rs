//! The mutation toolkit: primitive mutations of fixed-width integers, chance
//! gates, ranges and sticky indexes, all drawn from one ChaCha key stream.
//!
//! The generator is known by its seed and its position in the key stream,
//! and every draw is a function of these two: the same seed gives the same
//! mutations in every run.

use crate::bits;
use crate::dangerous_numbers;
use crate::dangerous_numbers::DangerousNumber;
use crate::generator;
use rand_chacha::ChaCha20Rng;
use vstd::prelude::*;

verus! {

/// The three primitive mutations.
#[derive(Debug, Clone, Copy, PartialEq, Eq, Structural)]
pub enum MutatorOperation {
    /// Flip one bit.
    BitFlip,
    /// Flip the bits at a shuffled list of positions.
    Flip,
    /// Add or subtract a small number, wrapping.
    Arithmetic,
}

/// The operation that belongs to a draw from `0..3`.
pub open spec fn operation_of(draw: usize) -> MutatorOperation {
    if draw == 0 {
        MutatorOperation::BitFlip
    } else if draw == 1 {
        MutatorOperation::Flip
    } else {
        MutatorOperation::Arithmetic
    }
}

/// `raw` with bit `idx` flipped. The sign bit of a signed number stays.
pub open spec fn bit_flipped(raw: u64, bits: u8, signed: bool, idx: u8) -> u64 {
    if signed && idx + 1 == bits {
        raw
    } else {
        raw ^ (1u64 << idx)
    }
}

/// `raw` after flipping the bits at the positions `idxs`, one after the
/// other.
pub open spec fn flipped(raw: u64, bits: u8, signed: bool, idxs: Seq<u8>) -> u64
    decreases idxs.len(),
{
    if idxs.len() == 0 {
        raw
    } else {
        bit_flipped(flipped(raw, bits, signed, idxs.drop_last()), bits, signed, idxs.last())
    }
}

/// `raw` plus or minus `amount`, wrapping at the width.
pub open spec fn shifted(raw: u64, bits: u8, amount: u64, up: bool) -> u64 {
    let modulus = dangerous_numbers::width_mask(bits) + 1;
    if up {
        ((raw + amount) % modulus) as u64
    } else {
        ((raw - amount) % modulus) as u64
    }
}

/// The bits that a flip inverts: all bits of the width, but for the sign
/// bit of a signed number.
pub open spec fn flip_mask(bits: u8, signed: bool) -> u64 {
    if signed {
        dangerous_numbers::width_mask(bits) >> 1
    } else {
        dangerous_numbers::width_mask(bits)
    }
}

/// Whether `out` is what one mutation can make of `raw`: a dangerous number
/// of the width, `raw` with one bit position flipped, `raw` with every
/// position flipped, or `raw` moved up or down by 1 to 16. Whatever the key
/// stream holds, a mutation gives one of these.
pub open spec fn one_mutation(raw: u64, out: u64, bits: u8, signed: bool) -> bool {
    ||| exists|i: nat|
        i < dangerous_numbers::table_len(bits) && out == #[trigger] dangerous_numbers::table_entry(
            bits,
            i,
        )
    ||| exists|i: u8| i < bits && out == #[trigger] bit_flipped(raw, bits, signed, i)
    ||| out == raw ^ flip_mask(bits, signed)
    ||| exists|k: u64, up: bool| 1 <= k <= 16 && out == #[trigger] shifted(raw, bits, k, up)
}

/// The positions `0, 1, .., count - 1`.
pub open spec fn positions(count: u8) -> Seq<u8> {
    Seq::new(count as nat, |i: int| i as u8)
}

/// The state of a mutator as a mathematical value.
pub struct MutatorView {
    /// Seed of the key stream.
    pub seed: Seq<u8>,
    /// Position in the key stream, in 32-bit words.
    pub word_pos: u128,
    /// Outcome of every chance gate so far, oldest first.
    pub chances: Seq<bool>,
    /// The index that is remembered for each key.
    pub indexes: Map<Seq<char>, usize>,
}

impl MutatorView {
    /// The state of a mutator that has drawn nothing yet.
    pub open spec fn fresh(seed: Seq<u8>) -> MutatorView {
        MutatorView { seed, word_pos: 0, chances: Seq::empty(), indexes: Map::empty() }
    }

    /// The same state at another position of the key stream.
    pub open spec fn at(self, word_pos: u128) -> MutatorView {
        MutatorView { word_pos, ..self }
    }

    /// A draw from `low..high`.
    pub open spec fn range(self, low: usize, high: usize) -> (usize, MutatorView) {
        let drawn = generator::stream_range(self.seed, self.word_pos, low, high);
        (drawn.0, self.at(drawn.1))
    }

    /// A draw from `low..=high`, of signed numbers of 64 bits.
    pub open spec fn range_inclusive(self, low: i64, high: i64) -> (i64, MutatorView) {
        let drawn = generator::stream_range_inclusive(self.seed, self.word_pos, low, high);
        (drawn.0, self.at(drawn.1))
    }

    /// A fair coin.
    pub open spec fn flag(self) -> (bool, MutatorView) {
        let drawn = generator::stream_flag(self.seed, self.word_pos);
        (drawn.0, self.at(drawn.1))
    }

    /// A chance gate that opens with probability `numerator / denominator`:
    /// never for a numerator of zero, always where the numerator reaches the
    /// denominator. The outcome is logged.
    pub open spec fn chance(self, numerator: u32, denominator: u32) -> (bool, MutatorView) {
        let drawn = if numerator == 0 {
            (false, self.word_pos)
        } else if numerator >= denominator {
            (true, self.word_pos)
        } else {
            generator::stream_ratio(self.seed, self.word_pos, numerator, denominator)
        };
        (
            drawn.0,
            MutatorView { word_pos: drawn.1, chances: self.chances.push(drawn.0), ..self },
        )
    }

    /// An index below `max` that sticks to its key: the first call for a key
    /// draws one and remembers it; a later call keeps the remembered index
    /// unless a gate of 2 in 5 opens or the index no longer lies below `max`.
    pub open spec fn index(self, key: Seq<char>, max: usize) -> (usize, MutatorView) {
        if self.indexes.contains_key(key) {
            let gate = self.chance(2, 5);
            let stored = self.indexes[key];
            if gate.0 || stored >= max {
                let drawn = gate.1.range(0, max);
                (
                    drawn.0,
                    MutatorView { indexes: self.indexes.insert(key, drawn.0), ..drawn.1 },
                )
            } else {
                (stored, gate.1)
            }
        } else {
            let drawn = self.range(0, max);
            (drawn.0, MutatorView { indexes: self.indexes.insert(key, drawn.0), ..drawn.1 })
        }
    }

    /// A dangerous number of the width.
    pub open spec fn dangerous(self, bits: u8) -> (u64, MutatorView) {
        let drawn = self.range(0, dangerous_numbers::table_len(bits) as usize);
        (dangerous_numbers::table_entry(bits, drawn.0 as nat), drawn.1)
    }

    /// One flipped bit.
    pub open spec fn bit_flip(self, raw: u64, bits: u8, signed: bool) -> (u64, MutatorView) {
        let drawn = self.range(0, bits as usize);
        (bit_flipped(raw, bits, signed, drawn.0 as u8), drawn.1)
    }

    /// The bits at all positions of the width flipped, in shuffled order:
    /// whatever the order, each bit is inverted, but for the sign bit of a
    /// signed number.
    pub open spec fn flip(self, raw: u64, bits: u8, signed: bool) -> (u64, MutatorView) {
        let drawn = generator::stream_shuffle(self.seed, self.word_pos, positions(bits));
        (raw ^ flip_mask(bits, signed), self.at(drawn.1))
    }

    /// A number from `1..=16` added or subtracted.
    pub open spec fn arithmetic(self, raw: u64, bits: u8) -> (u64, MutatorView) {
        let amount = self.range_inclusive(1, 16);
        let up = amount.1.flag();
        (shifted(raw, bits, amount.0 as u64, up.0), up.1)
    }

    /// One mutation of a byte.
    pub open spec fn mutate_u8(self, num: u8) -> (u8, MutatorView) {
        let mutation = self.mutate(num as u64, 8, false);
        (mutation.0 as u8, mutation.1)
    }

    /// One mutation of a number of 16 bits.
    pub open spec fn mutate_u16(self, num: u16) -> (u16, MutatorView) {
        let mutation = self.mutate(num as u64, 16, false);
        (mutation.0 as u16, mutation.1)
    }

    /// One mutation of a number: with a chance of 1 in 1000 a dangerous
    /// number, else one of the three operations, each as likely as the
    /// others.
    pub open spec fn mutate(self, raw: u64, bits: u8, signed: bool) -> (u64, MutatorView) {
        let gate = self.chance(1, 1000);
        if gate.0 {
            gate.1.dangerous(bits)
        } else {
            let op = gate.1.range(0, 3);
            match operation_of(op.0) {
                MutatorOperation::BitFlip => op.1.bit_flip(raw, bits, signed),
                MutatorOperation::Flip => op.1.flip(raw, bits, signed),
                MutatorOperation::Arithmetic => op.1.arithmetic(raw, bits),
            }
        }
    }
}

/// The operation that belongs to a draw from `0..3`.
pub fn select_operation(draw: usize) -> (operation: MutatorOperation)
    ensures
        operation == operation_of(draw),
{
    if draw == 0 {
        MutatorOperation::BitFlip
    } else if draw == 1 {
        MutatorOperation::Flip
    } else {
        MutatorOperation::Arithmetic
    }
}

/// Flips bit `idx` of a number of the given width, but for the sign bit of a
/// signed number.
pub fn apply_bit_flip(raw: u64, bits: u8, signed: bool, idx: u8) -> (flipped: u64)
    requires
        dangerous_numbers::is_width(bits),
        raw <= dangerous_numbers::width_mask(bits),
        idx < bits,
    ensures
        flipped == bit_flipped(raw, bits, signed, idx),
        flipped <= dangerous_numbers::width_mask(bits),
{
    if signed && idx + 1 == bits {
        raw
    } else {
        let bit: u64 = 1u64 << idx;
        assert((raw ^ (1u64 << idx)) <= dangerous_numbers::width_mask(bits)) by {
            let i = idx as u64;
            assert(1u64 << idx == 1u64 << i) by (bit_vector)
                requires
                    i == idx as u64,
                    idx < 64,
            ;
            assert(raw <= 0xff && i < 8 ==> (raw ^ (1u64 << i)) <= 0xff) by (bit_vector);
            assert(raw <= 0xffff && i < 16 ==> (raw ^ (1u64 << i)) <= 0xffff) by (bit_vector);
            assert(raw <= 0xffff_ffff && i < 32 ==> (raw ^ (1u64 << i)) <= 0xffff_ffff)
                by (bit_vector);
        }
        raw ^ bit
    }
}

/// Flips the bits at the positions `idxs`, one after the other.
pub fn apply_flip(raw: u64, bits: u8, signed: bool, idxs: &Vec<u8>) -> (result: u64)
    requires
        dangerous_numbers::is_width(bits),
        raw <= dangerous_numbers::width_mask(bits),
        forall|i: int| 0 <= i < idxs@.len() ==> idxs@[i] < bits,
    ensures
        result == flipped(raw, bits, signed, idxs@),
        result <= dangerous_numbers::width_mask(bits),
{
    let mut result = raw;
    let mut i: usize = 0;
    while i < idxs.len()
        invariant
            i <= idxs@.len(),
            dangerous_numbers::is_width(bits),
            result <= dangerous_numbers::width_mask(bits),
            forall|j: int| 0 <= j < idxs@.len() ==> idxs@[j] < bits,
            result == flipped(raw, bits, signed, idxs@.take(i as int)),
        decreases idxs@.len() - i,
    {
        proof {
            assert(idxs@.take(i + 1).drop_last() == idxs@.take(i as int));
        }
        result = apply_bit_flip(result, bits, signed, idxs[i]);
        i = i + 1;
    }
    proof {
        assert(idxs@.take(i as int) == idxs@);
    }
    result
}

/// Adds `amount` to a number of the given width, or subtracts it, wrapping
/// at the width.
pub fn apply_arithmetic(raw: u64, bits: u8, amount: u64, up: bool) -> (result: u64)
    requires
        dangerous_numbers::is_width(bits),
        raw <= dangerous_numbers::width_mask(bits),
        1 <= amount <= 16,
    ensures
        result == shifted(raw, bits, amount, up),
        result <= dangerous_numbers::width_mask(bits),
{
    if bits == 8 {
        let narrow = raw as u8;
        let step = amount as u8;
        let result = if up {
            narrow.wrapping_add(step)
        } else {
            narrow.wrapping_sub(step)
        };
        assert(result == shifted(raw, bits, amount, up)) by {
            assert(dangerous_numbers::width_mask(bits) + 1 == 256);
            if up {
                assert((raw + amount) % 256 == if raw + amount >= 256 {
                    raw + amount - 256
                } else {
                    raw + amount
                });
            } else {
                assert((raw - amount) % 256 == if raw - amount < 0 {
                    raw - amount + 256
                } else {
                    raw - amount
                });
            }
        }
        result as u64
    } else if bits == 16 {
        let narrow = raw as u16;
        let step = amount as u16;
        let result = if up {
            narrow.wrapping_add(step)
        } else {
            narrow.wrapping_sub(step)
        };
        assert(result == shifted(raw, bits, amount, up));
        result as u64
    } else if bits == 32 {
        let narrow = raw as u32;
        let step = amount as u32;
        let result = if up {
            narrow.wrapping_add(step)
        } else {
            narrow.wrapping_sub(step)
        };
        assert(result == shifted(raw, bits, amount, up));
        result as u64
    } else {
        let result = if up {
            raw.wrapping_add(amount)
        } else {
            raw.wrapping_sub(amount)
        };
        assert(result == shifted(raw, bits, amount, up));
        result
    }
}

/// A bit of a number whose bits were flipped at a list of positions is as
/// it was where its position stands in the list an even number of times,
/// and where it is the sign bit of a signed number.
proof fn lemma_flipped_bit(raw: u64, bits: u8, signed: bool, idxs: Seq<u8>, k: u64)
    requires
        k < 64,
        forall|i: int| 0 <= i < idxs.len() ==> idxs[i] < 64,
    ensures
        bits::bit_set(flipped(raw, bits, signed, idxs), k) == (bits::bit_set(raw, k) != (
        idxs.to_multiset().count(k as u8) % 2 == 1 && !(signed && k + 1 == bits))),
    decreases idxs.len(),
{
    broadcast use vstd::seq_lib::group_to_multiset_ensures;

    if idxs.len() > 0 {
        let init = idxs.drop_last();
        let last = idxs.last();
        let before = flipped(raw, bits, signed, init);
        lemma_flipped_bit(raw, bits, signed, init, k);
        let at = last as u64;
        assert(1u64 << last == 1u64 << at) by (bit_vector)
            requires
                at == last as u64,
                last < 64,
        ;
        bits::lemma_bit_of_flip(before, at, k);
        assert(idxs == init.push(last));
    }
}

/// Each position below `count` stands once among the positions, and no
/// other position does.
proof fn lemma_positions_count(count: u8, k: u8)
    ensures
        positions(count).to_multiset().count(k) == if k < count {
            1nat
        } else {
            0nat
        },
{
    broadcast use vstd::seq_lib::group_to_multiset_ensures;

    let all = positions(count);
    all.lemma_multiset_has_no_duplicates();
    if k < count {
        assert(all[k as int] == k);
    } else {
        if all.contains(k) {
            let i = choose|i: int| 0 <= i < all.len() && all[i] == k;
        }
    }
}

/// Flipping the bits of a number at all positions of its width, in
/// whatever order, inverts each bit, but for the sign bit of a signed
/// number.
pub proof fn lemma_flip_inverts(raw: u64, bits: u8, signed: bool, idxs: Seq<u8>)
    requires
        dangerous_numbers::is_width(bits),
        idxs.to_multiset() == positions(bits).to_multiset(),
    ensures
        flipped(raw, bits, signed, idxs) == raw ^ flip_mask(bits, signed),
{
    broadcast use vstd::seq_lib::group_to_multiset_ensures;

    let mask = flip_mask(bits, signed);
    let result = flipped(raw, bits, signed, idxs);
    assert forall|i: int| 0 <= i < idxs.len() implies idxs[i] < 64 by {
        lemma_positions_count(bits, idxs[i]);
    }
    assert forall|k: u64| k < 64 implies bits::bit_set(result, k) == bits::bit_set(raw ^ mask, k) by {
        lemma_flipped_bit(raw, bits, signed, idxs, k);
        lemma_positions_count(bits, k as u8);
        bits::lemma_bit_of_xor(raw, mask, k);
        bits::lemma_bit_of_mask(bits, k);
        bits::lemma_bit_of_low_mask(bits, k);
    }
    bits::lemma_same_bits(result, raw ^ mask);
}

/// The map that a list of remembered indexes stands for: each key with the
/// index of its last entry.
pub open spec fn index_map(stored: Seq<(String, usize)>) -> Map<Seq<char>, usize>
    decreases stored.len(),
{
    if stored.len() == 0 {
        Map::empty()
    } else {
        index_map(stored.drop_last()).insert(stored.last().0@, stored.last().1)
    }
}

/// A key is remembered where the list has an entry for it.
proof fn lemma_index_map_contains(stored: Seq<(String, usize)>, key: Seq<char>)
    ensures
        index_map(stored).contains_key(key) <==> exists|i: int|
            0 <= i < stored.len() && (#[trigger] stored[i]).0@ == key,
    decreases stored.len(),
{
    if stored.len() > 0 {
        lemma_index_map_contains(stored.drop_last(), key);
        if index_map(stored).contains_key(key) && stored.last().0@ != key {
            let i = choose|i: int|
                0 <= i < stored.drop_last().len() && (#[trigger] stored.drop_last()[i]).0@ == key;
            assert(stored[i].0@ == key);
        }
        if exists|i: int| 0 <= i < stored.len() && (#[trigger] stored[i]).0@ == key {
            let i = choose|i: int| 0 <= i < stored.len() && (#[trigger] stored[i]).0@ == key;
            if i < stored.len() - 1 {
                assert(stored.drop_last()[i].0@ == key);
            }
        }
    }
}

/// The index remembered for a key is that of its last entry.
proof fn lemma_index_map_last(stored: Seq<(String, usize)>, at: int)
    requires
        0 <= at < stored.len(),
        forall|j: int| at < j < stored.len() ==> (#[trigger] stored[j]).0@ != stored[at].0@,
    ensures
        index_map(stored).contains_key(stored[at].0@),
        index_map(stored)[stored[at].0@] == stored[at].1,
    decreases stored.len(),
{
    if at < stored.len() - 1 {
        assert forall|j: int| at < j < stored.drop_last().len() implies (
        #[trigger] stored.drop_last()[j]).0@ != stored.drop_last()[at].0@ by {}
        lemma_index_map_last(stored.drop_last(), at);
    }
}

/// Replacing the last entry of a key is an insertion into the map.
proof fn lemma_index_map_update(stored: Seq<(String, usize)>, at: int, entry: (String, usize))
    requires
        0 <= at < stored.len(),
        entry.0@ == stored[at].0@,
        forall|j: int| at < j < stored.len() ==> (#[trigger] stored[j]).0@ != stored[at].0@,
    ensures
        index_map(stored.update(at, entry)) == index_map(stored).insert(entry.0@, entry.1),
    decreases stored.len(),
{
    let updated = stored.update(at, entry);
    if at == stored.len() - 1 {
        assert(updated.drop_last() == stored.drop_last());
    } else {
        assert forall|j: int| at < j < stored.drop_last().len() implies (
        #[trigger] stored.drop_last()[j]).0@ != stored.drop_last()[at].0@ by {}
        lemma_index_map_update(stored.drop_last(), at, entry);
        assert(updated.drop_last() == stored.drop_last().update(at, entry));
    }
}

/// The mutator that the engine hands to `Mutable::mutate`. Every decision
/// of a mutation is drawn from it, so that a campaign can be repeated.
pub struct Mutator {
    rng: ChaCha20Rng,
    chances: Vec<bool>,
    stored_indexes: Vec<(String, usize)>,
}

impl View for Mutator {
    type V = MutatorView;

    closed spec fn view(&self) -> MutatorView {
        MutatorView {
            seed: generator::generator_seed(self.rng),
            word_pos: generator::generator_word_pos(self.rng),
            chances: self.chances@,
            indexes: index_map(self.stored_indexes@),
        }
    }
}

impl Mutator {
    /// A mutator at the start of the key stream of `seed`.
    pub fn new(seed: [u8; 32]) -> (mutator: Mutator)
        ensures
            mutator@ == MutatorView::fresh(seed@),
    {
        Mutator { rng: generator::seeded_generator(seed), chances: Vec::new(), stored_indexes: Vec::new() }
    }

    /// The seed of the key stream.
    pub fn seed(&self) -> (seed: [u8; 32])
        ensures
            seed@ == self@.seed,
    {
        generator::seed_of_generator(&self.rng)
    }

    /// The position in the key stream, in 32-bit words.
    pub fn word_pos(&self) -> (word_pos: u128)
        ensures
            word_pos == self@.word_pos,
    {
        generator::word_pos_of_generator(&self.rng)
    }

    /// Draws from `min..max` and moves on in the key stream.
    fn draw_in_range(&mut self, min: usize, max: usize) -> (value: usize)
        requires
            min < max,
        ensures
            (value, final(self)@) == old(self)@.range(min, max),
            min <= value < max,
            final(self).stored_indexes == old(self).stored_indexes,
    {
        generator::draw_range(&mut self.rng, min, max)
    }

    /// Passes a chance gate and logs the outcome.
    fn draw_chance(&mut self, numerator: u32, denominator: u32) -> (chance: bool)
        ensures
            (chance, final(self)@) == old(self)@.chance(numerator, denominator),
            final(self).stored_indexes == old(self).stored_indexes,
    {
        let chance = if numerator == 0 {
            false
        } else if numerator >= denominator {
            true
        } else {
            generator::draw_ratio(&mut self.rng, numerator, denominator)
        };
        self.chances.push(chance);
        chance
    }

    /// Returns a value from `min..max`.
    pub fn gen_range(&mut self, min: usize, max: usize) -> (value: usize)
        requires
            min < max,
        ensures
            (value, final(self)@) == old(self)@.range(min, max),
            min <= value < max,
    {
        self.draw_in_range(min, max)
    }

    /// Returns whether the chance event occurred. The chance is
    /// `numerator / denominator`: a numerator of zero never occurs, one that
    /// reaches the denominator always does.
    pub fn gen_chance(&mut self, numerator: u32, denominator: u32) -> (chance: bool)
        ensures
            (chance, final(self)@) == old(self)@.chance(numerator, denominator),
            numerator == 0 ==> !chance,
            numerator > 0 && numerator >= denominator ==> chance,
    {
        self.draw_chance(numerator, denominator)
    }

    /// Position of the last entry for `key` among the remembered indexes.
    fn find_key(&self, key: &String) -> (found: Option<usize>)
        ensures
            found.is_some() == self@.indexes.contains_key(key@),
            found matches Some(at) ==> {
                &&& at < self.stored_indexes@.len()
                &&& self.stored_indexes@[at as int].0@ == key@
                &&& self@.indexes[key@] == self.stored_indexes@[at as int].1
                &&& forall|j: int|
                    at < j < self.stored_indexes@.len() ==> (#[trigger] self.stored_indexes@[j]).0@
                        != key@
            },
    {
        let mut i: usize = self.stored_indexes.len();
        while i > 0
            invariant
                i <= self.stored_indexes@.len(),
                forall|j: int|
                    i <= j < self.stored_indexes@.len() ==> (#[trigger] self.stored_indexes@[j]).0@
                        != key@,
            decreases i,
        {
            i = i - 1;
            if self.stored_indexes[i].0 == *key {
                proof {
                    lemma_index_map_last(self.stored_indexes@, i as int);
                }
                return Some(i);
            }
        }
        proof {
            lemma_index_map_contains(self.stored_indexes@, key@);
        }
        None
    }

    /// Returns an index below `max` that sticks to `key`: drawn at the first
    /// call for the key, and kept at a later call unless a chance of 0.4
    /// occurs or the remembered index does not lie below `max`.
    pub fn gen_index(&mut self, key: &'static str, max: usize) -> (index: usize)
        requires
            0 < max,
        ensures
            (index, final(self)@) == old(self)@.index(key@, max),
            index < max,
    {
        let owned = key.to_owned();
        match self.find_key(&owned) {
            Some(at) => {
                let change = self.draw_chance(2, 5);
                let stored = self.stored_indexes[at].1;
                if change || stored >= max {
                    let index = self.draw_in_range(0, max);
                    proof {
                        lemma_index_map_update(self.stored_indexes@, at as int, (owned, index));
                    }
                    self.stored_indexes.set(at, (owned, index));
                    index
                } else {
                    stored
                }
            },
            None => {
                let index = self.draw_in_range(0, max);
                assert(self.stored_indexes@.push((owned, index)).drop_last()
                    == self.stored_indexes@);
                self.stored_indexes.push((owned, index));
                index
            },
        }
    }

    /// Replaces the number by a dangerous number of its type.
    fn select_dangerous_number<T: DangerousNumber>(&mut self) -> (num: T)
        ensures
            (num.pattern(), final(self)@) == old(self)@.dangerous(T::bits()),
            exists|i: nat|
                i < dangerous_numbers::table_len(T::bits()) && num.pattern()
                    == #[trigger] dangerous_numbers::table_entry(T::bits(), i),
    {
        let len = T::dangerous_numbers_len();
        let idx = self.gen_range(0, len);
        let num = T::dangerous_number_at_index(idx);
        assert(num.pattern() == dangerous_numbers::table_entry(T::bits(), idx as nat));
        num
    }

    /// Flips a single bit of the number.
    fn bit_flip(&mut self, raw: u64, bits: u8, signed: bool) -> (result: u64)
        requires
            dangerous_numbers::is_width(bits),
            raw <= dangerous_numbers::width_mask(bits),
        ensures
            (result, final(self)@) == old(self)@.bit_flip(raw, bits, signed),
            result <= dangerous_numbers::width_mask(bits),
            exists|i: u8| i < bits && result == #[trigger] bit_flipped(raw, bits, signed, i),
    {
        let idx = self.gen_range(0, bits as usize);
        let result = apply_bit_flip(raw, bits, signed, idx as u8);
        assert(result == bit_flipped(raw, bits, signed, idx as u8));
        result
    }

    /// Flips the bits at all positions of the width, in shuffled order.
    fn flip(&mut self, raw: u64, bits: u8, signed: bool) -> (result: u64)
        requires
            dangerous_numbers::is_width(bits),
            raw <= dangerous_numbers::width_mask(bits),
        ensures
            (result, final(self)@) == old(self)@.flip(raw, bits, signed),
            result <= dangerous_numbers::width_mask(bits),
    {
        let mut indices: Vec<u8> = Vec::new();
        let mut i: u8 = 0;
        while i < bits
            invariant
                i <= bits,
                indices@ == positions(i),
            decreases bits - i,
        {
            indices.push(i);
            i = i + 1;
        }
        let ghost before = indices@;
        generator::draw_shuffle(&mut self.rng, &mut indices);
        proof {
            assert forall|j: int| 0 <= j < indices@.len() implies indices@[j] < bits by {
                broadcast use vstd::seq_lib::group_to_multiset_ensures;

                assert(before.to_multiset().count(indices@[j]) > 0);
            }
            lemma_flip_inverts(raw, bits, signed, indices@);
        }
        apply_flip(raw, bits, signed, &indices)
    }

    /// Adds a number from `1..=16` to the number, or subtracts it, wrapping.
    fn arithmetic(&mut self, raw: u64, bits: u8) -> (result: u64)
        requires
            dangerous_numbers::is_width(bits),
            raw <= dangerous_numbers::width_mask(bits),
        ensures
            (result, final(self)@) == old(self)@.arithmetic(raw, bits),
            result <= dangerous_numbers::width_mask(bits),
            exists|k: u64, up: bool|
                1 <= k <= 16 && result == #[trigger] shifted(raw, bits, k, up),
    {
        let amount = generator::draw_range_inclusive(&mut self.rng, 1, 16);
        let up = generator::draw_flag(&mut self.rng);
        let result = apply_arithmetic(raw, bits, amount as u64, up);
        assert(result == shifted(raw, bits, amount as u64, up));
        result
    }

    /// Mutates a number: with a chance of 0.001 it becomes a dangerous
    /// number of its type; else one of bit flip, flip and arithmetic is
    /// chosen, each as likely as the others, and applied. Whatever is
    /// drawn, the number becomes one that `one_mutation` allows.
    pub fn mutate<T: DangerousNumber>(&mut self, num: &mut T)
        ensures
            (final(num).pattern(), final(self)@) == old(self)@.mutate(
                old(num).pattern(),
                T::bits(),
                T::signed(),
            ),
            one_mutation(old(num).pattern(), final(num).pattern(), T::bits(), T::signed()),
    {
        if self.gen_chance(1, 1000) {
            *num = self.select_dangerous_number::<T>();
            return ;
        }
        let bits = T::width();
        let signed = T::is_signed();
        let raw = (*num).to_pattern();
        let operation = select_operation(self.gen_range(0, 3));
        let result = match operation {
            MutatorOperation::BitFlip => self.bit_flip(raw, bits, signed),
            MutatorOperation::Flip => self.flip(raw, bits, signed),
            MutatorOperation::Arithmetic => self.arithmetic(raw, bits),
        };
        *num = T::from_pattern(result);
    }
}

impl Mutator {
    /// Mutates a byte and returns it: whatever is drawn, a byte that
    /// `one_mutation` allows.
    pub fn mutated_u8(&mut self, num: u8) -> (mutated: u8)
        ensures
            (mutated, final(self)@) == old(self)@.mutate_u8(num),
            one_mutation(num as u64, mutated as u64, 8, false),
    {
        let mut mutated = num;
        self.mutate(&mut mutated);
        mutated
    }

    /// Mutates a number of 16 bits and returns it: whatever is drawn, a
    /// number that `one_mutation` allows.
    pub fn mutated_u16(&mut self, num: u16) -> (mutated: u16)
        ensures
            (mutated, final(self)@) == old(self)@.mutate_u16(num),
            one_mutation(num as u64, mutated as u64, 16, false),
    {
        let mut mutated = num;
        self.mutate(&mut mutated);
        mutated
    }
}

} // verus!
