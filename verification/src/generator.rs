//! The generator behind the mutator: ChaCha20, known by its seed and its
//! position in the key stream. What a draw returns, and where it leaves the
//! generator, is a function of these two and of what is asked for.

use rand::seq::SliceRandom;
use rand::Rng;
use rand::SeedableRng;
use rand_chacha::ChaCha20Rng;
use vstd::prelude::*;

verus! {

/// What `Rng::random_range(low..high)` returns for sizes on a ChaCha20
/// generator that stands at `word_pos` of the key stream of `seed`, and
/// where the generator stands afterwards.
pub uninterp spec fn stream_range(seed: Seq<u8>, word_pos: u128, low: usize, high: usize) -> (
    usize,
    u128,
);

/// What `Rng::random_range(low..=high)` returns on that generator for
/// signed numbers of 64 bits, and where the generator stands afterwards.
pub uninterp spec fn stream_range_inclusive(seed: Seq<u8>, word_pos: u128, low: i64, high: i64) -> (
    i64,
    u128,
);

/// What `Rng::random::<bool>()` returns on that generator, and where it
/// stands afterwards.
pub uninterp spec fn stream_flag(seed: Seq<u8>, word_pos: u128) -> (bool, u128);

/// What `Rng::random_ratio(numerator, denominator)` returns on that
/// generator, and where it stands afterwards.
pub uninterp spec fn stream_ratio(
    seed: Seq<u8>,
    word_pos: u128,
    numerator: u32,
    denominator: u32,
) -> (bool, u128);

/// The order in which `SliceRandom::partial_shuffle` over their whole length
/// leaves `items` on that generator, and where it stands afterwards.
pub uninterp spec fn stream_shuffle(seed: Seq<u8>, word_pos: u128, items: Seq<u8>) -> (
    Seq<u8>,
    u128,
);

/// `ChaCha20Rng` of rand_chacha, the generator behind the mutator. It is
/// known by its seed and its position in the key stream alone.
#[verifier::external_type_specification]
#[verifier::external_body]
pub struct ExChaCha20Rng(ChaCha20Rng);

/// What `ChaCha20Rng::get_seed` returns: the seed that the generator was
/// made from.
pub uninterp spec fn generator_seed(rng: ChaCha20Rng) -> Seq<u8>;

/// What `ChaCha20Rng::get_word_pos` returns: the position of the generator
/// in its key stream, in 32-bit words.
pub uninterp spec fn generator_word_pos(rng: ChaCha20Rng) -> u128;

/// Calls `ChaCha20Rng::from_seed`. Claims that the generator holds the
/// seed and stands at the start of the key stream.
#[verifier::external_body]
pub(crate) fn seeded_generator(seed: [u8; 32]) -> (rng: ChaCha20Rng)
    ensures
        generator_seed(rng) == seed@,
        generator_word_pos(rng) == 0,
{
    ChaCha20Rng::from_seed(seed)
}

/// Calls `ChaCha20Rng::get_seed`.
#[verifier::external_body]
pub(crate) fn seed_of_generator(rng: &ChaCha20Rng) -> (seed: [u8; 32])
    ensures
        seed@ == generator_seed(*rng),
{
    rng.get_seed()
}

/// Calls `ChaCha20Rng::get_word_pos`.
#[verifier::external_body]
pub(crate) fn word_pos_of_generator(rng: &ChaCha20Rng) -> (word_pos: u128)
    ensures
        word_pos == generator_word_pos(*rng),
{
    rng.get_word_pos()
}

/// Calls `Rng::random_range` of rand on a range of sizes. Claims that the
/// value lies in `low..high`, that value and new position depend on seed,
/// position and range alone, and that the seed stays.
#[verifier::external_body]
pub(crate) fn draw_range(rng: &mut ChaCha20Rng, low: usize, high: usize) -> (value: usize)
    requires
        low < high,
    ensures
        (value, generator_word_pos(*final(rng))) == stream_range(
            generator_seed(*old(rng)),
            generator_word_pos(*old(rng)),
            low,
            high,
        ),
        generator_seed(*final(rng)) == generator_seed(*old(rng)),
        low <= value < high,
{
    rng.random_range(low..high)
}

/// Calls `Rng::random_range` of rand on an inclusive range of signed
/// numbers of 64 bits. Claims that the value lies in `low..=high`, that
/// value and new position depend on seed, position and range alone, and
/// that the seed stays.
#[verifier::external_body]
pub(crate) fn draw_range_inclusive(rng: &mut ChaCha20Rng, low: i64, high: i64) -> (value: i64)
    requires
        low <= high,
    ensures
        (value, generator_word_pos(*final(rng))) == stream_range_inclusive(
            generator_seed(*old(rng)),
            generator_word_pos(*old(rng)),
            low,
            high,
        ),
        generator_seed(*final(rng)) == generator_seed(*old(rng)),
        low <= value <= high,
{
    rng.random_range(low..=high)
}

/// Calls `Rng::random::<bool>` of rand. Claims that value and new position
/// depend on seed and position alone, and that the seed stays.
#[verifier::external_body]
pub(crate) fn draw_flag(rng: &mut ChaCha20Rng) -> (value: bool)
    ensures
        (value, generator_word_pos(*final(rng))) == stream_flag(
            generator_seed(*old(rng)),
            generator_word_pos(*old(rng)),
        ),
        generator_seed(*final(rng)) == generator_seed(*old(rng)),
{
    rng.random::<bool>()
}

/// Calls `Rng::random_ratio` of rand. Claims that value and new position
/// depend on seed, position and ratio alone, and that the seed stays.
#[verifier::external_body]
pub(crate) fn draw_ratio(rng: &mut ChaCha20Rng, numerator: u32, denominator: u32) -> (value: bool)
    requires
        0 < denominator,
        numerator <= denominator,
    ensures
        (value, generator_word_pos(*final(rng))) == stream_ratio(
            generator_seed(*old(rng)),
            generator_word_pos(*old(rng)),
            numerator,
            denominator,
        ),
        generator_seed(*final(rng)) == generator_seed(*old(rng)),
{
    rng.random_ratio(numerator, denominator)
}

/// Calls `SliceRandom::partial_shuffle` of rand over the whole of `items`.
/// Claims that the items are permuted in place, that their order and the
/// new position depend on seed, position and items alone, and that the seed
/// stays.
#[verifier::external_body]
pub(crate) fn draw_shuffle(rng: &mut ChaCha20Rng, items: &mut Vec<u8>)
    ensures
        (final(items)@, generator_word_pos(*final(rng))) == stream_shuffle(
            generator_seed(*old(rng)),
            generator_word_pos(*old(rng)),
            old(items)@,
        ),
        generator_seed(*final(rng)) == generator_seed(*old(rng)),
        final(items)@.to_multiset() == old(items)@.to_multiset(),
{
    let amount = items.len();
    items.partial_shuffle(rng, amount);
}

} // verus!
