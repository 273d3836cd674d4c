//! Facts about the bits of a number.

use crate::dangerous_numbers;
use vstd::prelude::*;

verus! {

/// Whether bit `k` of a number is set.
pub open spec fn bit_set(x: u64, k: u64) -> bool {
    (x >> k) & 1 == 1
}

/// Flipping bit `i` changes bit `i` and no other.
pub proof fn lemma_bit_of_flip(x: u64, i: u64, k: u64)
    requires
        i < 64,
        k < 64,
    ensures
        bit_set(x ^ (1u64 << i), k) == (bit_set(x, k) != (k == i)),
{
    assert((((x ^ (1u64 << i)) >> k) & 1 == 1) == ((((x >> k) & 1) == 1) != (k == i)))
        by (bit_vector)
        requires
            i < 64,
            k < 64,
    ;
}

/// A bit of the exclusive or of two numbers is set where the bits of the
/// two differ.
pub proof fn lemma_bit_of_xor(x: u64, y: u64, k: u64)
    requires
        k < 64,
    ensures
        bit_set(x ^ y, k) == (bit_set(x, k) != bit_set(y, k)),
{
    assert((((x ^ y) >> k) & 1 == 1) == ((((x >> k) & 1) == 1) != (((y >> k) & 1) == 1)))
        by (bit_vector)
        requires
            k < 64,
    ;
}

/// The mask of a width has the bits below the width set, and no other.
pub proof fn lemma_bit_of_mask(bits: u8, k: u64)
    requires
        dangerous_numbers::is_width(bits),
        k < 64,
    ensures
        bit_set(dangerous_numbers::width_mask(bits), k) == (k < bits),
{
    assert((((0xffu64 >> k) & 1) == 1) == (k < 8)) by (bit_vector)
        requires
            k < 64,
    ;
    assert((((0xffffu64 >> k) & 1) == 1) == (k < 16)) by (bit_vector)
        requires
            k < 64,
    ;
    assert((((0xffff_ffffu64 >> k) & 1) == 1) == (k < 32)) by (bit_vector)
        requires
            k < 64,
    ;
    assert((((0xffff_ffff_ffff_ffffu64 >> k) & 1) == 1) == (k < 64)) by (bit_vector)
        requires
            k < 64,
    ;
}

/// The mask of the bits of a width without the highest has the bits below
/// the highest set, and no other.
pub proof fn lemma_bit_of_low_mask(bits: u8, k: u64)
    requires
        dangerous_numbers::is_width(bits),
        k < 64,
    ensures
        bit_set(dangerous_numbers::width_mask(bits) >> 1, k) == (k + 1 < bits),
{
    assert((((0xffu64 >> 1) >> k) & 1 == 1) == (k < 7)) by (bit_vector)
        requires
            k < 64,
    ;
    assert((((0xffffu64 >> 1) >> k) & 1 == 1) == (k < 15)) by (bit_vector)
        requires
            k < 64,
    ;
    assert((((0xffff_ffffu64 >> 1) >> k) & 1 == 1) == (k < 31)) by (bit_vector)
        requires
            k < 64,
    ;
    assert((((0xffff_ffff_ffff_ffffu64 >> 1) >> k) & 1 == 1) == (k < 63)) by (bit_vector)
        requires
            k < 64,
    ;
}

/// A number without a set bit among its lowest eight has a lowest byte of
/// zero.
proof fn lemma_byte_zero(d: u64)
    requires
        forall|k: u64| k < 8 ==> !bit_set(d, k),
    ensures
        d & 0xff == 0,
{
    assert(!bit_set(d, 0) && !bit_set(d, 1) && !bit_set(d, 2) && !bit_set(d, 3) && !bit_set(d, 4)
        && !bit_set(d, 5) && !bit_set(d, 6) && !bit_set(d, 7));
    assert(((d >> 0) & 1 != 1 && (d >> 1) & 1 != 1 && (d >> 2) & 1 != 1 && (d >> 3) & 1 != 1 && (d
        >> 4) & 1 != 1 && (d >> 5) & 1 != 1 && (d >> 6) & 1 != 1 && (d >> 7) & 1 != 1) ==> d & 0xff
        == 0) by (bit_vector);
}

/// A byte of a number without a set bit is zero.
proof fn lemma_byte_of_zero(d: u64, shift: u64)
    requires
        forall|k: u64| k < 64 ==> !bit_set(d, k),
        shift <= 56,
    ensures
        (d >> shift) & 0xff == 0,
{
    assert forall|k: u64| k < 8 implies !bit_set(d >> shift, k) by {
        assert(((d >> shift) >> k) & 1 == (d >> ((shift + k) as u64)) & 1) by (bit_vector)
            requires
                shift <= 56,
                k < 8,
        ;
        assert(!bit_set(d, (shift + k) as u64));
    }
    lemma_byte_zero(d >> shift);
}

/// A number without a set bit is zero.
pub proof fn lemma_no_bit_is_zero(d: u64)
    requires
        forall|k: u64| k < 64 ==> !bit_set(d, k),
    ensures
        d == 0,
{
    lemma_byte_of_zero(d, 0);
    lemma_byte_of_zero(d, 8);
    lemma_byte_of_zero(d, 16);
    lemma_byte_of_zero(d, 24);
    lemma_byte_of_zero(d, 32);
    lemma_byte_of_zero(d, 40);
    lemma_byte_of_zero(d, 48);
    lemma_byte_of_zero(d, 56);
    assert(((d >> 0) & 0xff == 0 && (d >> 8) & 0xff == 0 && (d >> 16) & 0xff == 0 && (d >> 24)
        & 0xff == 0 && (d >> 32) & 0xff == 0 && (d >> 40) & 0xff == 0 && (d >> 48) & 0xff == 0 && (d
        >> 56) & 0xff == 0) ==> d == 0) by (bit_vector);
}

/// Two numbers with the same bits are the same number.
pub proof fn lemma_same_bits(x: u64, y: u64)
    requires
        forall|k: u64| k < 64 ==> bit_set(x, k) == bit_set(y, k),
    ensures
        x == y,
{
    assert forall|k: u64| k < 64 implies !bit_set(x ^ y, k) by {
        lemma_bit_of_xor(x, y, k);
    }
    lemma_no_bit_is_zero(x ^ y);
    assert(x ^ y == 0 ==> x == y) by (bit_vector);
}

} // verus!
