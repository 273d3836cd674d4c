//! Boundary values that tend to expose bugs in a target, one table for each
//! integer width.

use vstd::prelude::*;

verus! {

/// Number of entries in the table of a width.
pub open spec fn table_len(bits: u8) -> nat {
    if bits == 8 {
        4
    } else {
        6
    }
}

/// Entry `idx` of the table of a width, as a bit pattern: the smallest and
/// the largest unsigned value, the largest signed value and its successor,
/// and, for the wider types, these last two with their bytes swapped.
pub open spec fn table_entry(bits: u8, idx: nat) -> u64 {
    if bits == 8 {
        if idx == 0 {
            0x00
        } else if idx == 1 {
            0xff
        } else if idx == 2 {
            0x7f
        } else {
            0x80
        }
    } else if bits == 16 {
        if idx == 0 {
            0x0000
        } else if idx == 1 {
            0xffff
        } else if idx == 2 {
            0x7fff
        } else if idx == 3 {
            0x8000
        } else if idx == 4 {
            0xff7f
        } else {
            0x0080
        }
    } else if bits == 32 {
        if idx == 0 {
            0x0000_0000
        } else if idx == 1 {
            0xffff_ffff
        } else if idx == 2 {
            0x7fff_ffff
        } else if idx == 3 {
            0x8000_0000
        } else if idx == 4 {
            0xffff_ff7f
        } else {
            0x0000_0080
        }
    } else {
        if idx == 0 {
            0x0000_0000_0000_0000
        } else if idx == 1 {
            0xffff_ffff_ffff_ffff
        } else if idx == 2 {
            0x7fff_ffff_ffff_ffff
        } else if idx == 3 {
            0x8000_0000_0000_0000
        } else if idx == 4 {
            0xffff_ffff_ffff_ff7f
        } else {
            0x0000_0000_0000_0080
        }
    }
}

/// The widths that have a table.
pub open spec fn is_width(bits: u8) -> bool {
    bits == 8 || bits == 16 || bits == 32 || bits == 64
}

/// The bit pattern with the low `bits` bits set.
pub open spec fn width_mask(bits: u8) -> u64 {
    if bits == 8 {
        0xff
    } else if bits == 16 {
        0xffff
    } else if bits == 32 {
        0xffff_ffff
    } else {
        0xffff_ffff_ffff_ffff
    }
}

/// Number of entries in the table of a width.
pub fn dangerous_numbers_len(bits: u8) -> (len: usize)
    requires
        is_width(bits),
    ensures
        len == table_len(bits),
{
    if bits == 8 {
        4
    } else {
        6
    }
}

/// Entry `idx` of the table of a width.
pub fn dangerous_number_at_index(bits: u8, idx: usize) -> (value: u64)
    requires
        is_width(bits),
        idx < table_len(bits),
    ensures
        value == table_entry(bits, idx as nat),
        value <= width_mask(bits),
{
    let table8: [u64; 4] = [0x00, 0xff, 0x7f, 0x80];
    let table16: [u64; 6] = [0x0000, 0xffff, 0x7fff, 0x8000, 0xff7f, 0x0080];
    let table32: [u64; 6] = [
        0x0000_0000,
        0xffff_ffff,
        0x7fff_ffff,
        0x8000_0000,
        0xffff_ff7f,
        0x0000_0080,
    ];
    let table64: [u64; 6] = [
        0x0000_0000_0000_0000,
        0xffff_ffff_ffff_ffff,
        0x7fff_ffff_ffff_ffff,
        0x8000_0000_0000_0000,
        0xffff_ffff_ffff_ff7f,
        0x0000_0000_0000_0080,
    ];
    let value = if bits == 8 {
        table8[idx]
    } else if bits == 16 {
        table16[idx]
    } else if bits == 32 {
        table32[idx]
    } else {
        table64[idx]
    };
    value
}

/// A fixed-width integer that the mutator can work on, seen as a bit pattern.
pub trait DangerousNumber: Sized + Copy {
    /// Width of the type in bits.
    spec fn bits() -> u8;

    /// Whether the type is signed.
    spec fn signed() -> bool;

    /// The bit pattern of the number, in the low bits of a `u64`.
    spec fn pattern(self) -> u64;

    /// Width of the type in bits.
    fn width() -> (bits: u8)
        ensures
            bits == Self::bits(),
            is_width(bits),
    ;

    /// Whether the type is signed.
    fn is_signed() -> (signed: bool)
        ensures
            signed == Self::signed(),
    ;

    /// The bit pattern of the number.
    fn to_pattern(self) -> (raw: u64)
        ensures
            raw == self.pattern(),
            raw <= width_mask(Self::bits()),
    ;

    /// The number with the given bit pattern.
    fn from_pattern(raw: u64) -> (num: Self)
        requires
            raw <= width_mask(Self::bits()),
        ensures
            num.pattern() == raw,
    ;

    /// Number of dangerous numbers of this type.
    fn dangerous_numbers_len() -> (len: usize)
        ensures
            len == table_len(Self::bits()),
    ;

    /// The dangerous number at `idx` of the table of this type.
    fn dangerous_number_at_index(idx: usize) -> (num: Self)
        requires
            idx < table_len(Self::bits()),
        ensures
            num.pattern() == table_entry(Self::bits(), idx as nat),
    ;
}

impl DangerousNumber for u8 {
    open spec fn bits() -> u8 {
        8
    }

    open spec fn signed() -> bool {
        false
    }

    open spec fn pattern(self) -> u64 {
        self as u64
    }

    fn width() -> (bits: u8) {
        8
    }

    fn is_signed() -> (signed: bool) {
        false
    }

    fn to_pattern(self) -> (raw: u64) {
        self as u64
    }

    fn from_pattern(raw: u64) -> (num: Self) {
        raw as u8
    }

    fn dangerous_numbers_len() -> (len: usize) {
        self::dangerous_numbers_len(8)
    }

    fn dangerous_number_at_index(idx: usize) -> (num: Self) {
        let raw = self::dangerous_number_at_index(8, idx);
        raw as u8
    }
}

impl DangerousNumber for u16 {
    open spec fn bits() -> u8 {
        16
    }

    open spec fn signed() -> bool {
        false
    }

    open spec fn pattern(self) -> u64 {
        self as u64
    }

    fn width() -> (bits: u8) {
        16
    }

    fn is_signed() -> (signed: bool) {
        false
    }

    fn to_pattern(self) -> (raw: u64) {
        self as u64
    }

    fn from_pattern(raw: u64) -> (num: Self) {
        raw as u16
    }

    fn dangerous_numbers_len() -> (len: usize) {
        self::dangerous_numbers_len(16)
    }

    fn dangerous_number_at_index(idx: usize) -> (num: Self) {
        let raw = self::dangerous_number_at_index(16, idx);
        raw as u16
    }
}

impl DangerousNumber for u32 {
    open spec fn bits() -> u8 {
        32
    }

    open spec fn signed() -> bool {
        false
    }

    open spec fn pattern(self) -> u64 {
        self as u64
    }

    fn width() -> (bits: u8) {
        32
    }

    fn is_signed() -> (signed: bool) {
        false
    }

    fn to_pattern(self) -> (raw: u64) {
        self as u64
    }

    fn from_pattern(raw: u64) -> (num: Self) {
        raw as u32
    }

    fn dangerous_numbers_len() -> (len: usize) {
        self::dangerous_numbers_len(32)
    }

    fn dangerous_number_at_index(idx: usize) -> (num: Self) {
        let raw = self::dangerous_number_at_index(32, idx);
        raw as u32
    }
}

impl DangerousNumber for u64 {
    open spec fn bits() -> u8 {
        64
    }

    open spec fn signed() -> bool {
        false
    }

    open spec fn pattern(self) -> u64 {
        self
    }

    fn width() -> (bits: u8) {
        64
    }

    fn is_signed() -> (signed: bool) {
        false
    }

    fn to_pattern(self) -> (raw: u64) {
        self
    }

    fn from_pattern(raw: u64) -> (num: Self) {
        raw
    }

    fn dangerous_numbers_len() -> (len: usize) {
        self::dangerous_numbers_len(64)
    }

    fn dangerous_number_at_index(idx: usize) -> (num: Self) {
        self::dangerous_number_at_index(64, idx)
    }
}

impl DangerousNumber for i8 {
    open spec fn bits() -> u8 {
        8
    }

    open spec fn signed() -> bool {
        true
    }

    open spec fn pattern(self) -> u64 {
        self as u8 as u64
    }

    fn width() -> (bits: u8) {
        8
    }

    fn is_signed() -> (signed: bool) {
        true
    }

    fn to_pattern(self) -> (raw: u64) {
        self as u8 as u64
    }

    fn from_pattern(raw: u64) -> (num: Self) {
        let num = raw as u8 as i8;
        assert(raw <= 0xffu64 ==> (raw as u8 as i8) as u8 as u64 == raw) by (bit_vector);
        num
    }

    fn dangerous_numbers_len() -> (len: usize) {
        self::dangerous_numbers_len(8)
    }

    fn dangerous_number_at_index(idx: usize) -> (num: Self) {
        let raw = self::dangerous_number_at_index(8, idx);
        Self::from_pattern(raw)
    }
}

impl DangerousNumber for i16 {
    open spec fn bits() -> u8 {
        16
    }

    open spec fn signed() -> bool {
        true
    }

    open spec fn pattern(self) -> u64 {
        self as u16 as u64
    }

    fn width() -> (bits: u8) {
        16
    }

    fn is_signed() -> (signed: bool) {
        true
    }

    fn to_pattern(self) -> (raw: u64) {
        self as u16 as u64
    }

    fn from_pattern(raw: u64) -> (num: Self) {
        let num = raw as u16 as i16;
        assert(raw <= 0xffffu64 ==> (raw as u16 as i16) as u16 as u64 == raw) by (bit_vector);
        num
    }

    fn dangerous_numbers_len() -> (len: usize) {
        self::dangerous_numbers_len(16)
    }

    fn dangerous_number_at_index(idx: usize) -> (num: Self) {
        let raw = self::dangerous_number_at_index(16, idx);
        Self::from_pattern(raw)
    }
}

impl DangerousNumber for i32 {
    open spec fn bits() -> u8 {
        32
    }

    open spec fn signed() -> bool {
        true
    }

    open spec fn pattern(self) -> u64 {
        self as u32 as u64
    }

    fn width() -> (bits: u8) {
        32
    }

    fn is_signed() -> (signed: bool) {
        true
    }

    fn to_pattern(self) -> (raw: u64) {
        self as u32 as u64
    }

    fn from_pattern(raw: u64) -> (num: Self) {
        let num = raw as u32 as i32;
        assert(raw <= 0xffff_ffffu64 ==> (raw as u32 as i32) as u32 as u64 == raw) by (bit_vector);
        num
    }

    fn dangerous_numbers_len() -> (len: usize) {
        self::dangerous_numbers_len(32)
    }

    fn dangerous_number_at_index(idx: usize) -> (num: Self) {
        let raw = self::dangerous_number_at_index(32, idx);
        Self::from_pattern(raw)
    }
}

impl DangerousNumber for i64 {
    open spec fn bits() -> u8 {
        64
    }

    open spec fn signed() -> bool {
        true
    }

    open spec fn pattern(self) -> u64 {
        self as u64 as u64
    }

    fn width() -> (bits: u8) {
        64
    }

    fn is_signed() -> (signed: bool) {
        true
    }

    fn to_pattern(self) -> (raw: u64) {
        self as u64 as u64
    }

    fn from_pattern(raw: u64) -> (num: Self) {
        let num = raw as u64 as i64;
        assert(raw <= 0xffff_ffff_ffff_ffffu64 ==> (raw as u64 as i64) as u64 as u64 == raw) by (bit_vector);
        num
    }

    fn dangerous_numbers_len() -> (len: usize) {
        self::dangerous_numbers_len(64)
    }

    fn dangerous_number_at_index(idx: usize) -> (num: Self) {
        let raw = self::dangerous_number_at_index(64, idx);
        Self::from_pattern(raw)
    }
}

} // verus!
