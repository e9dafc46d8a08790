//! The typed integer writes that a hasher accepts, and their byte images.

use vstd::prelude::*;

verus! {

/// One fixed-width integer handed to a hasher, tagged with the type it was
/// written as.
pub enum Word {
    U8(u8),
    U16(u16),
    U32(u32),
    U64(u64),
    Usize(usize),
    I8(i8),
    I16(i16),
    I32(i32),
    I64(i64),
    Isize(isize),
}

impl Word {
    /// Number of bytes that the written value occupies.
    pub open spec fn width(self) -> nat {
        match self {
            Word::U8(_) | Word::I8(_) => 1,
            Word::U16(_) | Word::I16(_) => 2,
            Word::U32(_) | Word::I32(_) => 4,
            Word::U64(_) | Word::I64(_) => 8,
            Word::Usize(_) | Word::Isize(_) => (usize::BITS / 8) as nat,
        }
    }

    /// The value's bit pattern, zero-extended to 64 bits. A signed value
    /// contributes its two's-complement representation.
    pub open spec fn pattern(self) -> u64 {
        match self {
            Word::U8(v) => v as u64,
            Word::U16(v) => v as u64,
            Word::U32(v) => v as u64,
            Word::U64(v) => v,
            Word::Usize(v) => v as u64,
            Word::I8(v) => (v as u8) as u64,
            Word::I16(v) => (v as u16) as u64,
            Word::I32(v) => (v as u32) as u64,
            Word::I64(v) => v as u64,
            Word::Isize(v) => (v as usize) as u64,
        }
    }

    /// Whether the two were written as values of one integer type.
    pub open spec fn same_type(self, other: Word) -> bool {
        match (self, other) {
            (Word::U8(_), Word::U8(_)) => true,
            (Word::U16(_), Word::U16(_)) => true,
            (Word::U32(_), Word::U32(_)) => true,
            (Word::U64(_), Word::U64(_)) => true,
            (Word::Usize(_), Word::Usize(_)) => true,
            (Word::I8(_), Word::I8(_)) => true,
            (Word::I16(_), Word::I16(_)) => true,
            (Word::I32(_), Word::I32(_)) => true,
            (Word::I64(_), Word::I64(_)) => true,
            (Word::Isize(_), Word::Isize(_)) => true,
            _ => false,
        }
    }

    /// The value's bytes in little-endian order.
    pub open spec fn bytes(self) -> Seq<u8> {
        le_bytes(self.pattern(), self.width())
    }
}

/// The `n` low-order bytes of `v`, least significant first.
pub open spec fn le_bytes(v: u64, n: nat) -> Seq<u8>
    decreases n,
{
    if n == 0 {
        Seq::empty()
    } else {
        seq![(v % 256) as u8] + le_bytes(v / 256, (n - 1) as nat)
    }
}

/// Two different values of one integer type differ in their bit patterns.
pub proof fn distinct_values_distinct_patterns(a: Word, b: Word)
    requires
        a.same_type(b),
        a != b,
    ensures
        a.width() == b.width(),
        a.pattern() != b.pattern(),
{
    match (a, b) {
        (Word::I8(x), Word::I8(y)) => {
            assert((x as u8) as u64 != (y as u8) as u64) by (bit_vector)
                requires
                    x != y,
            ;
        },
        (Word::I16(x), Word::I16(y)) => {
            assert((x as u16) as u64 != (y as u16) as u64) by (bit_vector)
                requires
                    x != y,
            ;
        },
        (Word::I32(x), Word::I32(y)) => {
            assert((x as u32) as u64 != (y as u32) as u64) by (bit_vector)
                requires
                    x != y,
            ;
        },
        (Word::I64(x), Word::I64(y)) => {
            assert(x as u64 != y as u64) by (bit_vector)
                requires
                    x != y,
            ;
        },
        (Word::Isize(x), Word::Isize(y)) => {
            assert((x as usize) as u64 != (y as usize) as u64) by (bit_vector)
                requires
                    x != y,
            ;
        },
        _ => {},
    }
}

/// A bit pattern has no bit set above the width it was written at.
pub proof fn pattern_fits_width(word: Word)
    ensures
        word.width() == 1 || word.width() == 2 || word.width() == 4 || word.width() == 8,
        word.width() == 1 ==> word.pattern() < 0x100,
        word.width() == 2 ==> word.pattern() < 0x1_0000,
        word.width() == 4 ==> word.pattern() < 0x1_0000_0000,
{
}

/// A single-precision IEEE-754 value, held by its bit pattern.
///
/// Hashing never interprets the number: two values are the same exactly when
/// their 32 bits are the same, so NaN payloads and the sign of zero count.
#[derive(Clone, Copy, Debug)]
pub struct Float32 {
    pub bits: u32,
}

impl Float32 {
    pub fn from_bits(bits: u32) -> (f: Self)
        ensures
            f.bits == bits,
    {
        Float32 { bits }
    }

    pub fn to_bits(&self) -> (bits: u32)
        ensures
            bits == self.bits,
    {
        self.bits
    }
}

/// A double-precision IEEE-754 value, held by its bit pattern.
#[derive(Clone, Copy, Debug)]
pub struct Float64 {
    pub bits: u64,
}

impl Float64 {
    pub fn from_bits(bits: u64) -> (f: Self)
        ensures
            f.bits == bits,
    {
        Float64 { bits }
    }

    pub fn to_bits(&self) -> (bits: u64)
        ensures
            bits == self.bits,
    {
        self.bits
    }
}

} // verus!
