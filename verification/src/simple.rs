//! A rotate-and-add checksum on 64 bits.

use vstd::prelude::*;
use crate::bits::{rotate_left, rotated_left};
use crate::hasher::{digest_of_word, CrossCheckHasher};
use crate::word::{distinct_values_distinct_patterns, Word};

verus! {

/// The accumulator before any write.
pub const SIMPLE_INITIAL: u64 = 0x9E37_79B9_7F4A_7C15;

/// How far the accumulator is rotated before a value is added.
pub const SIMPLE_ROTATION: u32 = 5;

/// What one byte of width adds to the accumulator: a one in the top byte.
pub const SIMPLE_WIDTH_UNIT: u64 = 0x0100_0000_0000_0000;

/// One write: the accumulator is rotated, then the value's bit pattern and its
/// width marker are added, modulo 2^64.
pub open spec fn simple_step(state: u64, pattern: u64, width: nat) -> u64 {
    rotated_left(state, SIMPLE_ROTATION).wrapping_add(pattern).wrapping_add(
        (width * SIMPLE_WIDTH_UNIT) as u64,
    )
}

/// The rotate-and-add hasher: one cheap step for each write.
pub struct SimpleHasher {
    state: u64,
}

impl View for SimpleHasher {
    type V = u64;

    closed spec fn view(&self) -> u64 {
        self.state
    }
}

impl Default for SimpleHasher {
    fn default() -> (h: Self)
        ensures
            h@ == SIMPLE_INITIAL,
    {
        SimpleHasher { state: SIMPLE_INITIAL }
    }
}

impl SimpleHasher {
    fn write_word(&mut self, pattern: u64, width: u64)
        requires
            1 <= width <= 8,
        ensures
            final(self)@ == simple_step(old(self)@, pattern, width as nat),
    {
        let marker: u64 = width * SIMPLE_WIDTH_UNIT;
        self.state = rotate_left(self.state, SIMPLE_ROTATION).wrapping_add(pattern).wrapping_add(
            marker,
        );
    }
}

impl CrossCheckHasher for SimpleHasher {
    open spec fn initial() -> u64 {
        SIMPLE_INITIAL
    }

    open spec fn absorb(state: u64, word: Word) -> u64 {
        simple_step(state, word.pattern(), word.width())
    }

    open spec fn digest(state: u64) -> u64 {
        state
    }

    proof fn default_is_initial() {
    }

    fn write_u8(&mut self, i: u8) {
        self.write_word(i as u64, 1)
    }

    fn write_u16(&mut self, i: u16) {
        self.write_word(i as u64, 2)
    }

    fn write_u32(&mut self, i: u32) {
        self.write_word(i as u64, 4)
    }

    fn write_u64(&mut self, i: u64) {
        self.write_word(i, 8)
    }

    fn write_usize(&mut self, i: usize) {
        self.write_word(i as u64, (usize::BITS / 8) as u64)
    }

    fn write_i8(&mut self, i: i8) {
        self.write_word((i as u8) as u64, 1)
    }

    fn write_i16(&mut self, i: i16) {
        self.write_word((i as u16) as u64, 2)
    }

    fn write_i32(&mut self, i: i32) {
        self.write_word((i as u32) as u64, 4)
    }

    fn write_i64(&mut self, i: i64) {
        self.write_word(i as u64, 8)
    }

    fn write_isize(&mut self, i: isize) {
        self.write_word((i as usize) as u64, (usize::BITS / 8) as u64)
    }

    fn finish(&self) -> (d: u64) {
        self.state
    }
}

/// Two values of one width that differ in any bit never share a digest.
pub proof fn simple_separates_patterns(a: Word, b: Word)
    requires
        a.width() == b.width(),
        a.pattern() != b.pattern(),
    ensures
        digest_of_word::<SimpleHasher>(a) != digest_of_word::<SimpleHasher>(b),
{
}

/// Two different values of one integer type never share a digest.
pub proof fn simple_separates_values(a: Word, b: Word)
    requires
        a.same_type(b),
        a != b,
    ensures
        digest_of_word::<SimpleHasher>(a) != digest_of_word::<SimpleHasher>(b),
{
    distinct_values_distinct_patterns(a, b);
    simple_separates_patterns(a, b);
}

/// One bit pattern written at two different widths never gives one digest.
pub proof fn simple_separates_widths(a: Word, b: Word)
    requires
        a.pattern() == b.pattern(),
        a.width() != b.width(),
    ensures
        digest_of_word::<SimpleHasher>(a) != digest_of_word::<SimpleHasher>(b),
{
}

} // verus!
