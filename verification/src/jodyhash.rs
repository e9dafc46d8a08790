//! A checksum in the manner of Jody Bruchon's jodyhash, on 64 bits.

use vstd::prelude::*;
use crate::bits::{rotate_left, rotated_left};
use crate::hasher::{digest_of_word, CrossCheckHasher};
use crate::word::Word;

verus! {

/// The accumulator before any write.
pub const JODY_HASH_INITIAL: u64 = 0;

/// The constant that each round adds and xors in.
pub const JODY_HASH_CONSTANT: u64 = 0x1f3d_5b79;

/// How far each round rotates the accumulator, twice.
pub const JODY_HASH_SHIFT: u32 = 14;

/// One round on the 64-bit element `element`.
pub open spec fn jody_round(state: u64, element: u64) -> u64 {
    let summed = state.wrapping_add(element).wrapping_add(JODY_HASH_CONSTANT);
    let mixed = rotated_left(summed, JODY_HASH_SHIFT) ^ element;
    let keyed = rotated_left(mixed, JODY_HASH_SHIFT) ^ JODY_HASH_CONSTANT;
    keyed.wrapping_add(element)
}

/// One write: a round on the value's bit pattern, after which the width in
/// bytes is added, so that the size of the value enters the digest.
pub open spec fn jody_step(state: u64, pattern: u64, width: nat) -> u64 {
    jody_round(state, pattern).wrapping_add(width as u64)
}

/// The jodyhash-style hasher: one round for each write.
pub struct JodyHasher {
    state: u64,
}

impl View for JodyHasher {
    type V = u64;

    closed spec fn view(&self) -> u64 {
        self.state
    }
}

impl Default for JodyHasher {
    fn default() -> (h: Self)
        ensures
            h@ == JODY_HASH_INITIAL,
    {
        JodyHasher { state: JODY_HASH_INITIAL }
    }
}

impl JodyHasher {
    fn write_word(&mut self, pattern: u64, width: u64)
        requires
            1 <= width <= 8,
        ensures
            final(self)@ == jody_step(old(self)@, pattern, width as nat),
    {
        let summed = self.state.wrapping_add(pattern).wrapping_add(JODY_HASH_CONSTANT);
        let mixed = rotate_left(summed, JODY_HASH_SHIFT) ^ pattern;
        let keyed = rotate_left(mixed, JODY_HASH_SHIFT) ^ JODY_HASH_CONSTANT;
        self.state = keyed.wrapping_add(pattern).wrapping_add(width);
    }
}

impl CrossCheckHasher for JodyHasher {
    open spec fn initial() -> u64 {
        JODY_HASH_INITIAL
    }

    open spec fn absorb(state: u64, word: Word) -> u64 {
        jody_step(state, word.pattern(), word.width())
    }

    open spec fn digest(state: u64) -> u64 {
        state
    }

    proof fn default_is_initial() {
    }

    fn write_u8(&mut self, i: u8) {
        self.write_word(i as u64, 1)
    }

    fn write_u16(&mut self, i: u16) {
        self.write_word(i as u64, 2)
    }

    fn write_u32(&mut self, i: u32) {
        self.write_word(i as u64, 4)
    }

    fn write_u64(&mut self, i: u64) {
        self.write_word(i, 8)
    }

    fn write_usize(&mut self, i: usize) {
        self.write_word(i as u64, (usize::BITS / 8) as u64)
    }

    fn write_i8(&mut self, i: i8) {
        self.write_word((i as u8) as u64, 1)
    }

    fn write_i16(&mut self, i: i16) {
        self.write_word((i as u16) as u64, 2)
    }

    fn write_i32(&mut self, i: i32) {
        self.write_word((i as u32) as u64, 4)
    }

    fn write_i64(&mut self, i: i64) {
        self.write_word(i as u64, 8)
    }

    fn write_isize(&mut self, i: isize) {
        self.write_word((i as usize) as u64, (usize::BITS / 8) as u64)
    }

    fn finish(&self) -> (d: u64) {
        self.state
    }
}

/// One bit pattern written at two different widths never gives one digest.
pub proof fn jody_separates_widths(a: Word, b: Word)
    requires
        a.pattern() == b.pattern(),
        a.width() != b.width(),
    ensures
        digest_of_word::<JodyHasher>(a) != digest_of_word::<JodyHasher>(b),
{
}

} // verus!
