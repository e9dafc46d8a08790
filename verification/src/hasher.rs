//! The contract that every streaming digest backend satisfies.

use vstd::prelude::*;
use crate::word::{Float32, Float64, Word};

verus! {

/// A streaming checksum: created in a fixed initial state, fed typed integers,
/// and projected to a 64-bit digest.
///
/// The view of a hasher is its accumulated state. A backend describes itself by
/// three functions on that state; the methods are held to them, so the digest is
/// a function of the sequence of writes alone.
pub trait CrossCheckHasher: View + Default + Sized {
    /// The state of a hasher that has accepted no write.
    spec fn initial() -> Self::V;

    /// The state after `word` is written in state `state`.
    spec fn absorb(state: Self::V, word: Word) -> Self::V;

    /// The digest that `finish` reports in state `state`.
    spec fn digest(state: Self::V) -> u64;

    /// Whatever `Default::default` returns is in the initial state.
    proof fn default_is_initial()
        ensures
            forall|h: Self| call_ensures(Self::default, (), h) ==> h@ == Self::initial(),
    ;

    fn write_u8(&mut self, i: u8)
        ensures
            final(self)@ == Self::absorb(old(self)@, Word::U8(i)),
    ;

    fn write_u16(&mut self, i: u16)
        ensures
            final(self)@ == Self::absorb(old(self)@, Word::U16(i)),
    ;

    fn write_u32(&mut self, i: u32)
        ensures
            final(self)@ == Self::absorb(old(self)@, Word::U32(i)),
    ;

    fn write_u64(&mut self, i: u64)
        ensures
            final(self)@ == Self::absorb(old(self)@, Word::U64(i)),
    ;

    fn write_usize(&mut self, i: usize)
        ensures
            final(self)@ == Self::absorb(old(self)@, Word::Usize(i)),
    ;

    fn write_i8(&mut self, i: i8)
        ensures
            final(self)@ == Self::absorb(old(self)@, Word::I8(i)),
    ;

    fn write_i16(&mut self, i: i16)
        ensures
            final(self)@ == Self::absorb(old(self)@, Word::I16(i)),
    ;

    fn write_i32(&mut self, i: i32)
        ensures
            final(self)@ == Self::absorb(old(self)@, Word::I32(i)),
    ;

    fn write_i64(&mut self, i: i64)
        ensures
            final(self)@ == Self::absorb(old(self)@, Word::I64(i)),
    ;

    fn write_isize(&mut self, i: isize)
        ensures
            final(self)@ == Self::absorb(old(self)@, Word::Isize(i)),
    ;

    /// Projects the state to a digest. The hasher is left as it was and may
    /// accept further writes.
    fn finish(&self) -> (d: u64)
        ensures
            d == Self::digest(self@),
    ;

    /// Writes `false` as the byte 0 and `true` as the byte 1.
    fn write_bool(&mut self, i: bool)
        ensures
            final(self)@ == Self::absorb(old(self)@, Word::U8(if i { 1u8 } else { 0u8 })),
    {
        self.write_u8(if i { 1 } else { 0 })
    }

    /// Writes a character as its code point, 32 bits wide.
    fn write_char(&mut self, i: char)
        ensures
            final(self)@ == Self::absorb(old(self)@, Word::U32(i as u32)),
    {
        self.write_u32(i as u32)
    }

    /// Writes the 32 bits of `i`, without regard to the number they encode.
    fn write_f32(&mut self, i: Float32)
        ensures
            final(self)@ == Self::absorb(old(self)@, Word::U32(i.bits)),
    {
        self.write_u32(i.to_bits())
    }

    /// Writes the 64 bits of `i`, without regard to the number they encode.
    fn write_f64(&mut self, i: Float64)
        ensures
            final(self)@ == Self::absorb(old(self)@, Word::U64(i.bits)),
    {
        self.write_u64(i.to_bits())
    }
}

/// The digest of a fresh hasher of kind `H` that is fed `word` and nothing else.
pub open spec fn digest_of_word<H: CrossCheckHasher>(word: Word) -> u64 {
    H::digest(H::absorb(H::initial(), word))
}

} // verus!
