//! The multiplicative byte hash of D. J. Bernstein, on 32 bits.

use vstd::prelude::*;
use crate::hasher::{digest_of_word, CrossCheckHasher};
use crate::word::{le_bytes, pattern_fits_width, Word};

verus! {

/// The accumulator before any byte.
pub const DJB2_INITIAL: u32 = 5381;

/// One round: the accumulator times 33 plus the byte, modulo 2^32.
pub open spec fn djb2_step(h: u32, byte: u8) -> u32 {
    ((h * 33 + byte) % 0x1_0000_0000) as u32
}

/// The accumulator after the bytes of `bytes` are mixed in, first to last.
pub open spec fn djb2_fold(h: u32, bytes: Seq<u8>) -> u32
    decreases bytes.len(),
{
    if bytes.len() == 0 {
        h
    } else {
        djb2_fold(djb2_step(h, bytes[0]), bytes.drop_first())
    }
}

/// The DJB2 hasher. A value is mixed in byte by byte, little end first on
/// every machine, so the width of a write decides how many rounds it takes.
pub struct Djb2Hasher {
    state: u32,
}

impl View for Djb2Hasher {
    type V = u32;

    closed spec fn view(&self) -> u32 {
        self.state
    }
}

impl Default for Djb2Hasher {
    fn default() -> (h: Self)
        ensures
            h@ == DJB2_INITIAL,
    {
        Djb2Hasher { state: DJB2_INITIAL }
    }
}

impl Djb2Hasher {
    /// Mixes in the `width` low-order bytes of `value`, least significant first.
    fn write_le(&mut self, value: u64, width: usize)
        ensures
            final(self)@ == djb2_fold(old(self)@, le_bytes(value, width as nat)),
    {
        let mut rest: u64 = value;
        let mut left: usize = width;
        while left > 0
            invariant
                djb2_fold(self@, le_bytes(rest, left as nat)) == djb2_fold(
                    old(self)@,
                    le_bytes(value, width as nat),
                ),
            decreases left,
        {
            let byte: u8 = (rest % 256) as u8;
            proof {
                let tail = le_bytes(rest / 256, (left - 1) as nat);
                assert(le_bytes(rest, left as nat) == seq![byte] + tail);
                assert((seq![byte] + tail).drop_first() == tail);
            }
            self.state = self.state.wrapping_mul(33).wrapping_add(byte as u32);
            rest = rest / 256;
            left = left - 1;
        }
    }
}

impl CrossCheckHasher for Djb2Hasher {
    open spec fn initial() -> u32 {
        DJB2_INITIAL
    }

    open spec fn absorb(state: u32, word: Word) -> u32 {
        djb2_fold(state, word.bytes())
    }

    open spec fn digest(state: u32) -> u64 {
        state as u64
    }

    proof fn default_is_initial() {
    }

    fn write_u8(&mut self, i: u8) {
        self.write_le(i as u64, 1)
    }

    fn write_u16(&mut self, i: u16) {
        self.write_le(i as u64, 2)
    }

    fn write_u32(&mut self, i: u32) {
        self.write_le(i as u64, 4)
    }

    fn write_u64(&mut self, i: u64) {
        self.write_le(i, 8)
    }

    fn write_usize(&mut self, i: usize) {
        self.write_le(i as u64, (usize::BITS / 8) as usize)
    }

    fn write_i8(&mut self, i: i8) {
        self.write_le((i as u8) as u64, 1)
    }

    fn write_i16(&mut self, i: i16) {
        self.write_le((i as u16) as u64, 2)
    }

    fn write_i32(&mut self, i: i32) {
        self.write_le((i as u32) as u64, 4)
    }

    fn write_i64(&mut self, i: i64) {
        self.write_le(i as u64, 8)
    }

    fn write_isize(&mut self, i: isize) {
        self.write_le((i as usize) as u64, (usize::BITS / 8) as usize)
    }

    fn finish(&self) -> (d: u64) {
        self.state as u64
    }
}

/// The accumulator after the `n` low-order bytes of `v` are mixed in, least
/// significant first: `djb2_fold` on `le_bytes`, without the sequence.
spec fn djb2_absorb(h: u32, v: u64, n: nat) -> u32
    decreases n,
{
    if n == 0 {
        h
    } else {
        djb2_absorb(djb2_step(h, (v % 256) as u8), v / 256, (n - 1) as nat)
    }
}

proof fn lemma_fold_of_le_bytes(h: u32, v: u64, n: nat)
    ensures
        djb2_fold(h, le_bytes(v, n)) == djb2_absorb(h, v, n),
    decreases n,
{
    if n > 0 {
        let byte = (v % 256) as u8;
        let tail = le_bytes(v / 256, (n - 1) as nat);
        assert(le_bytes(v, n) == seq![byte] + tail);
        assert((seq![byte] + tail).drop_first() == tail);
        lemma_fold_of_le_bytes(djb2_step(h, byte), v / 256, (n - 1) as nat);
    }
}

/// A round on a zero byte.
spec fn pad(h: u32) -> u32 {
    djb2_step(h, 0)
}

proof fn lemma_one_byte_padded(b0: u8)
    by (bit_vector)
    ensures
        ({
            let h = djb2_step(DJB2_INITIAL, b0);
            &&& pad(h) != h
            &&& pad(pad(pad(h))) != h
            &&& pad(pad(pad(pad(pad(pad(pad(h))))))) != h
        }),
{
}

proof fn lemma_two_bytes_padded(b0: u8, b1: u8)
    by (bit_vector)
    ensures
        ({
            let h = djb2_step(djb2_step(DJB2_INITIAL, b0), b1);
            &&& pad(pad(h)) != h
            &&& pad(pad(pad(pad(pad(pad(h)))))) != h
        }),
{
}

proof fn lemma_four_bytes_range(b0: u8, b1: u8, b2: u8, b3: u8)
    ensures
        2086473605 <= djb2_step(djb2_step(djb2_step(djb2_step(DJB2_INITIAL, b0), b1), b2), b3)
            <= 2095923905,
{
}

proof fn lemma_window_padded(h: u32)
    by (bit_vector)
    requires
        2086473605 <= h <= 2095923905,
    ensures
        pad(pad(pad(pad(h)))) != h,
{
}

proof fn lemma_four_bytes_padded(b0: u8, b1: u8, b2: u8, b3: u8)
    ensures
        ({
            let h = djb2_step(djb2_step(djb2_step(djb2_step(DJB2_INITIAL, b0), b1), b2), b3);
            pad(pad(pad(pad(h)))) != h
        }),
{
    lemma_four_bytes_range(b0, b1, b2, b3);
    lemma_window_padded(
        djb2_step(djb2_step(djb2_step(djb2_step(DJB2_INITIAL, b0), b1), b2), b3),
    );
}

proof fn lemma_narrow_then_wide(p: u64, narrow: nat, wide: nat)
    requires
        narrow == 1 || narrow == 2 || narrow == 4,
        wide == 2 || wide == 4 || wide == 8,
        narrow < wide,
        narrow == 1 ==> p < 0x100,
        narrow == 2 ==> p < 0x1_0000,
        narrow == 4 ==> p < 0x1_0000_0000,
    ensures
        djb2_absorb(DJB2_INITIAL, p, narrow) != djb2_absorb(DJB2_INITIAL, p, wide),
{
    reveal_with_fuel(djb2_absorb, 9);
    let b0 = (p % 256) as u8;
    let b1 = (p / 256 % 256) as u8;
    let b2 = (p / 256 / 256 % 256) as u8;
    let b3 = (p / 256 / 256 / 256 % 256) as u8;
    if narrow == 1 {
        lemma_one_byte_padded(b0);
    } else if narrow == 2 {
        lemma_two_bytes_padded(b0, b1);
    } else {
        lemma_four_bytes_padded(b0, b1, b2, b3);
    }
}

/// One bit pattern written at two different widths never gives one digest:
/// the wider value's extra zero bytes always move the accumulator.
pub proof fn djb2_separates_widths(a: Word, b: Word)
    requires
        a.pattern() == b.pattern(),
        a.width() != b.width(),
    ensures
        digest_of_word::<Djb2Hasher>(a) != digest_of_word::<Djb2Hasher>(b),
{
    pattern_fits_width(a);
    pattern_fits_width(b);
    lemma_fold_of_le_bytes(DJB2_INITIAL, a.pattern(), a.width());
    lemma_fold_of_le_bytes(DJB2_INITIAL, b.pattern(), b.width());
    if a.width() < b.width() {
        lemma_narrow_then_wide(a.pattern(), a.width(), b.width());
    } else {
        lemma_narrow_then_wide(a.pattern(), b.width(), a.width());
    }
}

} // verus!
