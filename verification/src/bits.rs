//! Bit rotation on 64-bit words.

use vstd::prelude::*;

verus! {

/// `x` with its bits moved `k` places towards the high end, the bits that
/// leave at the top coming back in at the bottom. Only `k` modulo 64 counts.
pub open spec fn rotated_left(x: u64, k: u32) -> u64 {
    let k = k % 64;
    if k == 0 {
        x
    } else {
        (x << k) | (x >> ((64 - k) as u32))
    }
}

pub fn rotate_left(x: u64, k: u32) -> (r: u64)
    ensures
        r == rotated_left(x, k),
{
    let k = k % 64;
    if k == 0 {
        x
    } else {
        (x << k) | (x >> (64 - k))
    }
}

} // verus!
