//! Bounded-depth structural fingerprints of runtime values.
//!
//! Two executions of equivalent logic hash the same logical value at matching
//! checkpoints and compare the 64-bit digests. The traversal follows references
//! and pointers for a bounded number of levels, so cyclic data cannot make it
//! run forever, and every boundary (null, exhausted budget) has a fixed digest.

pub mod word;
pub mod hasher;
pub mod bits;
pub mod djb2;
pub mod simple;
pub mod jodyhash;
pub mod shape;
pub mod hash;
pub mod laws;

pub use crate::djb2::Djb2Hasher;
pub use crate::hash::{CrossCheckHash, Pointer};
pub use crate::hasher::CrossCheckHasher;
pub use crate::jodyhash::JodyHasher;
pub use crate::shape::{LEAF_POINTER_VALUE, LEAF_REFERENCE_VALUE, MAX_DEPTH};
pub use crate::simple::SimpleHasher;
pub use crate::word::{Float32, Float64};
