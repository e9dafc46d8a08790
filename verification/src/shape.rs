//! What the traversal sees of a value, and the digest that it owes for it.

use vstd::prelude::*;
use crate::hasher::{digest_of_word, CrossCheckHasher};
use crate::word::Word;

verus! {

/// The recursion budget of a traversal that states none.
pub const MAX_DEPTH: usize = 4;

/// Hashed in place of the target of a reference once the budget is spent.
pub const LEAF_REFERENCE_VALUE: u32 = 0xDEAD_BEEF;

/// Hashed in place of the target of a pointer once the budget is spent.
pub const LEAF_POINTER_VALUE: u32 = 0xDEAD_BEEF;

/// The structure of a hashable value: scalars at the leaves, indirections and
/// aggregates above them.
pub enum Shape {
    /// A scalar, by the integer that is written for it.
    Scalar(Word),
    /// A reference to a value of the given shape.
    Reference(Box<Shape>),
    /// A pointer: null, or the address of a value of the given shape.
    Pointer(Option<Box<Shape>>),
    /// A value made of fields, in their declared order.
    Aggregate(Seq<Shape>),
}

/// The digest of a value of shape `shape` when `depth` levels of indirection
/// may still be followed. `HS` hashes the scalars, `HA` combines the digests of
/// an aggregate's fields.
pub open spec fn digest<HA: CrossCheckHasher, HS: CrossCheckHasher>(
    shape: Shape,
    depth: nat,
) -> u64
    decreases shape, 0nat,
{
    match shape {
        Shape::Scalar(word) => digest_of_word::<HS>(word),
        Shape::Reference(target) => if depth == 0 {
            digest_of_word::<HS>(Word::U32(LEAF_REFERENCE_VALUE))
        } else {
            digest::<HA, HS>(*target, (depth - 1) as nat)
        },
        Shape::Pointer(address) => if depth == 0 {
            digest_of_word::<HS>(Word::U32(LEAF_POINTER_VALUE))
        } else {
            match address {
                None => digest_of_word::<HS>(Word::Usize(0)),
                Some(target) => digest::<HA, HS>(*target, (depth - 1) as nat),
            }
        },
        Shape::Aggregate(fields) => HA::digest(
            fields_state::<HA, HS>(fields, depth, fields.len()),
        ),
    }
}

/// The state of the aggregate hasher once the digests of the first `n` fields
/// have been written to it, each as a 64-bit word. Fields do not use up depth.
pub open spec fn fields_state<HA: CrossCheckHasher, HS: CrossCheckHasher>(
    fields: Seq<Shape>,
    depth: nat,
    n: nat,
) -> HA::V
    decreases fields, n,
{
    if n == 0 || n > fields.len() {
        HA::initial()
    } else {
        HA::absorb(
            fields_state::<HA, HS>(fields, depth, (n - 1) as nat),
            Word::U64(digest::<HA, HS>(fields[n - 1], depth)),
        )
    }
}

} // verus!
