//! What holds of every digest, whatever the value and the backends.

use vstd::prelude::*;
use crate::hash::{CrossCheckHash, Pointer};
use crate::hasher::{digest_of_word, CrossCheckHasher};
use crate::shape::{digest, Shape, LEAF_POINTER_VALUE, LEAF_REFERENCE_VALUE, MAX_DEPTH};
use crate::djb2::{djb2_separates_widths, Djb2Hasher};
use crate::jodyhash::{jody_separates_widths, JodyHasher};
use crate::simple::{simple_separates_patterns, simple_separates_widths, SimpleHasher};
use crate::word::{Float32, Float64, Word};

verus! {

/// The two kinds of indirection that the traversal follows.
pub enum Indirection {
    Reference,
    Pointer,
}

impl Indirection {
    /// The shape of an indirection of this kind to a value of shape `target`;
    /// a pointer is taken to be non-null.
    pub open spec fn to(self, target: Shape) -> Shape {
        match self {
            Indirection::Reference => Shape::Reference(Box::new(target)),
            Indirection::Pointer => Shape::Pointer(Some(Box::new(target))),
        }
    }

    /// The value hashed in place of the target when the budget is spent at an
    /// indirection of this kind.
    pub open spec fn leaf_value(self) -> u32 {
        match self {
            Indirection::Reference => LEAF_REFERENCE_VALUE,
            Indirection::Pointer => LEAF_POINTER_VALUE,
        }
    }
}

/// The shape of a chain of indirections, outermost first, that ends at a
/// value of shape `target`.
pub open spec fn chain(links: Seq<Indirection>, target: Shape) -> Shape
    decreases links.len(),
{
    if links.len() == 0 {
        target
    } else {
        links[0].to(chain(links.drop_first(), target))
    }
}

/// Determinism: the digest is a function of the value's shape, the budget and
/// the two backends. Two values of one shape, or one value hashed twice, give
/// one digest.
pub proof fn equal_shapes_equal_digests<T: CrossCheckHash, HA: CrossCheckHasher, HS: CrossCheckHasher>(
    a: &T,
    b: &T,
    depth: nat,
)
    requires
        a.shape() == b.shape(),
    ensures
        digest::<HA, HS>(a.shape(), depth) == digest::<HA, HS>(b.shape(), depth),
{
}

/// Determinism of a backend: two hashers in one state report one digest, and
/// one write takes them to one state again.
pub proof fn equal_states_equal_digests<H: CrossCheckHasher>(a: &H, b: &H, word: Word)
    requires
        a@ == b@,
    ensures
        H::digest(a@) == H::digest(b@),
        H::absorb(a@, word) == H::absorb(b@, word),
{
}

/// A scalar has nothing to traverse, so its digest is the same at every
/// budget, and no aggregate hasher takes part in it.
pub proof fn scalar_digest_ignores_depth<HA: CrossCheckHasher, HB: CrossCheckHasher, HS: CrossCheckHasher>(
    word: Word,
    depth: nat,
    other: nat,
)
    ensures
        digest::<HA, HS>(Shape::Scalar(word), depth) == digest::<HB, HS>(
            Shape::Scalar(word),
            other,
        ),
        digest::<HA, HS>(Shape::Scalar(word), depth) == digest_of_word::<HS>(word),
{
}

/// Null policy: while any budget is left, a null pointer hashes as the
/// pointer-sized scalar zero does, whatever the budget and whatever type of
/// value the pointer could have led to.
pub proof fn null_pointer_hashes_as_zero<T: CrossCheckHash, HA: CrossCheckHasher, HS: CrossCheckHasher>(
    depth: nat,
)
    requires
        depth > 0,
    ensures
        digest::<HA, HS>(Pointer::<T>::Null.shape(), depth) == digest::<HA, HS>(
            0usize.shape(),
            MAX_DEPTH as nat,
        ),
{
}

/// Uniform cost: each indirection of a chain uses up one level of the budget,
/// a reference no less than a pointer. A chain that the budget covers hashes
/// as its target does with what is left.
pub proof fn chain_within_budget<HA: CrossCheckHasher, HS: CrossCheckHasher>(
    links: Seq<Indirection>,
    target: Shape,
    depth: nat,
)
    requires
        links.len() <= depth,
    ensures
        digest::<HA, HS>(chain(links, target), depth) == digest::<HA, HS>(
            target,
            (depth - links.len()) as nat,
        ),
    decreases links.len(),
{
    if links.len() > 0 {
        chain_within_budget::<HA, HS>(links.drop_first(), target, (depth - 1) as nat);
    }
}

/// A reference to a value and a valid pointer to it hash alike while any
/// budget is left: each hashes as the value does with one level less.
pub proof fn reference_and_pointer_cost_the_same<
    T: CrossCheckHash,
    HA: CrossCheckHasher,
    HS: CrossCheckHasher,
>(target: &T, depth: nat)
    requires
        depth > 0,
    ensures
        digest::<HA, HS>(<&T as CrossCheckHash>::shape(&target), depth) == digest::<HA, HS>(
            target.shape(),
            (depth - 1) as nat,
        ),
        digest::<HA, HS>(Pointer::Valid(target).shape(), depth) == digest::<HA, HS>(
            target.shape(),
            (depth - 1) as nat,
        ),
{
}

/// Two chains of one length to one target hash alike wherever the budget
/// covers them, whatever mixture of references and pointers each is made of.
pub proof fn equal_length_chains_agree<HA: CrossCheckHasher, HS: CrossCheckHasher>(
    a: Seq<Indirection>,
    b: Seq<Indirection>,
    target: Shape,
    depth: nat,
)
    requires
        a.len() == b.len(),
        a.len() <= depth,
    ensures
        digest::<HA, HS>(chain(a, target), depth) == digest::<HA, HS>(chain(b, target), depth),
{
    chain_within_budget::<HA, HS>(a, target, depth);
    chain_within_budget::<HA, HS>(b, target, depth);
}

/// Exhaustion: a chain longer than the budget hashes as the leaf value of the
/// indirection at which the budget runs out, hashed as a scalar. Nothing at or
/// beyond that indirection's target has any part in the digest.
pub proof fn chain_beyond_budget<HA: CrossCheckHasher, HS: CrossCheckHasher>(
    links: Seq<Indirection>,
    target: Shape,
    depth: nat,
)
    requires
        links.len() > depth,
    ensures
        digest::<HA, HS>(chain(links, target), depth) == digest::<HA, HS>(
            links[depth as int].leaf_value().shape(),
            MAX_DEPTH as nat,
        ),
    decreases links.len(),
{
    if depth > 0 {
        chain_beyond_budget::<HA, HS>(links.drop_first(), target, (depth - 1) as nat);
    }
}

/// Two chains that are both longer than the budget, and of one kind where it
/// runs out, hash alike, however they differ below that point.
pub proof fn deep_chains_agree<HA: CrossCheckHasher, HS: CrossCheckHasher>(
    a: Seq<Indirection>,
    a_target: Shape,
    b: Seq<Indirection>,
    b_target: Shape,
    depth: nat,
)
    requires
        a.len() > depth,
        b.len() > depth,
        a[depth as int] == b[depth as int],
    ensures
        digest::<HA, HS>(chain(a, a_target), depth) == digest::<HA, HS>(
            chain(b, b_target),
            depth,
        ),
{
    chain_beyond_budget::<HA, HS>(a, a_target, depth);
    chain_beyond_budget::<HA, HS>(b, b_target, depth);
}

/// Width sensitivity: one number written as two integer types of different
/// widths hashes differently under each of the three backends.
pub proof fn one_number_at_two_widths_hashes_differently<HA: CrossCheckHasher>(
    a: Word,
    b: Word,
    depth: nat,
)
    requires
        a.pattern() == b.pattern(),
        a.width() != b.width(),
    ensures
        digest::<HA, Djb2Hasher>(Shape::Scalar(a), depth) != digest::<HA, Djb2Hasher>(
            Shape::Scalar(b),
            depth,
        ),
        digest::<HA, SimpleHasher>(Shape::Scalar(a), depth) != digest::<HA, SimpleHasher>(
            Shape::Scalar(b),
            depth,
        ),
        digest::<HA, JodyHasher>(Shape::Scalar(a), depth) != digest::<HA, JodyHasher>(
            Shape::Scalar(b),
            depth,
        ),
{
    djb2_separates_widths(a, b);
    simple_separates_widths(a, b);
    jody_separates_widths(a, b);
}

/// Two single-precision values of one bit pattern hash alike.
pub proof fn float32_same_bits_same_digest<HA: CrossCheckHasher, HS: CrossCheckHasher>(
    a: Float32,
    b: Float32,
    depth: nat,
)
    requires
        a.bits == b.bits,
    ensures
        digest::<HA, HS>(a.shape(), depth) == digest::<HA, HS>(b.shape(), depth),
{
}

/// Two double-precision values of one bit pattern hash alike.
pub proof fn float64_same_bits_same_digest<HA: CrossCheckHasher, HS: CrossCheckHasher>(
    a: Float64,
    b: Float64,
    depth: nat,
)
    requires
        a.bits == b.bits,
    ensures
        digest::<HA, HS>(a.shape(), depth) == digest::<HA, HS>(b.shape(), depth),
{
}

/// Under the rotate-and-add backend, two single-precision values that differ
/// in any bit hash differently: a zero and its negative, or two NaNs of
/// different payload.
pub proof fn float32_simple_digest_separates_bits<HA: CrossCheckHasher>(
    a: Float32,
    b: Float32,
    depth: nat,
)
    requires
        a.bits != b.bits,
    ensures
        digest::<HA, SimpleHasher>(a.shape(), depth) != digest::<HA, SimpleHasher>(
            b.shape(),
            depth,
        ),
{
    simple_separates_patterns(Word::U32(a.bits), Word::U32(b.bits));
}

/// Under the rotate-and-add backend, two double-precision values that differ
/// in any bit hash differently.
pub proof fn float64_simple_digest_separates_bits<HA: CrossCheckHasher>(
    a: Float64,
    b: Float64,
    depth: nat,
)
    requires
        a.bits != b.bits,
    ensures
        digest::<HA, SimpleHasher>(a.shape(), depth) != digest::<HA, SimpleHasher>(
            b.shape(),
            depth,
        ),
{
    simple_separates_patterns(Word::U64(a.bits), Word::U64(b.bits));
}

} // verus!
