//! Structural hashing of values, bounded by a recursion budget.

use vstd::prelude::*;
use crate::hasher::CrossCheckHasher;
use crate::shape::{digest, fields_state, Shape, LEAF_POINTER_VALUE, LEAF_REFERENCE_VALUE, MAX_DEPTH};
use crate::word::{Float32, Float64, Word};

verus! {

/// A value that can be hashed structurally.
///
/// `HA` is the hasher for aggregates, `HS` the (fast) hasher for scalars. The
/// two are chosen independently at each call.
///
/// A type says what it is made of through `shape`; the digest that it owes for
/// that shape is fixed by [`digest`]. A struct is an aggregate of its fields in
/// a declared order: it creates a fresh `HA`, writes each field's digest to it
/// with `write_u64`, the field being hashed at the struct's own budget, and
/// finishes.
pub trait CrossCheckHash {
    /// The structure that hashing reads off this value.
    spec fn shape(&self) -> Shape;

    /// Hashes with the default budget of `MAX_DEPTH` indirections.
    fn cross_check_hash<HA: CrossCheckHasher, HS: CrossCheckHasher>(&self) -> (d: u64)
        ensures
            d == digest::<HA, HS>(self.shape(), MAX_DEPTH as nat),
    {
        self.cross_check_hash_depth::<HA, HS>(MAX_DEPTH)
    }

    /// Hashes while following at most `depth` levels of indirection.
    fn cross_check_hash_depth<HA: CrossCheckHasher, HS: CrossCheckHasher>(
        &self,
        depth: usize,
    ) -> (d: u64)
        ensures
            d == digest::<HA, HS>(self.shape(), depth as nat),
    ;
}

// A scalar has nothing to traverse: whatever the budget, its digest is that of
// a fresh scalar hasher fed the one value, written at the value's own width.

impl CrossCheckHash for u8 {
    open spec fn shape(&self) -> Shape {
        Shape::Scalar(Word::U8(*self))
    }

    fn cross_check_hash_depth<HA: CrossCheckHasher, HS: CrossCheckHasher>(
        &self,
        _depth: usize,
    ) -> (d: u64) {
        let mut h = HS::default();
        proof {
            HS::default_is_initial();
        }
        h.write_u8(*self);
        h.finish()
    }
}

impl CrossCheckHash for u16 {
    open spec fn shape(&self) -> Shape {
        Shape::Scalar(Word::U16(*self))
    }

    fn cross_check_hash_depth<HA: CrossCheckHasher, HS: CrossCheckHasher>(
        &self,
        _depth: usize,
    ) -> (d: u64) {
        let mut h = HS::default();
        proof {
            HS::default_is_initial();
        }
        h.write_u16(*self);
        h.finish()
    }
}

impl CrossCheckHash for u32 {
    open spec fn shape(&self) -> Shape {
        Shape::Scalar(Word::U32(*self))
    }

    fn cross_check_hash_depth<HA: CrossCheckHasher, HS: CrossCheckHasher>(
        &self,
        _depth: usize,
    ) -> (d: u64) {
        let mut h = HS::default();
        proof {
            HS::default_is_initial();
        }
        h.write_u32(*self);
        h.finish()
    }
}

impl CrossCheckHash for u64 {
    open spec fn shape(&self) -> Shape {
        Shape::Scalar(Word::U64(*self))
    }

    fn cross_check_hash_depth<HA: CrossCheckHasher, HS: CrossCheckHasher>(
        &self,
        _depth: usize,
    ) -> (d: u64) {
        let mut h = HS::default();
        proof {
            HS::default_is_initial();
        }
        h.write_u64(*self);
        h.finish()
    }
}

impl CrossCheckHash for usize {
    open spec fn shape(&self) -> Shape {
        Shape::Scalar(Word::Usize(*self))
    }

    fn cross_check_hash_depth<HA: CrossCheckHasher, HS: CrossCheckHasher>(
        &self,
        _depth: usize,
    ) -> (d: u64) {
        let mut h = HS::default();
        proof {
            HS::default_is_initial();
        }
        h.write_usize(*self);
        h.finish()
    }
}

impl CrossCheckHash for i8 {
    open spec fn shape(&self) -> Shape {
        Shape::Scalar(Word::I8(*self))
    }

    fn cross_check_hash_depth<HA: CrossCheckHasher, HS: CrossCheckHasher>(
        &self,
        _depth: usize,
    ) -> (d: u64) {
        let mut h = HS::default();
        proof {
            HS::default_is_initial();
        }
        h.write_i8(*self);
        h.finish()
    }
}

impl CrossCheckHash for i16 {
    open spec fn shape(&self) -> Shape {
        Shape::Scalar(Word::I16(*self))
    }

    fn cross_check_hash_depth<HA: CrossCheckHasher, HS: CrossCheckHasher>(
        &self,
        _depth: usize,
    ) -> (d: u64) {
        let mut h = HS::default();
        proof {
            HS::default_is_initial();
        }
        h.write_i16(*self);
        h.finish()
    }
}

impl CrossCheckHash for i32 {
    open spec fn shape(&self) -> Shape {
        Shape::Scalar(Word::I32(*self))
    }

    fn cross_check_hash_depth<HA: CrossCheckHasher, HS: CrossCheckHasher>(
        &self,
        _depth: usize,
    ) -> (d: u64) {
        let mut h = HS::default();
        proof {
            HS::default_is_initial();
        }
        h.write_i32(*self);
        h.finish()
    }
}

impl CrossCheckHash for i64 {
    open spec fn shape(&self) -> Shape {
        Shape::Scalar(Word::I64(*self))
    }

    fn cross_check_hash_depth<HA: CrossCheckHasher, HS: CrossCheckHasher>(
        &self,
        _depth: usize,
    ) -> (d: u64) {
        let mut h = HS::default();
        proof {
            HS::default_is_initial();
        }
        h.write_i64(*self);
        h.finish()
    }
}

impl CrossCheckHash for isize {
    open spec fn shape(&self) -> Shape {
        Shape::Scalar(Word::Isize(*self))
    }

    fn cross_check_hash_depth<HA: CrossCheckHasher, HS: CrossCheckHasher>(
        &self,
        _depth: usize,
    ) -> (d: u64) {
        let mut h = HS::default();
        proof {
            HS::default_is_initial();
        }
        h.write_isize(*self);
        h.finish()
    }
}

impl CrossCheckHash for bool {
    open spec fn shape(&self) -> Shape {
        Shape::Scalar(Word::U8(if *self { 1u8 } else { 0u8 }))
    }

    fn cross_check_hash_depth<HA: CrossCheckHasher, HS: CrossCheckHasher>(
        &self,
        _depth: usize,
    ) -> (d: u64) {
        let mut h = HS::default();
        proof {
            HS::default_is_initial();
        }
        h.write_bool(*self);
        h.finish()
    }
}

impl CrossCheckHash for char {
    open spec fn shape(&self) -> Shape {
        Shape::Scalar(Word::U32(*self as u32))
    }

    fn cross_check_hash_depth<HA: CrossCheckHasher, HS: CrossCheckHasher>(
        &self,
        _depth: usize,
    ) -> (d: u64) {
        let mut h = HS::default();
        proof {
            HS::default_is_initial();
        }
        h.write_char(*self);
        h.finish()
    }
}

impl CrossCheckHash for Float32 {
    open spec fn shape(&self) -> Shape {
        Shape::Scalar(Word::U32(self.bits))
    }

    fn cross_check_hash_depth<HA: CrossCheckHasher, HS: CrossCheckHasher>(
        &self,
        _depth: usize,
    ) -> (d: u64) {
        let mut h = HS::default();
        proof {
            HS::default_is_initial();
        }
        h.write_f32(*self);
        h.finish()
    }
}

impl CrossCheckHash for Float64 {
    open spec fn shape(&self) -> Shape {
        Shape::Scalar(Word::U64(self.bits))
    }

    fn cross_check_hash_depth<HA: CrossCheckHasher, HS: CrossCheckHasher>(
        &self,
        _depth: usize,
    ) -> (d: u64) {
        let mut h = HS::default();
        proof {
            HS::default_is_initial();
        }
        h.write_f64(*self);
        h.finish()
    }
}

/// A reference is followed while the budget lasts, at the cost of one level. At
/// budget zero the target is not read, and the leaf value is hashed in its place
/// as the scalar that it is.
impl<'a, T: ?Sized + CrossCheckHash> CrossCheckHash for &'a T {
    open spec fn shape(&self) -> Shape {
        Shape::Reference(Box::new(T::shape(*self)))
    }

    fn cross_check_hash_depth<HA: CrossCheckHasher, HS: CrossCheckHasher>(
        &self,
        depth: usize,
    ) -> (d: u64) {
        if depth == 0 {
            u32::cross_check_hash::<HA, HS>(&LEAF_REFERENCE_VALUE)
        } else {
            T::cross_check_hash_depth::<HA, HS>(*self, depth - 1)
        }
    }
}

/// A mutable reference is read as a shared one is.
impl<'a, T: ?Sized + CrossCheckHash> CrossCheckHash for &'a mut T {
    open spec fn shape(&self) -> Shape {
        Shape::Reference(Box::new(T::shape(*self)))
    }

    fn cross_check_hash_depth<HA: CrossCheckHasher, HS: CrossCheckHasher>(
        &self,
        depth: usize,
    ) -> (d: u64) {
        if depth == 0 {
            u32::cross_check_hash::<HA, HS>(&LEAF_REFERENCE_VALUE)
        } else {
            T::cross_check_hash_depth::<HA, HS>(*self, depth - 1)
        }
    }
}

/// An address as hashing sees it: null, or the place of a readable value.
///
/// Whoever builds `Valid` from a raw address vouches that the target can be
/// read for as long as the pointer is hashed. Hashing tests for null and for
/// nothing else. Mutability of the target plays no part.
pub enum Pointer<'a, T> {
    Null,
    Valid(&'a T),
}

/// A pointer costs one level of the budget, as a reference does. At budget
/// zero it is not even tested for null; with budget left, null hashes as the
/// pointer-sized scalar zero.

impl<'a, T: CrossCheckHash> CrossCheckHash for Pointer<'a, T> {
    open spec fn shape(&self) -> Shape {
        match self {
            Pointer::Null => Shape::Pointer(None),
            Pointer::Valid(target) => Shape::Pointer(Some(Box::new(T::shape(*target)))),
        }
    }

    fn cross_check_hash_depth<HA: CrossCheckHasher, HS: CrossCheckHasher>(
        &self,
        depth: usize,
    ) -> (d: u64) {
        if depth == 0 {
            u32::cross_check_hash::<HA, HS>(&LEAF_POINTER_VALUE)
        } else {
            match self {
                Pointer::Null => usize::cross_check_hash::<HA, HS>(&0usize),
                Pointer::Valid(target) => T::cross_check_hash_depth::<HA, HS>(*target, depth - 1),
            }
        }
    }
}

/// A fixed-size array is an aggregate whose fields are its elements, in index
/// order. The aggregate hasher is fed each element's digest as a 64-bit word;
/// the elements are hashed with the budget that the array was given.
impl<T: CrossCheckHash, const N: usize> CrossCheckHash for [T; N] {
    open spec fn shape(&self) -> Shape {
        Shape::Aggregate(Seq::new(N as nat, |i: int| T::shape(&self@[i])))
    }

    fn cross_check_hash_depth<HA: CrossCheckHasher, HS: CrossCheckHasher>(
        &self,
        depth: usize,
    ) -> (d: u64) {
        let ghost fields = Seq::new(N as nat, |i: int| T::shape(&self@[i]));
        let mut h = HA::default();
        proof {
            HA::default_is_initial();
        }
        let mut i: usize = 0;
        while i < N
            invariant
                i <= N,
                fields.len() == N,
                forall|j: int| 0 <= j < N ==> fields[j] == T::shape(&self@[j]),
                h@ == fields_state::<HA, HS>(fields, depth as nat, i as nat),
            decreases N - i,
        {
            let field = T::cross_check_hash_depth::<HA, HS>(&self[i], depth);
            h.write_u64(field);
            i = i + 1;
        }
        h.finish()
    }
}

} // verus!
