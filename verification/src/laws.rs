//! Proved laws of the variant index protocol.
//!
//! Leaf-mode round trips: destructuring at the constructed position recovers
//! the payload, and destructuring at any other position yields nothing.
//! Remainder-mode containment: remainder destructuring at position `k`
//! matches every value constructed at position `k` or later, and the
//! captured sub-sum still holds the payload at its shifted position.
//!
//! The helpers exist once per position, so each law is stated once per
//! position (or per pair of positions) as well. The mismatch, exclusiveness
//! and containment pairs are written out for positions 0 through 2, over an
//! arbitrary tail, which covers every pair of distinct positions in sums of
//! width up to 3 and the leading three positions of any wider sum; the
//! decomposition laws reduce every remaining pair the helpers cover to
//! those, one peel at a time.

use vstd::prelude::*;

use crate::Either;
use crate::index::spec_construct_0;
use crate::index::spec_construct_1;
use crate::index::spec_construct_2;
use crate::index::spec_construct_3;
use crate::index::spec_construct_4;
use crate::index::spec_construct_5;
use crate::index::spec_construct_6;
use crate::index::spec_leaf_0;
use crate::index::spec_leaf_1;
use crate::index::spec_leaf_2;
use crate::index::spec_leaf_3;
use crate::index::spec_leaf_4;
use crate::index::spec_leaf_5;
use crate::index::spec_leaf_6;
use crate::index::spec_remainder_1;
use crate::index::spec_remainder_2;
use crate::index::spec_remainder_3;
use crate::index::spec_remainder_4;
use crate::index::spec_remainder_5;
use crate::index::spec_remainder_6;

verus! {

// ---------------------------------------------------------------------------
// Round trip, matching position: leaf destructuring at the constructed
// position recovers the payload.
// ---------------------------------------------------------------------------

/// Constructing at position 0 and leaf-destructuring at position 0 yields
/// the payload back.
pub proof fn lemma_round_trip_0<T0, Rest>(v: T0)
    ensures
        spec_leaf_0(spec_construct_0::<T0, Rest>(v)) == Some(v),
{
}

/// Constructing at position 1 and leaf-destructuring at position 1 yields
/// the payload back.
pub proof fn lemma_round_trip_1<T0, T1, Rest>(v: T1)
    ensures
        spec_leaf_1(spec_construct_1::<T0, T1, Rest>(v)) == Some(v),
{
}

/// Constructing at position 2 and leaf-destructuring at position 2 yields
/// the payload back.
pub proof fn lemma_round_trip_2<T0, T1, T2, Rest>(v: T2)
    ensures
        spec_leaf_2(spec_construct_2::<T0, T1, T2, Rest>(v)) == Some(v),
{
}

/// Constructing at position 3 and leaf-destructuring at position 3 yields
/// the payload back.
pub proof fn lemma_round_trip_3<T0, T1, T2, T3, Rest>(v: T3)
    ensures
        spec_leaf_3(spec_construct_3::<T0, T1, T2, T3, Rest>(v)) == Some(v),
{
}

/// Constructing at position 4 and leaf-destructuring at position 4 yields
/// the payload back.
pub proof fn lemma_round_trip_4<T0, T1, T2, T3, T4, Rest>(v: T4)
    ensures
        spec_leaf_4(spec_construct_4::<T0, T1, T2, T3, T4, Rest>(v)) == Some(v),
{
}

/// Constructing at position 5 and leaf-destructuring at position 5 yields
/// the payload back.
pub proof fn lemma_round_trip_5<T0, T1, T2, T3, T4, T5, Rest>(v: T5)
    ensures
        spec_leaf_5(spec_construct_5::<T0, T1, T2, T3, T4, T5, Rest>(v)) == Some(v),
{
}

/// Constructing at position 6 and leaf-destructuring at position 6 yields
/// the payload back.
pub proof fn lemma_round_trip_6<T0, T1, T2, T3, T4, T5, T6, Rest>(v: T6)
    ensures
        spec_leaf_6(spec_construct_6::<T0, T1, T2, T3, T4, T5, T6, Rest>(v)) == Some(v),
{
}

// ---------------------------------------------------------------------------
// Round trip, mismatched positions: leaf destructuring anywhere else yields
// nothing. Written out for every ordered pair of distinct positions in
// {0, 1, 2}.
// ---------------------------------------------------------------------------

/// Leaf-destructuring at position 1 misses a value constructed at
/// position 0.
pub proof fn lemma_mismatch_1_of_0<T0, T1, Rest>(v: T0)
    ensures
        spec_leaf_1(spec_construct_0::<T0, Either<T1, Rest>>(v)) is None,
{
}

/// Leaf-destructuring at position 2 misses a value constructed at
/// position 0.
pub proof fn lemma_mismatch_2_of_0<T0, T1, T2, Rest>(v: T0)
    ensures
        spec_leaf_2(spec_construct_0::<T0, Either<T1, Either<T2, Rest>>>(v)) is None,
{
}

/// Leaf-destructuring at position 0 misses a value constructed at
/// position 1.
pub proof fn lemma_mismatch_0_of_1<T0, T1, Rest>(v: T1)
    ensures
        spec_leaf_0(spec_construct_1::<T0, T1, Rest>(v)) is None,
{
}

/// Leaf-destructuring at position 2 misses a value constructed at
/// position 1.
pub proof fn lemma_mismatch_2_of_1<T0, T1, T2, Rest>(v: T1)
    ensures
        spec_leaf_2(spec_construct_1::<T0, T1, Either<T2, Rest>>(v)) is None,
{
}

/// Leaf-destructuring at position 0 misses a value constructed at
/// position 2.
pub proof fn lemma_mismatch_0_of_2<T0, T1, T2, Rest>(v: T2)
    ensures
        spec_leaf_0(spec_construct_2::<T0, T1, T2, Rest>(v)) is None,
{
}

/// Leaf-destructuring at position 1 misses a value constructed at
/// position 2.
pub proof fn lemma_mismatch_1_of_2<T0, T1, T2, Rest>(v: T2)
    ensures
        spec_leaf_1(spec_construct_2::<T0, T1, T2, Rest>(v)) is None,
{
}

// ---------------------------------------------------------------------------
// Exclusiveness: no value answers two leaf modes at once, whether or not it
// was built by a construction helper.
// ---------------------------------------------------------------------------

/// At most one of the leaf modes 0 and 1 matches any given value.
pub proof fn lemma_exclusive_0_1<T0, T1, Rest>(s: Either<T0, Either<T1, Rest>>)
    ensures
        spec_leaf_0(s) is Some ==> spec_leaf_1(s) is None,
        spec_leaf_1(s) is Some ==> spec_leaf_0(s) is None,
{
}

/// At most one of the leaf modes 0 and 2 matches any given value.
pub proof fn lemma_exclusive_0_2<T0, T1, T2, Rest>(s: Either<T0, Either<T1, Either<T2, Rest>>>)
    ensures
        spec_leaf_0(s) is Some ==> spec_leaf_2(s) is None,
        spec_leaf_2(s) is Some ==> spec_leaf_0(s) is None,
{
}

/// At most one of the leaf modes 1 and 2 matches any given value.
pub proof fn lemma_exclusive_1_2<T0, T1, T2, Rest>(s: Either<T0, Either<T1, Either<T2, Rest>>>)
    ensures
        spec_leaf_1(s) is Some ==> spec_leaf_2(s) is None,
        spec_leaf_2(s) is Some ==> spec_leaf_1(s) is None,
{
}

// ---------------------------------------------------------------------------
// Decomposition: each mode at a position above 0 is one peel followed by the
// same mode one position down. Chaining these reduces any pair of positions
// the helpers cover to the pairs stated above.
// ---------------------------------------------------------------------------

/// Leaf mode at position 1 is one peel, then leaf mode at position 0.
pub proof fn lemma_leaf_1_decomposes<T0, T1, Rest>(s: Either<T0, Either<T1, Rest>>)
    ensures
        spec_leaf_1(s) == match spec_remainder_1(s) {
            None => None,
            Some(t) => spec_leaf_0(t),
        },
{
}

/// Leaf mode at position 2 is one peel, then leaf mode at position 1.
pub proof fn lemma_leaf_2_decomposes<T0, T1, T2, Rest>(s: Either<T0, Either<T1, Either<T2, Rest>>>)
    ensures
        spec_leaf_2(s) == match spec_remainder_1(s) {
            None => None,
            Some(t) => spec_leaf_1(t),
        },
{
}

/// Leaf mode at position 3 is one peel, then leaf mode at position 2.
pub proof fn lemma_leaf_3_decomposes<T0, T1, T2, T3, Rest>(
    s: Either<T0, Either<T1, Either<T2, Either<T3, Rest>>>>,
)
    ensures
        spec_leaf_3(s) == match spec_remainder_1(s) {
            None => None,
            Some(t) => spec_leaf_2(t),
        },
{
}

/// Leaf mode at position 4 is one peel, then leaf mode at position 3.
pub proof fn lemma_leaf_4_decomposes<T0, T1, T2, T3, T4, Rest>(
    s: Either<T0, Either<T1, Either<T2, Either<T3, Either<T4, Rest>>>>>,
)
    ensures
        spec_leaf_4(s) == match spec_remainder_1(s) {
            None => None,
            Some(t) => spec_leaf_3(t),
        },
{
}

/// Leaf mode at position 5 is one peel, then leaf mode at position 4.
pub proof fn lemma_leaf_5_decomposes<T0, T1, T2, T3, T4, T5, Rest>(
    s: Either<T0, Either<T1, Either<T2, Either<T3, Either<T4, Either<T5, Rest>>>>>>,
)
    ensures
        spec_leaf_5(s) == match spec_remainder_1(s) {
            None => None,
            Some(t) => spec_leaf_4(t),
        },
{
}

/// Leaf mode at position 6 is one peel, then leaf mode at position 5.
pub proof fn lemma_leaf_6_decomposes<T0, T1, T2, T3, T4, T5, T6, Rest>(
    s: Either<T0, Either<T1, Either<T2, Either<T3, Either<T4, Either<T5, Either<T6, Rest>>>>>>>,
)
    ensures
        spec_leaf_6(s) == match spec_remainder_1(s) {
            None => None,
            Some(t) => spec_leaf_5(t),
        },
{
}

/// Remainder mode at position 2 is one peel, then remainder mode at
/// position 1.
pub proof fn lemma_remainder_2_decomposes<T0, T1, Rest>(s: Either<T0, Either<T1, Rest>>)
    ensures
        spec_remainder_2(s) == match spec_remainder_1(s) {
            None => None,
            Some(t) => spec_remainder_1(t),
        },
{
}

/// Remainder mode at position 3 is one peel, then remainder mode at
/// position 2.
pub proof fn lemma_remainder_3_decomposes<T0, T1, T2, Rest>(
    s: Either<T0, Either<T1, Either<T2, Rest>>>,
)
    ensures
        spec_remainder_3(s) == match spec_remainder_1(s) {
            None => None,
            Some(t) => spec_remainder_2(t),
        },
{
}

/// Remainder mode at position 4 is one peel, then remainder mode at
/// position 3.
pub proof fn lemma_remainder_4_decomposes<T0, T1, T2, T3, Rest>(
    s: Either<T0, Either<T1, Either<T2, Either<T3, Rest>>>>,
)
    ensures
        spec_remainder_4(s) == match spec_remainder_1(s) {
            None => None,
            Some(t) => spec_remainder_3(t),
        },
{
}

/// Remainder mode at position 5 is one peel, then remainder mode at
/// position 4.
pub proof fn lemma_remainder_5_decomposes<T0, T1, T2, T3, T4, Rest>(
    s: Either<T0, Either<T1, Either<T2, Either<T3, Either<T4, Rest>>>>>,
)
    ensures
        spec_remainder_5(s) == match spec_remainder_1(s) {
            None => None,
            Some(t) => spec_remainder_4(t),
        },
{
}

/// Remainder mode at position 6 is one peel, then remainder mode at
/// position 5.
pub proof fn lemma_remainder_6_decomposes<T0, T1, T2, T3, T4, T5, Rest>(
    s: Either<T0, Either<T1, Either<T2, Either<T3, Either<T4, Either<T5, Rest>>>>>>,
)
    ensures
        spec_remainder_6(s) == match spec_remainder_1(s) {
            None => None,
            Some(t) => spec_remainder_5(t),
        },
{
}

// ---------------------------------------------------------------------------
// Remainder containment: remainder mode at position k matches exactly the
// values constructed at position k or later, and what it captures is the
// same payload at its position shifted down by k.
// ---------------------------------------------------------------------------

/// Remainder mode at position 1 misses a value constructed at position 0.
pub proof fn lemma_remainder_1_misses_0<T0, Rest>(v: T0)
    ensures
        spec_remainder_1(spec_construct_0::<T0, Rest>(v)) is None,
{
}

/// Remainder mode at position 2 misses a value constructed at position 0
/// or 1.
pub proof fn lemma_remainder_2_misses_0_1<T0, T1, Rest>(v0: T0, v1: T1)
    ensures
        spec_remainder_2(spec_construct_0::<T0, Either<T1, Rest>>(v0)) is None,
        spec_remainder_2(spec_construct_1::<T0, T1, Rest>(v1)) is None,
{
}

/// Peeling one position off a value constructed at position 1 captures the
/// sub-sum holding the payload at position 0.
pub proof fn lemma_remainder_1_peels_1<T0, T1, Rest>(v: T1)
    ensures
        spec_remainder_1(spec_construct_1::<T0, T1, Rest>(v)) == Some(
            spec_construct_0::<T1, Rest>(v),
        ),
{
}

/// Peeling one position off a value constructed at position 2 captures the
/// sub-sum holding the payload at position 1.
pub proof fn lemma_remainder_1_peels_2<T0, T1, T2, Rest>(v: T2)
    ensures
        spec_remainder_1(spec_construct_2::<T0, T1, T2, Rest>(v)) == Some(
            spec_construct_1::<T1, T2, Rest>(v),
        ),
{
}

/// Peeling one position off a value constructed at position 3 captures the
/// sub-sum holding the payload at position 2.
pub proof fn lemma_remainder_1_peels_3<T0, T1, T2, T3, Rest>(v: T3)
    ensures
        spec_remainder_1(spec_construct_3::<T0, T1, T2, T3, Rest>(v)) == Some(
            spec_construct_2::<T1, T2, T3, Rest>(v),
        ),
{
}

/// Peeling one position off a value constructed at position 4 captures the
/// sub-sum holding the payload at position 3.
pub proof fn lemma_remainder_1_peels_4<T0, T1, T2, T3, T4, Rest>(v: T4)
    ensures
        spec_remainder_1(spec_construct_4::<T0, T1, T2, T3, T4, Rest>(v)) == Some(
            spec_construct_3::<T1, T2, T3, T4, Rest>(v),
        ),
{
}

/// Peeling one position off a value constructed at position 5 captures the
/// sub-sum holding the payload at position 4.
pub proof fn lemma_remainder_1_peels_5<T0, T1, T2, T3, T4, T5, Rest>(v: T5)
    ensures
        spec_remainder_1(spec_construct_5::<T0, T1, T2, T3, T4, T5, Rest>(v)) == Some(
            spec_construct_4::<T1, T2, T3, T4, T5, Rest>(v),
        ),
{
}

/// Peeling one position off a value constructed at position 6 captures the
/// sub-sum holding the payload at position 5.
pub proof fn lemma_remainder_1_peels_6<T0, T1, T2, T3, T4, T5, T6, Rest>(v: T6)
    ensures
        spec_remainder_1(spec_construct_6::<T0, T1, T2, T3, T4, T5, T6, Rest>(v)) == Some(
            spec_construct_5::<T1, T2, T3, T4, T5, T6, Rest>(v),
        ),
{
}

/// Stripping 2 positions off a value constructed at position 2 captures
/// the sub-sum holding the payload at position 0.
pub proof fn lemma_remainder_full_strip_2<T0, T1, T2, Rest>(v: T2)
    ensures
        spec_remainder_2(spec_construct_2::<T0, T1, T2, Rest>(v)) == Some(
            spec_construct_0::<T2, Rest>(v),
        ),
{
}

/// Stripping 3 positions off a value constructed at position 3 captures
/// the sub-sum holding the payload at position 0.
pub proof fn lemma_remainder_full_strip_3<T0, T1, T2, T3, Rest>(v: T3)
    ensures
        spec_remainder_3(spec_construct_3::<T0, T1, T2, T3, Rest>(v)) == Some(
            spec_construct_0::<T3, Rest>(v),
        ),
{
}

/// Stripping 4 positions off a value constructed at position 4 captures
/// the sub-sum holding the payload at position 0.
pub proof fn lemma_remainder_full_strip_4<T0, T1, T2, T3, T4, Rest>(v: T4)
    ensures
        spec_remainder_4(spec_construct_4::<T0, T1, T2, T3, T4, Rest>(v)) == Some(
            spec_construct_0::<T4, Rest>(v),
        ),
{
}

/// Stripping 5 positions off a value constructed at position 5 captures
/// the sub-sum holding the payload at position 0.
pub proof fn lemma_remainder_full_strip_5<T0, T1, T2, T3, T4, T5, Rest>(v: T5)
    ensures
        spec_remainder_5(spec_construct_5::<T0, T1, T2, T3, T4, T5, Rest>(v)) == Some(
            spec_construct_0::<T5, Rest>(v),
        ),
{
}

/// Stripping 6 positions off a value constructed at position 6 captures
/// the sub-sum holding the payload at position 0.
pub proof fn lemma_remainder_full_strip_6<T0, T1, T2, T3, T4, T5, T6, Rest>(v: T6)
    ensures
        spec_remainder_6(spec_construct_6::<T0, T1, T2, T3, T4, T5, T6, Rest>(v)) == Some(
            spec_construct_0::<T6, Rest>(v),
        ),
{
}

} // verus!
