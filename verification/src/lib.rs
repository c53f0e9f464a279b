//! Anonymous sums of N alternative value types, built from a single
//! two-variant block.
//!
//! An N-member sum is a chain of [`Either`] nodes terminated by the
//! uninhabited type [`Never`]: a sum of `T0, T1, ..., Tn-1` is
//! `Either<T0, Either<T1, ... Either<Tn-1, Never> ...>>`. The last member is
//! never bare; it is always wrapped once more over `Never`, so every level of
//! the chain is a two-branch structure and the capability impls in [`impls`]
//! have a single base case.
//!
//! The value-level helpers in [`index`] map a flat variant position
//! (0-based) to the corresponding nesting path: position `k` is `k`
//! applications of `Second` followed by one `First` around the payload.

use vstd::prelude::*;

pub mod impls;
pub mod index;
pub mod laws;

verus! {

/// A type with no constructible values.
///
/// `Never` terminates the nesting chain of a composed sum. Its one field is
/// private, so no code outside this crate can write a `Never` literal, and
/// its type invariant can never be established, so no verified code inside
/// this crate can construct one either. Code that is handed a `Never` is
/// unreachable, and proves so from the invariant.
#[derive(Copy, Clone, Debug, PartialEq, Eq, Hash, PartialOrd, Ord)]
pub struct Never {
    no_value: NoValue,
}

#[derive(Copy, Clone, Debug, PartialEq, Eq, Hash, PartialOrd, Ord)]
struct NoValue {}

impl Never {
    /// The invariant of `Never` rejects every candidate value, which is what
    /// makes the type empty: nothing can construct a value that meets it.
    #[verifier::type_invariant]
    spec fn uninhabited(self) -> bool {
        self.no_value != self.no_value
    }
}

/// Exactly one of two states: `First` holding an `L`, or `Second` holding
/// an `R`.
///
/// This is the sole composition primitive: nesting it on the right, with a
/// final [`Never`], yields sums of any width. A value owns its payload
/// outright and never changes which branch is populated.
#[derive(Copy, Clone, Debug, PartialEq, Eq, Hash, PartialOrd, Ord)]
pub enum Either<L, R> {
    First(L),
    Second(R),
}

/// The empty sum: no member types, no values.
pub type Sum0 = Never;

/// A one-member sum. The single member is still wrapped over [`Never`];
/// it never collapses to a bare `T0`.
pub type Sum1<T0> = Either<T0, Sum0>;

/// A two-member sum.
pub type Sum2<T0, T1> = Either<T0, Sum1<T1>>;

/// A three-member sum.
pub type Sum3<T0, T1, T2> = Either<T0, Sum2<T1, T2>>;

/// A four-member sum.
pub type Sum4<T0, T1, T2, T3> = Either<T0, Sum3<T1, T2, T3>>;

/// A five-member sum.
pub type Sum5<T0, T1, T2, T3, T4> = Either<T0, Sum4<T1, T2, T3, T4>>;

/// A six-member sum.
pub type Sum6<T0, T1, T2, T3, T4, T5> = Either<T0, Sum5<T1, T2, T3, T4, T5>>;

/// A seven-member sum, the widest the value-level helpers in [`index`]
/// cover in full.
pub type Sum7<T0, T1, T2, T3, T4, T5, T6> = Either<T0, Sum6<T1, T2, T3, T4, T5, T6>>;

} // verus!
