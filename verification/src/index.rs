//! The variant index protocol: value-level construction and destructuring
//! helpers for flat variant positions 0 through 6.
//!
//! Position `k` of a composed sum is the nesting path of `k` `Second` wraps
//! followed by one `First` around the payload. Each helper here is the
//! hand-expanded form for one fixed position, so the value level covers sums
//! of width up to 7; wider sums can still be composed at the type level, but
//! have no value-level helper of their own.
//!
//! Two destructuring modes exist. Leaf mode at position `k` yields the
//! payload exactly when the value sits at position `k`. Remainder mode at
//! position `k` strips `k` `Second` wraps and yields the whole remaining
//! sub-sum, exactly when the value sits at position `k` or later.

use vstd::prelude::*;

use crate::Either;
use crate::Never;
use crate::Sum2;
use crate::Sum3;

verus! {

// ---------------------------------------------------------------------------
// Construction: position k is k `Second` wraps, then one `First`.
// ---------------------------------------------------------------------------

/// What [`construct_0`] builds.
pub open spec fn spec_construct_0<T0, Rest>(v: T0) -> Either<T0, Rest> {
    Either::First(v)
}

/// What [`construct_1`] builds.
pub open spec fn spec_construct_1<T0, T1, Rest>(v: T1) -> Either<T0, Either<T1, Rest>> {
    Either::Second(spec_construct_0(v))
}

/// What [`construct_2`] builds.
pub open spec fn spec_construct_2<T0, T1, T2, Rest>(v: T2) -> Either<
    T0,
    Either<T1, Either<T2, Rest>>,
> {
    Either::Second(spec_construct_1(v))
}

/// What [`construct_3`] builds.
pub open spec fn spec_construct_3<T0, T1, T2, T3, Rest>(v: T3) -> Either<
    T0,
    Either<T1, Either<T2, Either<T3, Rest>>>,
> {
    Either::Second(spec_construct_2(v))
}

/// What [`construct_4`] builds.
pub open spec fn spec_construct_4<T0, T1, T2, T3, T4, Rest>(v: T4) -> Either<
    T0,
    Either<T1, Either<T2, Either<T3, Either<T4, Rest>>>>,
> {
    Either::Second(spec_construct_3(v))
}

/// What [`construct_5`] builds.
pub open spec fn spec_construct_5<T0, T1, T2, T3, T4, T5, Rest>(v: T5) -> Either<
    T0,
    Either<T1, Either<T2, Either<T3, Either<T4, Either<T5, Rest>>>>>,
> {
    Either::Second(spec_construct_4(v))
}

/// What [`construct_6`] builds.
pub open spec fn spec_construct_6<T0, T1, T2, T3, T4, T5, T6, Rest>(v: T6) -> Either<
    T0,
    Either<T1, Either<T2, Either<T3, Either<T4, Either<T5, Either<T6, Rest>>>>>>,
> {
    Either::Second(spec_construct_5(v))
}

/// Build a sum value at position 0.
pub fn construct_0<T0, Rest>(v: T0) -> (s: Either<T0, Rest>)
    ensures
        s == spec_construct_0::<T0, Rest>(v),
{
    Either::First(v)
}

/// Build a sum value at position 1.
pub fn construct_1<T0, T1, Rest>(v: T1) -> (s: Either<T0, Either<T1, Rest>>)
    ensures
        s == spec_construct_1::<T0, T1, Rest>(v),
{
    Either::Second(construct_0(v))
}

/// Build a sum value at position 2.
pub fn construct_2<T0, T1, T2, Rest>(v: T2) -> (s: Either<T0, Either<T1, Either<T2, Rest>>>)
    ensures
        s == spec_construct_2::<T0, T1, T2, Rest>(v),
{
    Either::Second(construct_1(v))
}

/// Build a sum value at position 3.
pub fn construct_3<T0, T1, T2, T3, Rest>(v: T3) -> (s: Either<
    T0,
    Either<T1, Either<T2, Either<T3, Rest>>>,
>)
    ensures
        s == spec_construct_3::<T0, T1, T2, T3, Rest>(v),
{
    Either::Second(construct_2(v))
}

/// Build a sum value at position 4.
pub fn construct_4<T0, T1, T2, T3, T4, Rest>(v: T4) -> (s: Either<
    T0,
    Either<T1, Either<T2, Either<T3, Either<T4, Rest>>>>,
>)
    ensures
        s == spec_construct_4::<T0, T1, T2, T3, T4, Rest>(v),
{
    Either::Second(construct_3(v))
}

/// Build a sum value at position 5.
pub fn construct_5<T0, T1, T2, T3, T4, T5, Rest>(v: T5) -> (s: Either<
    T0,
    Either<T1, Either<T2, Either<T3, Either<T4, Either<T5, Rest>>>>>,
>)
    ensures
        s == spec_construct_5::<T0, T1, T2, T3, T4, T5, Rest>(v),
{
    Either::Second(construct_4(v))
}

/// Build a sum value at position 6.
pub fn construct_6<T0, T1, T2, T3, T4, T5, T6, Rest>(v: T6) -> (s: Either<
    T0,
    Either<T1, Either<T2, Either<T3, Either<T4, Either<T5, Either<T6, Rest>>>>>>,
>)
    ensures
        s == spec_construct_6::<T0, T1, T2, T3, T4, T5, T6, Rest>(v),
{
    Either::Second(construct_5(v))
}

// ---------------------------------------------------------------------------
// Leaf-mode destructuring: yields the payload at exactly position k.
// ---------------------------------------------------------------------------

/// What [`destructure_leaf_0`] extracts.
pub open spec fn spec_leaf_0<T0, Rest>(s: Either<T0, Rest>) -> Option<T0> {
    match s {
        Either::First(v) => Some(v),
        Either::Second(_) => None,
    }
}

/// What [`destructure_leaf_1`] extracts.
pub open spec fn spec_leaf_1<T0, T1, Rest>(s: Either<T0, Either<T1, Rest>>) -> Option<T1> {
    match s {
        Either::First(_) => None,
        Either::Second(t) => spec_leaf_0(t),
    }
}

/// What [`destructure_leaf_2`] extracts.
pub open spec fn spec_leaf_2<T0, T1, T2, Rest>(
    s: Either<T0, Either<T1, Either<T2, Rest>>>,
) -> Option<T2> {
    match s {
        Either::First(_) => None,
        Either::Second(t) => spec_leaf_1(t),
    }
}

/// What [`destructure_leaf_3`] extracts.
pub open spec fn spec_leaf_3<T0, T1, T2, T3, Rest>(
    s: Either<T0, Either<T1, Either<T2, Either<T3, Rest>>>>,
) -> Option<T3> {
    match s {
        Either::First(_) => None,
        Either::Second(t) => spec_leaf_2(t),
    }
}

/// What [`destructure_leaf_4`] extracts.
pub open spec fn spec_leaf_4<T0, T1, T2, T3, T4, Rest>(
    s: Either<T0, Either<T1, Either<T2, Either<T3, Either<T4, Rest>>>>>,
) -> Option<T4> {
    match s {
        Either::First(_) => None,
        Either::Second(t) => spec_leaf_3(t),
    }
}

/// What [`destructure_leaf_5`] extracts.
pub open spec fn spec_leaf_5<T0, T1, T2, T3, T4, T5, Rest>(
    s: Either<T0, Either<T1, Either<T2, Either<T3, Either<T4, Either<T5, Rest>>>>>>,
) -> Option<T5> {
    match s {
        Either::First(_) => None,
        Either::Second(t) => spec_leaf_4(t),
    }
}

/// What [`destructure_leaf_6`] extracts.
pub open spec fn spec_leaf_6<T0, T1, T2, T3, T4, T5, T6, Rest>(
    s: Either<T0, Either<T1, Either<T2, Either<T3, Either<T4, Either<T5, Either<T6, Rest>>>>>>>,
) -> Option<T6> {
    match s {
        Either::First(_) => None,
        Either::Second(t) => spec_leaf_5(t),
    }
}

/// Leaf-mode destructuring at position 0.
pub fn destructure_leaf_0<T0, Rest>(s: Either<T0, Rest>) -> (r: Option<T0>)
    ensures
        r == spec_leaf_0(s),
        r is Some <==> s is First,
{
    match s {
        Either::First(v) => Some(v),
        Either::Second(_) => None,
    }
}

/// Leaf-mode destructuring at position 1.
pub fn destructure_leaf_1<T0, T1, Rest>(s: Either<T0, Either<T1, Rest>>) -> (r: Option<T1>)
    ensures
        r == spec_leaf_1(s),
{
    match s {
        Either::First(_) => None,
        Either::Second(t) => destructure_leaf_0(t),
    }
}

/// Leaf-mode destructuring at position 2.
pub fn destructure_leaf_2<T0, T1, T2, Rest>(s: Either<T0, Either<T1, Either<T2, Rest>>>) -> (r:
    Option<T2>)
    ensures
        r == spec_leaf_2(s),
{
    match s {
        Either::First(_) => None,
        Either::Second(t) => destructure_leaf_1(t),
    }
}

/// Leaf-mode destructuring at position 3.
pub fn destructure_leaf_3<T0, T1, T2, T3, Rest>(
    s: Either<T0, Either<T1, Either<T2, Either<T3, Rest>>>>,
) -> (r: Option<T3>)
    ensures
        r == spec_leaf_3(s),
{
    match s {
        Either::First(_) => None,
        Either::Second(t) => destructure_leaf_2(t),
    }
}

/// Leaf-mode destructuring at position 4.
pub fn destructure_leaf_4<T0, T1, T2, T3, T4, Rest>(
    s: Either<T0, Either<T1, Either<T2, Either<T3, Either<T4, Rest>>>>>,
) -> (r: Option<T4>)
    ensures
        r == spec_leaf_4(s),
{
    match s {
        Either::First(_) => None,
        Either::Second(t) => destructure_leaf_3(t),
    }
}

/// Leaf-mode destructuring at position 5.
pub fn destructure_leaf_5<T0, T1, T2, T3, T4, T5, Rest>(
    s: Either<T0, Either<T1, Either<T2, Either<T3, Either<T4, Either<T5, Rest>>>>>>,
) -> (r: Option<T5>)
    ensures
        r == spec_leaf_5(s),
{
    match s {
        Either::First(_) => None,
        Either::Second(t) => destructure_leaf_4(t),
    }
}

/// Leaf-mode destructuring at position 6.
pub fn destructure_leaf_6<T0, T1, T2, T3, T4, T5, T6, Rest>(
    s: Either<T0, Either<T1, Either<T2, Either<T3, Either<T4, Either<T5, Either<T6, Rest>>>>>>>,
) -> (r: Option<T6>)
    ensures
        r == spec_leaf_6(s),
{
    match s {
        Either::First(_) => None,
        Either::Second(t) => destructure_leaf_5(t),
    }
}

// ---------------------------------------------------------------------------
// Remainder-mode destructuring: strips k `Second` wraps and yields the whole
// remaining sub-sum.
// ---------------------------------------------------------------------------

/// What [`destructure_remainder_0`] extracts: the whole value, always.
pub open spec fn spec_remainder_0<S>(s: S) -> Option<S> {
    Some(s)
}

/// What [`destructure_remainder_1`] extracts.
pub open spec fn spec_remainder_1<T0, Rest>(s: Either<T0, Rest>) -> Option<Rest> {
    match s {
        Either::First(_) => None,
        Either::Second(rest) => Some(rest),
    }
}

/// What [`destructure_remainder_2`] extracts.
pub open spec fn spec_remainder_2<T0, T1, Rest>(s: Either<T0, Either<T1, Rest>>) -> Option<Rest> {
    match s {
        Either::First(_) => None,
        Either::Second(t) => spec_remainder_1(t),
    }
}

/// What [`destructure_remainder_3`] extracts.
pub open spec fn spec_remainder_3<T0, T1, T2, Rest>(
    s: Either<T0, Either<T1, Either<T2, Rest>>>,
) -> Option<Rest> {
    match s {
        Either::First(_) => None,
        Either::Second(t) => spec_remainder_2(t),
    }
}

/// What [`destructure_remainder_4`] extracts.
pub open spec fn spec_remainder_4<T0, T1, T2, T3, Rest>(
    s: Either<T0, Either<T1, Either<T2, Either<T3, Rest>>>>,
) -> Option<Rest> {
    match s {
        Either::First(_) => None,
        Either::Second(t) => spec_remainder_3(t),
    }
}

/// What [`destructure_remainder_5`] extracts.
pub open spec fn spec_remainder_5<T0, T1, T2, T3, T4, Rest>(
    s: Either<T0, Either<T1, Either<T2, Either<T3, Either<T4, Rest>>>>>,
) -> Option<Rest> {
    match s {
        Either::First(_) => None,
        Either::Second(t) => spec_remainder_4(t),
    }
}

/// What [`destructure_remainder_6`] extracts.
pub open spec fn spec_remainder_6<T0, T1, T2, T3, T4, T5, Rest>(
    s: Either<T0, Either<T1, Either<T2, Either<T3, Either<T4, Either<T5, Rest>>>>>>,
) -> Option<Rest> {
    match s {
        Either::First(_) => None,
        Either::Second(t) => spec_remainder_5(t),
    }
}

/// Remainder-mode destructuring at position 0: the trivial mode, which
/// captures the whole sum unchanged.
pub fn destructure_remainder_0<S>(s: S) -> (r: Option<S>)
    ensures
        r == spec_remainder_0(s),
        r == Some(s),
{
    Some(s)
}

/// Remainder-mode destructuring at position 1.
pub fn destructure_remainder_1<T0, Rest>(s: Either<T0, Rest>) -> (r: Option<Rest>)
    ensures
        r == spec_remainder_1(s),
        r is Some <==> s is Second,
{
    match s {
        Either::First(_) => None,
        Either::Second(rest) => Some(rest),
    }
}

/// Remainder-mode destructuring at position 2.
pub fn destructure_remainder_2<T0, T1, Rest>(s: Either<T0, Either<T1, Rest>>) -> (r: Option<Rest>)
    ensures
        r == spec_remainder_2(s),
{
    match s {
        Either::First(_) => None,
        Either::Second(t) => destructure_remainder_1(t),
    }
}

/// Remainder-mode destructuring at position 3.
pub fn destructure_remainder_3<T0, T1, T2, Rest>(
    s: Either<T0, Either<T1, Either<T2, Rest>>>,
) -> (r: Option<Rest>)
    ensures
        r == spec_remainder_3(s),
{
    match s {
        Either::First(_) => None,
        Either::Second(t) => destructure_remainder_2(t),
    }
}

/// Remainder-mode destructuring at position 4.
pub fn destructure_remainder_4<T0, T1, T2, T3, Rest>(
    s: Either<T0, Either<T1, Either<T2, Either<T3, Rest>>>>,
) -> (r: Option<Rest>)
    ensures
        r == spec_remainder_4(s),
{
    match s {
        Either::First(_) => None,
        Either::Second(t) => destructure_remainder_3(t),
    }
}

/// Remainder-mode destructuring at position 5.
pub fn destructure_remainder_5<T0, T1, T2, T3, T4, Rest>(
    s: Either<T0, Either<T1, Either<T2, Either<T3, Either<T4, Rest>>>>>,
) -> (r: Option<Rest>)
    ensures
        r == spec_remainder_5(s),
{
    match s {
        Either::First(_) => None,
        Either::Second(t) => destructure_remainder_4(t),
    }
}

/// Remainder-mode destructuring at position 6.
pub fn destructure_remainder_6<T0, T1, T2, T3, T4, T5, Rest>(
    s: Either<T0, Either<T1, Either<T2, Either<T3, Either<T4, Either<T5, Rest>>>>>>,
) -> (r: Option<Rest>)
    ensures
        r == spec_remainder_6(s),
{
    match s {
        Either::First(_) => None,
        Either::Second(t) => destructure_remainder_5(t),
    }
}

// ---------------------------------------------------------------------------
// Exhaustiveness over the terminal `Never` branch.
// ---------------------------------------------------------------------------

/// Total destructuring of a one-member sum. [`Never`] has no values, so the
/// terminal `Second` branch is never populated: position 0 is the only
/// reachable state, and extraction cannot fail.
pub fn into_first<T>(s: Either<T, Never>) -> (v: T)
    ensures
        spec_leaf_0(s) == Some(v),
{
    match s {
        Either::First(v) => v,
        Either::Second(n) => {
            proof {
                use_type_invariant(n);
            }
            vstd::pervasive::unreached()
        },
    }
}

/// The flat position of a two-member sum value. Every reachable value sits
/// at position 0 or 1: the two leaf modes together cover all of them, and
/// exactly one of the two matches.
pub fn position_2<T0, T1>(s: &Sum2<T0, T1>) -> (k: usize)
    ensures
        k < 2,
        k == 0 <==> spec_leaf_0(*s) is Some,
        k == 1 <==> spec_leaf_1(*s) is Some,
{
    match s {
        Either::First(_) => 0,
        Either::Second(Either::First(_)) => 1,
        Either::Second(Either::Second(n)) => {
            proof {
                use_type_invariant(*n);
            }
            vstd::pervasive::unreached()
        },
    }
}

/// The flat position of a three-member sum value. Every reachable value sits
/// at position 0, 1 or 2: the three leaf modes together cover all of them,
/// and exactly one of the three matches.
pub fn position_3<T0, T1, T2>(s: &Sum3<T0, T1, T2>) -> (k: usize)
    ensures
        k < 3,
        k == 0 <==> spec_leaf_0(*s) is Some,
        k == 1 <==> spec_leaf_1(*s) is Some,
        k == 2 <==> spec_leaf_2(*s) is Some,
{
    match s {
        Either::First(_) => 0,
        Either::Second(Either::First(_)) => 1,
        Either::Second(Either::Second(Either::First(_))) => 2,
        Either::Second(Either::Second(Either::Second(n))) => {
            proof {
                use_type_invariant(*n);
            }
            vstd::pervasive::unreached()
        },
    }
}

} // verus!
