//! Capability forwarding for composed sums.
//!
//! Each capability is a trait with a contract. A composed sum gains the
//! capability by structural induction on its nesting: a general impl over
//! `Either<L, R>` forwards to whichever branch is populated when both
//! branches have the capability with the same associated type, and a base
//! case handles the terminal node. For [`Render`] and [`Fault`] the base
//! case is an impl for [`Never`] itself, vacuous because `Never` has no
//! values; [`Produce`] and [`Complete`] fix an associated type per
//! implementor, which nothing could choose for `Never`, so their base case
//! is an impl for the terminal node `Either<L, Never>` whose second branch
//! is unreachable.
//!
//! Branch selection can never fail: every node has exactly two branches,
//! exactly one populated, and the populated branch never changes. Whatever
//! a forwarded call reports is the member type's own report, passed through
//! unchanged.

use vstd::prelude::*;

use crate::Either;
use crate::Never;

verus! {

/// Step-by-step production of a sequence of items, one per call.
///
/// `will_produce` is the sequence of items the value will hand out, in
/// order; `next` pops its head. Every member of a composed sum must produce
/// the same item type for the sum to produce at all.
pub trait Produce {
    type Item;

    /// The items this value will produce, in order.
    spec fn will_produce(&self) -> Seq<Self::Item>;

    /// Produce the next item, or report exhaustion.
    fn next(&mut self) -> (r: Option<Self::Item>)
        ensures
            match r {
                Some(x) => old(self).will_produce().len() > 0 && x == old(self).will_produce()[0]
                    && final(self).will_produce() == old(self).will_produce().drop_first(),
                None => old(self).will_produce().len() == 0 && final(self).will_produce() == old(
                    self,
                ).will_produce(),
            },
    ;
}

/// The report of one polling step: not finished yet, or finished with a
/// completion value.
pub enum Completion<T> {
    Pending,
    Done(T),
}

/// Cooperative asynchronous completion, driven by repeated polling.
///
/// `outcome` is the completion value the computation is ready to report
/// now, if any; `poll` asks for it. A `Pending` report means the caller
/// must poll again later. Every member of a composed sum must complete with
/// the same output type for the sum to complete at all.
pub trait Complete {
    type Output;

    /// The completion value this computation is ready to report now, or
    /// `None` while it is still pending.
    spec fn outcome(&self) -> Option<Self::Output>;

    /// Take one polling step.
    fn poll(&mut self) -> (c: Completion<Self::Output>)
        ensures
            match c {
                Completion::Done(v) => old(self).outcome() == Some(v),
                Completion::Pending => old(self).outcome() is None,
            },
    ;
}

/// Textual rendering.
pub trait Render {
    /// The text this value renders as.
    spec fn rendered(&self) -> Seq<char>;

    /// Render the value as text.
    fn render(&self) -> (t: String)
        ensures
            t@ == self.rendered(),
    ;
}

/// Fault reporting: a renderable value that stands for an error.
///
/// The trait adds no operations of its own: a composed sum is a fault type
/// exactly when every member is, and its fault content is whatever the
/// populated member renders.
pub trait Fault: Render {
}

// ---------------------------------------------------------------------------
// Sequence production.
// ---------------------------------------------------------------------------

impl<L: Produce, R: Produce<Item = L::Item>> Produce for Either<L, R> {
    type Item = L::Item;

    open spec fn will_produce(&self) -> Seq<L::Item> {
        match self {
            Either::First(l) => l.will_produce(),
            Either::Second(r) => r.will_produce(),
        }
    }

    fn next(&mut self) -> (r: Option<L::Item>) {
        match self {
            Either::First(l) => l.next(),
            Either::Second(r) => r.next(),
        }
    }
}

impl<L: Produce> Produce for Either<L, Never> {
    type Item = L::Item;

    open spec fn will_produce(&self) -> Seq<L::Item> {
        match self {
            Either::First(l) => l.will_produce(),
            Either::Second(_) => Seq::empty(),
        }
    }

    fn next(&mut self) -> (r: Option<L::Item>) {
        match self {
            Either::First(l) => l.next(),
            Either::Second(n) => {
                proof {
                    use_type_invariant(&*n);
                }
                vstd::pervasive::unreached()
            },
        }
    }
}

// ---------------------------------------------------------------------------
// Asynchronous completion.
// ---------------------------------------------------------------------------

impl<L: Complete, R: Complete<Output = L::Output>> Complete for Either<L, R> {
    type Output = L::Output;

    open spec fn outcome(&self) -> Option<L::Output> {
        match self {
            Either::First(l) => l.outcome(),
            Either::Second(r) => r.outcome(),
        }
    }

    /// Polling forwards to the populated branch, and the populated branch
    /// stays the same across polls: a pending sum is re-polled on the very
    /// branch that reported pending.
    fn poll(&mut self) -> (c: Completion<L::Output>)
        ensures
            match c {
                Completion::Done(v) => old(self).outcome() == Some(v),
                Completion::Pending => old(self).outcome() is None,
            },
            *final(self) is First <==> *old(self) is First,
    {
        match self {
            Either::First(l) => l.poll(),
            Either::Second(r) => r.poll(),
        }
    }
}

impl<L: Complete> Complete for Either<L, Never> {
    type Output = L::Output;

    open spec fn outcome(&self) -> Option<L::Output> {
        match self {
            Either::First(l) => l.outcome(),
            Either::Second(_) => None,
        }
    }

    fn poll(&mut self) -> (c: Completion<L::Output>)
        ensures
            match c {
                Completion::Done(v) => old(self).outcome() == Some(v),
                Completion::Pending => old(self).outcome() is None,
            },
            *final(self) is First,
    {
        match self {
            Either::First(l) => l.poll(),
            Either::Second(n) => {
                proof {
                    use_type_invariant(&*n);
                }
                vstd::pervasive::unreached()
            },
        }
    }
}

// ---------------------------------------------------------------------------
// Textual rendering.
// ---------------------------------------------------------------------------

impl<L: Render, R: Render> Render for Either<L, R> {
    open spec fn rendered(&self) -> Seq<char> {
        match self {
            Either::First(l) => l.rendered(),
            Either::Second(r) => r.rendered(),
        }
    }

    fn render(&self) -> (t: String) {
        match self {
            Either::First(l) => l.render(),
            Either::Second(r) => r.render(),
        }
    }
}

impl Render for Never {
    open spec fn rendered(&self) -> Seq<char> {
        Seq::empty()
    }

    /// Never executed: no `Never` value exists to be rendered.
    fn render(&self) -> (t: String) {
        proof {
            use_type_invariant(&*self);
        }
        vstd::pervasive::unreached()
    }
}

// ---------------------------------------------------------------------------
// Fault reporting.
// ---------------------------------------------------------------------------

impl<L: Fault, R: Fault> Fault for Either<L, R> {
}

impl Fault for Never {
}

} // verus!
