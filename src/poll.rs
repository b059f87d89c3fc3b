//! The polling protocol shared by every computation of the crate.

use vstd::prelude::*;

verus! {

/// Declares `core::task::Context`, the waking context handed to each poll.
/// Nothing here reads it: it is only passed on to the stage being polled.
#[verifier::external_type_specification]
#[verifier::external_body]
pub struct ExContext<'a>(core::task::Context<'a>);

/// What one poll of a computation reports.
#[derive(Debug, PartialEq, Eq)]
pub enum Poll<T> {
    /// The computation finished with this value.
    Ready(T),
    /// The computation cannot finish yet and must be polled again later.
    Pending,
}

/// A computation that ends in a success of type `Ok` or a failure of type
/// `Error`, advanced by polling it in place until it reports `Ready`.
///
/// The three spec functions model an implementation. Their defaults state
/// nothing of it (no invariant, any step possible); the combinators of this
/// crate define all three, and their proofs never rely on the defaults of a
/// stage they run.
pub trait TryPoll: Sized {
    type Ok;

    type Error;

    /// The computation's own invariant, which every poll keeps.
    open spec fn wf(&self) -> bool {
        true
    }

    /// Whether the computation may still be polled.
    open spec fn pollable(&self) -> bool {
        true
    }

    /// One poll may turn `self` into `next` while reporting `r`.
    open spec fn polled(&self, next: &Self, r: Poll<Result<Self::Ok, Self::Error>>) -> bool {
        true
    }

    /// Reports whether the computation may still be polled.
    fn can_poll(&self) -> (b: bool)
        ensures
            b == self.pollable(),
    ;

    /// Advances the computation by one step. A computation stays pollable
    /// exactly as long as its polls report `Pending`.
    fn try_poll(&mut self, cx: &mut core::task::Context<'_>) -> (r: Poll<Result<Self::Ok, Self::Error>>)
        requires
            old(self).wf(),
            old(self).pollable(),
        ensures
            final(self).wf(),
            old(self).polled(&*final(self), r),
            final(self).pollable() <==> r is Pending,
    ;
}

} // verus!
