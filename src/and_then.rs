//! `AndThen`: runs a first computation and, on its success, a second one
//! built from the success value; a failure of the first is the overall failure.

use vstd::prelude::*;

use crate::chain::{TryChain, TryChainAction};
use crate::poll::{Poll, TryPoll};

verus! {

/// The continuation accepts every success value of the first stage, and every
/// computation it builds may be polled.
pub open spec fn continuation_admits<A, Fut2: TryPoll, F: FnOnce(A) -> Fut2>(f: F) -> bool {
    &&& forall|v: A| #[trigger] f.requires((v,))
    &&& forall|v: A, fut2: Fut2| #[trigger] f.ensures((v,), fut2) ==> fut2.wf() && fut2.pollable()
}

/// The resumption policy of `AndThen`: on a success, build the second stage
/// by handing the success value to the continuation; on a failure, finish with
/// that very failure and leave the continuation unused.
pub fn and_then_action<A, E, Fut2, F>(result: Result<A, E>, f: F) -> (a: TryChainAction<Fut2>)
    where Fut2: TryPoll<Error = E>, F: FnOnce(A) -> Fut2
    requires
        result is Ok ==> f.requires((result->Ok_0,)),
    ensures
        match result {
            Ok(v) => a is Future && f.ensures((v,), a->Future_0),
            Err(e) => a == TryChainAction::<Fut2>::Output(Err(e)),
        },
{
    match result {
        Ok(v) => TryChainAction::Future(f(v)),
        Err(e) => TryChainAction::Output(Err(e)),
    }
}

/// Runs `Fut1`, then the computation that `F` builds from its success.
pub struct AndThen<Fut1, Fut2, F> {
    try_chain: TryChain<Fut1, Fut2, F>,
}

impl<Fut1, Fut2, F> View for AndThen<Fut1, Fut2, F> {
    type V = TryChain<Fut1, Fut2, F>;

    /// The state of the engine inside.
    closed spec fn view(&self) -> TryChain<Fut1, Fut2, F> {
        self.try_chain
    }
}

impl<Fut1, Fut2, F> AndThen<Fut1, Fut2, F>
    where Fut1: TryPoll, Fut2: TryPoll<Error = Fut1::Error>, F: FnOnce(Fut1::Ok) -> Fut2
{
    /// Starts with `future` as the first stage and `f` as the continuation.
    /// The result may be polled when `future` may be and `f` is fit to be
    /// its continuation.
    pub fn new(future: Fut1, f: F) -> (s: Self)
        ensures
            s@ == TryChain::<Fut1, Fut2, F>::First(future, Some(f)),
            future.wf() && future.pollable() && continuation_admits(f) ==> s.wf(),
            s.pollable(),
    {
        AndThen { try_chain: TryChain::new(future, f) }
    }
}

impl<Fut1, Fut2, F> TryPoll for AndThen<Fut1, Fut2, F>
    where Fut1: TryPoll, Fut2: TryPoll<Error = Fut1::Error>, F: FnOnce(Fut1::Ok) -> Fut2
{
    type Ok = Fut2::Ok;

    type Error = Fut2::Error;

    open spec fn wf(&self) -> bool {
        &&& self@.wf()
        &&& self@ is First ==> continuation_admits(self@->First_1->Some_0)
    }

    open spec fn pollable(&self) -> bool {
        self@.pollable()
    }

    open spec fn polled(&self, next: &Self, r: Poll<Result<Fut2::Ok, Fut2::Error>>) -> bool {
        self@.chain_polled(next@, r, and_then_action::<Fut1::Ok, Fut1::Error, Fut2, F>)
    }

    fn can_poll(&self) -> (b: bool) {
        self.try_chain.can_poll()
    }

    fn try_poll(&mut self, cx: &mut core::task::Context<'_>) -> (r: Poll<Result<Fut2::Ok, Fut2::Error>>) {
        let ghost chain = self.try_chain;
        proof {
            if chain is First {
                let f = chain->First_1->Some_0;
                assert forall|o: Result<Fut1::Ok, Fut1::Error>, a: TryChainAction<Fut2>|
                    #[trigger] and_then_action::<Fut1::Ok, Fut1::Error, Fut2, F>.ensures((o, f), a) && a is Future
                        implies a->Future_0.wf() && a->Future_0.pollable() by {
                    if o is Ok {
                        assert(f.ensures((o->Ok_0,), a->Future_0));
                    }
                }
            }
        }
        self.try_chain.poll(cx, and_then_action::<Fut1::Ok, Fut1::Error, Fut2, F>)
    }
}

/// A failure of the first stage ends the poll with that very failure and
/// exhausts the combinator: the continuation takes no part in the outcome.
pub proof fn lemma_failure_short_circuits<Fut1, Fut2, F>(
    f: F,
    e: Fut1::Error,
    next: AndThen<Fut1, Fut2, F>,
    r: Poll<Result<Fut2::Ok, Fut2::Error>>,
) where Fut1: TryPoll, Fut2: TryPoll<Error = Fut1::Error>, F: FnOnce(Fut1::Ok) -> Fut2
    requires
        TryChain::<Fut1, Fut2, F>::resumed(and_then_action::<Fut1::Ok, Fut1::Error, Fut2, F>, Err(e), f, next@, r),
    ensures
        r == Poll::<Result<Fut2::Ok, Fut2::Error>>::Ready(Err(e)),
        !next.pollable(),
{
}

/// A success `v` of the first stage goes to the continuation, once, and the
/// poll then reports exactly what one poll of the computation that the
/// continuation built from `v` reports.
pub proof fn lemma_success_continues<Fut1, Fut2, F>(
    f: F,
    v: Fut1::Ok,
    next: AndThen<Fut1, Fut2, F>,
    r: Poll<Result<Fut2::Ok, Fut2::Error>>,
) where Fut1: TryPoll, Fut2: TryPoll<Error = Fut1::Error>, F: FnOnce(Fut1::Ok) -> Fut2
    requires
        TryChain::<Fut1, Fut2, F>::resumed(and_then_action::<Fut1::Ok, Fut1::Error, Fut2, F>, Ok(v), f, next@, r),
    ensures
        exists|fut2: Fut2| #[trigger] f.ensures((v,), fut2) && TryChain::<Fut1, Fut2, F>::second_polled(fut2, next@, r),
{
}

/// While the second stage runs, a poll of the combinator reports exactly what
/// one poll of that stage reports.
pub proof fn lemma_second_stage_outcome<Fut1, Fut2, F>(
    s: AndThen<Fut1, Fut2, F>,
    next: AndThen<Fut1, Fut2, F>,
    r: Poll<Result<Fut2::Ok, Fut2::Error>>,
) where Fut1: TryPoll, Fut2: TryPoll<Error = Fut1::Error>, F: FnOnce(Fut1::Ok) -> Fut2
    requires
        s@ is Second,
        s.polled(&next, r),
    ensures
        exists|n2: Fut2| #[trigger] s@->Second_0.polled(&n2, r),
{
}

/// Every poll starts from a pollable combinator and leaves it pollable exactly
/// when it reports `Pending`; so once exhausted, it never becomes pollable
/// again, and no poll of it is possible.
pub proof fn lemma_exhaustion_is_final<Fut1, Fut2, F>(
    s: AndThen<Fut1, Fut2, F>,
    next: AndThen<Fut1, Fut2, F>,
    r: Poll<Result<Fut2::Ok, Fut2::Error>>,
) where Fut1: TryPoll, Fut2: TryPoll<Error = Fut1::Error>, F: FnOnce(Fut1::Ok) -> Fut2
    requires
        s.polled(&next, r),
    ensures
        s.pollable(),
        next.pollable() <==> r is Pending,
{
}

} // verus!
