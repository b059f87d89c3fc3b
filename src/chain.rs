//! The chained-stage engine: runs a first computation, hands its outcome and
//! a held value to a resumption policy, and then either runs the second
//! computation that the policy produced or finishes with the policy's output.

use vstd::prelude::*;

use crate::poll::{Poll, TryPoll};

verus! {

/// What a resumption policy decides once the first stage has completed.
pub enum TryChainAction<Fut2: TryPoll> {
    /// Go on by running this second computation.
    Future(Fut2),
    /// Finish at once with this output.
    Output(Result<Fut2::Ok, Fut2::Error>),
}

/// The state of the engine: exactly one of the two stages is held, or none.
pub enum TryChain<Fut1, Fut2, Data> {
    /// The first stage runs; the value for the policy is held until it completes.
    First(Fut1, Option<Data>),
    /// The second stage runs; the first one and the held value are gone.
    Second(Fut2),
    /// Both stages are done; the engine must not be polled again.
    Empty,
}

impl<Fut1: TryPoll, Fut2: TryPoll, Data> TryChain<Fut1, Fut2, Data> {
    /// The stage that runs may be polled, and a running first stage still
    /// has its value for the policy.
    pub open spec fn wf(&self) -> bool {
        match self {
            TryChain::First(fut1, data) => fut1.wf() && fut1.pollable() && data is Some,
            TryChain::Second(fut2) => fut2.wf() && fut2.pollable(),
            TryChain::Empty => true,
        }
    }

    /// Whether the engine may still be polled.
    pub open spec fn pollable(&self) -> bool {
        !(self is Empty)
    }

    /// One poll of the running second stage `fut2` reports `r` and leaves the
    /// engine as `next`: still on that stage while pending, exhausted once ready.
    pub open spec fn second_polled(fut2: Fut2, next: Self, r: Poll<Result<Fut2::Ok, Fut2::Error>>) -> bool {
        exists|n2: Fut2|
            #[trigger] fut2.polled(&n2, r) && next == (if r is Pending {
                TryChain::<Fut1, Fut2, Data>::Second(n2)
            } else {
                TryChain::<Fut1, Fut2, Data>::Empty
            })
    }

    /// Carrying out the policy's decision `a` reports `r` and leaves `next`.
    /// A new second stage is polled at once, within the same poll.
    pub open spec fn acted(a: TryChainAction<Fut2>, next: Self, r: Poll<Result<Fut2::Ok, Fut2::Error>>) -> bool {
        match a {
            TryChainAction::Output(out) => next is Empty && r == Poll::Ready(out),
            TryChainAction::Future(fut2) => Self::second_polled(fut2, next, r),
        }
    }

    /// Once the first stage completed with `o`, the policy, given `o` and the
    /// held value `d`, decides an action whose outcome is `r` and `next`.
    pub open spec fn resumed<G>(
        policy: G,
        o: Result<Fut1::Ok, Fut1::Error>,
        d: Data,
        next: Self,
        r: Poll<Result<Fut2::Ok, Fut2::Error>>,
    ) -> bool where G: FnOnce(Result<Fut1::Ok, Fut1::Error>, Data) -> TryChainAction<Fut2> {
        exists|a: TryChainAction<Fut2>| #[trigger] policy.ensures((o, d), a) && Self::acted(a, next, r)
    }

    /// One poll of the engine under `policy` turns `self` into `next` and reports `r`.
    pub open spec fn chain_polled<G>(
        &self,
        next: Self,
        r: Poll<Result<Fut2::Ok, Fut2::Error>>,
        policy: G,
    ) -> bool where G: FnOnce(Result<Fut1::Ok, Fut1::Error>, Data) -> TryChainAction<Fut2> {
        match self {
            TryChain::First(fut1, Some(d)) => exists|n1: Fut1, r1: Poll<Result<Fut1::Ok, Fut1::Error>>|
                #[trigger] fut1.polled(&n1, r1) && match r1 {
                    Poll::Pending => r is Pending && next == TryChain::<Fut1, Fut2, Data>::First(n1, Some(*d)),
                    Poll::Ready(o) => Self::resumed(policy, o, *d, next, r),
                },
            TryChain::Second(fut2) => Self::second_polled(*fut2, next, r),
            _ => false,
        }
    }

    /// The policy accepts every outcome of the first stage together with `d`,
    /// and every second stage it produces may be polled.
    pub open spec fn policy_admits<G>(policy: G, d: Data) -> bool
        where G: FnOnce(Result<Fut1::Ok, Fut1::Error>, Data) -> TryChainAction<Fut2> {
        &&& forall|o: Result<Fut1::Ok, Fut1::Error>| #[trigger] policy.requires((o, d))
        &&& forall|o: Result<Fut1::Ok, Fut1::Error>, a: TryChainAction<Fut2>|
            #[trigger] policy.ensures((o, d), a) && a is Future ==> a->Future_0.wf() && a->Future_0.pollable()
    }

    /// Starts the engine on its first stage, holding `data` for the policy.
    pub fn new(fut1: Fut1, data: Data) -> (s: Self)
        ensures
            s == TryChain::<Fut1, Fut2, Data>::First(fut1, Some(data)),
            fut1.wf() && fut1.pollable() ==> s.wf(),
            s.pollable(),
    {
        TryChain::First(fut1, Some(data))
    }

    /// Reports whether the engine may still be polled.
    pub fn can_poll(&self) -> (b: bool)
        ensures
            b == self.pollable(),
    {
        match self {
            TryChain::First(..) | TryChain::Second(_) => true,
            TryChain::Empty => false,
        }
    }

    /// Polls the running second stage once.
    fn poll_second(&mut self, cx: &mut core::task::Context<'_>) -> (r: Poll<Result<Fut2::Ok, Fut2::Error>>)
        requires
            *old(self) is Second,
            old(self).wf(),
        ensures
            final(self).wf(),
            Self::second_polled(old(self)->Second_0, *final(self), r),
            final(self).pollable() <==> r is Pending,
    {
        let ghost fut2_before = self->Second_0;
        let r = match self {
            TryChain::Second(fut2) => fut2.try_poll(cx),
            _ => Poll::Pending,
        };
        let ghost fut2_after = self->Second_0;
        assert(fut2_before.polled(&fut2_after, r));
        if let Poll::Ready(_) = &r {
            *self = TryChain::Empty;
        }
        r
    }

    /// Advances the engine by one step. A first stage that completes is
    /// dropped, and its outcome goes with the held value to `policy`; a second
    /// stage that the policy produces is polled at once in the same call.
    pub fn poll<G>(&mut self, cx: &mut core::task::Context<'_>, policy: G) -> (r: Poll<Result<Fut2::Ok, Fut2::Error>>)
        where G: FnOnce(Result<Fut1::Ok, Fut1::Error>, Data) -> TryChainAction<Fut2>
        requires
            old(self).wf(),
            old(self).pollable(),
            *old(self) is First ==> Self::policy_admits(policy, old(self)->First_1->Some_0),
        ensures
            final(self).wf(),
            old(self).chain_polled(*final(self), r, policy),
            final(self).pollable() <==> r is Pending,
    {
        if let TryChain::Second(_) = self {
            return self.poll_second(cx);
        }
        let ghost fut1_before = self->First_0;
        let completed = match self {
            TryChain::First(fut1, data) => match fut1.try_poll(cx) {
                Poll::Pending => {
                    proof {
                        let n1 = self->First_0;
                        assert(fut1_before.polled(&n1, Poll::Pending));
                    }
                    return Poll::Pending;
                },
                Poll::Ready(output) => Some((output, data.take())),
            },
            _ => None,
        };
        let (output, data) = completed.expect("future must not be polled after it returned `Poll::Ready`");
        let ghost n1 = self->First_0;
        assert(fut1_before.polled(&n1, Poll::Ready(output)));
        *self = TryChain::Empty;
        let data = data.unwrap();
        let action = policy(output, data);
        match action {
            TryChainAction::Future(fut2) => {
                *self = TryChain::Second(fut2);
                self.poll_second(cx)
            },
            TryChainAction::Output(out) => Poll::Ready(out),
        }
    }
}

} // verus!
