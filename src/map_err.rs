//! `MapErr`: wraps one computation and remaps its failure when it completes.

use vstd::prelude::*;

use crate::poll::{Poll, TryPoll};

verus! {

/// What `MapErr` reports for an outcome `r0` of the wrapped computation, with
/// `f` as the transform: a pending or a success passes through unchanged; a
/// failure becomes what `f` makes of it.
pub open spec fn map_err_outcome<A, E1, E2, F: FnOnce(E1) -> E2>(
    f: F,
    r0: Poll<Result<A, E1>>,
    r: Poll<Result<A, E2>>,
) -> bool {
    match r0 {
        Poll::Pending => r is Pending,
        Poll::Ready(Ok(v)) => r == Poll::<Result<A, E2>>::Ready(Ok(v)),
        Poll::Ready(Err(e)) => r is Ready && r->Ready_0 is Err && f.ensures((e,), r->Ready_0->Err_0),
    }
}

/// Wraps `Fut` and applies `F` to its failure; `F` is held until then.
pub struct MapErr<Fut, F> {
    future: Fut,
    f: Option<F>,
}

impl<Fut, F> View for MapErr<Fut, F> {
    type V = (Fut, Option<F>);

    /// The wrapped computation and the transform still held.
    closed spec fn view(&self) -> (Fut, Option<F>) {
        (self.future, self.f)
    }
}

impl<Fut, F, E> MapErr<Fut, F> where Fut: TryPoll, F: FnOnce(Fut::Error) -> E {
    /// Wraps `future`, holding `f` until it completes. The result may be
    /// polled when `future` may be and `f` accepts each of its failures.
    pub fn new(future: Fut, f: F) -> (s: Self)
        ensures
            s@ == (future, Some(f)),
            future.wf() && future.pollable() && (forall|e: Fut::Error| #[trigger] f.requires((e,))) ==> s.wf(),
            s.pollable(),
    {
        MapErr { future, f: Some(f) }
    }
}

impl<Fut, F, E> TryPoll for MapErr<Fut, F> where Fut: TryPoll, F: FnOnce(Fut::Error) -> E {
    type Ok = Fut::Ok;

    type Error = E;

    /// While the transform is held, the wrapped computation may be polled
    /// and the transform accepts each of its failures.
    open spec fn wf(&self) -> bool {
        self@.1 is Some ==> {
            &&& self@.0.wf()
            &&& self@.0.pollable()
            &&& forall|e: Fut::Error| #[trigger] self@.1->Some_0.requires((e,))
        }
    }

    open spec fn pollable(&self) -> bool {
        self@.1 is Some
    }

    open spec fn polled(&self, next: &Self, r: Poll<Result<Fut::Ok, E>>) -> bool {
        &&& self@.1 is Some
        &&& exists|r0: Poll<Result<Fut::Ok, Fut::Error>>| #[trigger] self@.0.polled(&next@.0, r0) && {
            &&& map_err_outcome(self@.1->Some_0, r0, r)
            &&& next@.1 == (if r0 is Pending { self@.1 } else { None })
        }
    }

    fn can_poll(&self) -> (b: bool) {
        self.f.is_some()
    }

    fn try_poll(&mut self, cx: &mut core::task::Context<'_>) -> (r: Poll<Result<Fut::Ok, E>>) {
        let ghost fut_before = self@.0;
        match self.future.try_poll(cx) {
            Poll::Pending => {
                assert(fut_before.polled(&self@.0, Poll::Pending));
                Poll::Pending
            },
            Poll::Ready(result) => {
                let f = self.f.take().expect("MapErr must not be polled after it returned `Poll::Ready`");
                assert(self@.0 == self.future);
                Poll::Ready(result.map_err(f))
            },
        }
    }
}

/// A poll of `MapErr` reports what one poll of the wrapped computation
/// reports, except that a failure `e` becomes what the transform makes of `e`:
/// a success passes through unchanged.
pub proof fn lemma_outcome<Fut, F, E>(s: MapErr<Fut, F>, next: MapErr<Fut, F>, r: Poll<Result<Fut::Ok, E>>)
    where Fut: TryPoll, F: FnOnce(Fut::Error) -> E
    requires
        s.polled(&next, r),
    ensures
        exists|r0: Poll<Result<Fut::Ok, Fut::Error>>| #[trigger] s@.0.polled(&next@.0, r0) && match r0 {
            Poll::Pending => r is Pending,
            Poll::Ready(Ok(v)) => r == Poll::<Result<Fut::Ok, E>>::Ready(Ok(v)),
            Poll::Ready(Err(e)) => exists|e2: E| #[trigger] s@.1->Some_0.ensures((e,), e2)
                && r == Poll::<Result<Fut::Ok, E>>::Ready(Err(e2)),
        },
{
    let r0 = choose|r0: Poll<Result<Fut::Ok, Fut::Error>>| #[trigger] s@.0.polled(&next@.0, r0) && {
        &&& map_err_outcome(s@.1->Some_0, r0, r)
        &&& next@.1 == (if r0 is Pending { s@.1 } else { None })
    };
    if r0 is Ready && r0->Ready_0 is Err {
        assert(s@.1->Some_0.ensures((r0->Ready_0->Err_0,), r->Ready_0->Err_0));
    }
}

/// A poll that reports `Ready` is the very poll that consumes the transform:
/// `MapErr` is pollable before every poll, and after it exactly when the poll
/// reported `Pending`.
pub proof fn lemma_exhausted_on_ready<Fut, F, E>(s: MapErr<Fut, F>, next: MapErr<Fut, F>, r: Poll<Result<Fut::Ok, E>>)
    where Fut: TryPoll, F: FnOnce(Fut::Error) -> E
    requires
        s.polled(&next, r),
    ensures
        s.pollable(),
        next.pollable() <==> r is Pending,
{
}

} // verus!
