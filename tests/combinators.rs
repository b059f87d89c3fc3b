use std::cell::Cell;
use std::rc::Rc;
use std::task::{Context, Waker};

use try_future::{AndThen, MapErr, Poll, TryChain, TryChainAction, TryPoll};

/// Reports `Pending` a given number of times, then its outcome, once.
struct Stage<T, E> {
    pending: u32,
    outcome: Option<Result<T, E>>,
    polls: Rc<Cell<u32>>,
}

fn stage<T, E>(pending: u32, outcome: Result<T, E>) -> Stage<T, E> {
    Stage { pending, outcome: Some(outcome), polls: Rc::new(Cell::new(0)) }
}

impl<T, E> TryPoll for Stage<T, E> {
    type Ok = T;
    type Error = E;

    fn can_poll(&self) -> bool {
        self.outcome.is_some()
    }

    fn try_poll(&mut self, _cx: &mut Context<'_>) -> Poll<Result<T, E>> {
        self.polls.set(self.polls.get() + 1);
        if self.pending > 0 {
            self.pending -= 1;
            Poll::Pending
        } else {
            Poll::Ready(self.outcome.take().expect("stage polled after completion"))
        }
    }
}

fn poll_once<P: TryPoll>(p: &mut P) -> Poll<Result<P::Ok, P::Error>> {
    let mut cx = Context::from_waker(Waker::noop());
    p.try_poll(&mut cx)
}

#[test]
fn and_then_ready_success_doubles() {
    let calls = Rc::new(Cell::new(0u32));
    let seen = calls.clone();
    let mut fut = AndThen::new(stage::<i32, String>(0, Ok(5)), move |x: i32| {
        seen.set(seen.get() + 1);
        stage::<i32, String>(0, Ok(x * 2))
    });
    assert!(fut.can_poll());
    assert_eq!(poll_once(&mut fut), Poll::Ready(Ok(10)));
    assert_eq!(calls.get(), 1);
    assert!(!fut.can_poll());
}

#[test]
fn and_then_ready_failure_skips_continuation() {
    let calls = Rc::new(Cell::new(0u32));
    let seen = calls.clone();
    let mut fut = AndThen::new(stage::<i32, &str>(0, Err("boom")), move |x: i32| {
        seen.set(seen.get() + 1);
        stage::<i32, &str>(0, Ok(x))
    });
    assert_eq!(poll_once(&mut fut), Poll::Ready(Err("boom")));
    assert_eq!(calls.get(), 0);
    assert!(!fut.can_poll());
}

#[test]
fn and_then_second_stage_failure_is_overall_failure() {
    let mut fut = AndThen::new(stage::<u8, u16>(0, Ok(3)), |x: u8| stage::<u8, u16>(0, Err(x as u16 + 400)));
    assert_eq!(poll_once(&mut fut), Poll::Ready(Err(403)));
    assert!(!fut.can_poll());
}

#[test]
fn and_then_continuation_gets_exact_success_value() {
    let got = Rc::new(Cell::new(0i64));
    let seen = got.clone();
    let mut fut = AndThen::new(stage::<i64, ()>(1, Ok(-17)), move |x: i64| {
        seen.set(x);
        stage::<&str, ()>(0, Ok("done"))
    });
    assert_eq!(poll_once(&mut fut), Poll::Pending);
    assert_eq!(got.get(), 0);
    assert_eq!(poll_once(&mut fut), Poll::Ready(Ok("done")));
    assert_eq!(got.get(), -17);
}

#[test]
fn and_then_pollable_until_ready() {
    let mut fut = AndThen::new(stage::<u32, u32>(2, Ok(1)), |x: u32| stage::<u32, u32>(2, Ok(x + 1)));
    let mut seen = Vec::new();
    loop {
        assert!(fut.can_poll());
        let r = poll_once(&mut fut);
        seen.push(fut.can_poll());
        if r != Poll::Pending {
            assert_eq!(r, Poll::Ready(Ok(2)));
            break;
        }
    }
    assert_eq!(seen, vec![true, true, true, true, false]);
}

#[test]
fn and_then_polls_new_second_stage_in_same_call() {
    let second = stage::<u32, u32>(1, Ok(9));
    let polls = second.polls.clone();
    let mut slot = Some(second);
    let mut fut = AndThen::new(stage::<u32, u32>(0, Ok(0)), move |_x: u32| slot.take().unwrap());
    assert_eq!(poll_once(&mut fut), Poll::Pending);
    assert_eq!(polls.get(), 1);
    assert!(fut.can_poll());
    assert_eq!(poll_once(&mut fut), Poll::Ready(Ok(9)));
    assert_eq!(polls.get(), 2);
}

#[test]
fn map_err_transforms_failure() {
    let mut fut = MapErr::new(stage::<u8, i32>(0, Err(404)), |code: i32| format!("err:{code}"));
    assert!(fut.can_poll());
    assert_eq!(poll_once(&mut fut), Poll::Ready(Err("err:404".to_string())));
    assert!(!fut.can_poll());
}

#[test]
fn map_err_keeps_success_and_leaves_transform_unused() {
    let calls = Rc::new(Cell::new(0u32));
    let seen = calls.clone();
    let mut fut = MapErr::new(stage::<&str, i32>(0, Ok("fine")), move |code: i32| {
        seen.set(seen.get() + 1);
        code + 1
    });
    assert_eq!(poll_once(&mut fut), Poll::Ready(Ok("fine")));
    assert_eq!(calls.get(), 0);
    assert!(!fut.can_poll());
}

#[test]
fn map_err_exhausted_exactly_at_ready() {
    let calls = Rc::new(Cell::new(0u32));
    let seen = calls.clone();
    let mut fut = MapErr::new(stage::<u8, u8>(2, Err(7)), move |e: u8| {
        seen.set(seen.get() + 1);
        e as u32 * 100
    });
    assert_eq!(poll_once(&mut fut), Poll::Pending);
    assert!(fut.can_poll());
    assert_eq!(poll_once(&mut fut), Poll::Pending);
    assert!(fut.can_poll());
    assert_eq!(calls.get(), 0);
    assert_eq!(poll_once(&mut fut), Poll::Ready(Err(700)));
    assert!(!fut.can_poll());
    assert_eq!(calls.get(), 1);
}

#[test]
fn combinators_compose() {
    let inner = MapErr::new(stage::<u32, u32>(0, Err(5)), |e: u32| e * 10);
    let mut fut = AndThen::new(inner, |x: u32| stage::<u32, u32>(0, Ok(x)));
    assert_eq!(poll_once(&mut fut), Poll::Ready(Err(50)));
    let outer = AndThen::new(stage::<u32, u32>(1, Ok(4)), |x: u32| stage::<u32, u32>(0, Err(x)));
    let mut fut = MapErr::new(outer, |e: u32| e + 1);
    assert_eq!(poll_once(&mut fut), Poll::Pending);
    assert_eq!(poll_once(&mut fut), Poll::Ready(Err(5)));
    assert!(!fut.can_poll());
}

#[test]
fn engine_runs_with_policy_continuing_on_failure() {
    let mut chain: TryChain<Stage<u32, u32>, Stage<u32, u32>, u32> = TryChain::new(stage(0, Err(6)), 100);
    assert!(chain.can_poll());
    let mut cx = Context::from_waker(Waker::noop());
    let r = chain.poll(&mut cx, |result: Result<u32, u32>, base: u32| match result {
        Ok(v) => TryChainAction::Output(Ok(v)),
        Err(e) => TryChainAction::Future(stage(0, Ok(base + e))),
    });
    assert_eq!(r, Poll::Ready(Ok(106)));
    assert!(!chain.can_poll());
}

#[test]
fn engine_finishes_without_second_stage() {
    let mut chain: TryChain<Stage<u32, u32>, Stage<u32, u32>, u32> = TryChain::new(stage(1, Ok(8)), 0);
    let mut cx = Context::from_waker(Waker::noop());
    let policy = |result: Result<u32, u32>, _: u32| match result {
        Ok(v) => TryChainAction::Output(Ok(v)),
        Err(e) => TryChainAction::Future(stage(0, Ok(e))),
    };
    assert_eq!(chain.poll(&mut cx, policy), Poll::Pending);
    assert!(chain.can_poll());
    assert_eq!(chain.poll(&mut cx, policy), Poll::Ready(Ok(8)));
    assert!(!chain.can_poll());
}
