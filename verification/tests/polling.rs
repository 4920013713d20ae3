use std::future::{pending, ready, Future, Pending, Ready};
use std::pin::Pin;
use std::sync::Arc;
use std::task::{Context, Wake, Waker};

use futures_polling::{FuturePollingExt, Poll, PollStep, Polling};

struct NoopWake;

impl Wake for NoopWake {
    fn wake(self: Arc<Self>) {}
}

/// Polls the future held by a pending `Polling` once, as `polling_once` does.
fn poll_inner<Fut: Future + Unpin>(polling: &mut Polling<Fut>) -> Poll<Fut::Output> {
    let waker = Waker::from(Arc::new(NoopWake));
    let mut ctx = Context::from_waker(&waker);
    let fut = polling.as_pending_mut().expect("pending");
    match Pin::new(fut).poll(&mut ctx) {
        std::task::Poll::Ready(out) => Poll::Ready(out),
        std::task::Poll::Pending => Poll::Pending,
    }
}

#[test]
fn into_ready_by_state() {
    assert_eq!(Polling::<Ready<i32>>::Ready(42).into_ready(), Some(42));
    assert_eq!(Polling::<Ready<i32>>::Pending(ready(42)).into_ready(), None);
    assert_eq!(Polling::<Ready<i32>>::Done.into_ready(), None);
}

#[test]
fn into_pending_by_state() {
    assert_eq!(Polling::<Ready<i32>>::Ready(42).into_pending().is_some(), false);
    assert_eq!(Polling::<Ready<i32>>::Pending(ready(42)).into_pending().is_some(), true);
    assert_eq!(Polling::<Ready<i32>>::Done.into_pending().is_some(), false);
}

#[test]
fn into_poll_by_state() {
    assert_eq!(Polling::<Ready<i32>>::Ready(42).into_poll(), Poll::Ready(42));
    assert_eq!(Polling::<Ready<i32>>::Pending(ready(42)).into_poll(), Poll::Pending);
    assert_eq!(Polling::<Ready<i32>>::Done.into_poll(), Poll::Pending);
}

#[test]
fn state_predicates() {
    let r = Polling::<Ready<i32>>::Ready(42);
    let p = Polling::<Ready<i32>>::Pending(ready(42));
    let d = Polling::<Ready<i32>>::Done;
    assert_eq!((r.is_ready(), r.is_pending(), r.is_done()), (true, false, false));
    assert_eq!((p.is_ready(), p.is_pending(), p.is_done()), (false, true, false));
    assert_eq!((d.is_ready(), d.is_pending(), d.is_done()), (false, false, true));
}

#[test]
fn borrowing_readers() {
    let r = Polling::<Ready<i32>>::Ready(42);
    let p = Polling::<Ready<i32>>::Pending(ready(42));
    let d = Polling::<Ready<i32>>::Done;
    assert_eq!(r.as_ready(), Some(&42));
    assert_eq!(p.as_ready(), None);
    assert_eq!(d.as_ready(), None);
    assert_eq!(r.as_pending().is_some(), false);
    assert_eq!(p.as_pending().is_some(), true);
    assert_eq!(d.as_pending().is_some(), false);
    assert_eq!(r.as_poll(), Poll::Ready(&42));
    assert_eq!(p.as_poll(), Poll::Pending);
    assert_eq!(d.as_poll(), Poll::Pending);
}

#[test]
fn mutable_readers_write_through() {
    let mut r = Polling::<Ready<i32>>::Ready(42);
    *r.as_ready_mut().unwrap() = 24;
    assert_eq!(r.as_ready(), Some(&24));
    if let Poll::Ready(out) = r.as_poll_mut() {
        *out += 1;
    }
    assert_eq!(r.into_ready(), Some(25));

    let mut p = Polling::<Ready<i32>>::Pending(ready(42));
    assert_eq!(p.as_ready_mut(), None);
    assert_eq!(p.as_poll_mut(), Poll::Pending);
    assert!(p.as_pending_mut().is_some());
    let mut d = Polling::<Ready<i32>>::Done;
    assert!(d.as_pending_mut().is_none());
    assert!(d.is_done());
}

#[test]
fn replace_swaps_states() {
    let mut p1 = Polling::<Ready<i32>>::Ready(42);
    let p2 = Polling::<Ready<i32>>::Ready(24);
    let p3 = p1.replace(p2);
    assert_eq!(p1.as_ready(), Some(&24));
    assert_eq!(p3.as_ready(), Some(&42));
}

#[test]
fn take_leaves_done() {
    let mut polling = Polling::<Ready<i32>>::Ready(42);
    assert_eq!(polling.take().into_ready(), Some(42));
    assert_eq!(polling.into_ready(), None);

    let mut polling = Polling::<Ready<i32>>::Pending(ready(42));
    assert_eq!(polling.take().into_pending().is_some(), true);
    assert_eq!(polling.into_pending().is_some(), false);

    let mut polling = Polling::<Ready<i32>>::Done;
    assert_eq!(polling.take().is_done(), true);
    assert_eq!(polling.is_done(), true);
}

#[test]
fn take_ready_by_state() {
    let mut polling = Polling::<Ready<i32>>::Ready(42);
    assert_eq!(polling.take_ready(), Some(42));
    assert_eq!(polling.into_ready(), None);

    let mut polling = Polling::<Ready<i32>>::Pending(ready(42));
    assert_eq!(polling.take_ready(), None);
    assert!(polling.is_pending());

    let mut polling = Polling::<Ready<i32>>::Done;
    assert_eq!(polling.take_ready(), None);
    assert_eq!(polling.is_done(), true);
}

#[test]
fn take_pending_by_state() {
    let mut polling = Polling::<Ready<i32>>::Ready(42);
    assert_eq!(polling.take_pending().is_some(), false);
    assert_eq!(polling.as_ready(), Some(&42));

    let mut polling = Polling::<Ready<i32>>::Pending(ready(42));
    assert_eq!(polling.take_pending().is_some(), true);
    assert!(polling.is_done());

    let mut polling = Polling::<Ready<i32>>::Done;
    assert_eq!(polling.take_pending().is_some(), false);
    assert!(polling.is_done());
}

#[test]
fn take_poll_by_state() {
    let mut polling = Polling::<Ready<i32>>::Ready(42);
    assert_eq!(polling.take_poll(), Poll::Ready(42));
    assert!(polling.is_done());

    let mut polling = Polling::<Ready<i32>>::Pending(ready(42));
    assert_eq!(polling.take_poll(), Poll::Pending);
    assert!(polling.is_pending());

    let mut polling = Polling::<Ready<i32>>::Done;
    assert_eq!(polling.take_poll(), Poll::Pending);
    assert!(polling.is_done());
}

#[test]
fn output_is_taken_once() {
    let mut polling = Polling::<Ready<i32>>::Ready(42);
    assert_eq!(polling.take_ready(), Some(42));
    assert_eq!(polling.take_ready(), None);
    assert_eq!(polling.take_poll(), Poll::Pending);
    assert!(polling.is_done());
}

#[test]
fn polling_and_from_start_pending() {
    let polling = ready(42).polling();
    assert!(polling.is_pending());
    let polling: Polling<Ready<i32>> = Polling::from(ready(42));
    assert!(polling.is_pending());
    assert_eq!(polling.into_pending().is_some(), true);
}

#[test]
fn polling_once_keeps_the_output() {
    let mut polling = ready(42).polling();
    let outcome = poll_inner(&mut polling);
    polling.record_poll(outcome);
    assert_eq!(polling.as_ready(), Some(&42));
    assert_eq!(polling.take_poll(), Poll::Ready(42));
    assert!(polling.is_done());
}

#[test]
fn polling_once_on_a_pending_future_stays_pending() {
    let mut polling = pending::<i32>().polling();
    let outcome = poll_inner(&mut polling);
    assert_eq!(outcome, Poll::Pending);
    polling.record_poll(outcome);
    assert!(polling.is_pending());
    assert_eq!(polling.take_poll(), Poll::Pending);
    assert_eq!(polling.is_done(), false);
}

#[test]
fn finish_poll_hands_the_output_on() {
    let mut polling = ready(42).polling();
    let outcome = poll_inner(&mut polling);
    assert_eq!(polling.finish_poll(outcome), Poll::Ready(42));
    assert!(polling.is_done());

    let mut polling: Polling<Pending<i32>> = pending().polling();
    let outcome = poll_inner(&mut polling);
    assert_eq!(polling.finish_poll(outcome), Poll::Pending);
    assert_eq!(polling.is_done(), false);
}

#[test]
fn readme_scenario() {
    // A future that is pending on its first poll and returns 42 on its second.
    let mut polling: Polling<Pending<i32>> = pending().polling();
    assert_eq!(polling.is_pending(), true);
    polling.record_poll(Poll::Pending);
    assert_eq!(polling.is_pending(), true);
    polling.record_poll(Poll::Ready(42));
    assert_eq!(polling.take_poll(), Poll::Ready(42));
    assert!(polling.is_done());
}

#[test]
fn try_into_ready_by_state() {
    type F = Ready<Result<i32, i32>>;
    assert_eq!(Polling::<F>::Ready(Ok(42)).try_into_ready(), Ok(Some(42)));
    assert_eq!(Polling::<F>::Ready(Err(42)).try_into_ready(), Err(42));
    assert_eq!(Polling::<F>::Pending(ready(Ok(42))).try_into_ready(), Ok(None));
    assert_eq!(Polling::<F>::Done.try_into_ready(), Ok(None));
}

#[test]
fn try_into_poll_by_state() {
    type F = Ready<Result<i32, i32>>;
    assert_eq!(Polling::<F>::Ready(Ok(42)).try_into_poll(), Ok(Poll::Ready(42)));
    assert_eq!(Polling::<F>::Ready(Err(42)).try_into_poll(), Err(42));
    assert_eq!(Polling::<F>::Pending(ready(Ok(42))).try_into_poll(), Ok(Poll::Pending));
    assert_eq!(Polling::<F>::Done.try_into_poll(), Ok(Poll::Pending));
}

#[test]
fn try_readers_by_state() {
    type F = Ready<Result<i32, i32>>;
    let ok = Polling::<F>::Ready(Ok(42));
    let err = Polling::<F>::Ready(Err(24));
    let pend = Polling::<F>::Pending(ready(Ok(42)));
    let done = Polling::<F>::Done;
    assert_eq!(ok.try_as_ready(), Ok(Some(&42)));
    assert_eq!(err.try_as_ready(), Err(&24));
    assert_eq!(pend.try_as_ready(), Ok(None));
    assert_eq!(done.try_as_ready(), Ok(None));
    assert_eq!(ok.try_as_poll(), Ok(Poll::Ready(&42)));
    assert_eq!(err.try_as_poll(), Err(&24));
    assert_eq!(pend.try_as_poll(), Ok(Poll::Pending));
    assert_eq!(done.try_as_poll(), Ok(Poll::Pending));
}

#[test]
fn try_mutable_readers_write_through() {
    type F = Ready<Result<i32, i32>>;
    let mut ok = Polling::<F>::Ready(Ok(42));
    if let Ok(Some(v)) = ok.try_as_ready_mut() {
        *v = 7;
    }
    assert_eq!(ok.try_as_ready(), Ok(Some(&7)));
    let mut err = Polling::<F>::Ready(Err(24));
    if let Err(e) = err.try_as_poll_mut() {
        *e = 9;
    }
    assert_eq!(err.try_into_ready(), Err(9));
    let mut pend = Polling::<F>::Pending(ready(Ok(42)));
    assert_eq!(pend.try_as_ready_mut(), Ok(None));
    assert_eq!(pend.try_as_poll_mut(), Ok(Poll::Pending));
    assert!(pend.is_pending());
}

#[test]
fn try_take_by_state() {
    type F = Ready<Result<i32, i32>>;
    let mut polling = Polling::<F>::Ready(Ok(42));
    assert_eq!(polling.try_take_ready(), Ok(Some(42)));
    assert!(polling.is_done());
    let mut polling = Polling::<F>::Ready(Err(42));
    assert_eq!(polling.try_take_poll(), Err(42));
    assert!(polling.is_done());
    let mut polling = Polling::<F>::Pending(ready(Ok(42)));
    assert_eq!(polling.try_take_ready(), Ok(None));
    assert_eq!(polling.try_take_poll(), Ok(Poll::Pending));
    assert!(polling.is_pending());
    let mut polling = Polling::<F>::Done;
    assert_eq!(polling.try_take_poll(), Ok(Poll::Pending));
    assert!(polling.is_done());
}

#[test]
fn try_poll_once_scenarios() {
    type F = Ready<Result<i32, i32>>;
    let mut polling = Polling::<F>::Pending(ready(Ok(42)));
    let outcome = poll_inner(&mut polling);
    polling.record_poll(outcome);
    assert_eq!(polling.try_take_poll(), Ok(Poll::Ready(42)));
    assert!(polling.is_done());

    let mut polling = Polling::<F>::Pending(ready(Err(42)));
    let outcome = poll_inner(&mut polling);
    assert_eq!(polling.finish_poll(outcome).transpose(), Err(42));
    assert!(polling.is_done());
}

#[test]
fn transpose_by_case() {
    assert_eq!(Poll::<Result<i32, i32>>::Ready(Ok(1)).transpose(), Ok(Poll::Ready(1)));
    assert_eq!(Poll::<Result<i32, i32>>::Ready(Err(2)).transpose(), Err(2));
    assert_eq!(Poll::<Result<i32, i32>>::Pending.transpose(), Ok(Poll::Pending));
}

#[test]
fn poll_step_by_state() {
    assert_eq!(Polling::<Ready<i32>>::Ready(42).poll_step(), PollStep::UseOutput);
    assert_eq!(Polling::<Ready<i32>>::Pending(ready(42)).poll_step(), PollStep::PollFuture);
    assert_eq!(Polling::<Ready<i32>>::Done.poll_step(), PollStep::OutputTaken);
}

#[test]
fn polling_once_on_ready_stays_ready() {
    let mut polling = Polling::<Ready<i32>>::Ready(42);
    polling.record_poll(Poll::Ready(7));
    assert_eq!(polling.as_ready(), Some(&42));
    polling.record_poll(Poll::Pending);
    assert_eq!(polling.take_poll(), Poll::Ready(42));
    assert!(polling.is_done());
}
