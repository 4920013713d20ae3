use core::future::Future;
use vstd::prelude::*;

use crate::poll::{transposed_option, transposed_poll, Poll};
use crate::polling::{PollStep, Polling};

verus! {

/// A `Polling` is in exactly one of its three states: `is_ready`, `is_pending` and
/// `is_done` never hold together, and one of them always holds.
pub proof fn lemma_exactly_one_state<Fut: Future>(p: Polling<Fut>)
    ensures
        (p is Ready) || (p is Pending) || (p is Done),
        !((p is Ready) && (p is Pending)),
        !((p is Ready) && (p is Done)),
        !((p is Pending) && (p is Done)),
{
}

/// `into_poll` and `into_ready` tell the same thing: the poll is `Ready(out)` exactly when
/// the option is `Some(out)`, and both are empty for a pending or a done `Polling`.
pub proof fn lemma_poll_agrees_with_ready<Fut: Future>(p: Polling<Fut>)
    ensures
        p.poll_value() == (match p.ready_value() {
            Some(out) => Poll::Ready(out),
            None => Poll::Pending,
        }),
        p.ready_value() is Some <==> p is Ready,
        p.pending_value() is Some <==> p is Pending,
{
}

/// Once the output has been taken out, nothing is left to take: a `Done` `Polling`
/// has no output, no future, and polls as pending.
pub proof fn lemma_done_is_empty<Fut: Future>()
    ensures
        Polling::<Fut>::Done.ready_value() is None,
        Polling::<Fut>::Done.pending_value() is None,
        Polling::<Fut>::Done.poll_value() is Pending,
{
}

/// Taking the ready output out twice gives it once: the first take leaves no output for
/// the second, and whatever was pending stays pending.
pub proof fn lemma_output_taken_once<Fut: Future>(p: Polling<Fut>)
    ensures
        p.after_taking_ready().ready_value() is None,
        p.after_taking_ready().after_taking_ready() == p.after_taking_ready(),
        p.after_taking_ready().pending_value() == p.pending_value(),
{
}

/// Polling once and then taking the poll (`poll_once`) gives the same output and leaves the
/// same state as polling the `Polling` itself, whatever the pending future returned, and
/// for a ready `Polling` both give its output and leave `Done`.
pub proof fn lemma_poll_once_agrees_with_poll<Fut: Future>(
    p: Polling<Fut>,
    outcome: Poll<Fut::Output>,
)
    ensures
        p is Pending ==> p.polled_once(outcome).poll_value() == outcome,
        p is Pending ==> p.polled_once(outcome).after_taking_ready() == p.handed_outcome(outcome),
        p is Ready ==> p.polled_once(outcome).poll_value() == p.poll_value(),
        p is Ready ==> p.polled_once(outcome).after_taking_ready() == Polling::<Fut>::Done,
{
}

/// Polling once by state: a ready `Polling` stays ready with the same output whatever
/// is reported, a pending one is polled and keeps what the poll gave, and a done one is an
/// error, as its output was already taken out.
pub proof fn lemma_polling_once_by_state<Fut: Future>(p: Polling<Fut>, outcome: Poll<Fut::Output>)
    ensures
        p is Ready ==> p.step() == PollStep::UseOutput && p.polled_once(outcome) == p,
        p is Pending ==> p.step() == PollStep::PollFuture && p.polled_once(outcome)
            == p.kept_outcome(outcome),
        p is Done <==> p.step() == PollStep::OutputTaken,
        !(p is Done) ==> !(p.polled_once(outcome) is Done),
{
}

/// A `Polling` whose output was handed on is done exactly when the future returned an
/// output; otherwise it still holds the same pending future.
pub proof fn lemma_handed_output_is_done<Fut: Future>(p: Polling<Fut>, outcome: Poll<Fut::Output>)
    requires
        p is Pending,
    ensures
        p.handed_outcome(outcome) is Done <==> outcome is Ready,
        outcome is Pending ==> p.handed_outcome(outcome) == p,
{
}

/// The fallible readings are the plain readings with the error moved out:
/// `try_into_ready` is `into_ready().transpose()` and `try_into_poll` is
/// `into_poll()` transposed.
pub proof fn lemma_fallible_is_transposed<T, E, Fut: Future<Output = Result<T, E>>>(
    p: Polling<Fut>,
)
    ensures
        p.try_ready_value() == transposed_option(p.ready_value()),
        p.try_poll_value() == transposed_poll(p.poll_value()),
{
}

/// Moving the error out of a poll, case by case, for any output and error types: a ready
/// success becomes `Ok(Poll::Ready(t))`, a ready error becomes `Err(e)` itself, and no
/// output becomes `Ok(Poll::Pending)`.
pub proof fn lemma_transposed_poll_by_case<T, E>(t: T, e: E)
    ensures
        transposed_poll(Poll::<Result<T, E>>::Ready(Ok(t))) == Ok::<Poll<T>, E>(Poll::Ready(t)),
        transposed_poll(Poll::<Result<T, E>>::Ready(Err(e))) == Err::<Poll<T>, E>(e),
        transposed_poll(Poll::<Result<T, E>>::Pending) == Ok::<Poll<T>, E>(Poll::Pending),
{
}

/// Moving the error out of an option, case by case, for any output and error types: a
/// present success becomes `Ok(Some(t))`, a present error becomes `Err(e)` itself, and
/// nothing becomes `Ok(None)`.
pub proof fn lemma_transposed_option_by_case<T, E>(t: T, e: E)
    ensures
        transposed_option(Some(Ok::<T, E>(t))) == Ok::<Option<T>, E>(Some(t)),
        transposed_option(Some(Err::<T, E>(e))) == Err::<Option<T>, E>(e),
        transposed_option(None::<Result<T, E>>) == Ok::<Option<T>, E>(None),
{
}

/// What each state of a `Polling` gives, for any future: `Ready(out)` gives `out` (as an
/// option and as a poll) and no future, `Pending(fut)` gives `fut` and no output, `Done`
/// gives neither.
pub proof fn lemma_views_by_state<Fut: Future>(out: Fut::Output, fut: Fut)
    ensures
        Polling::<Fut>::Ready(out).ready_value() == Some(out),
        Polling::<Fut>::Ready(out).pending_value() == None::<Fut>,
        Polling::<Fut>::Ready(out).poll_value() == Poll::Ready(out),
        Polling::<Fut>::Pending(fut).ready_value() == None::<Fut::Output>,
        Polling::<Fut>::Pending(fut).pending_value() == Some(fut),
        Polling::<Fut>::Pending(fut).poll_value() == Poll::<Fut::Output>::Pending,
        Polling::<Fut>::Done.ready_value() == None::<Fut::Output>,
        Polling::<Fut>::Done.pending_value() == None::<Fut>,
        Polling::<Fut>::Done.poll_value() == Poll::<Fut::Output>::Pending,
{
}

/// What taking and polling do to each state, for any future: taking the ready output
/// leaves `Done` and leaves the other states alone; a pending future's poll keeps an output
/// as `Ready(out)` or hands it on leaving `Done`, and keeps the future when there is none;
/// a ready `Polling` polled once stays as it is.
pub proof fn lemma_transitions_by_state<Fut: Future>(out: Fut::Output, new_out: Fut::Output, fut: Fut)
    ensures
        Polling::<Fut>::Ready(out).after_taking_ready() == Polling::<Fut>::Done,
        Polling::<Fut>::Pending(fut).after_taking_ready() == Polling::<Fut>::Pending(fut),
        Polling::<Fut>::Done.after_taking_ready() == Polling::<Fut>::Done,
        Polling::<Fut>::Pending(fut).kept_outcome(Poll::Ready(new_out)) == Polling::<Fut>::Ready(new_out),
        Polling::<Fut>::Pending(fut).kept_outcome(Poll::Pending) == Polling::<Fut>::Pending(fut),
        Polling::<Fut>::Pending(fut).handed_outcome(Poll::Ready(new_out)) == Polling::<Fut>::Done,
        Polling::<Fut>::Pending(fut).handed_outcome(Poll::Pending) == Polling::<Fut>::Pending(fut),
        Polling::<Fut>::Pending(fut).polled_once(Poll::Ready(new_out)) == Polling::<Fut>::Ready(new_out),
        Polling::<Fut>::Pending(fut).polled_once(Poll::Pending) == Polling::<Fut>::Pending(fut),
        Polling::<Fut>::Ready(out).polled_once(Poll::Ready(new_out)) == Polling::<Fut>::Ready(out),
        Polling::<Fut>::Ready(out).polled_once(Poll::Pending) == Polling::<Fut>::Ready(out),
        Polling::<Fut>::Ready(out).step() == PollStep::UseOutput,
        Polling::<Fut>::Pending(fut).step() == PollStep::PollFuture,
        Polling::<Fut>::Done.step() == PollStep::OutputTaken,
{
}

/// A ready success is always handed out, whatever the output and error types: reading,
/// consuming or taking a `Polling` that holds `Ready(Ok(t))` gives `Ok(Some(t))` or
/// `Ok(Poll::Ready(t))`.
pub proof fn lemma_fallible_ready_success<T, E, Fut: Future<Output = Result<T, E>>>(
    p: Polling<Fut>,
    t: T,
)
    ensures
        p.ready_value() == Some(Ok::<T, E>(t)) ==> p.try_ready_value() == Ok::<Option<T>, E>(Some(t)),
        p.ready_value() == Some(Ok::<T, E>(t)) ==> p.try_poll_value() == Ok::<Poll<T>, E>(Poll::Ready(t)),
        p == Polling::<Fut>::Ready(Ok(t)) ==> p.try_ready_value() == Ok::<Option<T>, E>(Some(t)),
        p == Polling::<Fut>::Ready(Ok(t)) ==> p.try_poll_value() == Ok::<Poll<T>, E>(Poll::Ready(t)),
{
}

/// A ready error is never dropped, whatever the output and error types: reading, consuming
/// or taking a `Polling` that holds `Ready(Err(e))` gives `Err(e)` itself.
pub proof fn lemma_fallible_ready_error<T, E, Fut: Future<Output = Result<T, E>>>(
    p: Polling<Fut>,
    e: E,
)
    ensures
        p.ready_value() == Some(Err::<T, E>(e)) ==> p.try_ready_value() == Err::<Option<T>, E>(e),
        p.ready_value() == Some(Err::<T, E>(e)) ==> p.try_poll_value() == Err::<Poll<T>, E>(e),
        p == Polling::<Fut>::Ready(Err(e)) ==> p.try_ready_value() == Err::<Option<T>, E>(e),
        p == Polling::<Fut>::Ready(Err(e)) ==> p.try_poll_value() == Err::<Poll<T>, E>(e),
{
}

/// Without an output there is nothing to report, whatever the output and error types: a
/// pending or done `Polling` reads as `Ok(None)` and `Ok(Poll::Pending)`, never as an error.
pub proof fn lemma_fallible_no_output<T, E, Fut: Future<Output = Result<T, E>>>(p: Polling<Fut>)
    ensures
        !(p is Ready) ==> p.try_ready_value() == Ok::<Option<T>, E>(None),
        !(p is Ready) ==> p.try_poll_value() == Ok::<Poll<T>, E>(Poll::Pending),
        p.try_ready_value() is Err ==> p is Ready,
        p.try_poll_value() is Err ==> p is Ready,
{
}

} // verus!
