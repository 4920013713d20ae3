use core::future::Future;
use vstd::prelude::*;

use crate::poll::Poll;

verus! {

/// An enum similar to `Poll`, but containing the future itself in its `Pending` variant.
#[derive(Copy, Clone, Debug, PartialEq, Eq, Hash, PartialOrd, Ord)]
pub enum Polling<Fut: Future> {
    /// Contains the future's output once it has returned it (like `Poll::Ready`).
    Ready(Fut::Output),
    /// Contains the pending future.
    Pending(Fut),
    /// The future has already returned an output, and that output has already been
    /// taken out of the `Polling`.
    Done,
}

/// What polling a `Polling` once has to do, by its state.
#[derive(Copy, Clone, Debug, PartialEq, Eq, Hash)]
pub enum PollStep {
    /// The output is already there: polling once leaves `self` as it is, and the output is
    /// taken from it.
    UseOutput,
    /// The future is pending: it is polled once, and what it gives is recorded.
    PollFuture,
    /// The output was already taken out: polling again is an error (a panic).
    OutputTaken,
}

/// Extension trait to turn a future into a `Polling`.
pub trait FuturePollingExt: Future {
    /// Returns `Polling::Pending(self)`, consuming `self`.
    fn polling(self) -> (r: Polling<Self>) where Self: Sized
        ensures
            r == Polling::Pending(self),
    {
        Polling::Pending(self)
    }
}

impl<Fut: Future> FuturePollingExt for Fut {}

impl<Fut: Future> From<Fut> for Polling<Fut> {
    /// Returns `Polling::Pending(fut)`.
    fn from(fut: Fut) -> (r: Self) {
        Polling::Pending(fut)
    }
}

impl<Fut: Future> vstd::std_specs::convert::FromSpecImpl<Fut> for Polling<Fut> {
    open spec fn obeys_from_spec() -> bool {
        true
    }

    open spec fn from_spec(fut: Fut) -> Self {
        Polling::Pending(fut)
    }
}

impl<Fut: Future> Polling<Fut> {
    // ===================================== Views ===================================== \\

    /// The output held by `Ready`, if any.
    pub open spec fn ready_value(self) -> Option<Fut::Output> {
        match self {
            Polling::Ready(out) => Some(out),
            _ => None,
        }
    }

    /// The future held by `Pending`, if any.
    pub open spec fn pending_value(self) -> Option<Fut> {
        match self {
            Polling::Pending(fut) => Some(fut),
            _ => None,
        }
    }

    /// `Poll::Ready(out)` for `Ready(out)`, `Poll::Pending` for the two other states.
    pub open spec fn poll_value(self) -> Poll<Fut::Output> {
        match self {
            Polling::Ready(out) => Poll::Ready(out),
            _ => Poll::Pending,
        }
    }

    /// What is left after the ready output, if any, was taken out: `Done` in place of
    /// `Ready(_)`, any other state unchanged.
    pub open spec fn after_taking_ready(self) -> Self {
        if self is Ready {
            Polling::Done
        } else {
            self
        }
    }

    /// The state after one poll of a pending future gave `outcome`, when the output is
    /// kept: `Ready(out)` for an output, the same pending future otherwise.
    pub open spec fn kept_outcome(self, outcome: Poll<Fut::Output>) -> Self {
        match outcome {
            Poll::Ready(out) => Polling::Ready(out),
            Poll::Pending => self,
        }
    }

    /// The state after one poll of a pending future gave `outcome`, when the output is
    /// handed on: `Done` for an output, the same pending future otherwise.
    pub open spec fn handed_outcome(self, outcome: Poll<Fut::Output>) -> Self {
        match outcome {
            Poll::Ready(_) => Polling::Done,
            Poll::Pending => self,
        }
    }

    /// The step that polling `self` once has to take.
    pub open spec fn step(self) -> PollStep {
        match self {
            Polling::Ready(_) => PollStep::UseOutput,
            Polling::Pending(_) => PollStep::PollFuture,
            Polling::Done => PollStep::OutputTaken,
        }
    }

    /// The state after polling once, where the pending future's poll gave `outcome`:
    /// a ready `Polling` stays as it is, a pending one keeps the outcome, a done one stays
    /// done.
    pub open spec fn polled_once(self, outcome: Poll<Fut::Output>) -> Self {
        match self {
            Polling::Pending(_) => self.kept_outcome(outcome),
            _ => self,
        }
    }

    // ================================== Destructors ================================== \\

    /// `Some(out)` for `Ready(out)`, `None` for `Pending(_)` and `Done`.
    pub fn into_ready(self) -> (r: Option<Fut::Output>)
        ensures
            r == self.ready_value(),
    {
        if let Polling::Ready(out) = self {
            Some(out)
        } else {
            None
        }
    }

    /// `Some(fut)` for `Pending(fut)`, `None` for `Ready(_)` and `Done`.
    pub fn into_pending(self) -> (r: Option<Fut>)
        ensures
            r == self.pending_value(),
    {
        if let Polling::Pending(fut) = self {
            Some(fut)
        } else {
            None
        }
    }

    /// `Poll::Ready(out)` for `Ready(out)`, `Poll::Pending` for `Pending(_)` and `Done`.
    pub fn into_poll(self) -> (r: Poll<Fut::Output>)
        ensures
            r == self.poll_value(),
    {
        if let Polling::Ready(out) = self {
            Poll::Ready(out)
        } else {
            Poll::Pending
        }
    }

    // ====================================== Read ===================================== \\

    /// Returns `true` if `self` is `Polling::Ready(_)`.
    pub fn is_ready(&self) -> (r: bool)
        ensures
            r == (*self is Ready),
    {
        if let Polling::Ready(_) = self {
            true
        } else {
            false
        }
    }

    /// Returns `true` if `self` is `Polling::Pending(_)`.
    pub fn is_pending(&self) -> (r: bool)
        ensures
            r == (*self is Pending),
    {
        if let Polling::Pending(_) = self {
            true
        } else {
            false
        }
    }

    /// Returns `true` if `self` is `Polling::Done`.
    pub fn is_done(&self) -> (r: bool)
        ensures
            r == (*self is Done),
    {
        if let Polling::Done = self {
            true
        } else {
            false
        }
    }

    /// `Some(&out)` for `Ready(out)`, `None` for `Pending(_)` and `Done`.
    pub fn as_ready(&self) -> (r: Option<&Fut::Output>)
        ensures
            match r {
                Some(out) => self.ready_value() == Some(*out),
                None => self.ready_value() is None,
            },
    {
        if let Polling::Ready(out) = self {
            Some(out)
        } else {
            None
        }
    }

    /// `Some(&fut)` for `Pending(fut)`, `None` for `Ready(_)` and `Done`.
    pub fn as_pending(&self) -> (r: Option<&Fut>)
        ensures
            match r {
                Some(fut) => self.pending_value() == Some(*fut),
                None => self.pending_value() is None,
            },
    {
        if let Polling::Pending(fut) = self {
            Some(fut)
        } else {
            None
        }
    }

    /// `Poll::Ready(&out)` for `Ready(out)`, `Poll::Pending` for `Pending(_)` and `Done`.
    pub fn as_poll(&self) -> (r: Poll<&Fut::Output>)
        ensures
            match r {
                Poll::Ready(out) => self.poll_value() == Poll::Ready(*out),
                Poll::Pending => self.poll_value() is Pending,
            },
    {
        if let Polling::Ready(out) = self {
            Poll::Ready(out)
        } else {
            Poll::Pending
        }
    }

    /// `Some(&mut out)` for `Ready(out)`, `None` for `Pending(_)` and `Done`.
    ///
    /// What is written through the returned reference becomes the output held by `self`.
    pub fn as_ready_mut(&mut self) -> (r: Option<&mut Fut::Output>)
        ensures
            match r {
                Some(out) => {
                    &&& old(self).ready_value() == Some(*out)
                    &&& *final(self) == Polling::<Fut>::Ready(*final(out))
                },
                None => {
                    &&& old(self).ready_value() is None
                    &&& *final(self) == *old(self)
                },
            },
    {
        if let Polling::Ready(out) = self {
            Some(out)
        } else {
            None
        }
    }

    /// `Some(&mut fut)` for `Pending(fut)`, `None` for `Ready(_)` and `Done`.
    ///
    /// What is written through the returned reference becomes the future held by `self`.
    pub fn as_pending_mut(&mut self) -> (r: Option<&mut Fut>)
        ensures
            match r {
                Some(fut) => {
                    &&& old(self).pending_value() == Some(*fut)
                    &&& *final(self) == Polling::<Fut>::Pending(*final(fut))
                },
                None => {
                    &&& old(self).pending_value() is None
                    &&& *final(self) == *old(self)
                },
            },
    {
        if let Polling::Pending(fut) = self {
            Some(fut)
        } else {
            None
        }
    }

    /// `Poll::Ready(&mut out)` for `Ready(out)`, `Poll::Pending` for `Pending(_)` and `Done`.
    ///
    /// What is written through the returned reference becomes the output held by `self`.
    pub fn as_poll_mut(&mut self) -> (r: Poll<&mut Fut::Output>)
        ensures
            match r {
                Poll::Ready(out) => {
                    &&& old(self).poll_value() == Poll::Ready(*out)
                    &&& *final(self) == Polling::<Fut>::Ready(*final(out))
                },
                Poll::Pending => {
                    &&& old(self).poll_value() is Pending
                    &&& *final(self) == *old(self)
                },
            },
    {
        if let Polling::Ready(out) = self {
            Poll::Ready(out)
        } else {
            Poll::Pending
        }
    }

    // =================================== Read+Write ================================== \\

    /// Puts `with` in place of `self`, and returns what `self` was.
    pub fn replace(&mut self, with: Self) -> (r: Self)
        ensures
            r == *old(self),
            *final(self) == with,
    {
        let mut with = with;
        core::mem::swap(self, &mut with);
        with
    }

    /// Puts `Polling::Done` in place of `self`, and returns what `self` was.
    pub fn take(&mut self) -> (r: Polling<Fut>)
        ensures
            r == *old(self),
            *final(self) == Polling::<Fut>::Done,
    {
        self.replace(Polling::Done)
    }

    /// For `Ready(out)`: returns `Some(out)` and leaves `Done` in place of `self`.
    /// Otherwise returns `None` and leaves `self` as it was.
    pub fn take_ready(&mut self) -> (r: Option<Fut::Output>)
        ensures
            r == old(self).ready_value(),
            *final(self) == old(self).after_taking_ready(),
    {
        if self.is_ready() {
            self.take().into_ready()
        } else {
            None
        }
    }

    /// For `Pending(fut)`: returns `Some(fut)` and leaves `Done` in place of `self`.
    /// Otherwise returns `None` and leaves `self` as it was.
    pub fn take_pending(&mut self) -> (r: Option<Fut>)
        ensures
            r == old(self).pending_value(),
            *final(self) == (if *old(self) is Pending { Polling::<Fut>::Done } else { *old(self) }),
    {
        if self.is_pending() {
            self.take().into_pending()
        } else {
            None
        }
    }

    /// For `Ready(out)`: returns `Poll::Ready(out)` and leaves `Done` in place of `self`.
    /// Otherwise returns `Poll::Pending` and leaves `self` as it was.
    pub fn take_poll(&mut self) -> (r: Poll<Fut::Output>)
        ensures
            r == old(self).poll_value(),
            *final(self) == old(self).after_taking_ready(),
    {
        if self.is_ready() {
            self.take().into_poll()
        } else {
            Poll::Pending
        }
    }

    // ================================ Polling the future ============================== \\

    /// Tells what polling `self` once has to do: use the output already there
    /// (`Ready`), poll the future (`Pending`), or fail because the output was taken (`Done`).
    pub fn poll_step(&self) -> (r: PollStep)
        ensures
            r == self.step(),
    {
        match self {
            Polling::Ready(_) => PollStep::UseOutput,
            Polling::Pending(_) => PollStep::PollFuture,
            Polling::Done => PollStep::OutputTaken,
        }
    }

    /// Records what one poll gave, as polling once does: for a pending future, an output
    /// puts `Ready(out)` in place of the future and no output leaves `self` (the future, as
    /// the poll left it) pending; a ready `Polling` stays as it is.
    ///
    /// A done `Polling` cannot be polled: its output was already taken out.
    pub fn record_poll(&mut self, outcome: Poll<Fut::Output>)
        requires
            !(*old(self) is Done),
        ensures
            *final(self) == old(self).polled_once(outcome),
    {
        if self.is_pending() {
            if let Poll::Ready(out) = outcome {
                self.replace(Polling::Ready(out));
            }
        }
    }

    /// Hands on what one poll of the pending future gave, as polling the `Polling` itself
    /// does: an output is returned and the future is dropped, leaving `Done`; no output
    /// returns `Poll::Pending` and leaves the future pending.
    pub fn finish_poll(&mut self, outcome: Poll<Fut::Output>) -> (r: Poll<Fut::Output>)
        requires
            *old(self) is Pending,
        ensures
            r == outcome,
            *final(self) == old(self).handed_outcome(outcome),
    {
        if let Poll::Ready(_) = &outcome {
            self.take();
        }
        outcome
    }
}

} // verus!
