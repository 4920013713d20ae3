use core::future::Future;
use vstd::prelude::*;

use crate::poll::{transpose_option, Poll};
use crate::polling::Polling;

verus! {

/// Methods for a future whose output is a `Result`: the error of a ready output is moved
/// out to the outer `Result`, so that `?` can be used on it.
impl<T, E, Fut: Future<Output = Result<T, E>>> Polling<Fut> {
    // ===================================== Views ===================================== \\

    /// The ready output with its error moved out: `Ok(Some(t))`, `Err(e)`, or `Ok(None)`
    /// when there is no output.
    pub open spec fn try_ready_value(self) -> Result<Option<T>, E> {
        match self {
            Polling::Ready(Ok(ok)) => Ok(Some(ok)),
            Polling::Ready(Err(err)) => Err(err),
            _ => Ok(None),
        }
    }

    /// The ready output as a poll with its error moved out: `Ok(Poll::Ready(t))`, `Err(e)`,
    /// or `Ok(Poll::Pending)` when there is no output.
    pub open spec fn try_poll_value(self) -> Result<Poll<T>, E> {
        match self {
            Polling::Ready(Ok(ok)) => Ok(Poll::Ready(ok)),
            Polling::Ready(Err(err)) => Err(err),
            _ => Ok(Poll::Pending),
        }
    }

    // ================================== Destructors ================================== \\

    /// `into_ready()` with the error moved out.
    ///
    /// | `self`             | return         |
    /// |--------------------|----------------|
    /// | `Ready(Ok(t))`     | `Ok(Some(t))`  |
    /// | `Ready(Err(e))`    | `Err(e)`       |
    /// | `Pending(_)`       | `Ok(None)`     |
    /// | `Done`             | `Ok(None)`     |
    pub fn try_into_ready(self) -> (r: Result<Option<T>, E>)
        ensures
            r == self.try_ready_value(),
    {
        transpose_option(self.into_ready())
    }

    /// `into_poll()` with the error moved out.
    ///
    /// | `self`             | return               |
    /// |--------------------|----------------------|
    /// | `Ready(Ok(t))`     | `Ok(Poll::Ready(t))` |
    /// | `Ready(Err(e))`    | `Err(e)`             |
    /// | `Pending(_)`       | `Ok(Poll::Pending)`  |
    /// | `Done`             | `Ok(Poll::Pending)`  |
    pub fn try_into_poll(self) -> (r: Result<Poll<T>, E>)
        ensures
            r == self.try_poll_value(),
    {
        self.into_poll().transpose()
    }

    // ====================================== Read ===================================== \\

    /// `as_ready()` with the error moved out: `Ok(Some(&t))`, `Err(&e)` or `Ok(None)`.
    pub fn try_as_ready(&self) -> (r: Result<Option<&T>, &E>)
        ensures
            match r {
                Ok(Some(ok)) => self.try_ready_value() == Ok::<Option<T>, E>(Some(*ok)),
                Err(err) => self.try_ready_value() == Err::<Option<T>, E>(*err),
                Ok(None) => self.try_ready_value() == Ok::<Option<T>, E>(None),
            },
    {
        match self.as_ready() {
            Some(Ok(ok)) => Ok(Some(ok)),
            Some(Err(err)) => Err(err),
            None => Ok(None),
        }
    }

    /// `as_poll()` with the error moved out: `Ok(Poll::Ready(&t))`, `Err(&e)` or
    /// `Ok(Poll::Pending)`.
    pub fn try_as_poll(&self) -> (r: Result<Poll<&T>, &E>)
        ensures
            match r {
                Ok(Poll::Ready(ok)) => self.try_poll_value() == Ok::<Poll<T>, E>(Poll::Ready(*ok)),
                Err(err) => self.try_poll_value() == Err::<Poll<T>, E>(*err),
                Ok(Poll::Pending) => self.try_poll_value() == Ok::<Poll<T>, E>(Poll::Pending),
            },
    {
        match self.as_poll() {
            Poll::Ready(Ok(ok)) => Ok(Poll::Ready(ok)),
            Poll::Ready(Err(err)) => Err(err),
            Poll::Pending => Ok(Poll::Pending),
        }
    }

    /// `as_ready_mut()` with the error moved out: `Ok(Some(&mut t))`, `Err(&mut e)` or
    /// `Ok(None)`. What is written through the returned reference stays in `self`.
    pub fn try_as_ready_mut(&mut self) -> (r: Result<Option<&mut T>, &mut E>)
        ensures
            match r {
                Ok(Some(ok)) => {
                    &&& old(self).try_ready_value() == Ok::<Option<T>, E>(Some(*ok))
                    &&& *final(self) == Polling::<Fut>::Ready(Ok(*final(ok)))
                },
                Err(err) => {
                    &&& old(self).try_ready_value() == Err::<Option<T>, E>(*err)
                    &&& *final(self) == Polling::<Fut>::Ready(Err(*final(err)))
                },
                Ok(None) => {
                    &&& old(self).try_ready_value() == Ok::<Option<T>, E>(None)
                    &&& *final(self) == *old(self)
                },
            },
    {
        match self.as_ready_mut() {
            Some(Ok(ok)) => Ok(Some(ok)),
            Some(Err(err)) => Err(err),
            None => Ok(None),
        }
    }

    /// `as_poll_mut()` with the error moved out: `Ok(Poll::Ready(&mut t))`, `Err(&mut e)` or
    /// `Ok(Poll::Pending)`. What is written through the returned reference stays in `self`.
    pub fn try_as_poll_mut(&mut self) -> (r: Result<Poll<&mut T>, &mut E>)
        ensures
            match r {
                Ok(Poll::Ready(ok)) => {
                    &&& old(self).try_poll_value() == Ok::<Poll<T>, E>(Poll::Ready(*ok))
                    &&& *final(self) == Polling::<Fut>::Ready(Ok(*final(ok)))
                },
                Err(err) => {
                    &&& old(self).try_poll_value() == Err::<Poll<T>, E>(*err)
                    &&& *final(self) == Polling::<Fut>::Ready(Err(*final(err)))
                },
                Ok(Poll::Pending) => {
                    &&& old(self).try_poll_value() == Ok::<Poll<T>, E>(Poll::Pending)
                    &&& *final(self) == *old(self)
                },
            },
    {
        match self.as_poll_mut() {
            Poll::Ready(Ok(ok)) => Ok(Poll::Ready(ok)),
            Poll::Ready(Err(err)) => Err(err),
            Poll::Pending => Ok(Poll::Pending),
        }
    }

    // =================================== Read+Write ================================== \\

    /// `take_ready()` with the error moved out: a ready output, `Ok` or `Err`, is taken out
    /// and leaves `Done`; otherwise `Ok(None)` and `self` stays as it was.
    pub fn try_take_ready(&mut self) -> (r: Result<Option<T>, E>)
        ensures
            r == old(self).try_ready_value(),
            *final(self) == old(self).after_taking_ready(),
    {
        transpose_option(self.take_ready())
    }

    /// `take_poll()` with the error moved out: a ready output, `Ok` or `Err`, is taken out
    /// and leaves `Done`; otherwise `Ok(Poll::Pending)` and `self` stays as it was.
    pub fn try_take_poll(&mut self) -> (r: Result<Poll<T>, E>)
        ensures
            r == old(self).try_poll_value(),
            *final(self) == old(self).after_taking_ready(),
    {
        self.take_poll().transpose()
    }
}

} // verus!
