use vstd::prelude::*;

verus! {

/// The outcome of polling a future once: its output, or nothing yet.
///
/// This mirrors `core::task::Poll` as a plain value that contracts can look into.
#[derive(Copy, Clone, Debug, PartialEq, Eq, Hash, PartialOrd, Ord)]
pub enum Poll<T> {
    /// The future returned this output.
    Ready(T),
    /// The future has not returned an output yet.
    Pending,
}

/// How a poll of a fallible output reads once the error is moved out:
/// `Ready(Ok(t))` is `Ok(Ready(t))`, `Ready(Err(e))` is `Err(e)`, `Pending` is `Ok(Pending)`.
pub open spec fn transposed_poll<T, E>(p: Poll<Result<T, E>>) -> Result<Poll<T>, E> {
    match p {
        Poll::Ready(Ok(ok)) => Ok(Poll::Ready(ok)),
        Poll::Ready(Err(err)) => Err(err),
        Poll::Pending => Ok(Poll::Pending),
    }
}

/// How an optional fallible output reads once the error is moved out:
/// `Some(Ok(t))` is `Ok(Some(t))`, `Some(Err(e))` is `Err(e)`, `None` is `Ok(None)`.
pub open spec fn transposed_option<T, E>(o: Option<Result<T, E>>) -> Result<Option<T>, E> {
    match o {
        Some(Ok(ok)) => Ok(Some(ok)),
        Some(Err(err)) => Err(err),
        None => Ok(None),
    }
}

impl<T, E> Poll<Result<T, E>> {
    /// Moves the error of a ready output out of the `Poll`:
    ///
    /// |      `self`          |      return      |
    /// |----------------------|------------------|
    /// | `Poll::Ready(Ok(t))` | `Ok(Ready(t))`   |
    /// | `Poll::Ready(Err(e))`| `Err(e)`         |
    /// | `Poll::Pending`      | `Ok(Pending)`    |
    pub fn transpose(self) -> (r: Result<Poll<T>, E>)
        ensures
            r == transposed_poll(self),
    {
        match self {
            Poll::Ready(Ok(ok)) => Ok(Poll::Ready(ok)),
            Poll::Ready(Err(err)) => Err(err),
            Poll::Pending => Ok(Poll::Pending),
        }
    }
}

/// Moves the error of a present fallible value out of the `Option`.
pub(crate) fn transpose_option<T, E>(o: Option<Result<T, E>>) -> (r: Result<Option<T>, E>)
    ensures
        r == transposed_option(o),
{
    match o {
        Some(Ok(ok)) => Ok(Some(ok)),
        Some(Err(err)) => Err(err),
        None => Ok(None),
    }
}

} // verus!
