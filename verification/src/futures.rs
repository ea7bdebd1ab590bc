//! Task execution and the outcome of polling.

use vstd::prelude::*;

verus! {

/// A task executor.
///
/// The task type is the executor's choice: a pool of threads takes boxed
/// futures, a single cooperative thread may take plain closures.
pub trait Executor<F> {
    /// Spawn the given task, polling it until completion.
    fn spawn(&mut self, f: F);
}

/// What one poll of a future gave.
#[derive(Debug, PartialEq, Eq)]
pub enum Async<T> {
    /// The future has completed with this value.
    Ready(T),
    /// The future has to be polled again later.
    NotReady,
}

/// Whether a poll came back without a result.
pub open spec fn suspended<T, E>(polled: Result<Async<T>, E>) -> bool {
    polled matches Ok(Async::NotReady)
}

/// The result of waiting on a future that blocks: the value or the error of
/// its single poll. A future that suspends cannot be waited on this way.
pub fn settle<T, E>(polled: Result<Async<T>, E>) -> (res: Result<T, E>)
    requires
        !suspended(polled),
    ensures
        polled matches Ok(Async::Ready(value)) ==> res == Ok::<T, E>(value),
        polled matches Err(error) ==> res == Err::<T, E>(error),
{
    match polled {
        Ok(Async::Ready(value)) => Ok(value),
        Ok(Async::NotReady) => vstd::pervasive::unreached(),
        Err(error) => Err(error),
    }
}

} // verus!
