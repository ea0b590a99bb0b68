//! Decisions of the persistent event loop: when work may be scheduled, and
//! what a finished task delivers to the request that waits for it.
use vstd::prelude::*;
use crate::framework::error::AppError;

verus! {

/// Work may be scheduled only while the loop runs.
pub fn schedule_check(running: bool) -> (r: Result<(), AppError>)
    ensures
        running ==> r is Ok,
        !running ==> (r matches Err(AppError::Internal(m)) && m@ == "event loop is not running"@),
{
    if running {
        Ok(())
    } else {
        Err(AppError::Internal(String::from_str("event loop is not running")))
    }
}

/// The error when the work queue refuses an item.
pub fn work_queue_closed() -> (r: AppError)
    ensures
        r matches AppError::Internal(m) && m@ == "work queue closed"@,
{
    AppError::Internal(String::from_str("work queue closed"))
}

/// The error when the loop stops before a coroutine completes.
pub fn loop_closed_early() -> (r: AppError)
    ensures
        r matches AppError::Internal(m) && m@ == "event loop closed before coroutine completed"@,
{
    AppError::Internal(String::from_str("event loop closed before coroutine completed"))
}

/// What a finished task delivers: a cancelled task an internal
/// `task cancelled` error, a task that raised its rendered exception as an
/// internal error, otherwise its result.
pub fn task_outcome<V>(cancelled: bool, result: Result<V, String>) -> (r: Result<V, AppError>)
    ensures
        cancelled ==> (r matches Err(AppError::Internal(m)) && m@ == "task cancelled"@),
        !cancelled ==> match result {
            Ok(v) => r == Ok::<V, AppError>(v),
            Err(e) => r matches Err(AppError::Internal(m)) && m@ == e@,
        },
{
    if cancelled {
        return Err(AppError::Internal(String::from_str("task cancelled")));
    }
    match result {
        Ok(v) => Ok(v),
        Err(e) => Err(AppError::Internal(e)),
    }
}

/// A one-shot delivery slot: the first completion is delivered, later
/// ones are ignored.
#[derive(Debug)]
pub struct OnceSlot<T> {
    pub pending: Option<T>,
}

impl<T> OnceSlot<T> {
    /// Take the sender for a completion: present the first time only.
    pub fn take_sender(&mut self) -> (r: Option<T>)
        ensures
            r == old(self).pending,
            final(self).pending is None,
    {
        self.pending.take()
    }
}

} // verus!
