use super::error::RuntimeError;
use vstd::prelude::*;

verus! {

/// A future that gives way once: the first poll asks to be woken and is
/// pending, the next is ready.
pub struct YieldNow {
    yielded: bool,
}

impl YieldNow {
    /// A future that has not given way yet.
    pub fn new() -> (y: YieldNow)
        ensures
            !y.has_yielded(),
    {
        YieldNow { yielded: false }
    }

    /// Whether it has given way.
    pub closed spec fn has_yielded(&self) -> bool {
        self.yielded
    }

    /// One poll: `true` when ready; `false` when the caller must wake the
    /// task and report pending.
    pub fn poll(&mut self) -> (ready: bool)
        ensures
            ready == old(self).has_yielded(),
            final(self).has_yielded(),
    {
        if self.yielded {
            true
        } else {
            self.yielded = true;
            false
        }
    }
}

/// What one poll of a sleep does.
#[derive(Debug, Clone, Copy, PartialEq, Eq, Structural)]
pub enum SleepPoll {
    /// The deadline has passed.
    Ready,
    /// Sleep this many microseconds, then wake the task and report pending.
    Sleep(u64),
}

/// One poll of a sleep: ready once the deadline has passed; otherwise sleep
/// for the remaining microseconds, cut to the low 64 bits as `as u64` does.
pub fn sleep_poll(deadline_passed: bool, remaining_micros: u128) -> (p: SleepPoll)
    ensures
        deadline_passed ==> p == SleepPoll::Ready,
        !deadline_passed ==> p == SleepPoll::Sleep((remaining_micros % 0x1_0000_0000_0000_0000) as u64),
{
    if deadline_passed {
        SleepPoll::Ready
    } else {
        let low = remaining_micros % 0x1_0000_0000_0000_0000u128;
        SleepPoll::Sleep(low as u64)
    }
}

/// One check of a deadline while waiting: `Timeout` once more time than
/// allowed has elapsed, both in nanoseconds; otherwise keep waiting.
pub fn timeout_check(elapsed_nanos: u128, limit_nanos: u128) -> (r: Result<(), RuntimeError>)
    ensures
        r is Ok <==> elapsed_nanos <= limit_nanos,
        r matches Err(e) ==> e is Timeout,
{
    if elapsed_nanos > limit_nanos {
        Err(RuntimeError::Timeout)
    } else {
        Ok(())
    }
}

/// What one round of waiting for a task with a time limit does.
#[derive(Debug, Clone, Copy, PartialEq, Eq, Structural)]
pub enum JoinStep {
    /// The task is done: take its result.
    Take,
    /// Time is up: cancel the task and report `Timeout`.
    TimedOut,
    /// Give way and look again.
    Yield,
}

/// One round of waiting for a task with a time limit: a finished task is
/// taken first, then the limit is checked.
pub fn join_timeout_step(completed: bool, elapsed_nanos: u128, limit_nanos: u128) -> (s: JoinStep)
    ensures
        completed ==> s == JoinStep::Take,
        !completed && elapsed_nanos > limit_nanos ==> s == JoinStep::TimedOut,
        !completed && elapsed_nanos <= limit_nanos ==> s == JoinStep::Yield,
{
    if completed {
        JoinStep::Take
    } else if timeout_check(elapsed_nanos, limit_nanos).is_err() {
        JoinStep::TimedOut
    } else {
        JoinStep::Yield
    }
}

} // verus!
