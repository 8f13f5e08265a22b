use super::error::RuntimeError;
use crate::signal::oneshot::RecvError;
use vstd::prelude::*;

verus! {

/// The FFRT runtime. It holds no state: tasks go to the FFRT scheduler.
#[derive(Clone, Copy, Default, Debug)]
pub struct Runtime;

/// Whether an error is the one reported when a task's result never arrived.
pub open spec fn is_task_failed(e: RuntimeError) -> bool {
    e matches RuntimeError::Other(m) && m@ == "Task failed"@
}

/// What waiting for a task reports, from what its result channel gave: the
/// value, or `Other("Task failed")` when the sender went away without one.
pub open spec fn task_outcome_spec<T>(received: Result<T, RecvError>, r: Result<T, RuntimeError>) -> bool {
    match (received, r) {
        (Ok(v), Ok(w)) => v == w,
        (Err(_), Err(e)) => is_task_failed(e),
        _ => false,
    }
}

/// What waiting for a task reports, from what its result channel gave.
pub fn task_outcome<T>(received: Result<T, RecvError>) -> (r: Result<T, RuntimeError>)
    ensures
        task_outcome_spec(received, r),
{
    match received {
        Ok(v) => Ok(v),
        Err(_) => Err(RuntimeError::Other(String::from_str("Task failed"))),
    }
}

impl Runtime {
    /// A handle on the runtime.
    pub fn new() -> (r: Runtime)
        ensures
            r == Runtime,
    {
        Runtime
    }

    /// The process-wide runtime; the runtime has no state, so it is the same as a new one.
    pub fn global() -> (r: Runtime)
        ensures
            r == Runtime,
    {
        Runtime::new()
    }

    /// Runs `future` to completion: `run` submits it as a task on this
    /// runtime and waits for the value the task sends back. The value is
    /// returned, or `Other("Task failed")` when none arrived.
    pub fn block_on<F, T, X>(&self, future: F, run: X) -> (r: Result<T, RuntimeError>) where
        X: FnOnce(Runtime, F) -> Result<T, RecvError>,

        requires
            call_requires(run, (*self, future)),
        ensures
            exists|received: Result<T, RecvError>|
                call_ensures(run, (*self, future), received) && task_outcome_spec(received, r),
    {
        let received = run(*self, future);
        task_outcome(received)
    }

    /// Starts `future` as a task on this runtime: `submit` hands it to the
    /// scheduler and returns the handle through which its result will come.
    pub fn spawn<F, H, S>(&self, future: F, submit: S) -> (h: H) where
        S: FnOnce(Runtime, F) -> H,

        requires
            call_requires(submit, (*self, future)),
        ensures
            call_ensures(submit, (*self, future), h),
    {
        submit(*self, future)
    }
}

/// Runs `future` to completion on the default runtime, `runtime` being the
/// default runtime as it was found; it must be present.
pub fn block_on<F, T, X>(runtime: Option<Runtime>, future: F, run: X) -> (r: Result<T, RuntimeError>) where
    X: FnOnce(Runtime, F) -> Result<T, RecvError>,

    requires
        runtime is Some,
        call_requires(run, (runtime->0, future)),
    ensures
        exists|received: Result<T, RecvError>|
            call_ensures(run, (runtime->0, future), received) && task_outcome_spec(received, r),
{
    let rt = runtime.unwrap();
    rt.block_on(future, run)
}

/// Starts `future` as a task on the default runtime, `runtime` being the
/// default runtime as it was found; it must be present.
pub fn spawn<F, H, S>(runtime: Option<Runtime>, future: F, submit: S) -> (h: H) where
    S: FnOnce(Runtime, F) -> H,

    requires
        runtime is Some,
        call_requires(submit, (runtime->0, future)),
    ensures
        call_ensures(submit, (runtime->0, future), h),
{
    let rt = runtime.unwrap();
    rt.spawn(future, submit)
}

} // verus!
