use crate::text::{decimal_text, i32_text};
use vstd::prelude::*;

verus! {

/// The status FFRT returns on success.
pub const FFRT_SUCCESS: i32 = 0;
/// The raw value of the normal mutex type.
pub const FFRT_MUTEX_NORMAL: u32 = 0;
/// The raw value of the recursive mutex type.
pub const FFRT_MUTEX_RECURSIVE: u32 = 2;

/// The kind of a mutex.
#[derive(Debug, Copy, Clone, PartialEq, Eq, Structural)]
pub enum LockMode {
    Normal,
    Recursive,
}

/// The raw FFRT value of a mutex kind.
pub open spec fn lock_mode_code(m: LockMode) -> int {
    match m {
        LockMode::Normal => 0,
        LockMode::Recursive => 2,
    }
}

/// The raw values that name a mutex kind.
pub open spec fn is_lock_mode_code(code: int) -> bool {
    code == 0 || code == 2
}

impl LockMode {
    /// The raw FFRT value of this kind.
    pub fn code(self) -> (c: u32)
        ensures
            c == lock_mode_code(self),
    {
        match self {
            LockMode::Normal => FFRT_MUTEX_NORMAL,
            LockMode::Recursive => FFRT_MUTEX_RECURSIVE,
        }
    }

    /// The kind a raw FFRT value names; only the two raw values of FFRT are accepted.
    pub fn from_code(code: u32) -> (m: LockMode)
        requires
            is_lock_mode_code(code as int),
        ensures
            lock_mode_code(m) == code,
    {
        if code == FFRT_MUTEX_NORMAL {
            LockMode::Normal
        } else {
            LockMode::Recursive
        }
    }
}

/// Converting a mutex kind to its raw value and back gives the same kind.
pub proof fn lemma_lock_mode_round_trip(m: LockMode, n: LockMode)
    ensures
        is_lock_mode_code(lock_mode_code(m)),
        lock_mode_code(m) == lock_mode_code(n) ==> m == n,
{
}

/// The error of a lock operation.
#[derive(Debug, Clone)]
pub enum LockError {
    /// FFRT reported a failure; the text says which.
    InnerError(String),
}

impl LockError {
    /// The text of this error.
    pub fn to_string(&self) -> (s: String)
        ensures
            self matches LockError::InnerError(m) && s@ == "Inner error: "@ + m@,
    {
        match self {
            LockError::InnerError(m) => {
                let mut s = String::from_str("Inner error: ");
                s.append(m.as_str());
                s
            },
        }
    }
}

/// The lock operations whose FFRT status is checked.
#[derive(Debug, Copy, Clone, PartialEq, Eq, Structural)]
pub enum LockOp {
    /// Locking a mutex.
    Lock,
    /// Trying to lock a mutex.
    TryLock,
    /// Locking a read-write lock for reading.
    Read,
    /// Locking a read-write lock for writing.
    Write,
    /// Trying to lock a read-write lock for reading.
    TryRead,
    /// Trying to lock a read-write lock for writing.
    TryWrite,
}

/// The text that introduces the failure of an operation.
pub open spec fn failure_prefix(op: LockOp) -> Seq<char> {
    match op {
        LockOp::Lock => "Failed to lock mutex: "@,
        LockOp::TryLock => "Failed to try lock mutex: "@,
        LockOp::Read => "Failed to read rwlock: "@,
        LockOp::Write => "Failed to write rwlock: "@,
        LockOp::TryRead => "Failed to try read rwlock: "@,
        LockOp::TryWrite => "Failed to try write rwlock: "@,
    }
}

fn failure_prefix_text(op: LockOp) -> (s: String)
    ensures
        s@ == failure_prefix(op),
{
    match op {
        LockOp::Lock => String::from_str("Failed to lock mutex: "),
        LockOp::TryLock => String::from_str("Failed to try lock mutex: "),
        LockOp::Read => String::from_str("Failed to read rwlock: "),
        LockOp::Write => String::from_str("Failed to write rwlock: "),
        LockOp::TryRead => String::from_str("Failed to try read rwlock: "),
        LockOp::TryWrite => String::from_str("Failed to try write rwlock: "),
    }
}

/// The outcome of a lock operation from the status FFRT returned: success
/// exactly on `FFRT_SUCCESS`, otherwise an error naming the operation and the status.
pub fn lock_status(op: LockOp, status: i32) -> (r: Result<(), LockError>)
    ensures
        r is Ok <==> status == FFRT_SUCCESS,
        r matches Err(LockError::InnerError(m)) ==> m@ == failure_prefix(op) + decimal_text(
            status as int,
        ),
{
    if status == FFRT_SUCCESS {
        Ok(())
    } else {
        let mut m = failure_prefix_text(op);
        let code = i32_text(status);
        m.append(code.as_str());
        Err(LockError::InnerError(m))
    }
}

} // verus!
