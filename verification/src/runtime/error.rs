use vstd::prelude::*;

verus! {

/// An error of the runtime.
#[derive(Debug, Clone)]
pub enum RuntimeError {
    /// The task was cancelled.
    Cancelled,
    /// The task panicked; the text says how.
    Panicked(String),
    /// The operation did not finish in time.
    Timeout,
    /// Any other failure; the text says which.
    Other(String),
}

/// The text of a runtime error.
pub open spec fn runtime_error_text(e: RuntimeError) -> Seq<char> {
    match e {
        RuntimeError::Cancelled => "Task cancelled"@,
        RuntimeError::Panicked(m) => "Task panicked: "@ + m@,
        RuntimeError::Timeout => "Operation timeout"@,
        RuntimeError::Other(m) => "Runtime error: "@ + m@,
    }
}

impl RuntimeError {
    /// The text of this error.
    pub fn to_string(&self) -> (s: String)
        ensures
            s@ == runtime_error_text(*self),
    {
        match self {
            RuntimeError::Cancelled => String::from_str("Task cancelled"),
            RuntimeError::Panicked(m) => {
                let mut s = String::from_str("Task panicked: ");
                s.append(m.as_str());
                s
            },
            RuntimeError::Timeout => String::from_str("Operation timeout"),
            RuntimeError::Other(m) => {
                let mut s = String::from_str("Runtime error: ");
                s.append(m.as_str());
                s
            },
        }
    }
}

} // verus!
