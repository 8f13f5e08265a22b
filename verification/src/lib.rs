//! FFRT task runtime: the decision logic of its channels, locks, tasks,
//! task attributes and attribute macro, with contracts checked by Verus.
//! The calls into the FFRT system library are made by the code around it.

pub mod channel;
pub mod ffrt_macro;
pub mod lock;
pub mod runtime;
pub mod signal;
pub mod sys;
pub mod task;
pub mod text;
pub mod utils;

pub use lock::{LockError, LockMode};
pub use runtime::error::RuntimeError;
pub use runtime::executor::{block_on, spawn, Runtime};
pub use signal::{mpsc, oneshot};
pub use sys::{FfrtCond, FfrtMutex, FfrtQos, FfrtRwlock, FfrtTaskAttr};
pub use task::priority::TaskPriority;
pub use task::qos::Qos;
pub use utils::SelectResult;
