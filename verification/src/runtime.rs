pub mod error;
pub mod executor;
pub mod task_cell;
pub mod timing;
