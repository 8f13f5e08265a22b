pub mod mpsc;
pub mod oneshot;
