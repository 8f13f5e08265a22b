pub mod priority;
pub mod qos;
