pub mod args;
pub mod expand;
