//! The values that the service takes, hands on and returns.

pub mod search;
pub mod source;
pub mod tool;
