//! What holds of the service as a whole, over the specifications of its parts.

pub mod budget;
pub mod config;
pub mod doctor;
pub mod fetch;
pub mod operations;
pub mod request;
pub mod search;
pub mod sessions;
pub mod text;
pub mod views;
