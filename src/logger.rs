pub mod config;
pub mod error;
