//! The messaging layer: wire model and codec, error taxonomy, configuration,
//! routing, reply decisions, and the tables and gates the engines run on.
pub mod config;
pub mod error;
pub mod error_codes;
pub mod extensions;
mod ids;
pub mod json;
pub mod kafka_consumer;
pub mod message;
pub mod request_sender;
pub mod routes_register;
pub mod stream_handler;
pub mod table;
pub mod wire;
