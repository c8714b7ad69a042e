//! Request/response messaging over a partitioned log: envelope model and codec,
//! error taxonomy, route registry, reply decisions and the pending-request table,
//! plus small logger-configuration and integer-math utilities.
pub mod kafka;
pub mod logger;
pub mod math;
