//! A small request/response dispatcher: named operations with structured
//! parameters are routed to validating handlers, and each outcome is stored
//! under a fresh correlation identifier so it can be retrieved by polling.

pub mod dao;
pub mod json;
pub mod laws;
pub mod ops;
pub mod store;
pub mod trusted;
