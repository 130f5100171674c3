//! The sync protocol's data: operations, requests, responses and stored
//! log records, with the rules that an operation must meet.

pub mod operation;
pub mod validate;
