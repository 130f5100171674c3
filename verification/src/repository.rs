//! The operation log: the append-only store of every accepted operation,
//! its queries, and an in-memory log.

pub mod model;
pub mod table;
pub mod log;
pub mod mock;
pub mod laws;
pub mod rows;
