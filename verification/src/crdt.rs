//! The Lamport clock and the merge document that holds the current tabs and
//! windows, rebuilt at any time by replaying the operation log.

pub mod clock;
pub mod store;
pub mod records;
pub mod model;
pub mod document;
pub mod documents;
pub mod apply;
pub mod manager;
pub mod laws;
