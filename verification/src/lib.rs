//! Server-side engine of a multi-device browser-tab synchronization service:
//! the operation model, the Lamport clock, the in-memory merge document, the
//! operation log, the sync protocol and the rules that gate it.

pub mod auth;
pub mod config;
pub mod cors;
pub mod crdt;
pub mod error;
pub mod middleware;
pub mod models;
pub mod repository;
pub mod services;
pub mod startup;
pub mod sync;
pub mod text;
pub mod time;
