//! Verified core of a small marketplace backend: credentials and session
//! tokens, the guard in front of protected operations, and the
//! stock-consistent order placement protocol.

pub mod api;
pub mod auth;
pub mod config;
pub mod credentials;
pub mod gate;
pub mod interleaving;
pub mod items;
pub mod models;
pub mod orders;
pub mod stock;
pub mod token;
