//! Session-based authentication core for a small card-game backend.
//!
//! The crate models the session entity, its repository over a document
//! store, and the token lifecycle: issue, validate, expire, revoke.
//! The HTTP layer, card-deck loading and the real document store sit
//! outside this crate and call into it with plain values.

pub mod auth;
pub mod cards;
pub mod config;
pub mod error;
pub mod models;
pub mod store;
