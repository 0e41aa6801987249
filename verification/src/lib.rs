//! Authentication and authorization core of a bot-directory backend.
//!
//! The crate covers credential extraction, the bearer-token codec, the
//! request-scoped session, an in-memory persistence gateway with read/write
//! pool routing, and the `AuthCheck` policy object that ties them together.

pub mod auth;
pub mod bot;
pub mod category;
pub mod config;
pub mod controllers;
pub mod db;
pub mod errors;
pub mod laws;
pub mod scopes;
pub mod session;
pub mod store;
pub mod strutil;
pub mod token;
pub mod vanity;
pub mod views;
pub mod vote;
