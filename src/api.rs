//! What the HTTP endpoints receive.

pub mod auth;
