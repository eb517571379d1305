//! The shapes of the HTTP API's requests and responses.

pub mod auth;
pub mod common;
pub mod order;
pub mod product;
