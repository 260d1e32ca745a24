//! Verified core of a JWT-authenticated HTTP API with optional two-factor
//! authentication and brute-force protection.
//!
//! The HTTP server, the database, the cache and the mail transport live
//! outside this crate; what they decide is written here as functions from
//! plain values to plain values, each with its contract.

pub mod config;
pub mod http;
pub mod brute_force;
pub mod model;
pub mod validation;
pub mod auth;
pub mod responses;
pub mod passwords;
pub mod encoding;
pub mod two_factor;
pub mod login;
pub mod listing;
pub mod users;
pub mod products;
pub mod middleware;
pub mod mail;
