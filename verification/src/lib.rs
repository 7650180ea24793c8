//! Credentials and sessions for a user-account service.
//!
//! The crate holds the decisions of the service and performs no I/O: signed
//! session tokens with an expiry, the authorization gate that turns a bearer
//! token into an authenticated identity, and the signup, login and profile
//! flows, each with its contract. The user store and the password hasher are
//! driven by the caller: a flow names the next request and takes the reply.

pub mod config;
pub mod db;
pub mod errors;
pub mod handlers;
pub mod models;
