//! Session-backed authentication and authorization library.
//!
//! Credential hashing and verification, the login state machine,
//! session lifecycle (login / logout / current user), and the
//! request-time authentication and authorization gates, together with
//! the request validation and record-shaping rules around them.

pub mod auth;
pub mod config;
pub mod errors;
pub mod health;
pub mod hashing;
pub mod middleware;
pub mod model;
pub mod roles;
pub mod session;
pub mod text;
