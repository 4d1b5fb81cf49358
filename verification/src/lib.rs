//! Core of a mailing-list service: subscription admission, token-gated
//! confirmation, and credential-based session authentication.
//!
//! The transport layer (HTTP server, templating, configuration files,
//! logging) is deliberately absent: this crate holds the decisions and the
//! state transitions, each with a verified contract.

pub mod authentication;
pub mod clock;
pub mod configuration;
pub mod domain;
pub mod entropy;
pub mod repository;
pub mod routes;
pub mod session_state;
pub mod strutil;
pub mod token;
pub mod utils;
