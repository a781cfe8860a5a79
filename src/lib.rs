//! Orchestration core of a multi-tenant IRC terminal gateway: identity
//! derivation and token key caching, the port pool and session table, the
//! bouncer provisioning protocol, and the request-routing decisions.

pub mod access;
pub mod auth;
pub mod bouncer;
pub mod config;
pub mod errors;
pub mod keys;
pub mod ports;
pub mod provision;
pub mod sessions;
pub mod store;
pub mod terminal;
pub mod text;
pub mod username;
