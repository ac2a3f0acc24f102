//! Authentication and authorization gateway: the decisions that sit in front of a
//! protected service (bearer-token extraction, JWT verification against a key set,
//! group-based access to administrative paths, per-client rate limiting) together
//! with the small text formats they depend on.
pub mod numeric;
pub mod utils;
pub mod services;
pub mod policy;
pub mod auth;
pub mod middleware;
pub mod proxy;
pub mod config;
pub mod state;
pub mod handler;
pub mod observability;
