//! Routing HTTP requests by the subdomain label of their `Host` header, and resolving
//! the address the server listens on.
pub mod config;
pub mod decimal;
pub mod error;
pub mod host;
pub mod labels;
pub mod laws;
pub mod router;
