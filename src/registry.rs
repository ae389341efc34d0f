//! Talking to registries: the bearer challenge, the request retry rules, the
//! registry paths and status rules, and the per-blob synchronization decisions.
pub mod auth;
pub mod checks;
pub mod ops;
pub mod paths;
pub mod request;
