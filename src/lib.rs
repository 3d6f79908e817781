//! A small user-account library: registration, credential checks and
//! updates, listing and lookup, over a table of users whose emails and
//! public identifiers are unique.
pub mod credentials;
pub mod errors;
pub mod stamps;
pub mod store;
pub mod service;
pub mod user;
