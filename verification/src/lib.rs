//! Verified core of a small meeting-tracking backend: an entity CRUD gateway
//! over an external document store.
//!
//! The store itself, the HTTP router and the connection pool are unverified
//! collaborators; this crate holds the decision logic of each endpoint —
//! identifier parsing, reference validation, document construction and
//! response classification — as verified functions over plain values.

pub mod meeting;
pub mod meeting_config;
pub mod object_id;
pub mod pool;
pub mod response;
pub mod store;
pub mod team;
pub mod user;
pub mod user_time;
