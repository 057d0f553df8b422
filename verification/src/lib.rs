//! Authorization hook for a publish/subscribe router.
//!
//! A hook server is asked about every peer that connects (`factory`) and about every publication,
//! deletion, query, reply and declaration that a peer sends (`interceptor`). It allows or denies,
//! and it may put another key in place of the one that the peer used. What a peer declared under a
//! key that was replaced is remembered (`rewrite`), so that messages leave for the peer under the
//! key that it knows. `client` says what an answer means, and what is decided without one. `laws`
//! states what holds of all this together.
pub mod text;
pub mod rewrite;
pub mod keyexpr;
pub mod message;
pub mod client;
pub mod interceptor;
pub mod error;
pub mod factory;
pub mod config;
pub mod laws;
