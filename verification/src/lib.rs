//! Session issuance and verification for a sign-in backend.
//!
//! A caller hands in an identity token; the provider's verdict on it, the
//! user table and the session table decide what the caller gets back. This
//! crate holds those decisions: the sign-in flow as a step function, the rule
//! by which a session counts as valid, and the two tables with the laws that
//! relate them.

pub mod models;
pub mod trusted;
pub mod text;
pub mod store;
pub mod handlers;
pub mod memory;
pub mod laws;



