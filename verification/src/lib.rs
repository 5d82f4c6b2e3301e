//! Verified core of a username/password authentication extension.
//!
//! The crate holds the logic of two request handlers, register and login,
//! together with the credential table they work on and the decisions taken
//! while the backing database is brought up. Everything here is proved
//! against the contracts written beside it; reading requests, talking to a
//! database and answering over HTTP are left to the embedding program.

pub mod digest;
pub mod extension;
pub mod laws;
pub mod model;
pub mod startup;
pub mod store;
