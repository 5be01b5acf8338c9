//! Secure one-time / time-limited text sharing: link lifecycle, at-rest
//! encryption of the stored payload, password gating, and reclamation of
//! dead links.
//!
//! The heart of the crate is the link record ([`model::LinkRow`]), the
//! lifecycle predicate deciding when a link is dead ([`lifecycle`]), the
//! services that create, disclose and unlock links ([`service`], [`store`]),
//! and the crypto layer that keeps payloads encrypted at rest ([`crypto`]).

pub mod crypto;
pub mod laws;
pub mod limiter;
pub mod lifecycle;
pub mod model;
pub mod service;
pub mod store;
pub mod view;
