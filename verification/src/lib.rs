//! Credential and relationship management core for a social application.
//!
//! The library covers the dual-token session protocol (signed, time-bounded
//! ACCESS and REFRESH claims with a cross-site request forgery guard) and the
//! friend-relationship workflow (request, accept, decline, remove) over an
//! in-memory credential store that mirrors the relational constraints the
//! operations rely on.

pub mod api;
pub mod csrf;
pub mod friend;
pub mod jwt;
pub mod laws;
pub mod password;
pub mod profile;
pub mod store;
pub mod validate;
