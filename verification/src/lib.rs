//! Session and authentication handshake coordinator for an institutional web
//! portal (ERP).
//!
//! The library owns the per-user handshake state and the interpretation of
//! every server response: extracting the hidden session token out of the
//! homepage markup, resolving and validating the roll number, classifying the
//! secret-question response, and the liveness fingerprint check. The network
//! round trips themselves are left to the embedding program, which hands each
//! response body (or its length) to the functions here.

pub mod errors;
pub mod extract;
pub mod session;

pub use errors::ErpError;
