//! Signed session tokens, credential hashing and a closed error taxonomy.
//!
//! The crate guards access to protected operations. A typed payload is put in
//! an envelope together with a tag naming its type and an expiry time, the
//! envelope is signed, and the signed string is later checked, unpacked and
//! handed back as the type the caller asks for. Every failure on that path is
//! one of five kinds, and each kind has one fixed outcome at the transport
//! boundary.

pub mod auth;
pub mod cred;
pub mod error;
pub mod json;
pub mod jwt;
pub mod transport;
