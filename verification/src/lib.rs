//! A content-addressed record store.
//!
//! A record is an opaque byte payload with optional name/type metadata. It is
//! serialized by a canonical, self-describing codec; the md5 digest of that
//! encoding is its fingerprint, and the fingerprint is the key under which the
//! encoding is stored, at most once, in an ordered key-value store. Clients
//! address records by the lowercase-hex rendering of the fingerprint.

pub mod codec;
pub mod errors;
pub mod fingerprint;
pub mod hexkey;
pub mod record;
pub mod resp;
pub mod service;
pub mod store;
