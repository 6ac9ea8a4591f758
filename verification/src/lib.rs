//! Normalized, content-addressed digests of HTTP-like message payloads for the
//! Hawk authentication scheme.
//!
//! The digest binds a fixed scheme marker, the declared content type, and the
//! payload bytes, by feeding the canonical byte sequence
//! `"hawk.1.payload\n" ++ content-type ++ "\n" ++ payload ++ "\n"`
//! to a cryptographic hash primitive.

pub mod digest;
pub mod payload;
