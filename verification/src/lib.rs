//! JSON Web Keys for RSA and P-256 keys: PEM in, JWK out.
//!
//! The crate extracts the public numbers of a key from its PEM text, encodes
//! them as unpadded URL-safe base64, and assembles JWK records whose
//! mandatory fields are checked when the record is built.

pub mod base64url;
pub mod cryptography;
pub mod error;
pub mod generator;
pub mod jwk;
