//! RSA key pairs; the same function as in [`crate::generator::rsa`].

pub use crate::generator::rsa::generate_rsa_keypair_pem;
