//! Key generation under the path `cryptography`.

pub mod rsa;
