//! Key pairs as PEM text, and the public numbers of a key as base64url text.
//!
//! Generating keys and reading PEM is the work of the `rsa` and `p256` crates. This
//! module decides what is asked of them and what becomes of their answers.

pub mod ecdsa;
pub mod rsa;

use vstd::prelude::*;
use crate::error::JwkError;

verus! {

#[verifier::external_type_specification]
#[verifier::external_body]
pub struct ExPkcs8Error(::rsa::pkcs8::Error);

#[verifier::external_type_specification]
#[verifier::external_body]
pub struct ExSpkiError(::rsa::pkcs8::spki::Error);

/// `text` is framed as a PEM container labelled `label`, with LF line ends: it opens
/// with the `BEGIN` line of that label and closes with its `END` line.
pub open spec fn is_pem(text: Seq<char>, label: Seq<char>) -> bool {
    let opening = "-----BEGIN "@ + label + "-----\n"@;
    let closing = "\n-----END "@ + label + "-----\n"@;
    &&& opening.len() + closing.len() <= text.len()
    &&& text.take(opening.len() as int) == opening
    &&& text.skip(text.len() - closing.len()) == closing
}

/// Pairs the PEM text of a private key with that of its public key.
///
/// Either encoding may have failed. Whichever did, and for whatever reason, the pair
/// is refused as `KeyGenerationFailed`.
pub fn pem_pair(
    private_pem: Result<String, ::rsa::pkcs8::Error>,
    public_pem: Result<String, ::rsa::pkcs8::spki::Error>,
) -> (pair: Result<(String, String), JwkError>)
    ensures
        match (private_pem, public_pem) {
            (Ok(private_text), Ok(public_text)) => pair == Ok::<(String, String), JwkError>(
                (private_text, public_text),
            ),
            _ => pair == Err::<(String, String), JwkError>(JwkError::KeyGenerationFailed),
        },
{
    match private_pem {
        Ok(private_text) => match public_pem {
            Ok(public_text) => Ok((private_text, public_text)),
            Err(_) => Err(JwkError::KeyGenerationFailed),
        },
        Err(_) => Err(JwkError::KeyGenerationFailed),
    }
}

} // verus!
