//! RSA: fresh key pairs as PEM, and modulus and exponent of a public key as base64url.

use vstd::prelude::*;
use ::rsa::pkcs8::DecodePublicKey;
use ::rsa::pkcs8::EncodePrivateKey;
use ::rsa::pkcs8::EncodePublicKey;
use ::rsa::pkcs8::LineEnding;
use ::rsa::traits::PublicKeyParts;
use crate::base64url::{
    base64url, base64url_decode, encode, lemma_decode_inverts_encode, lemma_encoded_length,
};
use crate::error::{JwkError, JwkErrorView};
use crate::generator::{is_pem, pem_pair};

verus! {

#[verifier::external_type_specification]
#[verifier::external_body]
pub struct ExRsaPrivateKey(::rsa::RsaPrivateKey);

#[verifier::external_type_specification]
#[verifier::external_body]
pub struct ExRsaPublicKey(::rsa::RsaPublicKey);

#[verifier::external_type_specification]
#[verifier::external_body]
pub struct ExRsaError(::rsa::Error);

/// The two numbers of an RSA public key, each as big-endian bytes without a sign.
#[derive(Debug)]
pub struct RsaPublicNumbers {
    /// The modulus `n`.
    pub modulus: Vec<u8>,
    /// The public exponent `e`.
    pub exponent: Vec<u8>,
}

/// What the `rsa` crate reads from a PEM text: modulus and exponent of the public key
/// that the text holds, or nothing where it refuses the text.
pub uninterp spec fn rsa_public_key_of_pem(pem: Seq<char>) -> Option<(Seq<u8>, Seq<u8>)>;

/// What extracting from a text yields, given what was read from it: `MissingRsaParams`
/// where nothing was read or one of the numbers has no bytes, else both numbers as
/// base64url.
pub open spec fn rsa_components(parsed: Option<(Seq<u8>, Seq<u8>)>) -> Result<
    (Seq<char>, Seq<char>),
    JwkErrorView,
> {
    match parsed {
        Some((modulus, exponent)) => if modulus.len() == 0 || exponent.len() == 0 {
            Err(JwkErrorView::MissingRsaParams)
        } else {
            Ok((base64url(modulus), base64url(exponent)))
        },
        None => Err(JwkErrorView::MissingRsaParams),
    }
}

/// Calls `RsaPrivateKey::new` of the `rsa` crate with the operating system's random
/// source. Nothing is claimed of the outcome: the key is random, and the crate may
/// refuse the size.
#[verifier::external_body]
fn random_private_key(bits: usize) -> Result<::rsa::RsaPrivateKey, ::rsa::Error> {
    ::rsa::RsaPrivateKey::new(&mut ::rsa::rand_core::OsRng, bits)
}

/// Calls `RsaPrivateKey::to_public_key`, which copies the public half of the key.
#[verifier::external_body]
fn public_key_of(key: &::rsa::RsaPrivateKey) -> ::rsa::RsaPublicKey {
    key.to_public_key()
}

/// Calls `EncodePrivateKey::to_pkcs8_pem` with LF line ends. Claimed of a success: the
/// text is a PEM container labelled `PRIVATE KEY`.
#[verifier::external_body]
fn private_key_pem(key: &::rsa::RsaPrivateKey) -> (pem: Result<String, ::rsa::pkcs8::Error>)
    ensures
        pem matches Ok(text) ==> is_pem(text@, "PRIVATE KEY"@),
{
    key.to_pkcs8_pem(LineEnding::LF).map(|pem| pem.to_string())
}

/// Calls `EncodePublicKey::to_public_key_pem` with LF line ends. Claimed of a success:
/// the text is a PEM container labelled `PUBLIC KEY`.
#[verifier::external_body]
fn public_key_pem(key: &::rsa::RsaPublicKey) -> (pem: Result<
    String,
    ::rsa::pkcs8::spki::Error,
>)
    ensures
        pem matches Ok(text) ==> is_pem(text@, "PUBLIC KEY"@),
{
    key.to_public_key_pem(LineEnding::LF)
}

/// Calls `DecodePublicKey::from_public_key_pem` for `RsaPublicKey`, and hands out the
/// key's modulus (`n`) and exponent (`e`) through `BigUint::to_bytes_be`. Claimed: the
/// outcome depends on the text alone, and is the one that [`rsa_public_key_of_pem`] names.
#[verifier::external_body]
fn read_public_key(pem: &str) -> (key: Result<RsaPublicNumbers, ::rsa::pkcs8::spki::Error>)
    ensures
        match key {
            Ok(numbers) => rsa_public_key_of_pem(pem@) == Some(
                (numbers.modulus@, numbers.exponent@),
            ),
            Err(_) => rsa_public_key_of_pem(pem@) is None,
        },
{
    let key = ::rsa::RsaPublicKey::from_public_key_pem(pem)?;
    Ok(RsaPublicNumbers { modulus: key.n().to_bytes_be(), exponent: key.e().to_bytes_be() })
}

/// Generates an RSA key pair of `bits` bits and returns it as PEM: the private key as
/// PKCS#8, then the public key as SubjectPublicKeyInfo, both with LF line ends.
///
/// The size is not examined here. Whatever fails, a size that the generator refuses
/// or an encoding, is reported as `KeyGenerationFailed`.
pub fn generate_rsa_keypair_pem(bits: usize) -> (pair: Result<(String, String), JwkError>)
    ensures
        match pair {
            Ok((private_pem, public_pem)) => is_pem(private_pem@, "PRIVATE KEY"@) && is_pem(
                public_pem@,
                "PUBLIC KEY"@,
            ),
            Err(error) => error == JwkError::KeyGenerationFailed,
        },
{
    match random_private_key(bits) {
        Ok(private_key) => {
            let public_key = public_key_of(&private_key);
            pem_pair(private_key_pem(&private_key), public_key_pem(&public_key))
        },
        Err(_) => Err(JwkError::KeyGenerationFailed),
    }
}

/// Encodes modulus and exponent as unpadded URL-safe base64, modulus first.
///
/// A number without bytes counts as absent: `MissingRsaParams`.
pub fn rsa_numbers_to_base64url(numbers: &RsaPublicNumbers) -> (components: Result<
    (String, String),
    JwkError,
>)
    ensures
        match rsa_components(Some((numbers.modulus@, numbers.exponent@))) {
            Ok((n, e)) => components matches Ok((n_text, e_text)) && n_text@ == n && e_text@ == e,
            Err(error) => components matches Err(e) && e@ == error,
        },
        components matches Ok((n_text, e_text)) ==> {
            &&& n_text@.len() > 0
            &&& e_text@.len() > 0
            &&& base64url_decode(n_text@) == numbers.modulus@
            &&& base64url_decode(e_text@) == numbers.exponent@
        },
{
    if numbers.modulus.len() == 0 || numbers.exponent.len() == 0 {
        return Err(JwkError::MissingRsaParams);
    }
    proof {
        lemma_encoded_length(numbers.modulus@);
        lemma_encoded_length(numbers.exponent@);
        lemma_decode_inverts_encode(numbers.modulus@);
        lemma_decode_inverts_encode(numbers.exponent@);
    }
    Ok((encode(numbers.modulus.as_slice()), encode(numbers.exponent.as_slice())))
}

/// Reads an RSA public key from PEM (SubjectPublicKeyInfo) and returns its modulus and
/// exponent as unpadded URL-safe base64, modulus first.
///
/// A text that does not hold such a key is refused as `MissingRsaParams`, and so is a
/// key of which a number has no bytes. Neither text that is returned is empty, and
/// decoding them gives back the bytes of the two numbers.
pub fn extract_rsa_n_e(pem_data: &str) -> (components: Result<(String, String), JwkError>)
    ensures
        match rsa_components(rsa_public_key_of_pem(pem_data@)) {
            Ok((n, e)) => components matches Ok((n_text, e_text)) && n_text@ == n && e_text@ == e,
            Err(error) => components matches Err(e) && e@ == error,
        },
        components matches Ok((n_text, e_text)) ==> {
            &&& n_text@.len() > 0
            &&& e_text@.len() > 0
            &&& rsa_public_key_of_pem(pem_data@) == Some(
                (base64url_decode(n_text@), base64url_decode(e_text@)),
            )
        },
{
    match read_public_key(pem_data) {
        Ok(numbers) => rsa_numbers_to_base64url(&numbers),
        Err(_) => Err(JwkError::MissingRsaParams),
    }
}

} // verus!
