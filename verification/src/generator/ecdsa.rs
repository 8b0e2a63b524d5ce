//! P-256: fresh ES256 key pairs as PEM, and the coordinates of a public key as base64url.

use vstd::prelude::*;
use ::p256::elliptic_curve::sec1::ToEncodedPoint;
use ::p256::pkcs8::DecodePublicKey;
use ::p256::pkcs8::EncodePrivateKey;
use ::p256::pkcs8::EncodePublicKey;
use ::p256::pkcs8::LineEnding;
use crate::base64url::{base64url, base64url_decode, encode, lemma_decode_inverts_encode};
use crate::error::{JwkError, JwkErrorView};
use crate::generator::{is_pem, pem_pair};

verus! {

/// A signing key of the `p256` crate. Nothing is known of it here; it is only carried
/// from the call that makes it to the calls that encode it.
#[verifier::external_body]
struct SigningKey {
    key: ::p256::ecdsa::SigningKey,
}

/// The coordinates of a curve point as SEC1 encodes them, each as big-endian bytes.
///
/// The point at infinity has neither coordinate; a compressed point has no `y`.
#[derive(Debug)]
pub struct EcPoint {
    /// The `x` coordinate, where the point has one.
    pub x: Option<Vec<u8>>,
    /// The `y` coordinate, where the encoding carries it.
    pub y: Option<Vec<u8>>,
}

/// The bytes of an optional coordinate.
pub open spec fn coordinate(bytes: Option<Vec<u8>>) -> Option<Seq<u8>> {
    match bytes {
        Some(b) => Some(b@),
        None => None,
    }
}

impl EcPoint {
    /// Each coordinate that is present has the 32 bytes of a P-256 field element.
    pub open spec fn has_p256_width(&self) -> bool {
        &&& self.x matches Some(x) ==> x@.len() == 32
        &&& self.y matches Some(y) ==> y@.len() == 32
    }
}

/// What the `p256` crate reads from a PEM text: the coordinates of the public key that
/// the text holds, encoded with or without point compression, or nothing where it
/// refuses the text.
pub uninterp spec fn p256_public_key_of_pem(pem: Seq<char>, compress: bool) -> Option<
    (Option<Seq<u8>>, Option<Seq<u8>>),
>;

/// What extracting from a text yields, given what was read from it: `MissingEcParams`
/// where nothing was read, `MissingEcX` or `MissingEcY` for the first coordinate that
/// is absent, else both coordinates as base64url.
pub open spec fn ec_coordinates(parsed: Option<(Option<Seq<u8>>, Option<Seq<u8>>)>) -> Result<
    (Seq<char>, Seq<char>),
    JwkErrorView,
> {
    match parsed {
        None => Err(JwkErrorView::MissingEcParams),
        Some((None, _)) => Err(JwkErrorView::MissingEcX),
        Some((Some(_), None)) => Err(JwkErrorView::MissingEcY),
        Some((Some(x), Some(y))) => Ok((base64url(x), base64url(y))),
    }
}

/// Calls `SigningKey::random` of the `p256` crate with the operating system's random
/// source.
#[verifier::external_body]
fn random_signing_key() -> SigningKey {
    SigningKey {
        key: ::p256::ecdsa::SigningKey::random(&mut ::p256::elliptic_curve::rand_core::OsRng),
    }
}

/// Calls `EncodePrivateKey::to_pkcs8_pem` with LF line ends. Claimed of a success: the
/// text is a PEM container labelled `PRIVATE KEY`.
#[verifier::external_body]
fn private_key_pem(key: &SigningKey) -> (pem: Result<String, ::p256::pkcs8::Error>)
    ensures
        pem matches Ok(text) ==> is_pem(text@, "PRIVATE KEY"@),
{
    key.key.to_pkcs8_pem(LineEnding::LF).map(|pem| pem.to_string())
}

/// Calls `SigningKey::verifying_key` and, on the key it returns,
/// `EncodePublicKey::to_public_key_pem` with LF line ends. Claimed of a success: the
/// text is a PEM container labelled `PUBLIC KEY`.
#[verifier::external_body]
fn public_key_pem(key: &SigningKey) -> (pem: Result<String, ::p256::pkcs8::spki::Error>)
    ensures
        pem matches Ok(text) ==> is_pem(text@, "PUBLIC KEY"@),
{
    key.key.verifying_key().to_public_key_pem(LineEnding::LF)
}

/// Calls `DecodePublicKey::from_public_key_pem` for `p256::PublicKey`, encodes the key
/// with `ToEncodedPoint::to_encoded_point`, and hands out the coordinates that
/// `EncodedPoint::x` and `EncodedPoint::y` return. Claimed: the outcome depends on the
/// arguments alone, and is the one that [`p256_public_key_of_pem`] names; a coordinate
/// has 32 bytes.
#[verifier::external_body]
fn read_public_key(pem: &str, compress: bool) -> (point: Result<
    EcPoint,
    ::p256::pkcs8::spki::Error,
>)
    ensures
        match point {
            Ok(p) => p256_public_key_of_pem(pem@, compress) == Some(
                (coordinate(p.x), coordinate(p.y)),
            ) && p.has_p256_width(),
            Err(_) => p256_public_key_of_pem(pem@, compress) is None,
        },
{
    let key = ::p256::PublicKey::from_public_key_pem(pem)?;
    let point = key.to_encoded_point(compress);
    Ok(EcPoint { x: point.x().map(|x| x.to_vec()), y: point.y().map(|y| y.to_vec()) })
}

/// Generates a P-256 key pair and returns it as PEM: the private key as PKCS#8, then
/// the public key as SubjectPublicKeyInfo, both with LF line ends.
///
/// A failure of either encoding is reported as `KeyGenerationFailed`.
pub fn generate_es256_keypair_pem() -> (pair: Result<(String, String), JwkError>)
    ensures
        match pair {
            Ok((private_pem, public_pem)) => is_pem(private_pem@, "PRIVATE KEY"@) && is_pem(
                public_pem@,
                "PUBLIC KEY"@,
            ),
            Err(error) => error == JwkError::KeyGenerationFailed,
        },
{
    let signing_key = random_signing_key();
    pem_pair(private_key_pem(&signing_key), public_key_pem(&signing_key))
}

/// Encodes the coordinates of `point` as unpadded URL-safe base64, `x` first.
///
/// A point without `x` is refused as `MissingEcX`; one with `x` but without `y` as
/// `MissingEcY`.
pub fn ec_point_to_base64url(point: &EcPoint) -> (coordinates: Result<(String, String), JwkError>)
    ensures
        match ec_coordinates(Some((coordinate(point.x), coordinate(point.y)))) {
            Ok((x, y)) => coordinates matches Ok((x_text, y_text)) && x_text@ == x && y_text@ == y,
            Err(error) => coordinates matches Err(e) && e@ == error,
        },
        coordinates matches Ok((x_text, y_text)) ==> {
            &&& Some(base64url_decode(x_text@)) == coordinate(point.x)
            &&& Some(base64url_decode(y_text@)) == coordinate(point.y)
        },
{
    match &point.x {
        None => Err(JwkError::MissingEcX),
        Some(x) => match &point.y {
            None => Err(JwkError::MissingEcY),
            Some(y) => {
                proof {
                    lemma_decode_inverts_encode(x@);
                    lemma_decode_inverts_encode(y@);
                }
                Ok((encode(x.as_slice()), encode(y.as_slice())))
            },
        },
    }
}

/// Reads a P-256 public key from PEM (SubjectPublicKeyInfo) and returns the `x` and `y`
/// coordinates of its uncompressed point as unpadded URL-safe base64, `x` first.
///
/// A text that does not hold such a key is refused as `MissingEcParams`; a key whose
/// point lacks a coordinate as `MissingEcX` or `MissingEcY`. Decoding a text that is
/// returned gives back the 32 bytes of its coordinate.
pub fn extract_es256_coordinates(pem_data: &str) -> (coordinates: Result<
    (String, String),
    JwkError,
>)
    ensures
        match ec_coordinates(p256_public_key_of_pem(pem_data@, false)) {
            Ok((x, y)) => coordinates matches Ok((x_text, y_text)) && x_text@ == x && y_text@ == y,
            Err(error) => coordinates matches Err(e) && e@ == error,
        },
        coordinates matches Ok((x_text, y_text)) ==> {
            &&& base64url_decode(x_text@).len() == 32
            &&& base64url_decode(y_text@).len() == 32
            &&& p256_public_key_of_pem(pem_data@, false) == Some(
                (Some(base64url_decode(x_text@)), Some(base64url_decode(y_text@))),
            )
        },
{
    match read_public_key(pem_data, false) {
        Ok(point) => ec_point_to_base64url(&point),
        Err(_) => Err(JwkError::MissingEcParams),
    }
}

} // verus!
