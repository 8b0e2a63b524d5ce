//! The error type shared by every fallible operation of the crate.

use vstd::prelude::*;

verus! {

/// Why a key could not be generated, read, or assembled into a JWK.
///
/// Every error is final: no operation retries, and none returns a partial result.
#[derive(Debug, PartialEq)]
pub enum JwkError {
    /// The modulus `n` or the exponent `e` of an RSA key is absent.
    MissingRsaParams,
    /// The curve `crv` or a coordinate of an EC key is absent.
    MissingEcParams,
    /// An EC point carries no `x` coordinate.
    MissingEcX,
    /// An EC point carries no `y` coordinate.
    MissingEcY,
    /// The key type is neither `"RSA"` nor `"EC"`; the offending name is carried along.
    UnsupportedKeyType(String),
    /// Generating a key pair, or rendering it as PEM, failed.
    KeyGenerationFailed,
    /// PEM text could not be read from its source.
    PemReadError,
    /// PEM text could not be written to its destination.
    PemWriteError,
    /// Reserved for strict RSA public key parsing.
    RsaParseError,
    /// Reserved for strict EC public key parsing.
    EcParseError,
    /// Reserved for failures of the base64url encoder.
    Base64EncodingError,
    /// Reserved for curves other than P-256; the curve's name is carried along.
    UnsupportedCurve(String),
}

/// The mathematical content of a [`JwkError`]: the same cases, with texts as sequences.
pub enum JwkErrorView {
    MissingRsaParams,
    MissingEcParams,
    MissingEcX,
    MissingEcY,
    UnsupportedKeyType(Seq<char>),
    KeyGenerationFailed,
    PemReadError,
    PemWriteError,
    RsaParseError,
    EcParseError,
    Base64EncodingError,
    UnsupportedCurve(Seq<char>),
}

impl View for JwkError {
    type V = JwkErrorView;

    open spec fn view(&self) -> JwkErrorView {
        match self {
            JwkError::MissingRsaParams => JwkErrorView::MissingRsaParams,
            JwkError::MissingEcParams => JwkErrorView::MissingEcParams,
            JwkError::MissingEcX => JwkErrorView::MissingEcX,
            JwkError::MissingEcY => JwkErrorView::MissingEcY,
            JwkError::UnsupportedKeyType(name) => JwkErrorView::UnsupportedKeyType(name@),
            JwkError::KeyGenerationFailed => JwkErrorView::KeyGenerationFailed,
            JwkError::PemReadError => JwkErrorView::PemReadError,
            JwkError::PemWriteError => JwkErrorView::PemWriteError,
            JwkError::RsaParseError => JwkErrorView::RsaParseError,
            JwkError::EcParseError => JwkErrorView::EcParseError,
            JwkError::Base64EncodingError => JwkErrorView::Base64EncodingError,
            JwkError::UnsupportedCurve(name) => JwkErrorView::UnsupportedCurve(name@),
        }
    }
}

} // verus!
