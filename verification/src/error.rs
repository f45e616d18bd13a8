//! The errors that the codecs and conversions report.

use vstd::prelude::*;

verus! {

/// The JSON codec's own error, carried through unread.
#[verifier::external_type_specification]
#[verifier::external_body]
pub struct ExJsonError(serde_json::Error);

/// The base64 codec's own error, carried through unread.
#[verifier::external_type_specification]
#[verifier::external_body]
pub struct ExDecodeError(base64::DecodeError);

/// A byte string did not have the length that a fixed-size field needs.
#[derive(Clone, Copy, Debug, PartialEq, Eq, Structural)]
pub struct LengthError {
    pub expected: usize,
    pub actual: usize,
}

/// The kinds of error that reading a key can end in.
#[derive(Clone, Copy, Debug, PartialEq, Eq, Structural)]
pub enum ErrorKind {
    Serde,
    Base64Decode,
    InvalidLength,
    InvalidExponent,
    MalformedField,
    UnknownKeyType,
    UnknownCurve,
    MismatchedAlgorithm,
}

/// Why a key could not be read.
#[derive(Debug)]
pub enum JwkError {
    /// The text is not JSON.
    Serde(serde_json::Error),
    /// A field's text is not base64.
    Base64Decode(base64::DecodeError),
    /// A fixed-size field decoded to the wrong number of bytes.
    InvalidLength(LengthError),
    /// The RSA public exponent is not 65537 in one of its two encodings.
    InvalidExponent,
    /// A required field is absent, or a field holds the wrong kind of value.
    MalformedField,
    /// The `kty` tag names no known key type.
    UnknownKeyType,
    /// The `crv` tag names no known curve.
    UnknownCurve,
    /// The algorithm does not fit the key's type and curve.
    MismatchedAlgorithm,
}

impl JwkError {
    /// The kind of this error, without what it carries.
    pub open spec fn spec_kind(&self) -> ErrorKind {
        match self {
            JwkError::Serde(_) => ErrorKind::Serde,
            JwkError::Base64Decode(_) => ErrorKind::Base64Decode,
            JwkError::InvalidLength(_) => ErrorKind::InvalidLength,
            JwkError::InvalidExponent => ErrorKind::InvalidExponent,
            JwkError::MalformedField => ErrorKind::MalformedField,
            JwkError::UnknownKeyType => ErrorKind::UnknownKeyType,
            JwkError::UnknownCurve => ErrorKind::UnknownCurve,
            JwkError::MismatchedAlgorithm => ErrorKind::MismatchedAlgorithm,
        }
    }

    /// The kind of this error, without what it carries.
    pub fn kind(&self) -> (k: ErrorKind)
        ensures
            k == self.spec_kind(),
    {
        match self {
            JwkError::Serde(_) => ErrorKind::Serde,
            JwkError::Base64Decode(_) => ErrorKind::Base64Decode,
            JwkError::InvalidLength(_) => ErrorKind::InvalidLength,
            JwkError::InvalidExponent => ErrorKind::InvalidExponent,
            JwkError::MalformedField => ErrorKind::MalformedField,
            JwkError::UnknownKeyType => ErrorKind::UnknownKeyType,
            JwkError::UnknownCurve => ErrorKind::UnknownCurve,
            JwkError::MismatchedAlgorithm => ErrorKind::MismatchedAlgorithm,
        }
    }
}

/// Why a key could not be converted.
#[derive(Clone, Copy, Debug, PartialEq, Eq, Structural)]
pub enum ConversionError {
    /// A private RSA key lacks one of p, q, dp, dq, qi.
    MissingRsaParams,
    /// A symmetric key has no PKCS#8 form.
    NotAsymmetric,
    /// A public key cannot sign.
    NotPrivate,
    /// The encoded key is too long for its bit count to be expressed.
    Oversized,
    /// The token library refused the key's PEM text.
    Rejected,
}

} // verus!
