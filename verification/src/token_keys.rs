//! Keys in the form that the token library signs and verifies with.

use vstd::prelude::*;
use crate::error::ConversionError;
use crate::key::{Key, KeyView};
use crate::material::{spec_is_exported_pem, KeyMaterial, KeyMaterialView};
use crate::wipe::{wipe, wipe_text};

verus! {

/// The token library's signing key, opaque here.
#[verifier::external_type_specification]
#[verifier::external_body]
pub struct ExEncodingKey(jsonwebtoken::EncodingKey);

/// The token library's verifying key, opaque here.
#[verifier::external_type_specification]
#[verifier::external_body]
pub struct ExDecodingKey(jsonwebtoken::DecodingKey);

/// The token library's error, carried through unread.
#[verifier::external_type_specification]
#[verifier::external_body]
pub struct ExTokenError(jsonwebtoken::errors::Error);

/// The bytes that a signing key holds: a secret, or the encoded key that
/// was taken out of PEM text.
pub uninterp spec fn encoding_key_bytes(key: jsonwebtoken::EncodingKey) -> Seq<u8>;

/// The bytes that a verifying key holds: a secret, or the encoded key that
/// was taken out of PEM text.
pub uninterp spec fn decoding_key_bytes(key: jsonwebtoken::DecodingKey) -> Seq<u8>;

/// The bytes of the private EC key that a PEM text holds, if it holds one.
pub uninterp spec fn ec_pem_signing_bytes(pem: Seq<char>) -> Option<Seq<u8>>;

/// The bytes of the RSA key that a PEM text holds, if it holds one, as a
/// signing key keeps them.
pub uninterp spec fn rsa_pem_signing_bytes(pem: Seq<char>) -> Option<Seq<u8>>;

/// The bytes of the public EC key that a PEM text holds, if it holds one.
pub uninterp spec fn ec_pem_verifying_bytes(pem: Seq<char>) -> Option<Seq<u8>>;

/// The bytes of the RSA key that a PEM text holds, if it holds one, as a
/// verifying key keeps them.
pub uninterp spec fn rsa_pem_verifying_bytes(pem: Seq<char>) -> Option<Seq<u8>>;

/// Trusted: calls `jsonwebtoken::EncodingKey::from_secret`, which cannot
/// fail and keeps a copy of the secret as the key's bytes.
#[verifier::external_body]
pub(crate) fn signing_key_from_secret(secret: &[u8]) -> (key: jsonwebtoken::EncodingKey)
    ensures
        encoding_key_bytes(key) == secret@,
{
    jsonwebtoken::EncodingKey::from_secret(secret)
}

/// Trusted: calls `jsonwebtoken::EncodingKey::from_ec_pem`, which refuses
/// text that is no PKCS#8 private EC key and else keeps the key that the
/// text holds. The contract names those bytes. The library's decoder
/// descends into nested values without a bound, so the text must be one
/// that exporting a key gives: its values nest a few levels deep.
#[verifier::external_body]
pub(crate) fn signing_key_from_ec_pem(pem: &str) -> (r: Result<
    jsonwebtoken::EncodingKey,
    jsonwebtoken::errors::Error,
>)
    requires
        spec_is_exported_pem(pem@),
    ensures
        match r {
            Ok(key) => ec_pem_signing_bytes(pem@) == Some(encoding_key_bytes(key)),
            Err(_) => ec_pem_signing_bytes(pem@) is None,
        },
{
    jsonwebtoken::EncodingKey::from_ec_pem(pem.as_bytes())
}

/// Trusted: calls `jsonwebtoken::EncodingKey::from_rsa_pem`, which refuses
/// text that is no RSA key and else keeps the key that the text holds.
/// The contract names those bytes. The text must be one that exporting a
/// key gives, for the decoder descends into nested values without a bound.
#[verifier::external_body]
pub(crate) fn signing_key_from_rsa_pem(pem: &str) -> (r: Result<
    jsonwebtoken::EncodingKey,
    jsonwebtoken::errors::Error,
>)
    requires
        spec_is_exported_pem(pem@),
    ensures
        match r {
            Ok(key) => rsa_pem_signing_bytes(pem@) == Some(encoding_key_bytes(key)),
            Err(_) => rsa_pem_signing_bytes(pem@) is None,
        },
{
    jsonwebtoken::EncodingKey::from_rsa_pem(pem.as_bytes())
}

/// Trusted: calls `jsonwebtoken::DecodingKey::from_secret`, which cannot
/// fail and keeps a copy of the secret as the key's bytes.
#[verifier::external_body]
pub(crate) fn verifying_key_from_secret(secret: &[u8]) -> (key: jsonwebtoken::DecodingKey)
    ensures
        decoding_key_bytes(key) == secret@,
{
    jsonwebtoken::DecodingKey::from_secret(secret)
}

/// Trusted: calls `jsonwebtoken::DecodingKey::from_ec_pem`, which refuses
/// text that is no public EC key and else keeps the key that the text
/// holds. The contract names those bytes. The text must be one that
/// exporting a key gives, for the decoder descends into nested values
/// without a bound.
#[verifier::external_body]
pub(crate) fn verifying_key_from_ec_pem(pem: &str) -> (r: Result<
    jsonwebtoken::DecodingKey,
    jsonwebtoken::errors::Error,
>)
    requires
        spec_is_exported_pem(pem@),
    ensures
        match r {
            Ok(key) => ec_pem_verifying_bytes(pem@) == Some(decoding_key_bytes(key)),
            Err(_) => ec_pem_verifying_bytes(pem@) is None,
        },
{
    jsonwebtoken::DecodingKey::from_ec_pem(pem.as_bytes())
}

/// Trusted: calls `jsonwebtoken::DecodingKey::from_rsa_pem`, which refuses
/// text that is no RSA key and else keeps the key that the text holds.
/// The contract names those bytes. The text must be one that exporting a
/// key gives, for the decoder descends into nested values without a bound.
#[verifier::external_body]
pub(crate) fn verifying_key_from_rsa_pem(pem: &str) -> (r: Result<
    jsonwebtoken::DecodingKey,
    jsonwebtoken::errors::Error,
>)
    requires
        spec_is_exported_pem(pem@),
    ensures
        match r {
            Ok(key) => rsa_pem_verifying_bytes(pem@) == Some(decoding_key_bytes(key)),
            Err(_) => rsa_pem_verifying_bytes(pem@) is None,
        },
{
    jsonwebtoken::DecodingKey::from_rsa_pem(pem.as_bytes())
}

impl KeyMaterialView {
    /// The bytes of the signing key that this material gives: the secret
    /// itself, or what the token library takes out of the PEM text.
    pub open spec fn signing_bytes(self) -> Option<Seq<u8>> {
        match self {
            KeyMaterialView::Secret(secret) => Some(secret),
            KeyMaterialView::EcPem(pem) => ec_pem_signing_bytes(pem),
            KeyMaterialView::RsaPem(pem) => rsa_pem_signing_bytes(pem),
        }
    }

    /// The bytes of the verifying key that this material gives: the secret
    /// itself, or what the token library takes out of the PEM text.
    pub open spec fn verifying_bytes(self) -> Option<Seq<u8>> {
        match self {
            KeyMaterialView::Secret(secret) => Some(secret),
            KeyMaterialView::EcPem(pem) => ec_pem_verifying_bytes(pem),
            KeyMaterialView::RsaPem(pem) => rsa_pem_verifying_bytes(pem),
        }
    }
}

impl KeyMaterial {
    /// The signing key of this material. A secret always gives the key
    /// that holds it; PEM text gives the key that the token library takes
    /// out of it, and is rejected where the library takes none. PEM text
    /// must be one that exporting a key gives.
    pub fn into_encoding_key(self) -> (r: Result<jsonwebtoken::EncodingKey, ConversionError>)
        requires
            self@.is_exported(),
        ensures
            match r {
                Ok(key) => self@.signing_bytes() == Some(encoding_key_bytes(key)),
                Err(e) => e == ConversionError::Rejected && self@.signing_bytes() is None,
            },
            r matches Err(e) ==> e == ConversionError::Rejected && !(self@ is Secret),
    {
        match self {
            KeyMaterial::Secret(secret) => {
                let mut secret = secret;
                let key = signing_key_from_secret(secret.as_slice());
                wipe(&mut secret);
                Ok(key)
            },
            KeyMaterial::EcPem(pem) => {
                let mut pem = pem;
                let r = signing_key_from_ec_pem(pem.as_str());
                wipe_text(&mut pem);
                match r {
                    Ok(key) => Ok(key),
                    Err(_) => Err(ConversionError::Rejected),
                }
            },
            KeyMaterial::RsaPem(pem) => {
                let mut pem = pem;
                let r = signing_key_from_rsa_pem(pem.as_str());
                wipe_text(&mut pem);
                match r {
                    Ok(key) => Ok(key),
                    Err(_) => Err(ConversionError::Rejected),
                }
            },
        }
    }

    /// The verifying key of this material. A secret always gives the key
    /// that holds it; PEM text gives the key that the token library takes
    /// out of it, and is rejected where the library takes none. PEM text
    /// must be one that exporting a key gives.
    pub fn into_decoding_key(self) -> (r: Result<jsonwebtoken::DecodingKey, ConversionError>)
        requires
            self@.is_exported(),
        ensures
            match r {
                Ok(key) => self@.verifying_bytes() == Some(decoding_key_bytes(key)),
                Err(e) => e == ConversionError::Rejected && self@.verifying_bytes() is None,
            },
            r matches Err(e) ==> e == ConversionError::Rejected && !(self@ is Secret),
    {
        match self {
            KeyMaterial::Secret(secret) => {
                let mut secret = secret;
                let key = verifying_key_from_secret(secret.as_slice());
                wipe(&mut secret);
                Ok(key)
            },
            KeyMaterial::EcPem(pem) => match verifying_key_from_ec_pem(pem.as_str()) {
                Ok(key) => Ok(key),
                Err(_) => Err(ConversionError::Rejected),
            },
            KeyMaterial::RsaPem(pem) => match verifying_key_from_rsa_pem(pem.as_str()) {
                Ok(key) => Ok(key),
                Err(_) => Err(ConversionError::Rejected),
            },
        }
    }
}

impl KeyView {
    /// The bytes of the signing key of this key, or why it has none: the
    /// error of its signing material, or a rejection where the token
    /// library takes no key out of its PEM text.
    pub open spec fn signing_key_bytes(self) -> Result<Seq<u8>, ConversionError> {
        match self.signing_material() {
            Err(own) => Err(own),
            Ok(m) => match m.signing_bytes() {
                Some(bytes) => Ok(bytes),
                None => Err(ConversionError::Rejected),
            },
        }
    }

    /// The bytes of the verifying key of this key, or why it has none: the
    /// error of its verifying material, or a rejection where the token
    /// library takes no key out of its PEM text.
    pub open spec fn verifying_key_bytes(self) -> Result<Seq<u8>, ConversionError> {
        match self.verifying_material() {
            Err(own) => Err(own),
            Ok(m) => match m.verifying_bytes() {
                Some(bytes) => Ok(bytes),
                None => Err(ConversionError::Rejected),
            },
        }
    }
}

impl Key {
    /// Returns a signing key if the key is private: the key that holds the
    /// secret of a symmetric key, or what the token library takes out of
    /// the PEM text of an asymmetric one.
    pub fn try_to_encoding_key(&self) -> (r: Result<jsonwebtoken::EncodingKey, ConversionError>)
        ensures
            match r {
                Ok(key) => self@.signing_key_bytes() == Ok::<_, ConversionError>(
                    encoding_key_bytes(key),
                ),
                Err(e) => self@.signing_key_bytes() == Err::<Seq<u8>, _>(e),
            },
    {
        match self.try_to_signing_material() {
            Ok(material) => material.into_encoding_key(),
            Err(e) => Err(e),
        }
    }

    /// Returns a verifying key made of the key's public data: the key that
    /// holds the secret of a symmetric key, or what the token library
    /// takes out of the PEM text of the public half.
    pub fn try_to_decoding_key(&self) -> (r: Result<jsonwebtoken::DecodingKey, ConversionError>)
        ensures
            match r {
                Ok(key) => self@.verifying_key_bytes() == Ok::<_, ConversionError>(
                    decoding_key_bytes(key),
                ),
                Err(e) => self@.verifying_key_bytes() == Err::<Seq<u8>, _>(e),
            },
    {
        match self.try_to_verifying_material() {
            Ok(material) => material.into_decoding_key(),
            Err(e) => Err(e),
        }
    }
}

/// A symmetric key always has a signing key and a verifying key, each
/// holding its secret, and a public key never has a signing key.
pub proof fn lemma_token_keys_by_kind(k: KeyView)
    ensures
        k matches KeyView::Symmetric { key } ==> k.signing_key_bytes() == Ok::<_, ConversionError>(
            key,
        ) && k.verifying_key_bytes() == Ok::<_, ConversionError>(key),
        !k.is_private() ==> k.signing_key_bytes() == Err::<Seq<u8>, _>(
            ConversionError::NotPrivate,
        ),
{
}

} // verus!
