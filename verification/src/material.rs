//! What a signing or verifying library needs of a key: the secret of a
//! symmetric key, or the PEM text of an asymmetric one.

use vstd::prelude::*;
use crate::error::ConversionError;
use crate::key::{Key, KeyView};

verus! {

/// Key material in the form in which token libraries take it.
#[derive(PartialEq, Eq)]
pub enum KeyMaterial {
    /// The bytes of a symmetric key.
    Secret(Vec<u8>),
    /// The PEM text of a P-256 key.
    EcPem(String),
    /// The PEM text of an RSA key.
    RsaPem(String),
}

/// What key material is in contracts.
pub enum KeyMaterialView {
    Secret(Seq<u8>),
    EcPem(Seq<char>),
    RsaPem(Seq<char>),
}

impl View for KeyMaterial {
    type V = KeyMaterialView;

    open spec fn view(&self) -> KeyMaterialView {
        match self {
            KeyMaterial::Secret(b) => KeyMaterialView::Secret(b@),
            KeyMaterial::EcPem(t) => KeyMaterialView::EcPem(t@),
            KeyMaterial::RsaPem(t) => KeyMaterialView::RsaPem(t@),
        }
    }
}

/// Whether a text is the PEM armoring that exporting some key gives.
pub open spec fn spec_is_exported_pem(pem: Seq<char>) -> bool {
    exists|k: KeyView| #[trigger] k.to_pem() == Ok::<_, ConversionError>(pem)
}

impl KeyMaterialView {
    /// Whether the material is a secret, or PEM text that exporting some
    /// key gives.
    pub open spec fn is_exported(self) -> bool {
        match self {
            KeyMaterialView::Secret(_) => true,
            KeyMaterialView::EcPem(pem) => spec_is_exported_pem(pem),
            KeyMaterialView::RsaPem(pem) => spec_is_exported_pem(pem),
        }
    }
}

impl KeyView {
    /// The key as PEM text, marked by its kind; a symmetric key as its bytes.
    pub open spec fn material(self) -> Result<KeyMaterialView, ConversionError> {
        match self {
            KeyView::Symmetric { key } => Ok(KeyMaterialView::Secret(key)),
            KeyView::EC { .. } => match self.to_pem() {
                Ok(pem) => Ok(KeyMaterialView::EcPem(pem)),
                Err(e) => Err(e),
            },
            KeyView::RSA { .. } => match self.to_pem() {
                Ok(pem) => Ok(KeyMaterialView::RsaPem(pem)),
                Err(e) => Err(e),
            },
        }
    }

    /// What signing needs: the material of a private key, and of no other.
    pub open spec fn signing_material(self) -> Result<KeyMaterialView, ConversionError> {
        if self.is_private() {
            self.material()
        } else {
            Err(ConversionError::NotPrivate)
        }
    }

    /// What verifying needs: the secret of a symmetric key, the material
    /// of the public half of any other.
    pub open spec fn verifying_material(self) -> Result<KeyMaterialView, ConversionError> {
        match self.to_public() {
            Some(public) => public.material(),
            None => self.material(),
        }
    }
}

impl Key {
    fn material(&self) -> (r: Result<KeyMaterial, ConversionError>)
        ensures
            match r {
                Ok(m) => self@.material() == Ok::<_, ConversionError>(m@) && m@.is_exported(),
                Err(e) => self@.material() == Err::<KeyMaterialView, _>(e),
            },
    {
        match self {
            Key::Symmetric { key } => Ok(KeyMaterial::Secret(key.to_vec())),
            Key::EC { .. } => match self.try_to_pem() {
                Ok(pem) => Ok(KeyMaterial::EcPem(pem)),
                Err(e) => Err(e),
            },
            Key::RSA { .. } => match self.try_to_pem() {
                Ok(pem) => Ok(KeyMaterial::RsaPem(pem)),
                Err(e) => Err(e),
            },
        }
    }

    /// The material for signing with this key, which must be private.
    pub fn try_to_signing_material(&self) -> (r: Result<KeyMaterial, ConversionError>)
        ensures
            match r {
                Ok(m) => self@.signing_material() == Ok::<_, ConversionError>(m@)
                    && m@.is_exported(),
                Err(e) => self@.signing_material() == Err::<KeyMaterialView, _>(e),
            },
    {
        if !self.is_private() {
            return Err(ConversionError::NotPrivate);
        }
        self.material()
    }

    /// The material for verifying what this key signed, taken from its
    /// public data.
    pub fn try_to_verifying_material(&self) -> (r: Result<KeyMaterial, ConversionError>)
        ensures
            match r {
                Ok(m) => self@.verifying_material() == Ok::<_, ConversionError>(m@)
                    && m@.is_exported(),
                Err(e) => self@.verifying_material() == Err::<KeyMaterialView, _>(e),
            },
    {
        match self.to_public() {
            Some(public) => public.material(),
            None => self.material(),
        }
    }
}

/// A public key never gives signing material, and an EC key always gives
/// verifying material.
pub proof fn lemma_material_by_privacy(k: KeyView)
    ensures
        !k.is_private() ==> k.signing_material() == Err::<KeyMaterialView, _>(
            ConversionError::NotPrivate,
        ),
        k is Symmetric ==> k.signing_material() is Ok && k.verifying_material() is Ok,
        k is EC ==> k.verifying_material() is Ok,
{
}

} // verus!
