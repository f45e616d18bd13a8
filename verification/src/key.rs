//! The key model: symmetric, P-256 and RSA keys, private or public.

use vstd::prelude::*;
use vstd::string::StringExecFns;
use crate::byte_array::ByteArray;
use crate::byte_vec::ByteVec;
use crate::error::JwkError;
use crate::text::same_text;

verus! {

/// The only RSA public exponent that a key can have.
pub const PUBLIC_EXPONENT: u32 = 65537;

/// The algorithms that a key can be marked for.
#[derive(Clone, Copy, Debug, PartialEq, Eq, Structural)]
pub enum Algorithm {
    HS256,
    RS256,
    ES256,
}

/// What a key is meant to be used for.
#[derive(Clone, Copy, Debug, PartialEq, Eq, Structural)]
pub enum KeyUse {
    Signing,
    Encryption,
}

/// The standard RSA public exponent, 65537, and no other value.
#[derive(Clone, Copy, Debug, PartialEq, Eq, Structural)]
pub struct PublicExponent;

/// Whether a text is one of the two accepted encodings of 65537.
pub open spec fn spec_is_exponent_text(text: Seq<char>) -> bool {
    text == "AQAB"@ || text == "AQABAA=="@
}

impl PublicExponent {
    /// The canonical text of the exponent.
    pub fn serialize(&self) -> (text: String)
        ensures
            text@ == "AQAB"@,
            spec_is_exponent_text(text@),
    {
        String::from_str("AQAB")
    }

    /// Accepts the canonical text and its zero-padded form, nothing else.
    pub fn deserialize(text: &str) -> (r: Result<Self, JwkError>)
        ensures
            r is Ok <==> spec_is_exponent_text(text@),
            r is Err ==> r matches Err(JwkError::InvalidExponent),
    {
        if same_text(text, "AQAB") || same_text(text, "AQABAA==") {
            Ok(PublicExponent)
        } else {
            Err(JwkError::InvalidExponent)
        }
    }

    /// The number that the exponent stands for.
    pub fn value(&self) -> (v: u32)
        ensures
            v == PUBLIC_EXPONENT,
    {
        PUBLIC_EXPONENT
    }
}

/// The public half of an RSA key.
#[derive(PartialEq, Eq)]
pub struct RsaPublic {
    /// The standard public exponent, 65537.
    pub e: PublicExponent,
    /// The modulus, p*q.
    pub n: ByteVec,
}

/// The private half of an RSA key.
#[derive(PartialEq, Eq)]
pub struct RsaPrivate {
    /// Private exponent.
    pub d: ByteVec,
    /// First prime factor.
    pub p: Option<ByteVec>,
    /// Second prime factor.
    pub q: Option<ByteVec>,
    /// First factor CRT exponent.
    pub dp: Option<ByteVec>,
    /// Second factor CRT exponent.
    pub dq: Option<ByteVec>,
    /// First CRT coefficient.
    pub qi: Option<ByteVec>,
}

/// An elliptic curve with the coordinates of a point on it.
#[derive(PartialEq, Eq)]
pub enum Curve {
    /// Parameters of the prime256v1 (P256) curve.
    P256 {
        /// The private scalar.
        d: Option<ByteArray<32>>,
        /// The curve point x coordinate.
        x: ByteArray<32>,
        /// The curve point y coordinate.
        y: ByteArray<32>,
    },
}

/// A key: elliptic-curve, RSA or symmetric.
#[derive(PartialEq, Eq)]
pub enum Key {
    /// An elliptic-curve key.
    EC { curve: Curve },
    /// An RSA key.
    RSA { public: RsaPublic, private: Option<RsaPrivate> },
    /// A symmetric key.
    Symmetric { key: ByteVec },
}

/// What an RSA public half is in contracts: its modulus.
pub struct RsaPublicView {
    pub n: Seq<u8>,
}

/// What an RSA private half is in contracts.
pub struct RsaPrivateView {
    pub d: Seq<u8>,
    pub p: Option<Seq<u8>>,
    pub q: Option<Seq<u8>>,
    pub dp: Option<Seq<u8>>,
    pub dq: Option<Seq<u8>>,
    pub qi: Option<Seq<u8>>,
}

/// What a curve is in contracts.
pub enum CurveView {
    P256 { d: Option<Seq<u8>>, x: Seq<u8>, y: Seq<u8> },
}

/// What a key is in contracts: its kind and the bytes of its fields.
pub enum KeyView {
    EC { curve: CurveView },
    RSA { public: RsaPublicView, private: Option<RsaPrivateView> },
    Symmetric { key: Seq<u8> },
}

/// The bytes of an optional variable-length field.
pub open spec fn spec_opt_vec(o: Option<ByteVec>) -> Option<Seq<u8>> {
    match o {
        Some(v) => Some(v@),
        None => None,
    }
}

/// The bytes of an optional 32-byte field.
pub open spec fn spec_opt_array(o: Option<ByteArray<32>>) -> Option<Seq<u8>> {
    match o {
        Some(v) => Some(v@),
        None => None,
    }
}

impl View for RsaPublic {
    type V = RsaPublicView;

    open spec fn view(&self) -> RsaPublicView {
        RsaPublicView { n: self.n@ }
    }
}

impl View for RsaPrivate {
    type V = RsaPrivateView;

    open spec fn view(&self) -> RsaPrivateView {
        RsaPrivateView {
            d: self.d@,
            p: spec_opt_vec(self.p),
            q: spec_opt_vec(self.q),
            dp: spec_opt_vec(self.dp),
            dq: spec_opt_vec(self.dq),
            qi: spec_opt_vec(self.qi),
        }
    }
}

impl View for Curve {
    type V = CurveView;

    open spec fn view(&self) -> CurveView {
        match self {
            Curve::P256 { d, x, y } => CurveView::P256 { d: spec_opt_array(*d), x: x@, y: y@ },
        }
    }
}

impl View for Key {
    type V = KeyView;

    open spec fn view(&self) -> KeyView {
        match self {
            Key::EC { curve } => KeyView::EC { curve: curve@ },
            Key::RSA { public, private } => KeyView::RSA {
                public: public@,
                private: match private {
                    Some(p) => Some(p@),
                    None => None,
                },
            },
            Key::Symmetric { key } => KeyView::Symmetric { key: key@ },
        }
    }
}

impl KeyView {
    /// A key is private if it is symmetric or holds a private component.
    pub open spec fn is_private(self) -> bool {
        match self {
            KeyView::Symmetric { .. } => true,
            KeyView::EC { curve: CurveView::P256 { d, .. } } => d is Some,
            KeyView::RSA { private, .. } => private is Some,
        }
    }

    /// The key without its private components; a symmetric key has none.
    pub open spec fn to_public(self) -> Option<KeyView> {
        match self {
            KeyView::Symmetric { .. } => None,
            KeyView::EC { curve: CurveView::P256 { d, x, y } } => Some(
                KeyView::EC { curve: CurveView::P256 { d: None, x, y } },
            ),
            KeyView::RSA { public, private } => Some(KeyView::RSA { public, private: None }),
        }
    }

    /// The one rule that ties an algorithm to a key: by type and curve.
    pub open spec fn fits(self, alg: Algorithm) -> bool {
        match (alg, self) {
            (Algorithm::ES256, KeyView::EC { curve: CurveView::P256 { .. } }) => true,
            (Algorithm::RS256, KeyView::RSA { .. }) => true,
            (Algorithm::HS256, KeyView::Symmetric { .. }) => true,
            _ => false,
        }
    }
}

/// Deriving the public key of a public key changes nothing, the public key
/// of any asymmetric key is public, and a symmetric key has none.
pub proof fn lemma_to_public_idempotent(k: KeyView)
    ensures
        k is Symmetric <==> k.to_public() is None,
        k.to_public() matches Some(p) ==> p.to_public() == Some(p) && !p.is_private(),
        !k.is_private() ==> k.to_public() == Some(k),
{
}

/// Stripping the private components keeps every algorithm that fitted.
pub proof fn lemma_to_public_keeps_algorithm(k: KeyView, alg: Algorithm)
    requires
        k.to_public() is Some,
    ensures
        k.to_public().unwrap().fits(alg) == k.fits(alg),
{
}

/// Each algorithm fits exactly one kind of key, private or public, and no
/// other pairing of an algorithm with a key is accepted.
pub proof fn lemma_algorithm_gating(k: KeyView, alg: Algorithm)
    ensures
        k.fits(alg) <==> (alg == Algorithm::ES256 && k is EC) || (alg == Algorithm::RS256 && k is RSA)
            || (alg == Algorithm::HS256 && k is Symmetric),
{
}

fn clone_opt_vec(o: &Option<ByteVec>) -> (r: Option<ByteVec>)
    ensures
        spec_opt_vec(r) == spec_opt_vec(*o),
{
    match o {
        Some(v) => Some(v.clone()),
        None => None,
    }
}

impl Clone for RsaPublic {
    fn clone(&self) -> (r: Self)
        ensures
            r@ == self@,
    {
        RsaPublic { e: PublicExponent, n: self.n.clone() }
    }
}

impl Clone for RsaPrivate {
    fn clone(&self) -> (r: Self)
        ensures
            r@ == self@,
    {
        RsaPrivate {
            d: self.d.clone(),
            p: clone_opt_vec(&self.p),
            q: clone_opt_vec(&self.q),
            dp: clone_opt_vec(&self.dp),
            dq: clone_opt_vec(&self.dq),
            qi: clone_opt_vec(&self.qi),
        }
    }
}

impl Clone for Curve {
    fn clone(&self) -> (r: Self)
        ensures
            r@ == self@,
    {
        match self {
            Curve::P256 { d, x, y } => Curve::P256 {
                d: match d {
                    Some(v) => Some(v.clone()),
                    None => None,
                },
                x: x.clone(),
                y: y.clone(),
            },
        }
    }
}

impl Clone for Key {
    fn clone(&self) -> (r: Self)
        ensures
            r@ == self@,
    {
        match self {
            Key::EC { curve } => Key::EC { curve: curve.clone() },
            Key::RSA { public, private } => Key::RSA {
                public: public.clone(),
                private: match private {
                    Some(p) => Some(p.clone()),
                    None => None,
                },
            },
            Key::Symmetric { key } => Key::Symmetric { key: key.clone() },
        }
    }
}

impl Key {
    /// True iff the key is symmetric or holds a private component.
    pub fn is_private(&self) -> (r: bool)
        ensures
            r == self@.is_private(),
    {
        match self {
            Key::Symmetric { .. } => true,
            Key::EC { curve: Curve::P256 { d, .. } } => d.is_some(),
            Key::RSA { private, .. } => private.is_some(),
        }
    }

    /// The public part of this key; a symmetric key has none.
    pub fn to_public(&self) -> (r: Option<Key>)
        ensures
            match r {
                Some(k) => self@.to_public() == Some(k@),
                None => self@.to_public() is None,
            },
    {
        match self {
            Key::Symmetric { .. } => None,
            Key::EC { curve: Curve::P256 { x, y, .. } } => Some(
                Key::EC { curve: Curve::P256 { d: None, x: x.clone(), y: y.clone() } },
            ),
            Key::RSA { public, .. } => Some(Key::RSA { public: public.clone(), private: None }),
        }
    }

    /// Whether the algorithm fits this key's type and curve.
    pub fn algorithm_compatible(&self, alg: Algorithm) -> (r: bool)
        ensures
            r == self@.fits(alg),
    {
        match (alg, self) {
            (Algorithm::ES256, Key::EC { curve: Curve::P256 { .. } }) => true,
            (Algorithm::RS256, Key::RSA { .. }) => true,
            (Algorithm::HS256, Key::Symmetric { .. }) => true,
            _ => false,
        }
    }
}

} // verus!
