//! Making new keys from fresh random bytes.

use vstd::prelude::*;
use p256::elliptic_curve::sec1::ToEncodedPoint;
use rand::RngCore;
use crate::byte_array::ByteArray;
use crate::byte_vec::ByteVec;
use crate::key::{Curve, CurveView, Key, KeyView};
use crate::wipe::wipe;

verus! {

/// The affine coordinates of the P-256 point that a private scalar gives,
/// or nothing where the bytes are no valid scalar.
pub uninterp spec fn p256_public_point(scalar: Seq<u8>) -> Option<(Seq<u8>, Seq<u8>)>;

/// Draws `len` bytes from the thread's random generator.
///
/// Trusted: calls `rand::thread_rng` and `RngCore::fill_bytes` on a buffer
/// of `len` bytes. Nothing is claimed of the bytes but their number.
#[verifier::external_body]
pub(crate) fn random_bytes(len: usize) -> (bytes: Vec<u8>)
    ensures
        bytes@.len() == len,
{
    let mut bytes = vec![0u8; len];
    rand::thread_rng().fill_bytes(&mut bytes);
    bytes
}

/// Computes the public point of a private scalar.
///
/// Trusted: calls `p256::SecretKey::from_slice`, which refuses zero and
/// values not below the curve's order, then `public_key` and
/// `to_encoded_point` for the uncompressed point, whose coordinates are
/// 32 bytes each. The contract names the result.
#[verifier::external_body]
pub(crate) fn public_point(scalar: &[u8]) -> (r: Option<(Vec<u8>, Vec<u8>)>)
    requires
        scalar@.len() == 32,
    ensures
        match r {
            Some((x, y)) => p256_public_point(scalar@) == Some((x@, y@)) && x@.len() == 32
                && y@.len() == 32,
            None => p256_public_point(scalar@) is None,
        },
{
    let secret = p256::SecretKey::from_slice(scalar).ok()?;
    let point = secret.public_key().to_encoded_point(false);
    match (point.x(), point.y()) {
        (Some(x), Some(y)) => Some((x.to_vec(), y.to_vec())),
        _ => None,
    }
}

/// The private P-256 key that a scalar gives, where it is a valid one.
pub open spec fn spec_p256_from_scalar(scalar: Seq<u8>) -> Option<KeyView> {
    match p256_public_point(scalar) {
        Some((x, y)) => Some(KeyView::EC { curve: CurveView::P256 { d: Some(scalar), x, y } }),
        None => None,
    }
}

/// Whether `r` is what generating gives when `scalar` is drawn: the key of
/// the scalar, which has 32 bytes, or nothing where it has none.
pub open spec fn spec_drawn_p256(scalar: Seq<u8>, r: Option<Key>) -> bool {
    &&& scalar.len() == 32
    &&& match r {
        Some(key) => spec_p256_from_scalar(scalar) == Some(key@),
        None => spec_p256_from_scalar(scalar) is None,
    }
}

impl Key {
    /// Assembles a private P-256 key from a scalar and the coordinates of
    /// its public point.
    pub fn from_p256_parts(scalar: ByteArray<32>, x: &[u8], y: &[u8]) -> (r: Option<Key>)
        ensures
            r is Some <==> x@.len() == 32 && y@.len() == 32,
            r matches Some(key) ==> key@ == (KeyView::EC {
                curve: CurveView::P256 { d: Some(scalar@), x: x@, y: y@ },
            }),
    {
        match (ByteArray::<32>::try_from_slice(x), ByteArray::<32>::try_from_slice(y)) {
            (Ok(x), Ok(y)) => Some(Key::EC { curve: Curve::P256 { d: Some(scalar), x, y } }),
            _ => None,
        }
    }

    /// The private P-256 key of a scalar; nothing where the scalar is zero
    /// or not below the curve's order.
    pub fn from_p256_scalar(scalar: ByteArray<32>) -> (r: Option<Key>)
        ensures
            match r {
                Some(key) => spec_p256_from_scalar(scalar@) == Some(key@),
                None => spec_p256_from_scalar(scalar@) is None,
            },
    {
        match public_point(scalar.as_slice()) {
            Some((x, y)) => Self::from_p256_parts(scalar, x.as_slice(), y.as_slice()),
            None => None,
        }
    }

    /// Generates a new symmetric key with the specified number of bits.
    pub fn generate_symmetric(num_bits: usize) -> (key: Key)
        ensures
            key@ is Symmetric,
            key@->key.len() == num_bits / 8,
            key@.is_private(),
            key@.to_public() is None,
    {
        Key::Symmetric { key: ByteVec::new(random_bytes(num_bits / 8)) }
    }

    /// Generates a new EC keypair using the prime256 curve: the key of the
    /// 32 bytes drawn, and nothing in the rare case that they are no valid
    /// scalar.
    pub fn generate_p256() -> (r: Option<Key>)
        ensures
            exists|scalar: Seq<u8>| #[trigger]
                spec_drawn_p256(scalar, r),
    {
        let mut drawn = random_bytes(32);
        let ghost bytes = drawn@;
        let copied = ByteArray::<32>::try_from_slice(drawn.as_slice());
        wipe(&mut drawn);
        match copied {
            Ok(scalar) => {
                let r = Self::from_p256_scalar(scalar);
                assert(spec_drawn_p256(bytes, r));
                r
            },
            Err(_) => None,
        }
    }
}

} // verus!
