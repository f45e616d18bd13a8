//! A byte container of a length fixed by its type.

use vstd::prelude::*;
use vstd::slice::slice_to_vec;
use crate::base64_text::{decode_url, encode_url, url_base64_bytes, url_base64_text};
use crate::error::{JwkError, LengthError};
use crate::wipe::wipe;

verus! {

/// Exactly `N` bytes, carried as base64 text and overwritten with zeros
/// when dropped.
#[derive(PartialEq, Eq)]
pub struct ByteArray<const N: usize> {
    bytes: Vec<u8>,
}

impl<const N: usize> View for ByteArray<N> {
    type V = Seq<u8>;

    closed spec fn view(&self) -> Seq<u8> {
        self.bytes@
    }
}

/// What `deserialize` makes of a text: the bytes, or the reason for none.
pub open spec fn spec_fixed_from_text(text: Seq<char>, n: usize) -> Option<Seq<u8>> {
    match url_base64_bytes(text) {
        Some(bytes) => if bytes.len() == n { Some(bytes) } else { None },
        None => None,
    }
}

impl<const N: usize> ByteArray<N> {
    #[verifier::type_invariant]
    spec fn well_formed(self) -> bool {
        self.bytes@.len() == N
    }

    /// Copies the bytes, which must be `N` in number.
    pub fn try_from_slice(bytes: &[u8]) -> (r: Result<Self, LengthError>)
        ensures
            r is Ok <==> bytes@.len() == N,
            match r {
                Ok(array) => array@ == bytes@,
                Err(e) => e.expected == N && e.actual == bytes@.len(),
            },
    {
        if bytes.len() != N {
            Err(LengthError { expected: N, actual: bytes.len() })
        } else {
            Ok(ByteArray { bytes: slice_to_vec(bytes) })
        }
    }

    /// The bytes.
    pub fn as_slice(&self) -> (s: &[u8])
        ensures
            s@ == self@,
            s@.len() == N,
    {
        proof {
            use_type_invariant(self);
        }
        self.bytes.as_slice()
    }

    /// The number of bytes, which is `N`.
    pub fn len(&self) -> (n: usize)
        ensures
            n == N,
            n == self@.len(),
    {
        proof {
            use_type_invariant(self);
        }
        N
    }

    /// Overwrites every byte with zero.
    pub fn zeroize(&mut self)
        ensures
            final(self)@ == Seq::new(N as nat, |i: int| 0u8),
    {
        proof {
            use_type_invariant(&*self);
        }
        wipe(&mut self.bytes);
        assert(self.bytes@ =~= Seq::new(N as nat, |i: int| 0u8));
    }

    /// The base64 text of the bytes.
    pub fn serialize(&self) -> (text: String)
        ensures
            text@ == url_base64_text(self@),
            spec_fixed_from_text(text@, N) == Some(self@),
    {
        proof {
            use_type_invariant(self);
        }
        encode_url(self.bytes.as_slice())
    }

    /// Decodes base64 text, then checks the length.
    pub fn deserialize(text: &str) -> (r: Result<Self, JwkError>)
        ensures
            match r {
                Ok(array) => spec_fixed_from_text(text@, N) == Some(array@),
                Err(JwkError::Base64Decode(_)) => url_base64_bytes(text@) is None,
                Err(JwkError::InvalidLength(e)) => url_base64_bytes(text@) matches Some(bytes)
                    && bytes.len() != N && e.expected == N && e.actual == bytes.len(),
                Err(_) => false,
            },
    {
        match decode_url(text) {
            Err(e) => Err(JwkError::Base64Decode(e)),
            Ok(decoded) => {
                let mut scratch = decoded;
                let r = Self::try_from_slice(scratch.as_slice());
                wipe(&mut scratch);
                match r {
                    Ok(array) => Ok(array),
                    Err(e) => Err(JwkError::InvalidLength(e)),
                }
            },
        }
    }
}

impl<const N: usize> Clone for ByteArray<N> {
    fn clone(&self) -> (r: Self)
        ensures
            r@ == self@,
    {
        proof {
            use_type_invariant(self);
        }
        ByteArray { bytes: slice_to_vec(self.bytes.as_slice()) }
    }
}

impl<const N: usize> Drop for ByteArray<N> {
    fn drop(&mut self)
        opens_invariants none
        no_unwind
    {
        proof {
            use_type_invariant(&*self);
        }
        wipe(&mut self.bytes);
    }
}

} // verus!
