//! A byte container of any length.

use vstd::prelude::*;
use vstd::slice::slice_to_vec;
use crate::base64_text::{decode_url, encode_url, url_base64_bytes, url_base64_text};
use crate::error::JwkError;
use crate::wipe::wipe;

verus! {

/// A big-endian unsigned integer or a symmetric key: bytes of any number,
/// carried as base64 text and overwritten with zeros when dropped.
#[derive(PartialEq, Eq)]
pub struct ByteVec {
    bytes: Vec<u8>,
}

impl View for ByteVec {
    type V = Seq<u8>;

    closed spec fn view(&self) -> Seq<u8> {
        self.bytes@
    }
}

impl ByteVec {
    /// Takes the bytes over as they are.
    pub fn new(bytes: Vec<u8>) -> (r: Self)
        ensures
            r@ == bytes@,
    {
        ByteVec { bytes }
    }

    /// Copies the bytes; any number of them will do.
    pub fn from_slice(bytes: &[u8]) -> (r: Self)
        ensures
            r@ == bytes@,
    {
        ByteVec { bytes: slice_to_vec(bytes) }
    }

    /// The bytes.
    pub fn as_slice(&self) -> (s: &[u8])
        ensures
            s@ == self@,
    {
        self.bytes.as_slice()
    }

    /// The number of bytes.
    pub fn len(&self) -> (n: usize)
        ensures
            n == self@.len(),
    {
        self.bytes.len()
    }

    /// A copy of the bytes as a plain vector.
    pub fn to_vec(&self) -> (v: Vec<u8>)
        ensures
            v@ == self@,
    {
        slice_to_vec(self.bytes.as_slice())
    }

    /// Overwrites every byte with zero; the length stays.
    pub fn zeroize(&mut self)
        ensures
            final(self)@ == Seq::new(old(self)@.len(), |i: int| 0u8),
    {
        wipe(&mut self.bytes);
        assert(self.bytes@ =~= Seq::new(old(self)@.len(), |i: int| 0u8));
    }

    /// The base64 text of the bytes.
    pub fn serialize(&self) -> (text: String)
        ensures
            text@ == url_base64_text(self@),
            url_base64_bytes(text@) == Some(self@),
    {
        encode_url(self.bytes.as_slice())
    }

    /// Decodes base64 text.
    pub fn deserialize(text: &str) -> (r: Result<Self, JwkError>)
        ensures
            match r {
                Ok(v) => url_base64_bytes(text@) == Some(v@),
                Err(JwkError::Base64Decode(_)) => url_base64_bytes(text@) is None,
                Err(_) => false,
            },
    {
        match decode_url(text) {
            Err(e) => Err(JwkError::Base64Decode(e)),
            Ok(decoded) => Ok(ByteVec { bytes: decoded }),
        }
    }
}

impl Clone for ByteVec {
    fn clone(&self) -> (r: Self)
        ensures
            r@ == self@,
    {
        ByteVec { bytes: slice_to_vec(self.bytes.as_slice()) }
    }
}

impl Drop for ByteVec {
    fn drop(&mut self)
        opens_invariants none
        no_unwind
    {
        wipe(&mut self.bytes);
    }
}

} // verus!
