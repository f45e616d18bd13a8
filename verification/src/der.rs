//! The DER values that a PKCS#8 structure is built from.
//!
//! Each function here hands one value to the DER writer and returns its
//! encoding. What the writer produces is named, not restated: the structure
//! of a key's encoding is then a term over these names.

use vstd::prelude::*;

verus! {

/// The DER encoding of a small signed integer.
pub uninterp spec fn der_i8(value: i8) -> Seq<u8>;

/// The DER encoding of an unsigned 32-bit integer.
pub uninterp spec fn der_u32(value: u32) -> Seq<u8>;

/// The DER encoding of the unsigned integer that big-endian bytes spell.
pub uninterp spec fn der_biguint(bytes: Seq<u8>) -> Seq<u8>;

/// The DER encoding of an octet string.
pub uninterp spec fn der_octets(bytes: Seq<u8>) -> Seq<u8>;

/// The DER encoding of a bit string of `bit_len` bits held in whole bytes.
pub uninterp spec fn der_bits(bytes: Seq<u8>, bit_len: usize) -> Seq<u8>;

/// The DER encoding of an object identifier.
pub uninterp spec fn der_oid(components: Seq<u64>) -> Seq<u8>;

/// The DER encoding of a sequence whose members' encodings are `content`.
pub uninterp spec fn der_sequence(content: Seq<u8>) -> Seq<u8>;

/// The DER encoding of `inner` under an explicit context-specific tag.
pub uninterp spec fn der_tagged(tag_number: u64, inner: Seq<u8>) -> Seq<u8>;

/// The identifiers that the DER writer can encode: at least two components,
/// the first below three, the second below forty unless the first is two.
pub open spec fn spec_oid_encodable(components: Seq<u64>) -> bool {
    &&& components.len() >= 2
    &&& components[0] < 3
    &&& components[1] < 18446744073709551535
    &&& (components[0] >= 2 || components[1] < 40)
}

/// Trusted: `yasna::construct_der` around `DERWriter::write_i8`; the result
/// is the INTEGER that the writer produces for the value.
#[verifier::external_body]
pub(crate) fn write_i8(value: i8) -> (der: Vec<u8>)
    ensures
        der@ == der_i8(value),
{
    yasna::construct_der(|writer| writer.write_i8(value))
}

/// Trusted: `yasna::construct_der` around `DERWriter::write_u32`; the
/// result is the INTEGER that the writer produces for the value.
#[verifier::external_body]
pub(crate) fn write_u32(value: u32) -> (der: Vec<u8>)
    ensures
        der@ == der_u32(value),
{
    yasna::construct_der(|writer| writer.write_u32(value))
}

/// Trusted: `num_bigint::BigUint::from_bytes_be` on the bytes, then
/// `DERWriter::write_biguint` inside `yasna::construct_der`; the result is
/// the INTEGER that the writer produces for that number.
#[verifier::external_body]
pub(crate) fn write_biguint(bytes: &[u8]) -> (der: Vec<u8>)
    ensures
        der@ == der_biguint(bytes@),
{
    let number = num_bigint::BigUint::from_bytes_be(bytes);
    yasna::construct_der(|writer| writer.write_biguint(&number))
}

/// Trusted: `yasna::construct_der` around `DERWriter::write_bytes`; the
/// result is the OCTET STRING that the writer produces for the bytes.
#[verifier::external_body]
pub(crate) fn write_octets(bytes: &[u8]) -> (der: Vec<u8>)
    ensures
        der@ == der_octets(bytes@),
{
    yasna::construct_der(|writer| writer.write_bytes(bytes))
}

/// Trusted: `yasna::construct_der` around `DERWriter::write_bitvec_bytes`;
/// the result is the BIT STRING that the writer produces. The writer
/// subtracts the bit count from eight times the byte count, so the two
/// must agree; here the bits always fill the bytes.
#[verifier::external_body]
pub(crate) fn write_bits(bytes: &[u8], bit_len: usize) -> (der: Vec<u8>)
    requires
        bit_len == 8 * bytes@.len(),
    ensures
        der@ == der_bits(bytes@, bit_len),
{
    yasna::construct_der(|writer| writer.write_bitvec_bytes(bytes, bit_len))
}

/// Trusted: `yasna::construct_der` around `DERWriter::write_null`, which
/// writes the tag 5 and the length 0.
#[verifier::external_body]
pub(crate) fn write_null() -> (der: Vec<u8>)
    ensures
        der@ == seq![5u8, 0u8],
{
    yasna::construct_der(|writer| writer.write_null())
}

/// Trusted: `yasna::models::ObjectIdentifier::from_slice` on the
/// components, then `DERWriter::write_oid` inside `yasna::construct_der`.
/// The writer refuses identifiers that have no canonical encoding, which
/// the precondition leaves out.
#[verifier::external_body]
pub(crate) fn write_oid(components: &[u64]) -> (der: Vec<u8>)
    requires
        spec_oid_encodable(components@),
    ensures
        der@ == der_oid(components@),
{
    let oid = yasna::models::ObjectIdentifier::from_slice(components);
    yasna::construct_der(|writer| writer.write_oid(&oid))
}

/// Trusted: `DERWriter::write_sequence` inside `yasna::construct_der`, with
/// the members' encodings copied in by `DERWriter::write_der`; the result
/// is the SEQUENCE header that the writer produces followed by `content`.
#[verifier::external_body]
pub(crate) fn write_sequence(content: &[u8]) -> (der: Vec<u8>)
    ensures
        der@ == der_sequence(content@),
{
    yasna::construct_der(|writer| writer.write_sequence(|seq| seq.next().write_der(content)))
}

/// Trusted: `DERWriter::write_tagged` with `yasna::Tag::context` inside
/// `yasna::construct_der`, the tagged value copied in by
/// `DERWriter::write_der`; the result is the explicit tag's header that the
/// writer produces followed by `inner`.
#[verifier::external_body]
pub(crate) fn write_tagged(tag_number: u64, inner: &[u8]) -> (der: Vec<u8>)
    ensures
        der@ == der_tagged(tag_number, inner@),
{
    yasna::construct_der(|writer| {
        writer.write_tagged(yasna::Tag::context(tag_number), |w| w.write_der(inner))
    })
}

/// Appends `src` to `dst`.
pub(crate) fn append_bytes(dst: &mut Vec<u8>, src: &[u8])
    ensures
        final(dst)@ == old(dst)@ + src@,
{
    dst.extend_from_slice(src);
    assert(dst@ =~= old(dst)@ + src@);
}

} // verus!
