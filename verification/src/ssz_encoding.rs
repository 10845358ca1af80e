//! SSZ (SimpleSerialize) encoding and decoding of [`Descriptor`].
//!
//! A descriptor is encoded as an opaque SSZ list of bytes,
//! `VariableList<u8, MAX_DESCRIPTOR_SSZ_LEN>`, holding its byte encoding:
//! the work on the list itself is left to `ssz_types` and `ethereum_ssz`.
use vstd::prelude::*;

use ssz::{Decode, Encode};
use ssz_types::typenum::U81;
use ssz_types::VariableList;

use crate::descriptor::{
    lemma_encode_then_parse, lemma_parse_then_encode, spec_encode, spec_parse, valid_descriptor,
    Descriptor, DescriptorType, MAX_OP_RETURN_LEN,
};
use crate::error::DescriptorError;

verus! {

/// Maximum allowed descriptor length for SSZ decoding: one type tag byte
/// plus the largest permitted `OP_RETURN` payload.
pub const MAX_DESCRIPTOR_SSZ_LEN: usize = MAX_OP_RETURN_LEN + 1;

#[verifier::external_type_specification]
#[verifier::external_body]
pub struct ExDecodeError(ssz::DecodeError);

/// Why SSZ bytes could not be decoded into a descriptor.
#[derive(Debug)]
pub enum SszError {
    /// The bytes are not a valid SSZ byte list of at most
    /// [`MAX_DESCRIPTOR_SSZ_LEN`] bytes (`ssz::DecodeError::BytesInvalid`,
    /// with its message).
    BytesInvalid(String),
    /// Any other SSZ decoding error; a byte list gives none.
    Decode(ssz::DecodeError),
    /// The byte list is not a valid BOSD descriptor.
    InvalidDescriptor(DescriptorError),
}

/// Whether `text` occurs in `s`.
pub open spec fn contains_text(s: Seq<char>, text: Seq<char>) -> bool {
    exists|i: int| 0 <= i && i + text.len() <= s.len() && #[trigger] s.subrange(i, i + text.len()) == text
}

/// Decodes `bytes` as an SSZ `VariableList<u8, MAX_DESCRIPTOR_SSZ_LEN>`
/// through `<VariableList<u8, _> as ssz::Decode>::from_ssz_bytes`.
/// A byte list decodes to the bytes themselves when there are at most
/// `MAX_DESCRIPTOR_SSZ_LEN` of them, and fails otherwise with
/// `DecodeError::BytesInvalid` and the message
/// "VariableList of N items exceeds maximum of M"; of the message, only that
/// it holds "exceeds maximum" is stated.
#[verifier::external_body]
fn decode_byte_list(bytes: &[u8]) -> (res: Result<Vec<u8>, SszError>)
    ensures
        res is Ok <==> bytes@.len() <= MAX_DESCRIPTOR_SSZ_LEN,
        res matches Ok(v) ==> v@ == bytes@,
        res matches Err(e) ==> e is BytesInvalid,
        res matches Err(SszError::BytesInvalid(m)) ==> contains_text(m@, "exceeds maximum"@),
{
    match <VariableList<u8, U81> as Decode>::from_ssz_bytes(bytes) {
        Ok(list) => Ok(list.into()),
        Err(ssz::DecodeError::BytesInvalid(message)) => Err(SszError::BytesInvalid(message)),
        Err(other) => Err(SszError::Decode(other)),
    }
}

/// Appends the SSZ encoding of the byte list `bytes` to `buf` through
/// `<VariableList<u8, _> as ssz::Encode>::ssz_append`. A list of bytes is
/// encoded as the bytes themselves, one after the other.
#[verifier::external_body]
fn append_byte_list(bytes: Vec<u8>, buf: &mut Vec<u8>)
    requires
        bytes@.len() <= MAX_DESCRIPTOR_SSZ_LEN,
    ensures
        final(buf)@ == old(buf)@ + bytes@,
{
    let list = VariableList::<u8, U81>::new(bytes).expect("length within the list bound");
    list.ssz_append(buf)
}

/// The length of the SSZ encoding of the byte list `bytes`, through
/// `<VariableList<u8, _> as ssz::Encode>::ssz_bytes_len`: one byte per
/// element.
#[verifier::external_body]
fn byte_list_ssz_len(bytes: Vec<u8>) -> (len: usize)
    requires
        bytes@.len() <= MAX_DESCRIPTOR_SSZ_LEN,
    ensures
        len == bytes@.len(),
{
    let list = VariableList::<u8, U81>::new(bytes).expect("length within the list bound");
    list.ssz_bytes_len()
}

/// `<VariableList<u8, _> as ssz::Encode>::is_ssz_fixed_len`: a variable
/// list is never of fixed length.
#[verifier::external_body]
fn byte_list_is_fixed_len() -> (fixed: bool)
    ensures
        !fixed,
{
    <VariableList<u8, U81> as Encode>::is_ssz_fixed_len()
}

/// `<VariableList<u8, _> as ssz::Encode>::ssz_fixed_len`: for a variable
/// length item this is the size of an SSZ offset, `BYTES_PER_LENGTH_OFFSET`,
/// which is 4.
#[verifier::external_body]
fn byte_list_fixed_len() -> (len: usize)
    ensures
        len == 4,
{
    <VariableList<u8, U81> as Encode>::ssz_fixed_len()
}

impl Descriptor {
    /// A descriptor is a variable-length SSZ item.
    pub fn is_ssz_fixed_len() -> (fixed: bool)
        ensures
            !fixed,
    {
        byte_list_is_fixed_len()
    }

    /// The size of the SSZ offset that stands for a descriptor inside an
    /// SSZ container.
    pub fn ssz_fixed_len() -> (len: usize)
        ensures
            len == 4,
    {
        byte_list_fixed_len()
    }

    /// The length of the SSZ encoding of the descriptor.
    pub fn ssz_bytes_len(&self) -> (len: usize)
        ensures
            len == spec_encode(self@).len(),
    {
        byte_list_ssz_len(self.to_bytes())
    }

    /// Appends the SSZ encoding of the descriptor to `buf`.
    pub fn ssz_append(&self, buf: &mut Vec<u8>)
        ensures
            final(buf)@ == old(buf)@ + spec_encode(self@),
            valid_descriptor(self@),
    {
        append_byte_list(self.to_bytes(), buf)
    }

    /// The SSZ encoding of the descriptor.
    pub fn as_ssz_bytes(&self) -> (bytes: Vec<u8>)
        ensures
            bytes@ == spec_encode(self@),
            valid_descriptor(self@),
    {
        let mut bytes: Vec<u8> = Vec::new();
        self.ssz_append(&mut bytes);
        assert(bytes@ =~= spec_encode(self@));
        bytes
    }

    /// Decodes a descriptor from its SSZ encoding.
    pub fn from_ssz_bytes(bytes: &[u8]) -> (res: Result<Descriptor, SszError>)
        ensures
            res matches Err(SszError::BytesInvalid(_)) <==> bytes@.len() > MAX_DESCRIPTOR_SSZ_LEN,
            !(res matches Err(SszError::Decode(_))),
            res matches Err(SszError::BytesInvalid(m)) ==> contains_text(m@, "exceeds maximum"@),
            bytes@.len() <= MAX_DESCRIPTOR_SSZ_LEN ==> match spec_parse(bytes@) {
                Ok(d) => res matches Ok(r) && r@ == d,
                Err(e) => res matches Err(SszError::InvalidDescriptor(r)) && r == e,
            },
    {
        match decode_byte_list(bytes) {
            Ok(list) => match Descriptor::from_vec(list) {
                Ok(d) => Ok(d),
                Err(e) => Err(SszError::InvalidDescriptor(e)),
            },
            Err(e) => Err(e),
        }
    }
}

/// Decoding the SSZ encoding of a descriptor gives the descriptor back: for
/// every valid descriptor model, its encoding is within the SSZ bound and
/// parses to the model.
pub proof fn lemma_ssz_roundtrip(d: (DescriptorType, Seq<u8>))
    requires
        valid_descriptor(d),
    ensures
        spec_encode(d).len() <= MAX_DESCRIPTOR_SSZ_LEN,
        spec_parse(spec_encode(d)) == Ok::<_, DescriptorError>(d),
{
    lemma_encode_then_parse(d);
}

/// Any byte string that is a valid descriptor is its own SSZ encoding and
/// fits the SSZ bound, so it decodes from SSZ to the same descriptor.
pub proof fn lemma_ssz_bytes_are_descriptor_bytes(bytes: Seq<u8>)
    ensures
        spec_parse(bytes) matches Ok(d) ==> spec_encode(d) == bytes && bytes.len()
            <= MAX_DESCRIPTOR_SSZ_LEN,
{
    lemma_parse_then_encode(bytes);
    if let Ok(d) = spec_parse(bytes) {
        lemma_encode_then_parse(d);
    }
}

} // verus!
