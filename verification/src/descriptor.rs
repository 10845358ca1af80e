//! # Bitcoin Output Script Descriptor (BOSD)
//!
//! A BOSD is a type tag byte followed by a payload. The tag and the payload
//! length together decide which standard ScriptPubKey the descriptor stands
//! for:
//!
//! | tag | payload length | type       |
//! |-----|----------------|------------|
//! | 0   | 0 ..= 80       | `OP_RETURN`|
//! | 1   | 20             | P2PKH      |
//! | 2   | 20             | P2SH       |
//! | 3   | 20             | P2WPKH     |
//! | 3   | 32             | P2WSH      |
//! | 4   | 32             | P2TR       |
//! | 4   | 0              | P2A        |
use vstd::prelude::*;

use crate::error::DescriptorError;

verus! {

/// The largest `OP_RETURN` payload that a descriptor may carry.
pub const MAX_OP_RETURN_LEN: usize = 80;

/// The type of a [`Descriptor`].
#[derive(Debug, Clone, Copy, PartialEq, Eq, Structural)]
pub enum DescriptorType {
    /// `OP_RETURN` payload.
    OpReturn,
    /// P2PKH: a 20-byte HASH160 of a public key.
    P2pkh,
    /// P2SH: a 20-byte HASH160 of a locking script.
    P2sh,
    /// P2WPKH: a 20-byte HASH160 of a public key (SegWit v0).
    P2wpkh,
    /// P2WSH: a 32-byte SHA-256 of a locking script (SegWit v0).
    P2wsh,
    /// P2TR: a 32-byte X-only (tweaked) public key (SegWit v1).
    P2tr,
    /// P2A: pay-to-anchor, with an empty payload (SegWit v1).
    P2a,
}

/// The tag byte that encodes each descriptor type.
pub open spec fn spec_tag(t: DescriptorType) -> u8 {
    match t {
        DescriptorType::OpReturn => 0,
        DescriptorType::P2pkh => 1,
        DescriptorType::P2sh => 2,
        DescriptorType::P2wpkh => 3,
        DescriptorType::P2wsh => 3,
        DescriptorType::P2tr => 4,
        DescriptorType::P2a => 4,
    }
}

/// The payload lengths that each descriptor type admits.
pub open spec fn valid_payload_len(t: DescriptorType, len: nat) -> bool {
    match t {
        DescriptorType::OpReturn => len <= MAX_OP_RETURN_LEN,
        DescriptorType::P2pkh => len == 20,
        DescriptorType::P2sh => len == 20,
        DescriptorType::P2wpkh => len == 20,
        DescriptorType::P2wsh => len == 32,
        DescriptorType::P2tr => len == 32,
        DescriptorType::P2a => len == 0,
    }
}

/// The descriptor type that a tag byte and a payload length stand for: the
/// one type with that tag that admits that length. A tag above 4 is an
/// unknown type; a known tag with a length that none of its types admits is a
/// payload length error.
pub open spec fn spec_from_u8(tag: u8, len: nat) -> Result<DescriptorType, DescriptorError> {
    if tag > 4 {
        Err(DescriptorError::InvalidDescriptorType(tag))
    } else if exists|t: DescriptorType| spec_tag(t) == tag && valid_payload_len(t, len) {
        Ok(choose|t: DescriptorType| spec_tag(t) == tag && valid_payload_len(t, len))
    } else {
        Err(DescriptorError::InvalidPayloadLength(tag, len as usize))
    }
}

/// No two types share both a tag and an admitted payload length.
proof fn lemma_type_unique(t1: DescriptorType, t2: DescriptorType, len: nat)
    requires
        spec_tag(t1) == spec_tag(t2),
        valid_payload_len(t1, len),
        valid_payload_len(t2, len),
    ensures
        t1 == t2,
{
}

/// The type a tag and a length stand for, when `t` is one with both.
proof fn lemma_from_u8_is(t: DescriptorType, len: nat)
    requires
        valid_payload_len(t, len),
    ensures
        spec_from_u8(spec_tag(t), len) == Ok::<_, DescriptorError>(t),
{
    let tag = spec_tag(t);
    assert(spec_tag(t) == tag && valid_payload_len(t, len));
    let c = choose|c: DescriptorType| spec_tag(c) == tag && valid_payload_len(c, len);
    lemma_type_unique(t, c, len);
}

/// What parsing a byte string as a descriptor gives: the type and the
/// payload, or the error.
pub open spec fn spec_parse(bytes: Seq<u8>) -> Result<(DescriptorType, Seq<u8>), DescriptorError> {
    if bytes.len() == 0 {
        Err(DescriptorError::MissingTypeTag)
    } else {
        match spec_from_u8(bytes[0], (bytes.len() - 1) as nat) {
            Ok(t) => Ok((t, bytes.drop_first())),
            Err(e) => Err(e),
        }
    }
}

/// The byte encoding of a descriptor: its tag, then its payload.
pub open spec fn spec_encode(d: (DescriptorType, Seq<u8>)) -> Seq<u8> {
    seq![spec_tag(d.0)] + d.1
}

/// A descriptor model is valid when its payload length fits its type.
pub open spec fn valid_descriptor(d: (DescriptorType, Seq<u8>)) -> bool {
    valid_payload_len(d.0, d.1.len())
}

/// Encoding a type's tag and then decoding it with a payload length that the
/// type admits gives the type back.
pub proof fn lemma_tag_roundtrip(t: DescriptorType, len: nat)
    requires
        valid_payload_len(t, len),
    ensures
        spec_from_u8(spec_tag(t), len) == Ok::<_, DescriptorError>(t),
{
    lemma_from_u8_is(t, len);
}

/// A tag and a payload length are accepted exactly when some type has that
/// tag and admits that length, and then the accepted type is that type.
pub proof fn lemma_from_u8_accepts_exactly(tag: u8, len: nat, t: DescriptorType)
    ensures
        spec_from_u8(tag, len) == Ok::<_, DescriptorError>(t) <==> (spec_tag(t) == tag
            && valid_payload_len(t, len)),
{
    if spec_tag(t) == tag && valid_payload_len(t, len) {
        lemma_from_u8_is(t, len);
    }
}

/// A tag byte above 4 is rejected as an unknown type, whatever the length;
/// a known tag is rejected only for its payload length.
pub proof fn lemma_from_u8_errors(tag: u8, len: nat)
    ensures
        tag > 4 ==> spec_from_u8(tag, len) == Err::<DescriptorType, _>(
            DescriptorError::InvalidDescriptorType(tag),
        ),
        tag <= 4 ==> (spec_from_u8(tag, len) is Ok || spec_from_u8(tag, len) == Err::<
            DescriptorType,
            _,
        >(DescriptorError::InvalidPayloadLength(tag, len as usize))),
{
}

/// Parsing the encoding of a valid descriptor gives the descriptor back.
pub proof fn lemma_encode_then_parse(d: (DescriptorType, Seq<u8>))
    requires
        valid_descriptor(d),
    ensures
        spec_parse(spec_encode(d)) == Ok::<_, DescriptorError>(d),
        spec_encode(d).len() <= MAX_OP_RETURN_LEN + 1,
{
    let bytes = spec_encode(d);
    assert(bytes[0] == spec_tag(d.0));
    assert(bytes.drop_first() =~= d.1);
    lemma_tag_roundtrip(d.0, d.1.len());
}

/// Whatever parses as a descriptor is valid and is exactly the encoding of
/// what it parses to.
pub proof fn lemma_parse_then_encode(bytes: Seq<u8>)
    ensures
        spec_parse(bytes) matches Ok(d) ==> valid_descriptor(d) && spec_encode(d) == bytes,
{
    if let Ok(d) = spec_parse(bytes) {
        lemma_from_u8_accepts_exactly(bytes[0], (bytes.len() - 1) as nat, d.0);
        assert(spec_encode(d) =~= bytes);
    }
}

/// Two valid descriptors with the same encoding are the same descriptor.
pub proof fn lemma_encode_injective(d1: (DescriptorType, Seq<u8>), d2: (DescriptorType, Seq<u8>))
    requires
        valid_descriptor(d1),
        valid_descriptor(d2),
        spec_encode(d1) == spec_encode(d2),
    ensures
        d1 == d2,
{
    lemma_encode_then_parse(d1);
    lemma_encode_then_parse(d2);
}

/// Appends the bytes of `src` to `dst`.
pub(crate) fn append_bytes(dst: &mut Vec<u8>, src: &[u8])
    ensures
        final(dst)@ == old(dst)@ + src@,
{
    dst.extend_from_slice(src);
    assert(final(dst)@ =~= old(dst)@ + src@);
}

impl DescriptorType {
    /// Returns the type tag as a byte.
    pub fn to_u8(self) -> (b: u8)
        ensures
            b == spec_tag(self),
    {
        match self {
            DescriptorType::OpReturn => 0,
            DescriptorType::P2pkh => 1,
            DescriptorType::P2sh => 2,
            DescriptorType::P2wpkh => 3,
            DescriptorType::P2wsh => 3,
            DescriptorType::P2tr => 4,
            DescriptorType::P2a => 4,
        }
    }

    /// Decides the descriptor type from a tag byte and the length of the
    /// payload that follows it.
    pub fn from_u8(byte: u8, payload_len: usize) -> (res: Result<Self, DescriptorError>)
        ensures
            res == spec_from_u8(byte, payload_len as nat),
    {
        let len: Ghost<nat> = Ghost(payload_len as nat);
        let res = match byte {
            0 => {
                if payload_len <= MAX_OP_RETURN_LEN {
                    Ok(DescriptorType::OpReturn)
                } else {
                    Err(DescriptorError::InvalidPayloadLength(byte, payload_len))
                }
            },
            1 => {
                if payload_len == 20 {
                    Ok(DescriptorType::P2pkh)
                } else {
                    Err(DescriptorError::InvalidPayloadLength(byte, payload_len))
                }
            },
            2 => {
                if payload_len == 20 {
                    Ok(DescriptorType::P2sh)
                } else {
                    Err(DescriptorError::InvalidPayloadLength(byte, payload_len))
                }
            },
            3 => {
                if payload_len == 20 {
                    Ok(DescriptorType::P2wpkh)
                } else if payload_len == 32 {
                    Ok(DescriptorType::P2wsh)
                } else {
                    Err(DescriptorError::InvalidPayloadLength(byte, payload_len))
                }
            },
            4 => {
                if payload_len == 32 {
                    Ok(DescriptorType::P2tr)
                } else if payload_len == 0 {
                    Ok(DescriptorType::P2a)
                } else {
                    Err(DescriptorError::InvalidPayloadLength(byte, payload_len))
                }
            },
            _ => Err(DescriptorError::InvalidDescriptorType(byte)),
        };
        proof {
            match res {
                Ok(t) => lemma_from_u8_is(t, len@),
                Err(_) => {
                    assert(!exists|t: DescriptorType|
                        spec_tag(t) == byte && valid_payload_len(t, len@));
                },
            }
        }
        res
    }
}

/// A Bitcoin Output Script Descriptor (BOSD).
///
/// A compact binary format made of a type tag and a payload that together
/// describe a ScriptPubKey that any node relays under standardness rules.
/// The payload length always fits the type.
#[derive(Debug, PartialEq, Eq)]
pub struct Descriptor {
    /// The type of the descriptor.
    type_tag: DescriptorType,
    /// The actual underlying data.
    payload: Vec<u8>,
}

impl View for Descriptor {
    type V = (DescriptorType, Seq<u8>);

    closed spec fn view(&self) -> (DescriptorType, Seq<u8>) {
        (self.type_tag, self.payload@)
    }
}

impl Clone for Descriptor {
    fn clone(&self) -> (res: Self)
        ensures
            res@ == self@,
    {
        proof {
            use_type_invariant(self);
        }
        let payload = self.payload.clone();
        assert(payload@ =~= self.payload@);
        Descriptor { type_tag: self.type_tag, payload }
    }
}

impl Descriptor {
    #[verifier::type_invariant]
    spec fn payload_fits_type(self) -> bool {
        valid_payload_len(self.type_tag, self.payload@.len())
    }

    /// Constructs a new [`Descriptor`] from a byte slice: the first byte is
    /// the type tag, the rest is the payload.
    pub fn from_bytes(bytes: &[u8]) -> (res: Result<Self, DescriptorError>)
        ensures
            match res {
                Ok(d) => spec_parse(bytes@) == Ok::<_, DescriptorError>(d@) && valid_descriptor(d@),
                Err(e) => spec_parse(bytes@) == Err::<(DescriptorType, Seq<u8>), _>(e),
            },
    {
        if bytes.len() == 0 {
            return Err(DescriptorError::MissingTypeTag);
        }
        let payload_len: usize = bytes.len() - 1;
        let type_tag = DescriptorType::from_u8(bytes[0], payload_len)?;
        let mut payload: Vec<u8> = Vec::new();
        append_bytes(&mut payload, vstd::slice::slice_subrange(bytes, 1, bytes.len()));
        assert(payload@ =~= bytes@.drop_first());
        Ok(Descriptor { type_tag, payload })
    }

    /// Constructs a new [`Descriptor`] from an owned byte vector.
    pub fn from_vec(bytes: Vec<u8>) -> (res: Result<Self, DescriptorError>)
        ensures
            match res {
                Ok(d) => spec_parse(bytes@) == Ok::<_, DescriptorError>(d@) && valid_descriptor(d@),
                Err(e) => spec_parse(bytes@) == Err::<(DescriptorType, Seq<u8>), _>(e),
            },
    {
        Descriptor::from_bytes(bytes.as_slice())
    }

    /// Returns the type tag of the descriptor.
    pub fn type_tag(&self) -> (t: DescriptorType)
        ensures
            t == self@.0,
            valid_descriptor(self@),
    {
        proof {
            use_type_invariant(self);
        }
        self.type_tag
    }

    /// Returns the payload of the descriptor.
    pub fn payload(&self) -> (p: &[u8])
        ensures
            p@ == self@.1,
            valid_descriptor(self@),
    {
        proof {
            use_type_invariant(self);
        }
        self.payload.as_slice()
    }

    /// Returns the byte encoding of the descriptor: the tag, then the payload.
    pub fn to_bytes(&self) -> (bytes: Vec<u8>)
        ensures
            bytes@ == spec_encode(self@),
            bytes@.len() <= MAX_OP_RETURN_LEN + 1,
            valid_descriptor(self@),
    {
        proof {
            use_type_invariant(self);
        }
        let mut bytes: Vec<u8> = Vec::new();
        bytes.push(self.type_tag.to_u8());
        append_bytes(&mut bytes, self.payload.as_slice());
        bytes
    }
}

} // verus!
