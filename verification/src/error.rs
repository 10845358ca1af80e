//! Errors produced while parsing or converting descriptors.

use vstd::prelude::*;

use crate::descriptor::DescriptorType;

verus! {

/// Errors raised by [`crate::Descriptor`] construction and conversion.
#[derive(Debug, Clone, Copy, PartialEq, Eq, Structural)]
pub enum DescriptorError {
    /// The input holds no byte at all, so there is no type tag.
    MissingTypeTag,
    /// The type tag is not one of the known tags.
    InvalidDescriptorType(u8),
    /// The type tag is known but the payload length does not fit it:
    /// the tag and the payload length.
    InvalidPayloadLength(u8, usize),
    /// The descriptor type has no Bitcoin address (`OP_RETURN`).
    InvalidAddressConversion(DescriptorType),
    /// The 32-byte payload of a P2TR descriptor is not a valid x-only key.
    InvalidXOnlyPublicKey,
}

} // verus!
