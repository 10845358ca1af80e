//! Bitcoin Output Script Descriptors (BOSD): a compact binary format made of
//! a one-byte type tag followed by a payload, describing a standard
//! ScriptPubKey.

pub mod address;
pub mod descriptor;
pub mod error;
pub mod ssz_encoding;

pub use descriptor::{Descriptor, DescriptorType, MAX_OP_RETURN_LEN};
pub use error::DescriptorError;
