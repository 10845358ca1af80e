//! # Conversions between descriptors and Bitcoin addresses and scripts.
//!
//! Building addresses, scripts and keys is left to the `bitcoin` crate; this
//! module decides which of its constructors a descriptor calls for, and
//! which descriptor an address, a witness program, a script hash or a key
//! stands for.
use vstd::prelude::*;

use bitcoin::address::AddressData;
use bitcoin::key::TweakedPublicKey;
use bitcoin::script::PushBytes;
use bitcoin::{
    Address, Network, PubkeyHash, ScriptBuf, ScriptHash, WitnessProgram, WitnessVersion,
    XOnlyPublicKey,
};

use crate::descriptor::{
    valid_descriptor, append_bytes, lemma_encode_then_parse, spec_tag, valid_payload_len, Descriptor, DescriptorType,
};
use crate::error::DescriptorError;

verus! {

/// A Bitcoin address: a network-checked `bitcoin::Address`, carried as an
/// opaque value. What it encodes is read with `Address::to_address_data`.
#[verifier::external_body]
pub struct BitcoinAddress(pub Address);

#[verifier::external_type_specification]
#[verifier::external_body]
pub struct ExNetwork(Network);

#[verifier::external_type_specification]
#[verifier::external_body]
pub struct ExScriptBuf(ScriptBuf);

#[verifier::external_type_specification]
#[verifier::external_body]
pub struct ExScriptHash(ScriptHash);

#[verifier::external_type_specification]
#[verifier::external_body]
pub struct ExWitnessProgram(WitnessProgram);

#[verifier::external_type_specification]
#[verifier::external_body]
pub struct ExXOnlyPublicKey(XOnlyPublicKey);

#[verifier::external_type_specification]
#[verifier::external_body]
pub struct ExTweakedPublicKey(TweakedPublicKey);

#[verifier::external_type_specification]
#[verifier::external_body]
pub struct ExSecpError(bitcoin::secp256k1::Error);

/// The P2PKH address that `Address::p2pkh` builds from a 20-byte key hash
/// for a network.
pub uninterp spec fn spec_p2pkh_address(hash: Seq<u8>, network: Network) -> BitcoinAddress;

/// The P2SH address that `Address::p2sh_from_hash` builds from a 20-byte
/// script hash for a network.
pub uninterp spec fn spec_p2sh_address(hash: Seq<u8>, network: Network) -> BitcoinAddress;

/// The SegWit address that `Address::from_witness_program` builds from a
/// witness version, a witness program and a network.
pub uninterp spec fn spec_segwit_address(version: u8, program: Seq<u8>, network: Network) -> BitcoinAddress;

/// The key that `XOnlyPublicKey::from_slice` reads from bytes, if they hold one.
pub uninterp spec fn spec_xonly_key(bytes: Seq<u8>) -> Option<XOnlyPublicKey>;

/// The P2TR address that `Address::p2tr_tweaked` builds from an output key
/// taken as already tweaked, for a network.
pub uninterp spec fn spec_p2tr_address(key: XOnlyPublicKey, network: Network) -> BitcoinAddress;

/// The bytes of a script (`ScriptBuf::as_bytes`).
pub uninterp spec fn spec_script_bytes(script: ScriptBuf) -> Seq<u8>;

/// What `Address::to_address_data` tells of an address, as plain values.
pub uninterp spec fn spec_address_payload(address: BitcoinAddress) -> AddressPayload;

/// The version and the program of a witness program
/// (`WitnessProgram::version`, `WitnessProgram::program`).
pub uninterp spec fn spec_witness_program_parts(program: WitnessProgram) -> (u8, Seq<u8>);

/// The 20 bytes of a script hash (`ScriptHash::to_byte_array`).
pub uninterp spec fn spec_script_hash_bytes(hash: ScriptHash) -> Seq<u8>;

/// The 32 bytes of an x-only key (`XOnlyPublicKey::serialize`).
pub uninterp spec fn spec_xonly_key_bytes(key: XOnlyPublicKey) -> Seq<u8>;

/// The 32 bytes of a tweaked key (`TweakedPublicKey::serialize`).
pub uninterp spec fn spec_tweaked_key_bytes(key: TweakedPublicKey) -> Seq<u8>;

/// The witness program of a pay-to-anchor output (SegWit v1).
pub open spec fn spec_p2a_program() -> Seq<u8> {
    seq![0x4eu8, 0x73u8]
}

/// The script instruction that pushes `data`: a length prefix (direct, or
/// after `OP_PUSHDATA1`, `OP_PUSHDATA2` or `OP_PUSHDATA4`, little endian),
/// then the data.
pub open spec fn spec_push(data: Seq<u8>) -> Seq<u8> {
    let n = data.len();
    if n < 0x4c {
        seq![n as u8] + data
    } else if n < 0x100 {
        seq![0x4cu8, n as u8] + data
    } else if n < 0x10000 {
        seq![0x4du8, (n % 0x100) as u8, (n / 0x100) as u8] + data
    } else {
        seq![
            0x4eu8,
            (n % 0x100) as u8,
            ((n / 0x100) % 0x100) as u8,
            ((n / 0x10000) % 0x100) as u8,
            (n / 0x1000000) as u8,
        ] + data
    }
}

/// `OP_RETURN <data>`.
pub open spec fn spec_op_return_script_bytes(data: Seq<u8>) -> Seq<u8> {
    seq![0x6au8] + spec_push(data)
}

/// `OP_DUP OP_HASH160 <hash> OP_EQUALVERIFY OP_CHECKSIG`.
pub open spec fn spec_p2pkh_script_bytes(hash: Seq<u8>) -> Seq<u8> {
    seq![0x76u8, 0xa9u8] + spec_push(hash) + seq![0x88u8, 0xacu8]
}

/// `OP_HASH160 <hash> OP_EQUAL`.
pub open spec fn spec_p2sh_script_bytes(hash: Seq<u8>) -> Seq<u8> {
    seq![0xa9u8] + spec_push(hash) + seq![0x87u8]
}

/// The opcode of a witness version: `OP_0` for version 0, `OP_1` to `OP_16`
/// (0x51 to 0x60) for the others.
pub open spec fn spec_witness_version_opcode(version: u8) -> u8 {
    if version == 0 {
        0
    } else {
        (0x50 + version) as u8
    }
}

/// `<version opcode> <program>`.
pub open spec fn spec_segwit_script_bytes(version: u8, program: Seq<u8>) -> Seq<u8> {
    seq![spec_witness_version_opcode(version)] + spec_push(program)
}

/// Builds a P2PKH address with `Address::p2pkh` from a 20-byte key hash;
/// `to_address_data` gives that hash back.
#[verifier::external_body]
fn p2pkh_address(hash: &[u8], network: Network) -> (a: BitcoinAddress)
    requires
        hash@.len() == 20,
    ensures
        a == spec_p2pkh_address(hash@, network),
        spec_address_payload(a).is_p2pkh_of(hash@),
{
    let bytes: [u8; 20] = hash.try_into().expect("a 20-byte hash");
    BitcoinAddress(Address::p2pkh(<PubkeyHash as bitcoin::hashes::Hash>::from_byte_array(bytes), network))
}

/// Builds a P2SH address with `Address::p2sh_from_hash` from a 20-byte
/// script hash; `to_address_data` gives that hash back.
#[verifier::external_body]
fn p2sh_address(hash: &[u8], network: Network) -> (a: BitcoinAddress)
    requires
        hash@.len() == 20,
    ensures
        a == spec_p2sh_address(hash@, network),
        spec_address_payload(a).is_p2sh_of(hash@),
{
    let bytes: [u8; 20] = hash.try_into().expect("a 20-byte hash");
    BitcoinAddress(Address::p2sh_from_hash(<ScriptHash as bitcoin::hashes::Hash>::from_byte_array(bytes), network))
}

/// Builds a SegWit address with `Address::from_witness_program` from the
/// witness program that `WitnessProgram::new` makes of a version and bytes.
/// `WitnessProgram::new` accepts every version up to 16 and every program of
/// 2 to 40 bytes, of 20 or 32 bytes for version 0; `to_address_data` gives
/// the version and the program back.
#[verifier::external_body]
fn segwit_address(version: u8, program: &[u8], network: Network) -> (a: BitcoinAddress)
    requires
        version <= 16,
        2 <= program@.len() <= 40,
        version == 0 ==> program@.len() == 20 || program@.len() == 32,
    ensures
        a == spec_segwit_address(version, program@, network),
        spec_address_payload(a).is_segwit_of(version, program@),
{
    let version = WitnessVersion::try_from(version).expect("a witness version");
    let program = WitnessProgram::new(version, program).expect("a witness program");
    BitcoinAddress(Address::from_witness_program(program, network))
}

/// Reads an x-only public key from bytes with `XOnlyPublicKey::from_slice`.
/// Whether the bytes hold a key is left unsaid; a key read from bytes
/// serializes (`XOnlyPublicKey::serialize`) back to those bytes, its x
/// coordinate.
#[verifier::external_body]
fn parse_xonly_key(bytes: &[u8]) -> (res: Result<XOnlyPublicKey, bitcoin::secp256k1::Error>)
    ensures
        res is Ok <==> spec_xonly_key(bytes@) is Some,
        res matches Ok(k) ==> spec_xonly_key(bytes@) == Some(k) && spec_xonly_key_bytes(k)
            == bytes@,
{
    XOnlyPublicKey::from_slice(bytes)
}

/// Builds a P2TR address with `Address::p2tr_tweaked` from an x-only key
/// taken as already tweaked (`dangerous_assume_tweaked`); its witness program
/// is version 1 with the serialized key.
#[verifier::external_body]
fn p2tr_address(key: XOnlyPublicKey, network: Network) -> (a: BitcoinAddress)
    ensures
        a == spec_p2tr_address(key, network),
        spec_address_payload(a).is_segwit_of(1, spec_xonly_key_bytes(key)),
{
    BitcoinAddress(Address::p2tr_tweaked(TweakedPublicKey::dangerous_assume_tweaked(key), network))
}

/// The witness program of `WitnessProgram::p2a`, the pay-to-anchor program
/// `4e 73`.
#[verifier::external_body]
fn p2a_program() -> (program: Vec<u8>)
    ensures
        program@ == spec_p2a_program(),
{
    WitnessProgram::p2a().program().as_bytes().to_vec()
}

/// Builds an `OP_RETURN` script with `ScriptBuf::new_op_return`, the data
/// taken as a single push (`PushBytes` holds fewer than 2^32 bytes).
#[verifier::external_body]
fn op_return_script(data: &[u8]) -> (s: ScriptBuf)
    requires
        data@.len() < 0x1_0000_0000,
    ensures
        spec_script_bytes(s) == spec_op_return_script_bytes(data@),
{
    let push: &PushBytes = data.try_into().expect("a short push");
    ScriptBuf::new_op_return(push)
}

/// Builds a P2PKH script with `ScriptBuf::new_p2pkh` from a 20-byte key hash.
#[verifier::external_body]
fn p2pkh_script(hash: &[u8]) -> (s: ScriptBuf)
    requires
        hash@.len() == 20,
    ensures
        spec_script_bytes(s) == spec_p2pkh_script_bytes(hash@),
{
    let bytes: [u8; 20] = hash.try_into().expect("a 20-byte hash");
    ScriptBuf::new_p2pkh(&<PubkeyHash as bitcoin::hashes::Hash>::from_byte_array(bytes))
}

/// Builds a P2SH script with `ScriptBuf::new_p2sh` from a 20-byte script hash.
#[verifier::external_body]
fn p2sh_script(hash: &[u8]) -> (s: ScriptBuf)
    requires
        hash@.len() == 20,
    ensures
        spec_script_bytes(s) == spec_p2sh_script_bytes(hash@),
{
    let bytes: [u8; 20] = hash.try_into().expect("a 20-byte hash");
    ScriptBuf::new_p2sh(&<ScriptHash as bitcoin::hashes::Hash>::from_byte_array(bytes))
}

/// Builds a SegWit output script with `ScriptBuf::new_witness_program` from
/// the witness program that `WitnessProgram::new` makes of a version and
/// bytes (accepted as for `segwit_address`).
#[verifier::external_body]
fn segwit_script(version: u8, program: &[u8]) -> (s: ScriptBuf)
    requires
        version <= 16,
        2 <= program@.len() <= 40,
        version == 0 ==> program@.len() == 20 || program@.len() == 32,
    ensures
        spec_script_bytes(s) == spec_segwit_script_bytes(version, program@),
{
    let version = WitnessVersion::try_from(version).expect("a witness version");
    let program = WitnessProgram::new(version, program).expect("a witness program");
    ScriptBuf::new_witness_program(&program)
}

/// The output script of an address, by `Address::script_pubkey`: the P2PKH
/// or P2SH template around its hash, or its witness version and program.
#[verifier::external_body]
fn address_script_pubkey(address: &BitcoinAddress) -> (s: ScriptBuf)
    ensures
        spec_script_bytes(s) == spec_payload_script_bytes(spec_address_payload(*address)),
{
    address.0.script_pubkey()
}

/// Reads what an address encodes with `Address::to_address_data`, as plain
/// values: the 20-byte hash of a P2PKH or P2SH address, the version (at most
/// 16) and program (2 to 40 bytes, 20 or 32 for version 0) of a SegWit
/// address. `to_address_data` gives no other kind.
#[verifier::external_body]
fn address_payload(address: &BitcoinAddress) -> (p: AddressPayload)
    ensures
        p == spec_address_payload(*address),
        !(p is Unknown),
        p.is_well_formed(),
{
    match address.0.to_address_data() {
        AddressData::P2pkh { pubkey_hash } => AddressPayload::P2pkh(bitcoin::hashes::Hash::to_byte_array(pubkey_hash).to_vec()),
        AddressData::P2sh { script_hash } => AddressPayload::P2sh(bitcoin::hashes::Hash::to_byte_array(script_hash).to_vec()),
        AddressData::Segwit { witness_program } => AddressPayload::Segwit(
            witness_program.version().to_num(),
            witness_program.program().as_bytes().to_vec(),
        ),
        _ => AddressPayload::Unknown,
    }
}

/// Reads the version (`WitnessProgram::version`) and the program bytes
/// (`WitnessProgram::program`) of a witness program.
#[verifier::external_body]
fn witness_program_parts(program: &WitnessProgram) -> (parts: (u8, Vec<u8>))
    ensures
        (parts.0, parts.1@) == spec_witness_program_parts(*program),
{
    (program.version().to_num(), program.program().as_bytes().to_vec())
}

/// The 20 bytes of a script hash, by `ScriptHash::to_byte_array`.
#[verifier::external_body]
fn script_hash_bytes(hash: &ScriptHash) -> (bytes: Vec<u8>)
    ensures
        bytes@ == spec_script_hash_bytes(*hash),
        bytes@.len() == 20,
{
    bitcoin::hashes::Hash::to_byte_array(*hash).to_vec()
}

/// The 32 bytes of an x-only key, by `XOnlyPublicKey::serialize`.
#[verifier::external_body]
fn xonly_key_bytes(key: &XOnlyPublicKey) -> (bytes: Vec<u8>)
    ensures
        bytes@ == spec_xonly_key_bytes(*key),
        bytes@.len() == 32,
{
    key.serialize().to_vec()
}

/// The 32 bytes of a tweaked key, by `TweakedPublicKey::serialize`.
#[verifier::external_body]
fn tweaked_key_bytes(key: &TweakedPublicKey) -> (bytes: Vec<u8>)
    ensures
        bytes@ == spec_tweaked_key_bytes(*key),
        bytes@.len() == 32,
{
    key.serialize().to_vec()
}

/// What an address encodes, as plain values.
#[derive(Debug, PartialEq, Eq)]
pub enum AddressPayload {
    /// The 20-byte key hash of a P2PKH address.
    P2pkh(Vec<u8>),
    /// The 20-byte script hash of a P2SH address.
    P2sh(Vec<u8>),
    /// The witness version and the witness program of a SegWit address.
    Segwit(u8, Vec<u8>),
    /// An address of a kind that this library does not know.
    Unknown,
}

/// Whether a descriptor stands for a SegWit program: version 0 with 20 or
/// 32 bytes, version 1 with 32 bytes, or the pay-to-anchor program.
pub open spec fn segwit_representable(version: u8, program: Seq<u8>) -> bool {
    ||| version == 0 && (program.len() == 20 || program.len() == 32)
    ||| version == 1 && program.len() == 32
    ||| version == 1 && program == spec_p2a_program()
}

/// The descriptor that stands for a representable SegWit program.
pub open spec fn segwit_descriptor(version: u8, program: Seq<u8>) -> (DescriptorType, Seq<u8>) {
    if version == 0 {
        if program.len() == 20 {
            (DescriptorType::P2wpkh, program)
        } else {
            (DescriptorType::P2wsh, program)
        }
    } else if program == spec_p2a_program() {
        (DescriptorType::P2a, Seq::empty())
    } else {
        (DescriptorType::P2tr, program)
    }
}

/// The output script of what an address encodes.
pub open spec fn spec_payload_script_bytes(payload: AddressPayload) -> Seq<u8> {
    match payload {
        AddressPayload::P2pkh(h) => spec_p2pkh_script_bytes(h@),
        AddressPayload::P2sh(h) => spec_p2sh_script_bytes(h@),
        AddressPayload::Segwit(v, p) => spec_segwit_script_bytes(v, p@),
        AddressPayload::Unknown => Seq::empty(),
    }
}

/// Whether two byte strings are equal.
fn bytes_equal(a: &[u8], b: &[u8]) -> (eq: bool)
    ensures
        eq == (a@ == b@),
{
    if a.len() != b.len() {
        return false;
    }
    let mut i: usize = 0;
    while i < a.len()
        invariant
            a@.len() == b@.len(),
            0 <= i <= a@.len(),
            forall|j: int| 0 <= j < i ==> a@[j] == b@[j],
        decreases a@.len() - i,
    {
        if a[i] != b[i] {
            return false;
        }
        i = i + 1;
    }
    assert(a@ =~= b@);
    true
}

impl AddressPayload {
    /// Whether this is a P2PKH address of the key hash `hash`.
    pub open spec fn is_p2pkh_of(self, hash: Seq<u8>) -> bool {
        self matches AddressPayload::P2pkh(h) && h@ == hash
    }

    /// Whether this is a P2SH address of the script hash `hash`.
    pub open spec fn is_p2sh_of(self, hash: Seq<u8>) -> bool {
        self matches AddressPayload::P2sh(h) && h@ == hash
    }

    /// Whether this is a SegWit address of that version and program.
    pub open spec fn is_segwit_of(self, version: u8, program: Seq<u8>) -> bool {
        self matches AddressPayload::Segwit(v, p) && v == version && p@ == program
    }

    /// Whether the hash lengths and the SegWit version and program length are
    /// those that addresses hold: 20-byte hashes, versions up to 16, programs
    /// of 2 to 40 bytes and of 20 or 32 bytes for version 0.
    pub open spec fn is_well_formed(self) -> bool {
        match self {
            AddressPayload::P2pkh(h) => h@.len() == 20,
            AddressPayload::P2sh(h) => h@.len() == 20,
            AddressPayload::Segwit(v, p) => v <= 16 && 2 <= p@.len() <= 40 && (v == 0 ==> (
            p@.len() == 20 || p@.len() == 32)),
            AddressPayload::Unknown => true,
        }
    }

    /// Whether a descriptor stands for this address: P2PKH and P2SH with a
    /// 20-byte hash, and the SegWit programs of `segwit_representable`.
    pub open spec fn is_representable(self) -> bool {
        match self {
            AddressPayload::P2pkh(h) => h@.len() == 20,
            AddressPayload::P2sh(h) => h@.len() == 20,
            AddressPayload::Segwit(v, p) => segwit_representable(v, p@),
            AddressPayload::Unknown => false,
        }
    }

    /// The descriptor that stands for a representable address.
    pub open spec fn spec_descriptor(self) -> (DescriptorType, Seq<u8>) {
        match self {
            AddressPayload::P2pkh(h) => (DescriptorType::P2pkh, h@),
            AddressPayload::P2sh(h) => (DescriptorType::P2sh, h@),
            AddressPayload::Segwit(v, p) => segwit_descriptor(v, p@),
            AddressPayload::Unknown => (DescriptorType::OpReturn, Seq::empty()),
        }
    }

    /// Tells whether a descriptor stands for this address.
    pub fn representable(&self) -> (b: bool)
        ensures
            b == self.is_representable(),
    {
        match self {
            AddressPayload::P2pkh(h) => h.len() == 20,
            AddressPayload::P2sh(h) => h.len() == 20,
            AddressPayload::Segwit(v, p) => {
                if *v == 0 {
                    p.len() == 20 || p.len() == 32
                } else if *v == 1 {
                    let anchor = p2a_program();
                    p.len() == 32 || bytes_equal(p.as_slice(), anchor.as_slice())
                } else {
                    false
                }
            },
            AddressPayload::Unknown => false,
        }
    }
}

/// The address that a descriptor stands for on a network, or why it has none.
pub open spec fn spec_to_address(d: (DescriptorType, Seq<u8>), network: Network) -> Result<
    BitcoinAddress,
    DescriptorError,
> {
    match d.0 {
        DescriptorType::OpReturn => Err(
            DescriptorError::InvalidAddressConversion(DescriptorType::OpReturn),
        ),
        DescriptorType::P2pkh => Ok(spec_p2pkh_address(d.1, network)),
        DescriptorType::P2sh => Ok(spec_p2sh_address(d.1, network)),
        DescriptorType::P2wpkh => Ok(spec_segwit_address(0, d.1, network)),
        DescriptorType::P2wsh => Ok(spec_segwit_address(0, d.1, network)),
        DescriptorType::P2tr => match spec_xonly_key(d.1) {
            Some(k) => Ok(spec_p2tr_address(k, network)),
            None => Err(DescriptorError::InvalidXOnlyPublicKey),
        },
        DescriptorType::P2a => Ok(spec_segwit_address(1, spec_p2a_program(), network)),
    }
}

/// The bytes of the output script that a descriptor stands for.
pub open spec fn spec_script_pubkey_bytes(d: (DescriptorType, Seq<u8>)) -> Seq<u8> {
    match d.0 {
        DescriptorType::OpReturn => spec_op_return_script_bytes(d.1),
        DescriptorType::P2pkh => spec_p2pkh_script_bytes(d.1),
        DescriptorType::P2sh => spec_p2sh_script_bytes(d.1),
        DescriptorType::P2wpkh => spec_segwit_script_bytes(0, d.1),
        DescriptorType::P2wsh => spec_segwit_script_bytes(0, d.1),
        DescriptorType::P2tr => spec_segwit_script_bytes(1, d.1),
        DescriptorType::P2a => spec_segwit_script_bytes(1, spec_p2a_program()),
    }
}

/// The output script of an address that a descriptor stands for is the
/// descriptor's own output script, whatever the network of the address.
pub proof fn lemma_address_script_is_descriptor_script(payload: AddressPayload)
    requires
        payload.is_representable(),
    ensures
        spec_payload_script_bytes(payload) == spec_script_pubkey_bytes(payload.spec_descriptor()),
{
}

/// Which descriptors have an address: every valid descriptor but an
/// `OP_RETURN` one and a P2TR one whose payload is not an x-only key; those
/// two fail with `InvalidAddressConversion(OpReturn)` and
/// `InvalidXOnlyPublicKey`.
pub proof fn lemma_to_address_outcome(d: (DescriptorType, Seq<u8>), network: Network)
    requires
        valid_descriptor(d),
    ensures
        spec_to_address(d, network) is Ok <==> d.0 != DescriptorType::OpReturn && (d.0
            == DescriptorType::P2tr ==> spec_xonly_key(d.1) is Some),
        d.0 == DescriptorType::OpReturn ==> spec_to_address(d, network) == Err::<
            BitcoinAddress,
            _,
        >(DescriptorError::InvalidAddressConversion(DescriptorType::OpReturn)),
        d.0 == DescriptorType::P2tr && spec_xonly_key(d.1) is None ==> spec_to_address(d, network)
            == Err::<BitcoinAddress, _>(DescriptorError::InvalidXOnlyPublicKey),
{
}

/// The output script of each descriptor type, byte by byte: `OP_RETURN`
/// followed by one push of the whole payload; the P2PKH and P2SH templates
/// around the 20-byte hash; `OP_0` or `OP_1` with a push of the 20- or
/// 32-byte program; and `OP_1 <4e73>` for pay-to-anchor.
pub proof fn lemma_script_pubkey_layout(d: (DescriptorType, Seq<u8>))
    requires
        valid_descriptor(d),
    ensures
        spec_script_pubkey_bytes(d) == match d.0 {
            DescriptorType::OpReturn => if d.1.len() < 0x4c {
                seq![0x6au8, d.1.len() as u8] + d.1
            } else {
                seq![0x6au8, 0x4cu8, d.1.len() as u8] + d.1
            },
            DescriptorType::P2pkh => seq![0x76u8, 0xa9u8, 0x14u8] + d.1 + seq![0x88u8, 0xacu8],
            DescriptorType::P2sh => seq![0xa9u8, 0x14u8] + d.1 + seq![0x87u8],
            DescriptorType::P2wpkh => seq![0x00u8, 0x14u8] + d.1,
            DescriptorType::P2wsh => seq![0x00u8, 0x20u8] + d.1,
            DescriptorType::P2tr => seq![0x51u8, 0x20u8] + d.1,
            DescriptorType::P2a => seq![0x51u8, 0x02u8, 0x4eu8, 0x73u8],
        },
{
    match d.0 {
        DescriptorType::OpReturn => {
            if d.1.len() < 0x4c {
                assert(spec_script_pubkey_bytes(d) =~= seq![0x6au8, d.1.len() as u8] + d.1);
            } else {
                assert(spec_script_pubkey_bytes(d) =~= seq![0x6au8, 0x4cu8, d.1.len() as u8] + d.1);
            }
        },
        DescriptorType::P2pkh => {
            assert(spec_script_pubkey_bytes(d) =~= seq![0x76u8, 0xa9u8, 0x14u8] + d.1 + seq![
                0x88u8,
                0xacu8,
            ]);
        },
        DescriptorType::P2sh => {
            assert(spec_script_pubkey_bytes(d) =~= seq![0xa9u8, 0x14u8] + d.1 + seq![0x87u8]);
        },
        DescriptorType::P2wpkh => {
            assert(spec_script_pubkey_bytes(d) =~= seq![0x00u8, 0x14u8] + d.1);
        },
        DescriptorType::P2wsh => {
            assert(spec_script_pubkey_bytes(d) =~= seq![0x00u8, 0x20u8] + d.1);
        },
        DescriptorType::P2tr => {
            assert(spec_script_pubkey_bytes(d) =~= seq![0x51u8, 0x20u8] + d.1);
        },
        DescriptorType::P2a => {
            assert(spec_script_pubkey_bytes(d) =~= seq![0x51u8, 0x02u8, 0x4eu8, 0x73u8]);
        },
    }
}

/// The descriptor made of a tag and a payload that fit together.
fn from_tag_and_payload(tag: u8, payload: &[u8], Ghost(expected): Ghost<DescriptorType>) -> (d: Descriptor)
    requires
        spec_tag(expected) == tag,
        valid_payload_len(expected, payload@.len()),
    ensures
        d@ == (expected, payload@),
{
    let mut bytes: Vec<u8> = Vec::new();
    bytes.push(tag);
    append_bytes(&mut bytes, payload);
    proof {
        lemma_encode_then_parse((expected, payload@));
    }
    match Descriptor::from_vec(bytes) {
        Ok(d) => d,
        Err(_) => unreached(),
    }
}

impl BitcoinAddress {
    /// The output script (ScriptPubKey) of the address.
    pub fn script_pubkey(&self) -> (s: ScriptBuf)
        ensures
            spec_script_bytes(s) == spec_payload_script_bytes(spec_address_payload(*self)),
    {
        address_script_pubkey(self)
    }
}

impl Descriptor {
    /// Converts the descriptor to a Bitcoin address on a [`Network`].
    /// An `OP_RETURN` descriptor has no address, and a P2TR descriptor has
    /// one only when its payload is a valid x-only public key. The address
    /// converts back to this descriptor.
    pub fn to_address(&self, network: Network) -> (res: Result<BitcoinAddress, DescriptorError>)
        ensures
            res == spec_to_address(self@, network),
            res matches Ok(a) ==> spec_address_payload(a).is_representable()
                && spec_address_payload(a).spec_descriptor() == self@,
            res is Ok <==> self@.0 != DescriptorType::OpReturn && (self@.0 == DescriptorType::P2tr
                ==> spec_xonly_key(self@.1) is Some),
    {
        let payload = self.payload();
        proof {
            lemma_to_address_outcome(self@, network);
        }
        match self.type_tag() {
            DescriptorType::OpReturn => Err(
                DescriptorError::InvalidAddressConversion(DescriptorType::OpReturn),
            ),
            DescriptorType::P2pkh => Ok(p2pkh_address(payload, network)),
            DescriptorType::P2sh => Ok(p2sh_address(payload, network)),
            DescriptorType::P2wpkh => Ok(segwit_address(0, payload, network)),
            DescriptorType::P2wsh => Ok(segwit_address(0, payload, network)),
            DescriptorType::P2tr => match parse_xonly_key(payload) {
                Ok(key) => {
                    let a = p2tr_address(key, network);
                    assert(payload@ != spec_p2a_program());
                    Ok(a)
                },
                Err(_) => Err(DescriptorError::InvalidXOnlyPublicKey),
            },
            DescriptorType::P2a => {
                let program = p2a_program();
                let a = segwit_address(1, program.as_slice(), network);
                assert(payload@ =~= Seq::<u8>::empty());
                Ok(a)
            },
        }
    }

    /// Converts the descriptor to the output script (ScriptPubKey) that it
    /// stands for.
    pub fn to_script_pubkey(&self) -> (s: ScriptBuf)
        ensures
            spec_script_bytes(s) == spec_script_pubkey_bytes(self@),
            self@.0 == DescriptorType::OpReturn ==> ({
                let script = spec_script_bytes(s);
                &&& script[0] == 0x6a
                &&& script.len() == self@.1.len() + if self@.1.len() < 0x4c {
                    2int
                } else {
                    3int
                }
                &&& script.skip(script.len() - self@.1.len()) == self@.1
            }),
    {
        let payload = self.payload();
        proof {
            lemma_script_pubkey_layout(self@);
            let script = spec_script_pubkey_bytes(self@);
            if self@.0 == DescriptorType::OpReturn {
                assert(script.skip(script.len() - self@.1.len()) =~= self@.1);
            }
        }
        match self.type_tag() {
            DescriptorType::OpReturn => op_return_script(payload),
            DescriptorType::P2pkh => p2pkh_script(payload),
            DescriptorType::P2sh => p2sh_script(payload),
            DescriptorType::P2wpkh => segwit_script(0, payload),
            DescriptorType::P2wsh => segwit_script(0, payload),
            DescriptorType::P2tr => segwit_script(1, payload),
            DescriptorType::P2a => {
                let program = p2a_program();
                segwit_script(1, program.as_slice())
            },
        }
    }

    /// The descriptor that stands for what an address encodes.
    pub fn from_address_payload(payload: &AddressPayload) -> (d: Descriptor)
        requires
            payload.is_representable(),
        ensures
            d@ == payload.spec_descriptor(),
    {
        match payload {
            AddressPayload::P2pkh(h) => {
                from_tag_and_payload(1, h.as_slice(), Ghost(DescriptorType::P2pkh))
            },
            AddressPayload::P2sh(h) => {
                from_tag_and_payload(2, h.as_slice(), Ghost(DescriptorType::P2sh))
            },
            AddressPayload::Segwit(v, p) => {
                if *v == 0 {
                    if p.len() == 20 {
                        from_tag_and_payload(3, p.as_slice(), Ghost(DescriptorType::P2wpkh))
                    } else {
                        from_tag_and_payload(3, p.as_slice(), Ghost(DescriptorType::P2wsh))
                    }
                } else if p.len() == 32 {
                    assert(p@ != spec_p2a_program());
                    from_tag_and_payload(4, p.as_slice(), Ghost(DescriptorType::P2tr))
                } else {
                    let empty: Vec<u8> = Vec::new();
                    from_tag_and_payload(4, empty.as_slice(), Ghost(DescriptorType::P2a))
                }
            },
            AddressPayload::Unknown => unreached(),
        }
    }

    /// The descriptor that stands for a Bitcoin address, if any does: every
    /// P2PKH and P2SH address, SegWit v0 addresses, SegWit v1 addresses with
    /// a 32-byte program, and the pay-to-anchor address.
    pub fn from_address(address: &BitcoinAddress) -> (res: Option<Descriptor>)
        ensures
            spec_address_payload(*address).is_well_formed(),
            spec_address_payload(*address) is P2pkh || spec_address_payload(*address) is P2sh
                ==> res is Some,
            match res {
                Some(d) => spec_address_payload(*address).is_representable() && d@
                    == spec_address_payload(*address).spec_descriptor(),
                None => !spec_address_payload(*address).is_representable(),
            },
    {
        let payload = address_payload(address);
        if payload.representable() {
            Some(Descriptor::from_address_payload(&payload))
        } else {
            None
        }
    }

    /// The descriptor that stands for a witness program, if any does: a
    /// version 0 program (P2WPKH or P2WSH), a 32-byte version 1 program
    /// (P2TR), or the pay-to-anchor program (P2A).
    pub fn from_witness_program(program: &WitnessProgram) -> (res: Option<Descriptor>)
        ensures
            ({
                let parts = spec_witness_program_parts(*program);
                match res {
                    Some(d) => segwit_representable(parts.0, parts.1) && d@ == segwit_descriptor(
                        parts.0,
                        parts.1,
                    ),
                    None => !segwit_representable(parts.0, parts.1),
                }
            }),
    {
        let (version, bytes) = witness_program_parts(program);
        let payload = AddressPayload::Segwit(version, bytes);
        if payload.representable() {
            Some(Descriptor::from_address_payload(&payload))
        } else {
            None
        }
    }

    /// The P2SH descriptor of a script hash.
    pub fn from_script_hash(hash: &ScriptHash) -> (d: Descriptor)
        ensures
            d@ == (DescriptorType::P2sh, spec_script_hash_bytes(*hash)),
    {
        let bytes = script_hash_bytes(hash);
        from_tag_and_payload(2, bytes.as_slice(), Ghost(DescriptorType::P2sh))
    }

    /// The P2TR descriptor of an output key that is already tweaked.
    pub fn from_tweaked_public_key(key: &TweakedPublicKey) -> (d: Descriptor)
        ensures
            d@ == (DescriptorType::P2tr, spec_tweaked_key_bytes(*key)),
    {
        let bytes = tweaked_key_bytes(key);
        from_tag_and_payload(4, bytes.as_slice(), Ghost(DescriptorType::P2tr))
    }

    /// The P2TR descriptor of an x-only public key, taken as the output key.
    pub fn from_x_only_public_key(key: &XOnlyPublicKey) -> (d: Descriptor)
        ensures
            d@ == (DescriptorType::P2tr, spec_xonly_key_bytes(*key)),
    {
        let bytes = xonly_key_bytes(key);
        from_tag_and_payload(4, bytes.as_slice(), Ghost(DescriptorType::P2tr))
    }
}

} // verus!
