use bosd::descriptor::{Descriptor, DescriptorType, MAX_OP_RETURN_LEN};
use bosd::DescriptorError;

const ALL_TYPES: [DescriptorType; 7] = [
    DescriptorType::OpReturn,
    DescriptorType::P2pkh,
    DescriptorType::P2sh,
    DescriptorType::P2wpkh,
    DescriptorType::P2wsh,
    DescriptorType::P2tr,
    DescriptorType::P2a,
];

fn payload_len_of(t: DescriptorType) -> usize {
    match t {
        DescriptorType::OpReturn => 19,
        DescriptorType::P2pkh | DescriptorType::P2sh | DescriptorType::P2wpkh => 20,
        DescriptorType::P2wsh | DescriptorType::P2tr => 32,
        DescriptorType::P2a => 0,
    }
}

#[test]
fn type_tags_are_bytes() {
    assert_eq!(DescriptorType::OpReturn.to_u8(), 0);
    assert_eq!(DescriptorType::P2pkh.to_u8(), 1);
    assert_eq!(DescriptorType::P2sh.to_u8(), 2);
    assert_eq!(DescriptorType::P2wpkh.to_u8(), 3);
    assert_eq!(DescriptorType::P2wsh.to_u8(), 3);
    assert_eq!(DescriptorType::P2tr.to_u8(), 4);
    assert_eq!(DescriptorType::P2a.to_u8(), 4);
}

#[test]
fn from_u8_recovers_every_type() {
    for t in ALL_TYPES {
        assert_eq!(DescriptorType::from_u8(t.to_u8(), payload_len_of(t)), Ok(t));
    }
}

#[test]
fn from_u8_rejects_unknown_tags() {
    for tag in 5u8..=255 {
        assert_eq!(
            DescriptorType::from_u8(tag, 20),
            Err(DescriptorError::InvalidDescriptorType(tag))
        );
    }
}

#[test]
fn from_u8_rejects_wrong_lengths() {
    assert_eq!(
        DescriptorType::from_u8(1, 19),
        Err(DescriptorError::InvalidPayloadLength(1, 19))
    );
    assert_eq!(
        DescriptorType::from_u8(2, 32),
        Err(DescriptorError::InvalidPayloadLength(2, 32))
    );
    assert_eq!(
        DescriptorType::from_u8(3, 21),
        Err(DescriptorError::InvalidPayloadLength(3, 21))
    );
    assert_eq!(
        DescriptorType::from_u8(4, 20),
        Err(DescriptorError::InvalidPayloadLength(4, 20))
    );
    assert_eq!(
        DescriptorType::from_u8(0, MAX_OP_RETURN_LEN + 1),
        Err(DescriptorError::InvalidPayloadLength(0, MAX_OP_RETURN_LEN + 1))
    );
    assert_eq!(DescriptorType::from_u8(0, MAX_OP_RETURN_LEN), Ok(DescriptorType::OpReturn));
    assert_eq!(DescriptorType::from_u8(0, 0), Ok(DescriptorType::OpReturn));
}

#[test]
fn from_bytes_empty_is_missing_tag() {
    assert_eq!(Descriptor::from_bytes(&[]), Err(DescriptorError::MissingTypeTag));
    assert_eq!(Descriptor::from_vec(Vec::new()), Err(DescriptorError::MissingTypeTag));
}

#[test]
fn from_bytes_splits_tag_and_payload() {
    let bytes = [3u8; 33];
    let d = Descriptor::from_bytes(&bytes).unwrap();
    assert_eq!(d.type_tag(), DescriptorType::P2wsh);
    assert_eq!(d.payload(), &bytes[1..]);
    assert_eq!(d.to_bytes(), bytes.to_vec());
}

#[test]
fn from_bytes_errors() {
    assert_eq!(
        Descriptor::from_bytes(&[9, 1, 2]),
        Err(DescriptorError::InvalidDescriptorType(9))
    );
    assert_eq!(
        Descriptor::from_bytes(&[1, 1, 2]),
        Err(DescriptorError::InvalidPayloadLength(1, 2))
    );
    let long = vec![0u8; MAX_OP_RETURN_LEN + 2];
    assert_eq!(
        Descriptor::from_vec(long),
        Err(DescriptorError::InvalidPayloadLength(0, MAX_OP_RETURN_LEN + 1))
    );
}

#[test]
fn encode_then_parse_roundtrip() {
    for t in ALL_TYPES {
        let mut bytes = vec![t.to_u8()];
        bytes.extend((0..payload_len_of(t)).map(|i| i as u8 ^ 0x5a));
        let d = Descriptor::from_bytes(&bytes).unwrap();
        assert_eq!(d.type_tag(), t);
        assert_eq!(d.to_bytes(), bytes);
        assert_eq!(Descriptor::from_vec(d.to_bytes()).unwrap(), d);
    }
}

#[test]
fn clone_keeps_the_descriptor() {
    let d = Descriptor::from_bytes(&[0, 1, 2, 3]).unwrap();
    let c = d.clone();
    assert_eq!(c, d);
    assert_eq!(c.payload(), &[1, 2, 3]);
}

#[test]
fn distinct_descriptors_have_distinct_bytes() {
    let a = Descriptor::from_bytes(&[3u8; 21]).unwrap();
    let b = Descriptor::from_bytes(&[1u8; 21]).unwrap();
    assert_ne!(a, b);
    assert_ne!(a.to_bytes(), b.to_bytes());
}
