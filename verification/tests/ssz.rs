use bosd::descriptor::{Descriptor, DescriptorType, MAX_OP_RETURN_LEN};
use bosd::ssz_encoding::{SszError, MAX_DESCRIPTOR_SSZ_LEN};
use bosd::DescriptorError;

fn descriptor_from_hex(s: &str) -> Descriptor {
    let bytes = <Vec<u8> as bitcoin::hex::FromHex>::from_hex(s).unwrap();
    Descriptor::from_bytes(&bytes).unwrap()
}

fn test_roundtrip(descriptor: &Descriptor) {
    let encoded = descriptor.as_ssz_bytes();
    let decoded = Descriptor::from_ssz_bytes(&encoded).unwrap();

    assert_eq!(encoded, descriptor.to_bytes());
    assert_eq!(descriptor.ssz_bytes_len(), encoded.len());
    assert_eq!(*descriptor, decoded);
}

#[test]
fn ssz_op_return() {
    let descriptor = descriptor_from_hex("00636861726c6579206c6f766573206865696469");

    test_roundtrip(&descriptor);
    assert_eq!(descriptor.type_tag(), DescriptorType::OpReturn);
    assert_eq!(descriptor.payload(), b"charley loves heidi");
}

#[test]
fn ssz_p2pkh() {
    let descriptor = descriptor_from_hex("01b8268ce4d481413c4e848ff353cd16104291c45b");

    test_roundtrip(&descriptor);
    assert_eq!(descriptor.type_tag(), DescriptorType::P2pkh);
}

#[test]
fn ssz_p2sh() {
    let descriptor = descriptor_from_hex("02748284390f9e263a4b766a75d0633c50426eb875");

    test_roundtrip(&descriptor);
    assert_eq!(descriptor.type_tag(), DescriptorType::P2sh);
}

#[test]
fn ssz_p2wpkh() {
    let descriptor = descriptor_from_hex("03671041727b982843f7e3db4669c2f542e05096fb");

    test_roundtrip(&descriptor);
    assert_eq!(descriptor.type_tag(), DescriptorType::P2wpkh);
}

#[test]
fn ssz_p2wsh() {
    let descriptor = descriptor_from_hex(
        "0365f91a53cb7120057db3d378bd0f7d944167d43a7dcbff15d6afc4823f1d3ed3",
    );

    test_roundtrip(&descriptor);
    assert_eq!(descriptor.type_tag(), DescriptorType::P2wsh);
}

#[test]
fn ssz_p2a() {
    let descriptor = descriptor_from_hex("04");

    test_roundtrip(&descriptor);
    assert_eq!(descriptor.type_tag(), DescriptorType::P2a);
}

#[test]
fn ssz_p2tr() {
    let descriptor = descriptor_from_hex(
        "040f0c8db753acbd17343a39c2f3f4e35e4be6da749f9e35137ab220e7b238a667",
    );

    test_roundtrip(&descriptor);
    assert_eq!(descriptor.type_tag(), DescriptorType::P2tr);
}

#[test]
fn invalid_ssz_deserialization() {
    let invalid_bytes: Vec<u8> = vec![5; 33];
    let result = Descriptor::from_ssz_bytes(&invalid_bytes);

    assert!(result.is_err());
}

#[test]
fn ssz_empty_input_rejected() {
    let result = Descriptor::from_ssz_bytes(&[]);

    assert!(result.is_err());
}

#[test]
fn ssz_oversized_length_rejected() {
    let oversized = vec![0u8; MAX_DESCRIPTOR_SSZ_LEN + 1];
    let result = Descriptor::from_ssz_bytes(&oversized);

    assert!(matches!(result, Err(SszError::BytesInvalid(_))));
    match result {
        Err(SszError::BytesInvalid(message)) => assert!(message.contains("exceeds maximum")),
        _ => panic!("expected an over-long list to be rejected"),
    }
}

#[test]
fn ssz_in_range_invalid_bosd_rejected() {
    let invalid = vec![0x03, 0x01];
    let result = Descriptor::from_ssz_bytes(&invalid);

    assert!(matches!(result, Err(SszError::InvalidDescriptor(_))));
    assert!(matches!(
        result,
        Err(SszError::InvalidDescriptor(DescriptorError::InvalidPayloadLength(3, 1)))
    ));
}

#[test]
fn ssz_roundtrip_property() {
    // Pseudo-random byte strings of every length from 1 to one past the
    // longest descriptor, with tags drawn from the known ones and beyond:
    // whatever parses as a descriptor is its own SSZ encoding and decodes back
    // to the same descriptor.
    let mut state: u64 = 0x2545_f491_4f6c_dd1d;
    let mut next = move || {
        state ^= state << 13;
        state ^= state >> 7;
        state ^= state << 17;
        state
    };
    let mut accepted = 0;
    for _ in 0..20_000 {
        let len = 1 + (next() % (MAX_OP_RETURN_LEN as u64 + 1)) as usize;
        let mut data: Vec<u8> = (0..len).map(|_| next() as u8).collect();
        data[0] = (next() % 7) as u8;
        if let Ok(descriptor) = Descriptor::from_bytes(&data) {
            accepted += 1;
            let encoded = descriptor.as_ssz_bytes();
            let decoded = Descriptor::from_ssz_bytes(&encoded).unwrap();

            assert_eq!(encoded, data);
            assert_eq!(descriptor, decoded);
        }
    }
    assert!(accepted > 0);
    for len in [1usize, 21, 33] {
        for tag in 0u8..=4 {
            let mut data = vec![0x5au8; len];
            data[0] = tag;
            if let Ok(descriptor) = Descriptor::from_bytes(&data) {
                assert_eq!(descriptor.as_ssz_bytes(), data);
                assert_eq!(Descriptor::from_ssz_bytes(&data).unwrap(), descriptor);
            }
        }
    }
}

#[test]
fn ssz_fixed_length_facts() {
    assert!(!Descriptor::is_ssz_fixed_len());
    assert_eq!(Descriptor::ssz_fixed_len(), 4);
}

#[test]
fn ssz_append_extends_buffer() {
    let descriptor = descriptor_from_hex("02748284390f9e263a4b766a75d0633c50426eb875");
    let mut buf = vec![0xaa, 0xbb];
    descriptor.ssz_append(&mut buf);
    let mut expected = vec![0xaa, 0xbb];
    expected.extend_from_slice(&descriptor.to_bytes());
    assert_eq!(buf, expected);
    assert_eq!(buf.len(), 2 + 21);
}

#[test]
fn ssz_longest_descriptor_accepted() {
    let mut bytes = vec![0u8; MAX_DESCRIPTOR_SSZ_LEN];
    bytes[1] = 7;
    let decoded = Descriptor::from_ssz_bytes(&bytes).unwrap();
    assert_eq!(decoded.type_tag(), DescriptorType::OpReturn);
    assert_eq!(decoded.payload().len(), MAX_OP_RETURN_LEN);
    assert_eq!(decoded.as_ssz_bytes(), bytes);
}

#[test]
fn ssz_unknown_tag_reports_descriptor_error() {
    let result = Descriptor::from_ssz_bytes(&[5u8; 33]);
    assert!(matches!(
        result,
        Err(SszError::InvalidDescriptor(DescriptorError::InvalidDescriptorType(5)))
    ));
}
