use claimcheck::pack_bytes_to_fields;

/// Packing always yields the ceiling of `padded_size / 31` elements,
/// whatever the input length.
#[test]
fn pack_length_law_examples() {
    assert_eq!(pack_bytes_to_fields(&b"abc".to_vec(), 255).len(), 9);
    assert_eq!(pack_bytes_to_fields(&b"abc".to_vec(), 256).len(), 9);
    assert_eq!(pack_bytes_to_fields(&b"abc".to_vec(), 605).len(), 20);
    assert_eq!(pack_bytes_to_fields(&Vec::new(), 31).len(), 1);
    assert_eq!(pack_bytes_to_fields(&Vec::new(), 1).len(), 1);
    assert_eq!(pack_bytes_to_fields(&Vec::new(), 33).len(), 2);
    assert_eq!(pack_bytes_to_fields(&b"0123456789012345678901234567890123".to_vec(), 62).len(), 2);
}

/// Each chunk is read little-endian: byte 0 is least significant, so it lands
/// at the last big-endian position of the 32-byte element.
#[test]
fn pack_small_exact_rendering() {
    let fields = pack_bytes_to_fields(&vec![1u8, 2u8], 31);
    assert_eq!(fields.len(), 1);
    let mut expected = vec![0u8; 32];
    expected[31] = 1;
    expected[30] = 2;
    assert_eq!(fields[0].bytes, expected);
}

/// Padding bytes beyond the input contribute zero elements.
#[test]
fn pack_pads_with_zeros() {
    let fields = pack_bytes_to_fields(&Vec::new(), 33);
    assert_eq!(fields.len(), 2);
    assert_eq!(fields[0].bytes, vec![0u8; 32]);
    assert_eq!(fields[1].bytes, vec![0u8; 32]);
}

/// Round trip: reassembling the little-endian chunks reproduces the input
/// followed by its zero padding.
#[test]
fn pack_round_trip_concrete() {
    let data: Vec<u8> = (1u8..=40u8).collect();
    let padded: usize = 62;
    let fields = pack_bytes_to_fields(&data, padded);
    assert_eq!(fields.len(), 2);
    let mut unpacked: Vec<u8> = Vec::new();
    for idx in 0..padded {
        unpacked.push(fields[idx / 31].bytes[31 - idx % 31]);
    }
    let mut expected = data.clone();
    expected.resize(padded, 0u8);
    assert_eq!(unpacked, expected);
}

/// The leading byte of every element is zero, keeping it below the modulus.
#[test]
fn pack_leading_byte_zero() {
    let data: Vec<u8> = vec![0xffu8; 300];
    let fields = pack_bytes_to_fields(&data, 255);
    for f in &fields {
        assert_eq!(f.bytes.len(), 32);
        assert_eq!(f.bytes[0], 0u8);
    }
}
