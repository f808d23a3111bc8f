use dma_buf::wire::{decode_metadata, encode_metadata, TextureStorageMetadata, WireError, METADATA_WIRE_LEN};

fn sample() -> TextureStorageMetadata {
    TextureStorageMetadata {
        fourcc: 0x3432_4241,
        offset: 0,
        modifiers: 0x0100_0000_0000_0001,
        stride: 1024,
    }
}

#[test]
fn encode_writes_fields_little_endian_in_order() {
    let bytes = encode_metadata(&sample());
    assert_eq!(
        bytes,
        vec![
            0x41, 0x42, 0x32, 0x34, // fourcc
            0, 0, 0, 0, // offset
            0x01, 0, 0, 0, 0, 0, 0, 0x01, // modifiers
            0x00, 0x04, 0, 0, // stride
        ]
    );
    assert_eq!(bytes.len(), METADATA_WIRE_LEN);
}

#[test]
fn encode_negative_fields_as_twos_complement() {
    let meta = TextureStorageMetadata { fourcc: -1, offset: -2, modifiers: u64::MAX, stride: i32::MIN };
    let bytes = encode_metadata(&meta);
    assert_eq!(
        bytes,
        vec![
            0xff, 0xff, 0xff, 0xff, 0xfe, 0xff, 0xff, 0xff, 0xff, 0xff, 0xff, 0xff, 0xff, 0xff,
            0xff, 0xff, 0x00, 0x00, 0x00, 0x80,
        ]
    );
}

#[test]
fn decode_reads_back_encoded_metadata() {
    let meta = sample();
    let bytes = encode_metadata(&meta);
    assert_eq!(decode_metadata(&bytes), Ok(meta));
}

#[test]
fn decode_roundtrip_extreme_values() {
    let meta = TextureStorageMetadata { fourcc: i32::MIN, offset: i32::MAX, modifiers: 0xdead_beef_0123_4567, stride: -7 };
    assert_eq!(decode_metadata(&encode_metadata(&meta)), Ok(meta));
}

#[test]
fn decode_ignores_trailing_bytes() {
    let mut bytes = encode_metadata(&sample());
    bytes.extend_from_slice(&[9, 9, 9]);
    assert_eq!(decode_metadata(&bytes), Ok(sample()));
}

#[test]
fn decode_refuses_short_input() {
    let bytes = encode_metadata(&sample());
    assert_eq!(decode_metadata(&bytes[..19]), Err(WireError::Truncated { len: 19 }));
    assert_eq!(decode_metadata(&[]), Err(WireError::Truncated { len: 0 }));
}

#[test]
fn decode_of_zeroed_receive_buffer() {
    // The receiver's buffer before anything arrived.
    let buf = vec![0u8; 20];
    assert_eq!(
        decode_metadata(&buf),
        Ok(TextureStorageMetadata { fourcc: 0, offset: 0, modifiers: 0, stride: 0 })
    );
}

#[test]
fn reencoding_decoded_bytes_gives_them_back() {
    let bytes: Vec<u8> = (0u8..20).map(|b| b.wrapping_mul(37)).collect();
    let meta = decode_metadata(&bytes).unwrap();
    assert_eq!(encode_metadata(&meta), bytes);
}
