use arsync::protocol::varint::{
    decode_varint_sync, encode_varint, encode_varint_into, encode_varint_signed, zigzag_decode, zigzag_encode,
    VarintDecoder, VarintError, VarintStep,
};

#[test]
fn test_varint_small_values() {
    assert_eq!(encode_varint(0), vec![0x00]);
    assert_eq!(encode_varint(1), vec![0x01]);
    assert_eq!(encode_varint(127), vec![0x7F]);
}

#[test]
fn test_varint_boundary() {
    // 128 requires 2 bytes (first continuation)
    assert_eq!(encode_varint(128), vec![0x80, 0x01]);
    assert_eq!(encode_varint(255), vec![0xFF, 0x01]);
    assert_eq!(encode_varint(256), vec![0x80, 0x02]);
}

#[test]
fn test_varint_large_values() {
    assert_eq!(encode_varint(300), vec![0xAC, 0x02]);
    assert_eq!(encode_varint(16383), vec![0xFF, 0x7F]);
    assert_eq!(encode_varint(16384), vec![0x80, 0x80, 0x01]);
}

#[test]
fn test_varint_max_value() {
    let max = u64::MAX;
    let encoded = encode_varint(max);
    assert_eq!(encoded.len(), 10); // Max 10 bytes for 64-bit value
    assert_eq!(
        encoded,
        vec![0xFF, 0xFF, 0xFF, 0xFF, 0xFF, 0xFF, 0xFF, 0xFF, 0xFF, 0x01]
    );
}

#[test]
fn test_varint_roundtrip() {
    let test_values = vec![
        0,
        1,
        127,
        128,
        255,
        256,
        300,
        16383,
        16384,
        65535,
        65536,
        1_000_000,
        1_000_000_000,
        u64::MAX,
    ];

    for value in test_values {
        let encoded = encode_varint(value);
        println!("Value {} encodes to {} bytes", value, encoded.len());
    }
}

#[test]
fn test_varint_signed() {
    assert_eq!(encode_varint_signed(0), vec![0x00]);
    assert_eq!(encode_varint_signed(-1), vec![0x01]);
    assert_eq!(encode_varint_signed(1), vec![0x02]);
    assert_eq!(encode_varint_signed(-2), vec![0x03]);
    assert_eq!(encode_varint_signed(2), vec![0x04]);
}

#[test]
fn test_varint_into() {
    let mut buffer = Vec::new();
    encode_varint_into(300, &mut buffer);
    assert_eq!(buffer, vec![0xAC, 0x02]);

    // Can append multiple varints
    encode_varint_into(128, &mut buffer);
    assert_eq!(buffer, vec![0xAC, 0x02, 0x80, 0x01]);
}

#[test]
fn varint_decode_gives_back_every_encoded_value() {
    for value in [0u64, 1, 127, 128, 255, 300, 16383, 16384, 65536, 1_000_000_000, u64::MAX] {
        let mut data = encode_varint(value);
        let len = data.len();
        data.extend_from_slice(&[0xAA, 0xBB]);
        let (decoded, next) = decode_varint_sync(&data, 0).unwrap();
        assert_eq!(decoded, value);
        assert_eq!(next, len);
    }
}

#[test]
fn varint_decode_from_an_offset() {
    let data = vec![0x05, 0xAC, 0x02, 0x07];
    assert_eq!(decode_varint_sync(&data, 1).unwrap(), (300, 3));
    assert_eq!(decode_varint_sync(&data, 3).unwrap(), (7, 4));
}

#[test]
fn varint_decode_reports_truncated_input() {
    let data = vec![0x80, 0x80];
    assert!(matches!(decode_varint_sync(&data, 0), Err(VarintError::UnexpectedEof)));
    assert!(matches!(decode_varint_sync(&[], 0), Err(VarintError::UnexpectedEof)));
}

#[test]
fn varint_decode_reports_overflow() {
    let data = vec![0xFF; 11];
    assert!(matches!(decode_varint_sync(&data, 0), Err(VarintError::Overflow)));
}

#[test]
fn varint_decoder_takes_one_byte_at_a_time() {
    let mut decoder = VarintDecoder::new();
    let mut result = None;
    for byte in [0x80u8, 0x80, 0x01] {
        match decoder.feed(byte) {
            VarintStep::More(next) => decoder = next,
            VarintStep::Done(v) => {
                result = Some(v);
                break;
            }
            VarintStep::Overflow => panic!("unexpected overflow"),
        }
    }
    assert_eq!(result, Some(16384));
}

#[test]
fn zigzag_maps_signed_onto_unsigned_and_back() {
    assert_eq!(zigzag_encode(0), 0);
    assert_eq!(zigzag_encode(-1), 1);
    assert_eq!(zigzag_encode(1), 2);
    assert_eq!(zigzag_encode(i64::MIN), u64::MAX);
    assert_eq!(zigzag_encode(i64::MAX), u64::MAX - 1);
    for v in [0i64, 1, -1, 42, -42, i64::MAX, i64::MIN] {
        assert_eq!(zigzag_decode(zigzag_encode(v)), v);
    }
}
