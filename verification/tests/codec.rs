use lz4tool::codec::{compress_bytes, decompress_bytes, CodecError};

#[test]
fn round_trip_restores_bytes() {
    let data: Vec<u8> = b"the quick brown fox jumps over the lazy dog, twice: \
                          the quick brown fox jumps over the lazy dog"
        .to_vec();
    let compressed = compress_bytes(&data).expect("compression failed");
    assert_ne!(compressed, data);
    let restored = decompress_bytes(&compressed).expect("decompression failed");
    assert_eq!(restored, data);
}

#[test]
fn round_trip_of_empty_payload() {
    let data: Vec<u8> = Vec::new();
    let compressed = compress_bytes(&data).expect("compression failed");
    assert!(!compressed.is_empty());
    let restored = decompress_bytes(&compressed).expect("decompression failed");
    assert_eq!(restored, data);
}

#[test]
fn round_trip_of_binary_payload() {
    let mut data: Vec<u8> = Vec::new();
    let mut i: u32 = 0;
    while data.len() < 70000 {
        data.push((i % 251) as u8);
        data.push((i / 7 % 256) as u8);
        i += 1;
    }
    let compressed = compress_bytes(&data).expect("compression failed");
    let restored = decompress_bytes(&compressed).expect("decompression failed");
    assert_eq!(restored, data);
}

#[test]
fn malformed_stream_is_rejected() {
    let garbage: Vec<u8> = b"this is not a framed stream".to_vec();
    assert_eq!(decompress_bytes(&garbage), Err(CodecError));
}

#[test]
fn truncated_stream_is_rejected() {
    let data: Vec<u8> = b"a payload long enough to span the frame body".to_vec();
    let compressed = compress_bytes(&data).expect("compression failed");
    let truncated: Vec<u8> = compressed[..compressed.len() - 1].to_vec();
    assert_eq!(decompress_bytes(&truncated), Err(CodecError));
}

#[test]
fn corrupted_header_is_rejected() {
    let data: Vec<u8> = b"payload".to_vec();
    let mut compressed = compress_bytes(&data).expect("compression failed");
    compressed[0] ^= 0xff;
    assert_eq!(decompress_bytes(&compressed), Err(CodecError));
}
