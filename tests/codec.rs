use rust_maui::codec::{decode_block, encode_block};
use rust_maui::error::MauiError;

#[test]
fn encode_frames_payload_exactly() {
    let block = encode_block(b"abc").unwrap();
    assert_eq!(block, b"#9000000003abcffffffff".to_vec());
}

#[test]
fn encode_empty_payload() {
    let block = encode_block(b"").unwrap();
    assert_eq!(block, b"#9000000000ffffffff".to_vec());
}

#[test]
fn encode_pads_longer_lengths() {
    let payload = vec![7u8; 1234];
    let block = encode_block(&payload).unwrap();
    assert_eq!(&block[..11], b"#9000001234");
    assert_eq!(block.len(), 11 + 1234 + 8);
    assert_eq!(&block[block.len() - 8..], b"ffffffff");
}

#[test]
fn decode_strips_header_and_trailer() {
    let payload = decode_block(b"#9000000005hello12345678").unwrap();
    assert_eq!(payload, b"hello".to_vec());
}

#[test]
fn decode_minimal_block_is_empty() {
    let payload = decode_block(b"#9000000000ffffffff").unwrap();
    assert!(payload.is_empty());
}

#[test]
fn decode_short_input_fails() {
    assert_eq!(decode_block(b"#900000000ffffffff"), Err(MauiError::Decoding));
    assert_eq!(decode_block(b""), Err(MauiError::Decoding));
}

#[test]
fn decode_wrong_marker_fails() {
    assert_eq!(decode_block(b"#8000000003abcffffffff"), Err(MauiError::Decoding));
    assert_eq!(decode_block(b"x9000000003abcffffffff"), Err(MauiError::Decoding));
}

#[test]
fn round_trip_keeps_payload() {
    for payload in [vec![], b"x".to_vec(), b"#9ffffffff".to_vec(), (0u8..=255).collect::<Vec<u8>>()] {
        let block = encode_block(&payload).unwrap();
        assert_eq!(decode_block(&block).unwrap(), payload);
    }
}

#[test]
fn upload_block_counts_trailer_token() {
    let block = rust_maui::codec::encode_upload_block(b"abc").unwrap();
    assert_eq!(block, b"#9000000011abcffffffff".to_vec());
    assert_eq!(decode_block(&block).unwrap(), b"abc".to_vec());
}

#[test]
fn upload_block_of_empty_contents() {
    let block = rust_maui::codec::encode_upload_block(b"").unwrap();
    assert_eq!(block, b"#9000000008ffffffff".to_vec());
}
