use ctv_emulators::wire::check_declared_len;
use ctv_emulators::wire::encode_frame;
use ctv_emulators::wire::encode_len;
use ctv_emulators::wire::parse_len;
use ctv_emulators::wire::ProtocolError;
use ctv_emulators::wire::MAX_MSG;

#[test]
fn length_prefix_is_big_endian() {
    assert_eq!(encode_len(0x0102_0304), vec![1u8, 2, 3, 4]);
    assert_eq!(encode_len(5), vec![0u8, 0, 0, 5]);
}

#[test]
fn length_prefix_round_trips() {
    for len in [0u32, 1, 255, 256, 65_535, 1_000_000, u32::MAX] {
        assert_eq!(parse_len(&encode_len(len)), len);
    }
}

#[test]
fn oversized_declared_length_is_a_framing_violation() {
    assert_eq!(check_declared_len(2_000_000), Err(ProtocolError::Oversized));
    assert_eq!(check_declared_len(MAX_MSG + 1), Err(ProtocolError::Oversized));
    assert_eq!(check_declared_len(MAX_MSG), Ok(MAX_MSG as usize));
    assert_eq!(check_declared_len(0), Ok(0));
}

#[test]
fn frame_is_length_prefix_then_payload() {
    let payload = vec![0xabu8; 5];
    let frame = encode_frame(&payload).unwrap();
    assert_eq!(&frame[..4], &[0u8, 0, 0, 5]);
    assert_eq!(&frame[4..], &payload[..]);
}

#[test]
fn oversized_payload_is_not_framed() {
    let payload = vec![0u8; MAX_MSG as usize + 1];
    assert!(encode_frame(&payload).is_none());
    let at_limit = vec![0u8; MAX_MSG as usize];
    assert_eq!(encode_frame(&at_limit).unwrap().len(), MAX_MSG as usize + 4);
}
