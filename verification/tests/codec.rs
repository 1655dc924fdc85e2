use gkd_unlock::codec::{
    decode, decode_u32_be, encode, encode_u32_be, operation_code, result_code_from,
    ControlOperation, ProtocolError, ResultCode,
};

#[test]
fn encode_size_field_counts_payload_not_itself() {
    // A 6-byte secret: the size field holds 8 + 6 = 14, not 12 + 6.
    let frame = encode(ControlOperation::Unlock, b"secret");
    assert_eq!(&frame[0..4], &[0, 0, 0, 14]);
    assert_eq!(frame.len(), 18);
}

#[test]
fn encode_unlock_full_frame() {
    let frame = encode(ControlOperation::Unlock, b"secret");
    let mut expected = vec![0u8, 0, 0, 14, 0, 0, 0, 1, 0, 0, 0, 6];
    expected.extend_from_slice(b"secret");
    assert_eq!(frame, expected);
}

#[test]
fn encode_empty_secret() {
    let frame = encode(ControlOperation::Unlock, b"");
    assert_eq!(frame, vec![0u8, 0, 0, 8, 0, 0, 0, 1, 0, 0, 0, 0]);
}

#[test]
fn encode_long_secret_size_field() {
    // 300 bytes: the size field spills into the second-lowest byte.
    let secret = vec![0x41u8; 300];
    let frame = encode(ControlOperation::Unlock, &secret);
    assert_eq!(&frame[0..4], &[0, 0, 1, 52]); // 308 = 256 + 52
    assert_eq!(&frame[8..12], &[0, 0, 1, 44]); // 300 = 256 + 44
    assert_eq!(frame.len(), 312);
}

#[test]
fn decode_accepted() {
    assert_eq!(decode(&[0, 0, 0, 8, 0, 0, 0, 0]), Ok(ResultCode::Accepted));
}

#[test]
fn decode_denied() {
    assert_eq!(decode(&[0, 0, 0, 8, 0, 0, 0, 1]), Ok(ResultCode::Denied));
}

#[test]
fn decode_failed() {
    assert_eq!(decode(&[0, 0, 0, 8, 0, 0, 0, 2]), Ok(ResultCode::Failed));
}

#[test]
fn decode_no_daemon() {
    assert_eq!(decode(&[0, 0, 0, 8, 0, 0, 0, 3]), Ok(ResultCode::NoDaemon));
}

#[test]
fn decode_unknown_result_code_is_typed_error() {
    assert_eq!(
        decode(&[0, 0, 0, 8, 0, 0, 0, 9]),
        Err(ProtocolError::UnknownResultCode(9))
    );
}

#[test]
fn decode_wrong_size_field() {
    assert_eq!(
        decode(&[0, 0, 0, 7, 0, 0, 0, 0]),
        Err(ProtocolError::UnexpectedFrameSize(7))
    );
}

#[test]
fn decode_wrong_size_field_regardless_of_trailing_bytes() {
    assert_eq!(
        decode(&[0, 0, 0, 7, 9, 9, 9, 9]),
        Err(ProtocolError::UnexpectedFrameSize(7))
    );
    assert_eq!(
        decode(&[0, 1, 0, 8, 0, 0, 0, 0]),
        Err(ProtocolError::UnexpectedFrameSize(65544))
    );
}

#[test]
fn result_code_closed_set() {
    assert_eq!(result_code_from(0), Ok(ResultCode::Accepted));
    assert_eq!(result_code_from(1), Ok(ResultCode::Denied));
    assert_eq!(result_code_from(2), Ok(ResultCode::Failed));
    assert_eq!(result_code_from(3), Ok(ResultCode::NoDaemon));
    assert_eq!(
        result_code_from(4),
        Err(ProtocolError::UnknownResultCode(4))
    );
    assert_eq!(
        result_code_from(0xFFFF_FFFF),
        Err(ProtocolError::UnknownResultCode(0xFFFF_FFFF))
    );
}

#[test]
fn operation_codes() {
    assert_eq!(operation_code(ControlOperation::Init), 0);
    assert_eq!(operation_code(ControlOperation::Unlock), 1);
    assert_eq!(operation_code(ControlOperation::Change), 2);
    assert_eq!(operation_code(ControlOperation::Quit), 3);
}

#[test]
fn u32_big_endian_round_trip() {
    assert_eq!(encode_u32_be(0xDEAD_BEEF), vec![0xDE, 0xAD, 0xBE, 0xEF]);
    assert_eq!(decode_u32_be(0xDE, 0xAD, 0xBE, 0xEF), 0xDEAD_BEEF);
    assert_eq!(encode_u32_be(8), vec![0, 0, 0, 8]);
    assert_eq!(decode_u32_be(0, 0, 0, 8), 8);
}
