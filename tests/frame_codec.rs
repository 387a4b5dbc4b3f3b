use crosec::commands::{CommandRequest, CrosEcCmd};
use crosec::frame::{build_request, complete_exchange, encode_command, ControlFrame, HEADER_SIZE};
use crosec::{DecodeError, EcError, EcResponseStatus};
use nix::errno::Errno;

fn reply(code: u32, payload: &[u8]) -> Vec<u8> {
    let frame = ControlFrame {
        version: 0,
        command_id: 0x0b,
        request_len: 0,
        response_len: payload.len() as u32,
        result_code: code,
        payload: payload.to_vec(),
    };
    frame.encode()
}

#[test]
fn frame_layout_is_little_endian() {
    let frame = ControlFrame {
        version: 1,
        command_id: 0x0403,
        request_len: 2,
        response_len: 3,
        result_code: 0xff,
        payload: vec![9, 8, 7],
    };
    let bytes = frame.encode();
    assert_eq!(
        bytes,
        vec![1, 0, 0, 0, 3, 4, 0, 0, 2, 0, 0, 0, 3, 0, 0, 0, 0xff, 0, 0, 0, 9, 8, 7]
    );
}

#[test]
fn frame_round_trip() {
    let frame = ControlFrame {
        version: 0xdead_beef,
        command_id: 0x0121,
        request_len: 4,
        response_len: 6,
        result_code: 17,
        payload: vec![1, 2, 3, 4, 5, 6],
    };
    let decoded = ControlFrame::decode(&frame.encode()).unwrap();
    assert_eq!(decoded, frame);
}

#[test]
fn frame_decode_short_header() {
    assert_eq!(
        ControlFrame::decode(&[0u8; 19]),
        Err(EcError::Decode(DecodeError::ShortResponse { expected: 20, actual: 19 }))
    );
}

#[test]
fn request_is_zero_padded_to_response_room() {
    let bytes = build_request(0x0404, 0, &[0xaa, 0xbb], 5);
    assert_eq!(bytes.len(), HEADER_SIZE + 5);
    assert_eq!(&bytes[0..4], &[0, 0, 0, 0]);
    assert_eq!(&bytes[4..8], &[4, 4, 0, 0]);
    assert_eq!(&bytes[8..12], &[2, 0, 0, 0]);
    assert_eq!(&bytes[12..16], &[5, 0, 0, 0]);
    assert_eq!(&bytes[16..20], &[0xff, 0, 0, 0]);
    assert_eq!(&bytes[20..], &[0xaa, 0xbb, 0, 0, 0]);
}

#[test]
fn request_longer_than_response() {
    let req = CommandRequest { command: CrosEcCmd::FpTemplate, version: 0, params: vec![1, 2, 3], response_len: 0 };
    let bytes = encode_command(&req);
    assert_eq!(bytes.len(), HEADER_SIZE + 3);
    assert_eq!(&bytes[4..8], &[5, 4, 0, 0]);
    assert_eq!(&bytes[20..], &[1, 2, 3]);
}

#[test]
fn exchange_success_returns_expected_bytes() {
    let raw = reply(0, &[1, 2, 3, 4, 5]);
    assert_eq!(complete_exchange(Ok(raw), 3), Ok(vec![1, 2, 3]));
}

#[test]
fn exchange_device_error() {
    assert_eq!(complete_exchange(Err(Errno::EIO), 4), Err(EcError::DeviceError(Errno::EIO)));
}

#[test]
fn exchange_known_statuses_become_typed_errors() {
    let all = [
        EcResponseStatus::InvalidCommand,
        EcResponseStatus::Error,
        EcResponseStatus::InvalidParam,
        EcResponseStatus::AccessDenied,
        EcResponseStatus::InvalidResponse,
        EcResponseStatus::InvalidVersion,
        EcResponseStatus::InvalidChecksum,
        EcResponseStatus::InProgress,
        EcResponseStatus::Unavailable,
        EcResponseStatus::Timeout,
        EcResponseStatus::Overflow,
        EcResponseStatus::InvalidHeader,
        EcResponseStatus::RequestTruncated,
        EcResponseStatus::ResponseTooBig,
        EcResponseStatus::BusError,
        EcResponseStatus::Busy,
        EcResponseStatus::InvalidHeaderVersion,
        EcResponseStatus::InvalidHeaderCRC,
        EcResponseStatus::InvalidDataCRC,
        EcResponseStatus::DUPUnavailable,
    ];
    for (i, status) in all.iter().enumerate() {
        let code = (i + 1) as u32;
        assert_eq!(status.code(), code);
        assert_eq!(EcResponseStatus::from_code(code), Some(*status));
        assert_eq!(complete_exchange(Ok(reply(code, &[0; 4])), 4), Err(EcError::Response(*status)));
    }
}

#[test]
fn exchange_unknown_code_keeps_raw_value() {
    assert_eq!(complete_exchange(Ok(reply(21, &[0; 4])), 4), Err(EcError::UnknownResponseCode(21)));
    assert_eq!(
        complete_exchange(Ok(reply(0xdead_beef, &[])), 0),
        Err(EcError::UnknownResponseCode(0xdead_beef))
    );
}

#[test]
fn exchange_short_payload_is_decode_error() {
    assert_eq!(
        complete_exchange(Ok(reply(0, &[1, 2])), 4),
        Err(EcError::Decode(DecodeError::ShortResponse { expected: 4, actual: 2 }))
    );
    assert_eq!(
        complete_exchange(Ok(vec![0; 7]), 0),
        Err(EcError::Decode(DecodeError::ShortResponse { expected: 20, actual: 7 }))
    );
}
