use crosec::event::{get_mask, max_event_size, EcMkbpEvent, EcMkbpEventType, EcResponseMotionSenseFifoInfo};
use crosec::fingerprint::EcMkbpEventFingerprint;
use crosec::wait::{after_poll, PollData, WaitStep, POLL_IN};
use crosec::{ContractViolation, DecodeError, EcError};

#[test]
fn wait_zero_ready_is_timeout() {
    assert_eq!(after_poll(0, 0), Ok(WaitStep::Timeout));
}

#[test]
fn wait_readable_reads_event() {
    assert_eq!(after_poll(1, POLL_IN), Ok(WaitStep::ReadEvent));
    assert_eq!(
        PollData::from_event_bytes(&[5, 0x01, 0x30, 0x00, 0x10]),
        Ok(PollData::EventHappened(EcMkbpEvent::Fingerprint(EcMkbpEventFingerprint { fp_events: 0x1000_3001 })))
    );
}

#[test]
fn wait_other_flags_are_reported() {
    assert_eq!(after_poll(1, 0x010), Ok(WaitStep::SomethingElseHappened(0x010)));
    assert_eq!(after_poll(1, 0x011), Ok(WaitStep::SomethingElseHappened(0x011)));
}

#[test]
fn wait_poll_error_is_returned() {
    assert_eq!(after_poll(-1, 0), Err(-1));
}

#[test]
fn event_sizes() {
    assert_eq!(max_event_size(), 13);
    assert_eq!(EcMkbpEventType::KeyMatrix.data_size(), 13);
    assert_eq!(EcMkbpEventType::SensorFifo.data_size(), 10);
    assert_eq!(EcMkbpEventType::HostEvent64.data_size(), 8);
    assert_eq!(EcMkbpEventType::Pchg.data_size(), 0);
    assert_eq!(EcMkbpEventType::all().len(), 13);
}

#[test]
fn event_decoding_by_tag() {
    assert_eq!(EcMkbpEvent::from_bytes(&[1, 0x78, 0x56, 0x34, 0x12]), Ok(EcMkbpEvent::HostEvent(0x1234_5678)));
    assert_eq!(
        EcMkbpEvent::from_bytes(&[7, 1, 0, 0, 0, 0, 0, 0, 0x80]),
        Ok(EcMkbpEvent::HostEvent64(0x8000_0000_0000_0001))
    );
    assert_eq!(
        EcMkbpEvent::from_bytes(&[2, 1, 0, 2, 0, 3, 0, 0, 0, 4, 0]),
        Ok(EcMkbpEvent::SensorFifo(EcResponseMotionSenseFifoInfo { size: 1, count: 2, timestamp: 3, total_lost: 4 }))
    );
    let mut key = vec![0u8];
    key.extend(1..=13u8);
    let mut expected = [0u8; 13];
    for (i, b) in expected.iter_mut().enumerate() {
        *b = i as u8 + 1;
    }
    assert_eq!(EcMkbpEvent::from_bytes(&key), Ok(EcMkbpEvent::KeyMatrix(expected)));
    assert_eq!(EcMkbpEvent::from_bytes(&[12]), Ok(EcMkbpEvent::Pchg));
}

#[test]
fn event_unknown_tag_is_decode_error() {
    assert_eq!(EcMkbpEvent::from_bytes(&[13, 0, 0]), Err(EcError::Decode(DecodeError::UnknownEventType(13))));
    assert_eq!(
        PollData::from_event_bytes(&[0xff]),
        Err(EcError::Decode(DecodeError::UnknownEventType(0xff)))
    );
}

#[test]
fn event_short_payload_is_decode_error() {
    assert_eq!(
        EcMkbpEvent::from_bytes(&[5, 1, 2]),
        Err(EcError::Decode(DecodeError::ShortResponse { expected: 5, actual: 3 }))
    );
    assert_eq!(
        EcMkbpEvent::from_bytes(&[]),
        Err(EcError::Decode(DecodeError::ShortResponse { expected: 1, actual: 0 }))
    );
}

#[test]
fn event_mask_sets_one_bit_per_type() {
    assert_eq!(get_mask(&[EcMkbpEventType::Fingerprint]), Ok(1 << 5));
    assert_eq!(
        get_mask(&[EcMkbpEventType::KeyMatrix, EcMkbpEventType::Pchg, EcMkbpEventType::KeyMatrix]),
        Ok(1 | (1 << 12))
    );
    assert_eq!(get_mask(&EcMkbpEventType::all()), Ok(0x1fff));
}

#[test]
fn event_mask_empty_is_contract_violation() {
    assert_eq!(get_mask(&[]), Err(EcError::ContractViolation(ContractViolation::EmptyEventSet)));
}
