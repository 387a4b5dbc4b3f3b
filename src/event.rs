//! Asynchronous device events: their types, their payloads, and the mask
//! that arms them.

use vstd::prelude::*;
use crate::bytes::{le_u16_at, le_u32_at, le_u64_at, read_u16, read_u32, read_u64};
use crate::fingerprint::EcMkbpEventFingerprint;
use crate::status::{ContractViolation, DecodeError, EcError};

verus! {

/// The event classes that the device can raise; the tag byte of an event.
#[derive(Debug, Clone, Copy, PartialEq, Eq, Structural)]
pub enum EcMkbpEventType {
    KeyMatrix,
    HostEvent,
    SensorFifo,
    Buttons,
    Switches,
    Fingerprint,
    Sysrq,
    HostEvent64,
    CecEvent,
    CecMessage,
    DpAltModeEntered,
    OnlineCalibration,
    Pchg,
}

/// The tag of each event type.
pub open spec fn event_code(t: EcMkbpEventType) -> u8 {
    match t {
        EcMkbpEventType::KeyMatrix => 0,
        EcMkbpEventType::HostEvent => 1,
        EcMkbpEventType::SensorFifo => 2,
        EcMkbpEventType::Buttons => 3,
        EcMkbpEventType::Switches => 4,
        EcMkbpEventType::Fingerprint => 5,
        EcMkbpEventType::Sysrq => 6,
        EcMkbpEventType::HostEvent64 => 7,
        EcMkbpEventType::CecEvent => 8,
        EcMkbpEventType::CecMessage => 9,
        EcMkbpEventType::DpAltModeEntered => 10,
        EcMkbpEventType::OnlineCalibration => 11,
        EcMkbpEventType::Pchg => 12,
    }
}

/// The event type with the given tag, if the protocol defines one.
pub open spec fn event_type_of(tag: u8) -> Option<EcMkbpEventType> {
    match tag {
        0 => Some(EcMkbpEventType::KeyMatrix),
        1 => Some(EcMkbpEventType::HostEvent),
        2 => Some(EcMkbpEventType::SensorFifo),
        3 => Some(EcMkbpEventType::Buttons),
        4 => Some(EcMkbpEventType::Switches),
        5 => Some(EcMkbpEventType::Fingerprint),
        6 => Some(EcMkbpEventType::Sysrq),
        7 => Some(EcMkbpEventType::HostEvent64),
        8 => Some(EcMkbpEventType::CecEvent),
        9 => Some(EcMkbpEventType::CecMessage),
        10 => Some(EcMkbpEventType::DpAltModeEntered),
        11 => Some(EcMkbpEventType::OnlineCalibration),
        12 => Some(EcMkbpEventType::Pchg),
        _ => None,
    }
}

/// The payload bytes that follow each tag.
pub open spec fn event_data_size(t: EcMkbpEventType) -> usize {
    match t {
        EcMkbpEventType::KeyMatrix => 13,
        EcMkbpEventType::HostEvent => 4,
        EcMkbpEventType::SensorFifo => 10,
        EcMkbpEventType::Buttons => 4,
        EcMkbpEventType::Switches => 4,
        EcMkbpEventType::Fingerprint => 4,
        EcMkbpEventType::Sysrq => 4,
        EcMkbpEventType::HostEvent64 => 8,
        EcMkbpEventType::CecEvent => 4,
        EcMkbpEventType::CecMessage => 0,
        EcMkbpEventType::DpAltModeEntered => 0,
        EcMkbpEventType::OnlineCalibration => 0,
        EcMkbpEventType::Pchg => 0,
    }
}

/// The largest payload of any event type.
pub const EC_MKBP_MAX_EVENT_SIZE: usize = 13;

impl EcMkbpEventType {
    /// The tag of this type.
    pub fn code(&self) -> (r: u8)
        ensures
            r == event_code(*self),
    {
        match self {
            EcMkbpEventType::KeyMatrix => 0,
            EcMkbpEventType::HostEvent => 1,
            EcMkbpEventType::SensorFifo => 2,
            EcMkbpEventType::Buttons => 3,
            EcMkbpEventType::Switches => 4,
            EcMkbpEventType::Fingerprint => 5,
            EcMkbpEventType::Sysrq => 6,
            EcMkbpEventType::HostEvent64 => 7,
            EcMkbpEventType::CecEvent => 8,
            EcMkbpEventType::CecMessage => 9,
            EcMkbpEventType::DpAltModeEntered => 10,
            EcMkbpEventType::OnlineCalibration => 11,
            EcMkbpEventType::Pchg => 12,
        }
    }

    /// The type with the given tag, if the protocol defines one.
    pub fn from_u8(tag: u8) -> (r: Option<EcMkbpEventType>)
        ensures
            r == event_type_of(tag),
    {
        match tag {
            0 => Some(EcMkbpEventType::KeyMatrix),
            1 => Some(EcMkbpEventType::HostEvent),
            2 => Some(EcMkbpEventType::SensorFifo),
            3 => Some(EcMkbpEventType::Buttons),
            4 => Some(EcMkbpEventType::Switches),
            5 => Some(EcMkbpEventType::Fingerprint),
            6 => Some(EcMkbpEventType::Sysrq),
            7 => Some(EcMkbpEventType::HostEvent64),
            8 => Some(EcMkbpEventType::CecEvent),
            9 => Some(EcMkbpEventType::CecMessage),
            10 => Some(EcMkbpEventType::DpAltModeEntered),
            11 => Some(EcMkbpEventType::OnlineCalibration),
            12 => Some(EcMkbpEventType::Pchg),
            _ => None,
        }
    }

    /// The payload bytes of this type.
    pub fn data_size(&self) -> (r: usize)
        ensures
            r == event_data_size(*self),
    {
        match self {
            EcMkbpEventType::KeyMatrix => 13,
            EcMkbpEventType::HostEvent => 4,
            EcMkbpEventType::SensorFifo => 10,
            EcMkbpEventType::Buttons => 4,
            EcMkbpEventType::Switches => 4,
            EcMkbpEventType::Fingerprint => 4,
            EcMkbpEventType::Sysrq => 4,
            EcMkbpEventType::HostEvent64 => 8,
            EcMkbpEventType::CecEvent => 4,
            EcMkbpEventType::CecMessage => 0,
            EcMkbpEventType::DpAltModeEntered => 0,
            EcMkbpEventType::OnlineCalibration => 0,
            EcMkbpEventType::Pchg => 0,
        }
    }

    /// Every event type, in tag order.
    pub fn all() -> (r: Vec<EcMkbpEventType>)
        ensures
            r@.len() == 13,
            forall|i: int| 0 <= i < 13 ==> event_code(#[trigger] r@[i]) == i,
    {
        let mut v: Vec<EcMkbpEventType> = Vec::new();
        v.push(EcMkbpEventType::KeyMatrix);
        v.push(EcMkbpEventType::HostEvent);
        v.push(EcMkbpEventType::SensorFifo);
        v.push(EcMkbpEventType::Buttons);
        v.push(EcMkbpEventType::Switches);
        v.push(EcMkbpEventType::Fingerprint);
        v.push(EcMkbpEventType::Sysrq);
        v.push(EcMkbpEventType::HostEvent64);
        v.push(EcMkbpEventType::CecEvent);
        v.push(EcMkbpEventType::CecMessage);
        v.push(EcMkbpEventType::DpAltModeEntered);
        v.push(EcMkbpEventType::OnlineCalibration);
        v.push(EcMkbpEventType::Pchg);
        v
    }
}

} // verus!

verus! {

/// Every tag decodes to the type that carries it.
pub proof fn lemma_event_codes(t: EcMkbpEventType)
    ensures
        event_type_of(event_code(t)) == Some(t),
        event_data_size(t) <= EC_MKBP_MAX_EVENT_SIZE,
{
}

/// The largest payload of any event type.
pub fn max_event_size() -> (r: usize)
    ensures
        forall|t: EcMkbpEventType| event_data_size(t) <= r,
        exists|t: EcMkbpEventType| event_data_size(t) == r,
{
    let all: Vec<EcMkbpEventType> = EcMkbpEventType::all();
    let mut best: usize = 0;
    let mut i: usize = 0;
    while i < all.len()
        invariant
            i <= all@.len() == 13,
            forall|k: int| 0 <= k < 13 ==> event_code(#[trigger] all@[k]) == k,
            forall|k: int| 0 <= k < i ==> event_data_size(#[trigger] all@[k]) <= best,
            best == 0 || exists|k: int| 0 <= k < i && event_data_size(#[trigger] all@[k]) == best,
        decreases all@.len() - i,
    {
        let size: usize = all[i].data_size();
        if size > best {
            best = size;
        }
        i = i + 1;
    }
    assert forall|t: EcMkbpEventType| event_data_size(t) <= best by {
        let k = event_code(t) as int;
        assert(event_type_of(event_code(all@[k])) == Some(all@[k]));
        lemma_event_codes(t);
        lemma_event_codes(all@[k]);
    }
    proof {
        if best == 0 {
            assert(event_data_size(EcMkbpEventType::CecMessage) == best);
        } else {
            let k = choose|k: int| 0 <= k < i && event_data_size(#[trigger] all@[k]) == best;
            assert(event_data_size(all@[k]) == best);
        }
    }
    best
}

/// The motion-sense FIFO summary carried by a sensor event.
#[derive(Debug, Clone, Copy, PartialEq, Eq, Structural)]
pub struct EcResponseMotionSenseFifoInfo {
    pub size: u16,
    pub count: u16,
    pub timestamp: u32,
    pub total_lost: u16,
}

/// A decoded event.
#[derive(Debug, Clone, Copy, PartialEq, Eq)]
pub enum EcMkbpEvent {
    KeyMatrix([u8; 13]),
    HostEvent(u32),
    SensorFifo(EcResponseMotionSenseFifoInfo),
    Buttons(u32),
    Switches(u32),
    Fingerprint(EcMkbpEventFingerprint),
    Sysrq(u32),
    HostEvent64(u64),
    CecEvent(u32),
    CecMessage,
    DpAltModeEntered,
    OnlineCalibration,
    Pchg,
}

/// Whether `e` is what the payload `p` of an event of type `t` decodes to.
pub open spec fn decodes_to(t: EcMkbpEventType, p: Seq<u8>, e: EcMkbpEvent) -> bool {
    match t {
        EcMkbpEventType::KeyMatrix => e matches EcMkbpEvent::KeyMatrix(k) && k@ == p.subrange(0, 13),
        EcMkbpEventType::HostEvent => e == EcMkbpEvent::HostEvent(le_u32_at(p, 0)),
        EcMkbpEventType::SensorFifo => e == EcMkbpEvent::SensorFifo(
            EcResponseMotionSenseFifoInfo {
                size: le_u16_at(p, 0),
                count: le_u16_at(p, 2),
                timestamp: le_u32_at(p, 4),
                total_lost: le_u16_at(p, 8),
            },
        ),
        EcMkbpEventType::Buttons => e == EcMkbpEvent::Buttons(le_u32_at(p, 0)),
        EcMkbpEventType::Switches => e == EcMkbpEvent::Switches(le_u32_at(p, 0)),
        EcMkbpEventType::Fingerprint => e == EcMkbpEvent::Fingerprint(
            EcMkbpEventFingerprint { fp_events: le_u32_at(p, 0) },
        ),
        EcMkbpEventType::Sysrq => e == EcMkbpEvent::Sysrq(le_u32_at(p, 0)),
        EcMkbpEventType::HostEvent64 => e == EcMkbpEvent::HostEvent64(le_u64_at(p, 0)),
        EcMkbpEventType::CecEvent => e == EcMkbpEvent::CecEvent(le_u32_at(p, 0)),
        EcMkbpEventType::CecMessage => e == EcMkbpEvent::CecMessage,
        EcMkbpEventType::DpAltModeEntered => e == EcMkbpEvent::DpAltModeEntered,
        EcMkbpEventType::OnlineCalibration => e == EcMkbpEvent::OnlineCalibration,
        EcMkbpEventType::Pchg => e == EcMkbpEvent::Pchg,
    }
}

/// The bytes of an event with tag `b[0]` and a payload of the type's size.
pub open spec fn event_frame_ok(b: Seq<u8>) -> bool {
    &&& b.len() >= 1
    &&& event_type_of(b[0]) matches Some(t)
    &&& b.len() >= 1 + event_data_size(t)
}

/// Why bytes that are not an event fail to decode.
pub open spec fn event_decode_error(b: Seq<u8>) -> EcError {
    if b.len() == 0 {
        EcError::Decode(DecodeError::ShortResponse { expected: 1, actual: 0 })
    } else if event_type_of(b[0]) is None {
        EcError::Decode(DecodeError::UnknownEventType(b[0]))
    } else {
        EcError::Decode(
            DecodeError::ShortResponse {
                expected: (1 + event_data_size(event_type_of(b[0])->Some_0)) as usize,
                actual: b.len() as usize,
            },
        )
    }
}

impl EcMkbpEvent {
    /// Decodes an event: a tag byte, then the payload of the tag's type. An
    /// unknown tag, or fewer bytes than the type needs, is a decode error.
    pub fn from_bytes(b: &[u8]) -> (r: Result<EcMkbpEvent, EcError>)
        ensures
            r is Ok <==> event_frame_ok(b@),
            r matches Ok(e) ==> decodes_to(event_type_of(b@[0])->Some_0, b@.subrange(1, b@.len() as int), e),
            r matches Err(e) ==> e == event_decode_error(b@),
    {
        if b.len() == 0 {
            return Err(EcError::Decode(DecodeError::ShortResponse { expected: 1, actual: 0 }));
        }
        let t: EcMkbpEventType = match EcMkbpEventType::from_u8(b[0]) {
            Some(t) => t,
            None => {
                return Err(EcError::Decode(DecodeError::UnknownEventType(b[0])));
            },
        };
        let size: usize = t.data_size();
        if b.len() < 1 + size {
            return Err(EcError::Decode(DecodeError::ShortResponse { expected: 1 + size, actual: b.len() }));
        }
        let ghost p = b@.subrange(1, b@.len() as int);
        proof {
            assert forall|k: int| 0 <= k && 1 + k < b@.len() implies p[k] == b@[1 + k] by {}
        }
        let e = match t {
            EcMkbpEventType::KeyMatrix => {
                let k: [u8; 13] = [b[1], b[2], b[3], b[4], b[5], b[6], b[7], b[8], b[9], b[10], b[11], b[12], b[13]];
                assert(k@ =~= p.subrange(0, 13));
                EcMkbpEvent::KeyMatrix(k)
            },
            EcMkbpEventType::HostEvent => EcMkbpEvent::HostEvent(read_u32(b, 1)),
            EcMkbpEventType::SensorFifo => EcMkbpEvent::SensorFifo(
                EcResponseMotionSenseFifoInfo {
                    size: read_u16(b, 1),
                    count: read_u16(b, 3),
                    timestamp: read_u32(b, 5),
                    total_lost: read_u16(b, 9),
                },
            ),
            EcMkbpEventType::Buttons => EcMkbpEvent::Buttons(read_u32(b, 1)),
            EcMkbpEventType::Switches => EcMkbpEvent::Switches(read_u32(b, 1)),
            EcMkbpEventType::Fingerprint => EcMkbpEvent::Fingerprint(
                EcMkbpEventFingerprint { fp_events: read_u32(b, 1) },
            ),
            EcMkbpEventType::Sysrq => EcMkbpEvent::Sysrq(read_u32(b, 1)),
            EcMkbpEventType::HostEvent64 => EcMkbpEvent::HostEvent64(read_u64(b, 1)),
            EcMkbpEventType::CecEvent => EcMkbpEvent::CecEvent(read_u32(b, 1)),
            EcMkbpEventType::CecMessage => EcMkbpEvent::CecMessage,
            EcMkbpEventType::DpAltModeEntered => EcMkbpEvent::DpAltModeEntered,
            EcMkbpEventType::OnlineCalibration => EcMkbpEvent::OnlineCalibration,
            EcMkbpEventType::Pchg => EcMkbpEvent::Pchg,
        };
        Ok(e)
    }
}

/// The arming mask of a list of event types: bit `tag` for each.
pub open spec fn event_mask(types: Seq<EcMkbpEventType>) -> u32
    decreases types.len(),
{
    if types.len() == 0 {
        0
    } else {
        event_mask(types.drop_last()) | (1u32 << (event_code(types.last()) as u32))
    }
}

/// Computes the arming mask; arming no event type is refused.
pub fn get_mask(event_types: &[EcMkbpEventType]) -> (r: Result<i32, EcError>)
    ensures
        event_types@.len() == 0 ==> r == Err::<i32, EcError>(
            EcError::ContractViolation(ContractViolation::EmptyEventSet),
        ),
        event_types@.len() > 0 ==> r == Ok::<i32, EcError>(event_mask(event_types@) as i32),
        r matches Ok(m) ==> m != 0,
{
    if event_types.len() == 0 {
        return Err(EcError::ContractViolation(ContractViolation::EmptyEventSet));
    }
    let mut mask: u32 = 0;
    let mut i: usize = 0;
    while i < event_types.len()
        invariant
            i <= event_types@.len(),
            mask == event_mask(event_types@.subrange(0, i as int)),
            mask < 0x2000,
            i > 0 ==> mask != 0,
        decreases event_types@.len() - i,
    {
        let code: u32 = event_types[i].code() as u32;
        proof {
            lemma_event_codes(event_types@[i as int]);
            assert(event_types@.subrange(0, i + 1).drop_last() =~= event_types@.subrange(0, i as int));
            assert(code <= 12);
            assert(mask < 0x2000 && code <= 12 ==> (mask | (1u32 << code)) < 0x2000 && (mask | (1u32 << code)) != 0)
                by (bit_vector);
        }
        mask = mask | (1u32 << code);
        i = i + 1;
    }
    assert(event_types@.subrange(0, i as int) =~= event_types@);
    Ok(mask as i32)
}

} // verus!
