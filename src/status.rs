//! Device-reported outcomes and the library's error taxonomy.

use vstd::prelude::*;

verus! {

/// The platform error code of a failed control call.
#[verifier::external_type_specification]
#[verifier::external_body]
pub struct ExErrno(nix::errno::Errno);

/// Outcome codes that the device writes into the result field of a frame.
#[derive(Debug, Clone, Copy, PartialEq, Eq, Structural)]
pub enum EcResponseStatus {
    Success,
    InvalidCommand,
    Error,
    InvalidParam,
    AccessDenied,
    InvalidResponse,
    InvalidVersion,
    InvalidChecksum,
    InProgress,
    Unavailable,
    Timeout,
    Overflow,
    InvalidHeader,
    RequestTruncated,
    ResponseTooBig,
    BusError,
    Busy,
    InvalidHeaderVersion,
    InvalidHeaderCRC,
    InvalidDataCRC,
    DUPUnavailable,
}

/// The wire code of each status.
pub open spec fn status_code(s: EcResponseStatus) -> u32 {
    match s {
        EcResponseStatus::Success => 0,
        EcResponseStatus::InvalidCommand => 1,
        EcResponseStatus::Error => 2,
        EcResponseStatus::InvalidParam => 3,
        EcResponseStatus::AccessDenied => 4,
        EcResponseStatus::InvalidResponse => 5,
        EcResponseStatus::InvalidVersion => 6,
        EcResponseStatus::InvalidChecksum => 7,
        EcResponseStatus::InProgress => 8,
        EcResponseStatus::Unavailable => 9,
        EcResponseStatus::Timeout => 10,
        EcResponseStatus::Overflow => 11,
        EcResponseStatus::InvalidHeader => 12,
        EcResponseStatus::RequestTruncated => 13,
        EcResponseStatus::ResponseTooBig => 14,
        EcResponseStatus::BusError => 15,
        EcResponseStatus::Busy => 16,
        EcResponseStatus::InvalidHeaderVersion => 17,
        EcResponseStatus::InvalidHeaderCRC => 18,
        EcResponseStatus::InvalidDataCRC => 19,
        EcResponseStatus::DUPUnavailable => 20,
    }
}

/// The status that a wire code stands for, if the protocol defines one.
pub open spec fn status_of(code: u32) -> Option<EcResponseStatus> {
    match code {
        0 => Some(EcResponseStatus::Success),
        1 => Some(EcResponseStatus::InvalidCommand),
        2 => Some(EcResponseStatus::Error),
        3 => Some(EcResponseStatus::InvalidParam),
        4 => Some(EcResponseStatus::AccessDenied),
        5 => Some(EcResponseStatus::InvalidResponse),
        6 => Some(EcResponseStatus::InvalidVersion),
        7 => Some(EcResponseStatus::InvalidChecksum),
        8 => Some(EcResponseStatus::InProgress),
        9 => Some(EcResponseStatus::Unavailable),
        10 => Some(EcResponseStatus::Timeout),
        11 => Some(EcResponseStatus::Overflow),
        12 => Some(EcResponseStatus::InvalidHeader),
        13 => Some(EcResponseStatus::RequestTruncated),
        14 => Some(EcResponseStatus::ResponseTooBig),
        15 => Some(EcResponseStatus::BusError),
        16 => Some(EcResponseStatus::Busy),
        17 => Some(EcResponseStatus::InvalidHeaderVersion),
        18 => Some(EcResponseStatus::InvalidHeaderCRC),
        19 => Some(EcResponseStatus::InvalidDataCRC),
        20 => Some(EcResponseStatus::DUPUnavailable),
        _ => None,
    }
}

impl EcResponseStatus {
    /// The wire code of this status.
    pub fn code(&self) -> (r: u32)
        ensures
            r == status_code(*self),
    {
        match self {
            EcResponseStatus::Success => 0,
            EcResponseStatus::InvalidCommand => 1,
            EcResponseStatus::Error => 2,
            EcResponseStatus::InvalidParam => 3,
            EcResponseStatus::AccessDenied => 4,
            EcResponseStatus::InvalidResponse => 5,
            EcResponseStatus::InvalidVersion => 6,
            EcResponseStatus::InvalidChecksum => 7,
            EcResponseStatus::InProgress => 8,
            EcResponseStatus::Unavailable => 9,
            EcResponseStatus::Timeout => 10,
            EcResponseStatus::Overflow => 11,
            EcResponseStatus::InvalidHeader => 12,
            EcResponseStatus::RequestTruncated => 13,
            EcResponseStatus::ResponseTooBig => 14,
            EcResponseStatus::BusError => 15,
            EcResponseStatus::Busy => 16,
            EcResponseStatus::InvalidHeaderVersion => 17,
            EcResponseStatus::InvalidHeaderCRC => 18,
            EcResponseStatus::InvalidDataCRC => 19,
            EcResponseStatus::DUPUnavailable => 20,
        }
    }

    /// The status with the given wire code, if the protocol defines one.
    pub fn from_code(code: u32) -> (r: Option<EcResponseStatus>)
        ensures
            r == status_of(code),
    {
        match code {
            0 => Some(EcResponseStatus::Success),
            1 => Some(EcResponseStatus::InvalidCommand),
            2 => Some(EcResponseStatus::Error),
            3 => Some(EcResponseStatus::InvalidParam),
            4 => Some(EcResponseStatus::AccessDenied),
            5 => Some(EcResponseStatus::InvalidResponse),
            6 => Some(EcResponseStatus::InvalidVersion),
            7 => Some(EcResponseStatus::InvalidChecksum),
            8 => Some(EcResponseStatus::InProgress),
            9 => Some(EcResponseStatus::Unavailable),
            10 => Some(EcResponseStatus::Timeout),
            11 => Some(EcResponseStatus::Overflow),
            12 => Some(EcResponseStatus::InvalidHeader),
            13 => Some(EcResponseStatus::RequestTruncated),
            14 => Some(EcResponseStatus::ResponseTooBig),
            15 => Some(EcResponseStatus::BusError),
            16 => Some(EcResponseStatus::Busy),
            17 => Some(EcResponseStatus::InvalidHeaderVersion),
            18 => Some(EcResponseStatus::InvalidHeaderCRC),
            19 => Some(EcResponseStatus::InvalidDataCRC),
            20 => Some(EcResponseStatus::DUPUnavailable),
            _ => None,
        }
    }
}

/// Returned bytes that do not decode into the expected shape.
#[derive(Debug, Clone, Copy, PartialEq, Eq, Structural)]
pub enum DecodeError {
    /// Fewer bytes came back than the fixed layout needs.
    ShortResponse { expected: usize, actual: usize },
    /// An event tag that the protocol does not define.
    UnknownEventType(u8),
    /// A fingerprint event word with none of the category bits set.
    UnknownFingerprintEvent(u32),
    /// A fingerprint enroll or match word whose sub-code is not defined.
    UnknownFingerprintCode(u32),
    /// A charge-control response whose mode or sustainer is out of range.
    InvalidChargeControl,
}

/// A request that the caller should not have made; detected before any
/// exchange with the device.
#[derive(Debug, Clone, Copy, PartialEq, Eq, Structural)]
pub enum ContractViolation {
    /// Arming event notification with no event type.
    EmptyEventSet,
    /// A template whose length differs from the device's template size.
    TemplateSizeMismatch { expected: usize, actual: usize },
    /// A size limit that leaves no room for a chunk.
    ZeroChunkSize,
    /// A download source outside what the offset field can address.
    SourceOutOfRange,
    /// The device does not advertise the command version the operation needs.
    UnsupportedVersion,
}

/// Every way an operation on the device can fail.
#[derive(Debug, Clone, Copy, PartialEq, Eq)]
pub enum EcError {
    /// The device reported a known non-success status.
    Response(EcResponseStatus),
    /// The device reported a status code that the protocol does not define.
    UnknownResponseCode(u32),
    /// The control call itself failed.
    DeviceError(nix::errno::Errno),
    /// The returned bytes do not have the expected shape.
    Decode(DecodeError),
    /// The caller's request breaks a precondition of the operation.
    ContractViolation(ContractViolation),
}

pub type EcCmdResult<T> = Result<T, EcError>;

/// The outcome that a frame's result code stands for.
pub open spec fn code_outcome(code: u32) -> Result<(), EcError> {
    match status_of(code) {
        Some(EcResponseStatus::Success) => Ok(()),
        Some(status) => Err(EcError::Response(status)),
        None => Err(EcError::UnknownResponseCode(code)),
    }
}

/// Classifies the result code of a completed exchange: success, a known
/// failure status, or an unknown code kept as it came.
pub fn check_result_code(code: u32) -> (r: Result<(), EcError>)
    ensures
        r == code_outcome(code),
{
    match EcResponseStatus::from_code(code) {
        Some(EcResponseStatus::Success) => Ok(()),
        Some(status) => Err(EcError::Response(status)),
        None => Err(EcError::UnknownResponseCode(code)),
    }
}

/// Each known status decodes from its own code to itself, as success or as
/// the matching typed error; every code outside the known set decodes to an
/// unknown-code error that keeps the raw value.
pub proof fn lemma_status_codes(s: EcResponseStatus, code: u32)
    ensures
        status_of(status_code(s)) == Some(s),
        code_outcome(status_code(s)) == (if s == EcResponseStatus::Success {
            Ok::<(), EcError>(())
        } else {
            Err(EcError::Response(s))
        }),
        code > 20 ==> code_outcome(code) == Err::<(), EcError>(EcError::UnknownResponseCode(code)),
        status_of(code) matches Some(t) ==> status_code(t) == code,
{
}

} // verus!
