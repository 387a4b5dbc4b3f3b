//! The control frame exchanged with the device, and the classification of a
//! completed exchange.
//!
//! Wire layout, all integers little-endian: version, command id, request
//! length, response length, result code (four bytes each), then the payload.

use vstd::prelude::*;
use crate::commands::{command_id, CommandRequest};
use crate::bytes::{le_u32_at, lemma_u32_round_trip, push_u32, read_u32, u32_le};
use crate::status::{
    check_result_code, code_outcome, lemma_status_codes, status_code, DecodeError, EcError,
    EcResponseStatus,
};

verus! {

/// Bytes of the fixed header that precedes the payload.
pub const HEADER_SIZE: usize = 20;

/// The result code that a request carries before the device answers.
pub const RESULT_PENDING: u32 = 0xFF;

/// One frame: the fixed header and the inline payload.
#[derive(Debug, Clone, PartialEq, Eq)]
pub struct ControlFrame {
    pub version: u32,
    pub command_id: u32,
    pub request_len: u32,
    pub response_len: u32,
    pub result_code: u32,
    pub payload: Vec<u8>,
}

/// The mathematical value of a frame.
pub ghost struct FrameView {
    pub version: u32,
    pub command_id: u32,
    pub request_len: u32,
    pub response_len: u32,
    pub result_code: u32,
    pub payload: Seq<u8>,
}

impl View for ControlFrame {
    type V = FrameView;

    open spec fn view(&self) -> FrameView {
        FrameView {
            version: self.version,
            command_id: self.command_id,
            request_len: self.request_len,
            response_len: self.response_len,
            result_code: self.result_code,
            payload: self.payload@,
        }
    }
}

/// The bytes of a frame on the wire.
pub open spec fn frame_bytes(f: FrameView) -> Seq<u8> {
    u32_le(f.version) + u32_le(f.command_id) + u32_le(f.request_len) + u32_le(f.response_len)
        + u32_le(f.result_code) + f.payload
}

/// The frame that a byte sequence holds, if it is long enough for a header.
pub open spec fn parse_frame(b: Seq<u8>) -> Option<FrameView> {
    if b.len() < HEADER_SIZE {
        None
    } else {
        Some(
            FrameView {
                version: le_u32_at(b, 0),
                command_id: le_u32_at(b, 4),
                request_len: le_u32_at(b, 8),
                response_len: le_u32_at(b, 12),
                result_code: le_u32_at(b, 16),
                payload: b.subrange(HEADER_SIZE as int, b.len() as int),
            },
        )
    }
}

/// The payload length of a request frame: room for the request and for the
/// response.
pub open spec fn buffer_len(request_len: nat, response_len: nat) -> nat {
    if request_len >= response_len {
        request_len
    } else {
        response_len
    }
}

/// The request frame for a command: the request bytes, zero-padded to room
/// for the response.
pub open spec fn request_frame(command: u32, version: u8, request: Seq<u8>, response_len: nat) -> FrameView {
    FrameView {
        version: version as u32,
        command_id: command,
        request_len: request.len() as u32,
        response_len: response_len as u32,
        result_code: RESULT_PENDING,
        payload: request + Seq::new((buffer_len(request.len(), response_len) - request.len()) as nat, |i: int| 0u8),
    }
}

/// What a completed exchange yields, given the frame that came back and the
/// expected response length.
pub open spec fn response_outcome(raw: Seq<u8>, response_len: nat) -> Result<Seq<u8>, EcError> {
    if raw.len() < HEADER_SIZE {
        Err(EcError::Decode(DecodeError::ShortResponse { expected: HEADER_SIZE, actual: raw.len() as usize }))
    } else if code_outcome(le_u32_at(raw, 16)) is Err {
        Err(code_outcome(le_u32_at(raw, 16))->Err_0)
    } else if raw.len() < HEADER_SIZE + response_len {
        Err(EcError::Decode(DecodeError::ShortResponse {
            expected: response_len as usize,
            actual: (raw.len() - HEADER_SIZE) as usize,
        }))
    } else {
        Ok(raw.subrange(HEADER_SIZE as int, HEADER_SIZE + response_len))
    }
}

/// The view of a result that carries bytes.
pub open spec fn bytes_result(r: Result<Vec<u8>, EcError>) -> Result<Seq<u8>, EcError> {
    match r {
        Ok(v) => Ok(v@),
        Err(e) => Err(e),
    }
}

proof fn lemma_frame_bytes_layout(f: FrameView)
    ensures
        frame_bytes(f).len() == HEADER_SIZE + f.payload.len(),
        le_u32_at(frame_bytes(f), 0) == f.version,
        le_u32_at(frame_bytes(f), 4) == f.command_id,
        le_u32_at(frame_bytes(f), 8) == f.request_len,
        le_u32_at(frame_bytes(f), 12) == f.response_len,
        le_u32_at(frame_bytes(f), 16) == f.result_code,
        frame_bytes(f).subrange(HEADER_SIZE as int, frame_bytes(f).len() as int) == f.payload,
{
    let b = frame_bytes(f);
    lemma_u32_round_trip(f.version);
    lemma_u32_round_trip(f.command_id);
    lemma_u32_round_trip(f.request_len);
    lemma_u32_round_trip(f.response_len);
    lemma_u32_round_trip(f.result_code);
    assert(b.subrange(0, 4) =~= u32_le(f.version));
    assert(b.subrange(4, 8) =~= u32_le(f.command_id));
    assert(b.subrange(8, 12) =~= u32_le(f.request_len));
    assert(b.subrange(12, 16) =~= u32_le(f.response_len));
    assert(b.subrange(16, 20) =~= u32_le(f.result_code));
    assert(b.subrange(HEADER_SIZE as int, b.len() as int) =~= f.payload);
}

/// Encoding a frame and decoding the bytes gives back the same header
/// fields and the same payload.
pub proof fn lemma_frame_round_trip(f: FrameView)
    ensures
        parse_frame(frame_bytes(f)) == Some(f),
{
    lemma_frame_bytes_layout(f);
}

/// A returned frame whose result code is a known failure status yields that
/// status as a typed error; one whose code is outside the known set yields an
/// unknown-code error holding the raw value; both whatever the payload.
pub proof fn lemma_status_decoding(f: FrameView, s: EcResponseStatus, response_len: nat)
    ensures
        f.result_code == status_code(s) && s != EcResponseStatus::Success
            ==> response_outcome(frame_bytes(f), response_len) == Err::<Seq<u8>, EcError>(EcError::Response(s)),
        f.result_code > 20 ==> response_outcome(frame_bytes(f), response_len)
            == Err::<Seq<u8>, EcError>(EcError::UnknownResponseCode(f.result_code)),
        f.result_code == 0 && f.payload.len() >= response_len ==> response_outcome(frame_bytes(f), response_len)
            == Ok::<Seq<u8>, EcError>(f.payload.subrange(0, response_len as int)),
{
    lemma_frame_bytes_layout(f);
    lemma_status_codes(s, f.result_code);
    let b = frame_bytes(f);
    if f.result_code == 0 && f.payload.len() >= response_len {
        assert(b.subrange(HEADER_SIZE as int, HEADER_SIZE + response_len) =~= f.payload.subrange(0, response_len as int));
    }
}

impl ControlFrame {
    /// The frame's bytes on the wire.
    pub fn encode(&self) -> (r: Vec<u8>)
        ensures
            r@ == frame_bytes(self@),
    {
        let mut out: Vec<u8> = Vec::new();
        push_u32(&mut out, self.version);
        push_u32(&mut out, self.command_id);
        push_u32(&mut out, self.request_len);
        push_u32(&mut out, self.response_len);
        push_u32(&mut out, self.result_code);
        let mut i: usize = 0;
        let ghost head = out@;
        while i < self.payload.len()
            invariant
                head == u32_le(self.version) + u32_le(self.command_id) + u32_le(self.request_len)
                    + u32_le(self.response_len) + u32_le(self.result_code),
                i <= self.payload@.len(),
                out@ == head + self.payload@.subrange(0, i as int),
            decreases self.payload@.len() - i,
        {
            out.push(self.payload[i]);
            i = i + 1;
            assert(out@ =~= head + self.payload@.subrange(0, i as int));
        }
        assert(self.payload@.subrange(0, i as int) =~= self.payload@);
        out
    }

    /// Reads a frame back from its bytes; fails only when the bytes are too
    /// short for the header.
    pub fn decode(bytes: &[u8]) -> (r: Result<ControlFrame, EcError>)
        ensures
            r matches Ok(f) ==> parse_frame(bytes@) == Some(f@),
            r is Err <==> parse_frame(bytes@) is None,
            r matches Err(e) ==> e == EcError::Decode(
                DecodeError::ShortResponse { expected: HEADER_SIZE, actual: bytes@.len() as usize },
            ),
    {
        if bytes.len() < HEADER_SIZE {
            return Err(EcError::Decode(DecodeError::ShortResponse { expected: HEADER_SIZE, actual: bytes.len() }));
        }
        let payload = slice_from(bytes, HEADER_SIZE, bytes.len());
        Ok(ControlFrame {
            version: read_u32(bytes, 0),
            command_id: read_u32(bytes, 4),
            request_len: read_u32(bytes, 8),
            response_len: read_u32(bytes, 12),
            result_code: read_u32(bytes, 16),
            payload,
        })
    }
}

/// A copy of `b[start..end]`.
pub fn slice_from(b: &[u8], start: usize, end: usize) -> (r: Vec<u8>)
    requires
        start <= end <= b@.len(),
    ensures
        r@ == b@.subrange(start as int, end as int),
{
    let mut out: Vec<u8> = Vec::with_capacity(end - start);
    let mut i: usize = start;
    while i < end
        invariant
            start <= i <= end <= b@.len(),
            out@ == b@.subrange(start as int, i as int),
        decreases end - i,
    {
        out.push(b[i]);
        i = i + 1;
        assert(out@ =~= b@.subrange(start as int, i as int));
    }
    out
}

/// Appends a copy of `src`.
pub fn append_bytes(dst: &mut Vec<u8>, src: &[u8])
    ensures
        final(dst)@ == old(dst)@ + src@,
{
    let mut k: usize = 0;
    while k < src.len()
        invariant
            k <= src@.len(),
            dst@ == old(dst)@ + src@.subrange(0, k as int),
        decreases src@.len() - k,
    {
        dst.push(src[k]);
        k = k + 1;
        assert(dst@ =~= old(dst)@ + src@.subrange(0, k as int));
    }
    assert(src@.subrange(0, k as int) =~= src@);
}

/// Appends a copy of `src[start..end]`.
pub fn append_range(dst: &mut Vec<u8>, src: &[u8], start: usize, end: usize)
    requires
        start <= end <= src@.len(),
    ensures
        final(dst)@ == old(dst)@ + src@.subrange(start as int, end as int),
{
    let mut k: usize = start;
    while k < end
        invariant
            start <= k <= end <= src@.len(),
            dst@ == old(dst)@ + src@.subrange(start as int, k as int),
        decreases end - k,
    {
        dst.push(src[k]);
        k = k + 1;
        assert(dst@ =~= old(dst)@ + src@.subrange(start as int, k as int));
    }
}

/// Builds the request frame for one exchange: header, then the request bytes
/// zero-padded to room for the response.
pub fn build_request(command: u32, version: u8, request: &[u8], response_len: usize) -> (r: Vec<u8>)
    requires
        request@.len() <= u32::MAX,
        response_len <= u32::MAX,
    ensures
        r@ == frame_bytes(request_frame(command, version, request@, response_len as nat)),
{
    let len: usize = if request.len() >= response_len { request.len() } else { response_len };
    let mut payload: Vec<u8> = slice_from(request, 0, request.len());
    assert(request@.subrange(0, request@.len() as int) =~= request@);
    let ghost req = request@;
    while payload.len() < len
        invariant
            req.len() <= payload@.len() <= len,
            payload@ == req + Seq::new((payload@.len() - req.len()) as nat, |i: int| 0u8),
        decreases len - payload@.len(),
    {
        payload.push(0u8);
        assert(payload@ =~= req + Seq::new((payload@.len() - req.len()) as nat, |i: int| 0u8));
    }
    let frame = ControlFrame {
        version: version as u32,
        command_id: command,
        request_len: request.len() as u32,
        response_len: response_len as u32,
        result_code: RESULT_PENDING,
        payload,
    };
    assert(frame@ == request_frame(command, version, request@, response_len as nat));
    frame.encode()
}

/// The request frame of a command request.
pub fn encode_command(req: &CommandRequest) -> (r: Vec<u8>)
    requires
        req.params@.len() <= u32::MAX,
        req.response_len <= u32::MAX,
    ensures
        r@ == frame_bytes(request_frame(command_id(req.command), req.version, req.params@, req.response_len as nat)),
{
    build_request(req.command.id(), req.version, req.params.as_slice(), req.response_len)
}

/// Classifies a completed exchange. A failed control call is a device
/// error; otherwise the result code decides, and on success the first
/// `response_len` payload bytes are the response.
pub fn complete_exchange(outcome: Result<Vec<u8>, nix::errno::Errno>, response_len: usize) -> (r: Result<Vec<u8>, EcError>)
    ensures
        outcome matches Err(e) ==> r == Err::<Vec<u8>, EcError>(EcError::DeviceError(e)),
        outcome matches Ok(raw) ==> bytes_result(r) == response_outcome(raw@, response_len as nat),
{
    match outcome {
        Err(e) => Err(EcError::DeviceError(e)),
        Ok(raw) => {
            if raw.len() < HEADER_SIZE {
                return Err(EcError::Decode(DecodeError::ShortResponse { expected: HEADER_SIZE, actual: raw.len() }));
            }
            let code: u32 = read_u32(raw.as_slice(), 16);
            match check_result_code(code) {
                Err(e) => Err(e),
                Ok(()) => {
                    if raw.len() - HEADER_SIZE < response_len {
                        return Err(EcError::Decode(DecodeError::ShortResponse {
                            expected: response_len,
                            actual: raw.len() - HEADER_SIZE,
                        }));
                    }
                    Ok(slice_from(raw.as_slice(), HEADER_SIZE, HEADER_SIZE + response_len))
                },
            }
        },
    }
}

} // verus!
