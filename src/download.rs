//! Chunked download of a frame buffer (an image or a template) from the
//! fingerprint sensor, with a bounded retry of each chunk.
//!
//! The caller drives the transfer: it performs each action that `FpDownload`
//! hands out (a read, or a pause and then a read) and hands back what the
//! read returned.

use vstd::prelude::*;
use crate::bytes::{push_u32, u32_le};
use crate::commands::{CommandRequest, CrosEcCmd};
use crate::chunks::{ceil_div, chunk_count, chunk_len, chunk_start, covered, lemma_chunk_plan};
use crate::frame::append_bytes;
use crate::fp_info::{simple_image_size, EcResponseFpInfo};
use crate::protocol_info::{payload_room, EcResponseGetProtocolInfo, EC_HOST_RESPONSE_SIZE};
use crate::status::{ContractViolation, DecodeError, EcError};

verus! {

/// What to download.
#[derive(Debug, Clone, Copy, PartialEq, Eq, Structural)]
pub enum DownloadType {
    /// A single grayscale image.
    SimpleImage,
    /// The vendor's full raw image.
    RawImage,
    /// The stored template with the given index.
    Template(usize),
}

/// The source selector of an image.
pub const FP_FRAME_INDEX_RAW_IMAGE: u32 = 0;

/// Offsets live in the low 28 bits of the offset field; the selector sits
/// above them.
pub const FP_FRAME_OFFSET_LIMIT: u32 = 0x1000_0000;

/// Templates are selected by index plus one, in four bits.
pub const FP_FRAME_TEMPLATE_LIMIT: usize = 15;

/// Reads of one chunk before the transfer fails.
pub const MAX_ATTEMPTS: usize = 3;

/// The pause before reading a chunk again.
pub const RETRY_DELAY_MICROS: u64 = 100_000;

/// One read: the offset field (selector and offset) and the chunk's length.
#[derive(Debug, Clone, Copy, PartialEq, Eq, Structural)]
pub struct FrameRequest {
    pub offset: u32,
    pub size: u32,
}

impl FrameRequest {
    /// The request parameters on the wire.
    pub fn params(&self) -> (r: Vec<u8>)
        ensures
            r@ == u32_le(self.offset) + u32_le(self.size),
    {
        let mut v: Vec<u8> = Vec::new();
        push_u32(&mut v, self.offset);
        push_u32(&mut v, self.size);
        v
    }

    /// The exchange that performs this read.
    pub fn command_request(&self) -> (r: CommandRequest)
        ensures
            r.command == CrosEcCmd::FpFrame,
            r.version == 0,
            r.params@ == u32_le(self.offset) + u32_le(self.size),
            r.response_len == self.size,
    {
        CommandRequest { command: CrosEcCmd::FpFrame, version: 0, params: self.params(), response_len: self.size as usize }
    }
}

/// What the caller does next.
#[derive(Debug, Clone, Copy, PartialEq, Eq)]
pub enum DownloadAction {
    /// Read this chunk.
    Read(FrameRequest),
    /// Pause, then read this chunk again.
    Retry { delay_micros: u64, request: FrameRequest },
    /// Every chunk has arrived.
    Finished,
    /// A chunk failed `MAX_ATTEMPTS` times; this is the last failure.
    Failed(EcError),
}

/// The size and selector of what is downloaded, or why it cannot be.
pub open spec fn download_source(info: EcResponseFpInfo, t: DownloadType) -> Result<(int, u32), EcError> {
    let (size, index): (int, int) = match t {
        DownloadType::SimpleImage => (simple_image_size(info.width, info.height, info.bpp), FP_FRAME_INDEX_RAW_IMAGE as int),
        DownloadType::RawImage => (info.frame_size as int, FP_FRAME_INDEX_RAW_IMAGE as int),
        DownloadType::Template(i) => (info.template_size as int, i + 1),
    };
    if index > FP_FRAME_TEMPLATE_LIMIT || size >= FP_FRAME_OFFSET_LIMIT {
        Err(EcError::ContractViolation(ContractViolation::SourceOutOfRange))
    } else {
        Ok((size, index as u32))
    }
}

/// The read of chunk `i` from source `index`, `limit` bytes at a time.
pub open spec fn frame_request(index: u32, i: int, size: int, limit: int) -> FrameRequest {
    FrameRequest {
        offset: (index * FP_FRAME_OFFSET_LIMIT + chunk_start(i, limit)) as u32,
        size: chunk_len(i, size, limit) as u32,
    }
}

/// The error that a failed read counts as.
pub open spec fn read_failure(result: Result<Vec<u8>, EcError>, expected: int) -> EcError {
    match result {
        Err(e) => e,
        Ok(v) => EcError::Decode(DecodeError::ShortResponse { expected: expected as usize, actual: v@.len() as usize }),
    }
}

/// A download in progress.
pub struct FpDownload {
    size: usize,
    limit: usize,
    index: u32,
    count: usize,
    chunk: usize,
    failures: usize,
    data: Vec<u8>,
}

impl FpDownload {
    /// Bytes to download.
    pub closed spec fn total(&self) -> int {
        self.size as int
    }

    /// Most bytes per chunk.
    pub closed spec fn limit(&self) -> int {
        self.limit as int
    }

    /// The source selector.
    pub closed spec fn selector(&self) -> u32 {
        self.index
    }

    /// The chunk being read.
    pub closed spec fn chunk(&self) -> int {
        self.chunk as int
    }

    /// Failed reads of the current chunk.
    pub closed spec fn failures(&self) -> int {
        self.failures as int
    }

    /// The bytes received so far, in order.
    pub closed spec fn received(&self) -> Seq<u8> {
        self.data@
    }

    pub closed spec fn wf(&self) -> bool {
        &&& 0 < self.limit
        &&& self.size < FP_FRAME_OFFSET_LIMIT
        &&& self.index <= FP_FRAME_TEMPLATE_LIMIT
        &&& self.count == ceil_div(self.size as int, self.limit as int)
        &&& self.chunk <= self.count
        &&& self.failures <= MAX_ATTEMPTS
        &&& self.failures == MAX_ATTEMPTS ==> self.chunk < self.count
        &&& self.data@.len() == covered(self.chunk as int, self.size as int, self.limit as int)
    }

    /// The number of chunks.
    pub open spec fn chunks(&self) -> int {
        ceil_div(self.total(), self.limit())
    }

    /// Whether the transfer has ended, with every chunk or with a failure.
    pub open spec fn is_done(&self) -> bool {
        self.chunk() == self.chunks() || self.failures() == MAX_ATTEMPTS
    }

    /// The read of chunk `i`.
    pub open spec fn request(&self, i: int) -> FrameRequest {
        frame_request(self.selector(), i, self.total(), self.limit())
    }

    /// Plans the download of `download_type`, in chunks of the largest
    /// response payload.
    pub fn new(
        fp_info: &EcResponseFpInfo,
        protocol_info: &EcResponseGetProtocolInfo,
        download_type: &DownloadType,
    ) -> (r: Result<FpDownload, EcError>)
        ensures
            download_source(*fp_info, *download_type) matches Err(e) ==> r == Err::<FpDownload, EcError>(e),
            download_source(*fp_info, *download_type) is Ok && protocol_info.max_response_packet_size
                <= EC_HOST_RESPONSE_SIZE ==> r == Err::<FpDownload, EcError>(
                EcError::ContractViolation(ContractViolation::ZeroChunkSize),
            ),
            download_source(*fp_info, *download_type) is Ok && protocol_info.max_response_packet_size
                > EC_HOST_RESPONSE_SIZE ==> (r matches Ok(d) && d.wf() && (d.total(), d.selector()) == download_source(
                *fp_info,
                *download_type,
            )->Ok_0 && d.limit() == payload_room(protocol_info.max_response_packet_size, EC_HOST_RESPONSE_SIZE)
                && d.chunk() == 0 && d.failures() == 0 && d.received() == Seq::<u8>::empty()),
    {
        let (size, index): (u64, usize) = match download_type {
            DownloadType::SimpleImage => (fp_info.get_simple_image_size(), FP_FRAME_INDEX_RAW_IMAGE as usize),
            DownloadType::RawImage => (fp_info.frame_size as u64, FP_FRAME_INDEX_RAW_IMAGE as usize),
            DownloadType::Template(i) => {
                if *i >= FP_FRAME_TEMPLATE_LIMIT {
                    return Err(EcError::ContractViolation(ContractViolation::SourceOutOfRange));
                }
                (fp_info.template_size as u64, *i + 1)
            },
        };
        if size >= FP_FRAME_OFFSET_LIMIT as u64 {
            return Err(EcError::ContractViolation(ContractViolation::SourceOutOfRange));
        }
        let size: usize = size as usize;
        let limit: usize = protocol_info.max_ec_output_size();
        let count: usize = chunk_count(size, limit)?;
        Ok(FpDownload { size, limit, index: index as u32, count, chunk: 0, failures: 0, data: Vec::new() })
    }

    fn request_exec(&self, i: usize) -> (r: FrameRequest)
        requires
            self.wf(),
            i < self.count,
        ensures
            r == self.request(i as int),
    {
        proof {
            lemma_chunk_plan(self.size as int, self.limit as int, i as int);
        }
        let start: usize = i * self.limit;
        let len: usize = if self.size - start < self.limit { self.size - start } else { self.limit };
        FrameRequest { offset: self.index * FP_FRAME_OFFSET_LIMIT + start as u32, size: len as u32 }
    }

    /// What to do first, or next after a `Read` was handed out and before
    /// its result is recorded.
    pub fn current_action(&self) -> (a: DownloadAction)
        requires
            self.wf(),
            self.failures() == 0,
        ensures
            self.chunk() == self.chunks() ==> a == DownloadAction::Finished,
            self.chunk() < self.chunks() ==> a == DownloadAction::Read(self.request(self.chunk())),
    {
        if self.chunk == self.count {
            DownloadAction::Finished
        } else {
            DownloadAction::Read(self.request_exec(self.chunk))
        }
    }

    /// Records the result of reading the current chunk and says what to do
    /// next. A read succeeds when it returns exactly the chunk's length; its
    /// bytes are appended. A failed read is retried after a pause, until the
    /// chunk has failed `MAX_ATTEMPTS` times.
    pub fn record(&mut self, result: Result<Vec<u8>, EcError>) -> (a: DownloadAction)
        requires
            old(self).wf(),
            !old(self).is_done(),
        ensures
            final(self).wf(),
            final(self).total() == old(self).total(),
            final(self).limit() == old(self).limit(),
            final(self).selector() == old(self).selector(),
            ({
                let expected = chunk_len(old(self).chunk(), old(self).total(), old(self).limit());
                if result is Ok && result->Ok_0@.len() == expected {
                    &&& final(self).received() == old(self).received() + result->Ok_0@
                    &&& final(self).chunk() == old(self).chunk() + 1
                    &&& final(self).failures() == 0
                    &&& a == if final(self).chunk() == final(self).chunks() {
                        DownloadAction::Finished
                    } else {
                        DownloadAction::Read(final(self).request(final(self).chunk()))
                    }
                } else {
                    &&& final(self).received() == old(self).received()
                    &&& final(self).chunk() == old(self).chunk()
                    &&& final(self).failures() == old(self).failures() + 1
                    &&& a == if final(self).failures() == MAX_ATTEMPTS {
                        DownloadAction::Failed(read_failure(result, expected))
                    } else {
                        DownloadAction::Retry {
                            delay_micros: RETRY_DELAY_MICROS,
                            request: old(self).request(old(self).chunk()),
                        }
                    }
                }
            }),
    {
        proof {
            lemma_chunk_plan(self.size as int, self.limit as int, self.chunk as int);
        }
        let current: FrameRequest = self.request_exec(self.chunk);
        let expected: usize = current.size as usize;
        let failure: EcError = match result {
            Ok(bytes) => {
                if bytes.len() == expected {
                    append_bytes(&mut self.data, bytes.as_slice());
                    self.chunk = self.chunk + 1;
                    self.failures = 0;
                    proof {
                        lemma_chunk_plan(self.size as int, self.limit as int, self.chunk as int);
                    }
                    return self.current_action();
                }
                EcError::Decode(DecodeError::ShortResponse { expected, actual: bytes.len() })
            },
            Err(e) => e,
        };
        self.failures = self.failures + 1;
        if self.failures == MAX_ATTEMPTS {
            DownloadAction::Failed(failure)
        } else {
            DownloadAction::Retry { delay_micros: RETRY_DELAY_MICROS, request: current }
        }
    }

    /// The downloaded bytes, once every chunk has arrived.
    pub fn into_data(self) -> (r: Vec<u8>)
        requires
            self.wf(),
            self.chunk() == self.chunks(),
        ensures
            r@ == self.received(),
            r@.len() == self.total(),
    {
        proof {
            lemma_chunk_plan(self.size as int, self.limit as int, 0);
        }
        self.data
    }
}

} // verus!
