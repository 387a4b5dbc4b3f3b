//! Chunked upload of a fingerprint template to the sensor.
//!
//! Each chunk carries its offset and length, then its bytes; the length of
//! the last chunk also carries the commit flag. A failed chunk ends the
//! upload: the device cannot take a chunk twice.

use vstd::prelude::*;
use crate::bytes::{push_u32, u32_le};
use crate::commands::{CommandRequest, CrosEcCmd};
use crate::chunks::{ceil_div, chunk_count, chunk_len, chunk_start, lemma_chunk_plan};
use crate::fp_info::EcResponseFpInfo;
use crate::frame::append_range;
use crate::protocol_info::{payload_room, EcResponseGetProtocolInfo, EC_HOST_REQUEST_SIZE};
use crate::status::{ContractViolation, EcError};

verus! {

/// Flag in the size field: the whole template has been sent.
pub const FP_TEMPLATE_COMMIT: u32 = 0x8000_0000;

/// Bytes of a chunk's own header: its offset and its size.
pub const FP_TEMPLATE_CHUNK_HEADER_SIZE: usize = 8;

/// Bytes kept free in every chunk; the sensor's firmware needs them.
pub const FP_TEMPLATE_SAFETY_MARGIN: usize = 4;

/// A template as downloaded from the sensor, ready to be uploaded again.
#[derive(Debug, Clone, PartialEq, Eq)]
pub struct FpTemplate {
    vec: Vec<u8>,
}

impl View for FpTemplate {
    type V = Seq<u8>;

    closed spec fn view(&self) -> Seq<u8> {
        self.vec@
    }
}

impl FpTemplate {
    /// The template's bytes.
    pub fn buffer(&self) -> (r: &Vec<u8>)
        ensures
            r@ == self@,
    {
        &self.vec
    }

    /// Wraps bytes as a template. Only a template downloaded from a sensor
    /// with the same firmware version and seed will be accepted by it.
    pub fn from_vec_unchecked(vec: Vec<u8>) -> (r: Self)
        ensures
            r@ == vec@,
    {
        FpTemplate { vec }
    }

    /// The template's bytes, taken out of the wrapper.
    pub fn into_vec(self) -> (r: Vec<u8>)
        ensures
            r@ == self@,
    {
        self.vec
    }
}

impl From<FpTemplate> for Vec<u8> {
    fn from(value: FpTemplate) -> (r: Vec<u8>) {
        value.vec
    }
}

impl vstd::std_specs::convert::FromSpecImpl<FpTemplate> for Vec<u8> {
    open spec fn obeys_from_spec() -> bool {
        true
    }

    closed spec fn from_spec(v: FpTemplate) -> Vec<u8> {
        v.vec
    }
}

/// The most template bytes per chunk: the request payload room less the
/// chunk header and the safety margin; zero when nothing is left.
pub open spec fn upload_chunk_room(max_request_packet_size: u16) -> int {
    let room = payload_room(max_request_packet_size, EC_HOST_REQUEST_SIZE) as int;
    if room > FP_TEMPLATE_CHUNK_HEADER_SIZE + FP_TEMPLATE_SAFETY_MARGIN {
        room - FP_TEMPLATE_CHUNK_HEADER_SIZE - FP_TEMPLATE_SAFETY_MARGIN
    } else {
        0
    }
}

/// The size field of chunk `i`: its length, with the commit flag on the last.
pub open spec fn upload_size_field(i: int, size: int, chunk: int) -> u32 {
    if i == ceil_div(size, chunk) - 1 {
        (chunk_len(i, size, chunk) as u32) | FP_TEMPLATE_COMMIT
    } else {
        chunk_len(i, size, chunk) as u32
    }
}

/// The request that sends chunk `i` of `template`.
pub open spec fn upload_chunk(template: Seq<u8>, i: int, chunk: int) -> Seq<u8> {
    let start = chunk_start(i, chunk);
    u32_le(start as u32) + u32_le(upload_size_field(i, template.len() as int, chunk))
        + template.subrange(start, start + chunk_len(i, template.len() as int, chunk))
}

/// The commit flag is set in the size field of the last chunk, and of no
/// other.
pub proof fn lemma_commit_only_on_last(size: int, chunk: int, i: int)
    requires
        size >= 0,
        0 < chunk < FP_TEMPLATE_COMMIT,
        0 <= i < ceil_div(size, chunk),
    ensures
        (upload_size_field(i, size, chunk) & FP_TEMPLATE_COMMIT != 0) <==> i == ceil_div(size, chunk) - 1,
        upload_size_field(i, size, chunk) & !FP_TEMPLATE_COMMIT == chunk_len(i, size, chunk),
{
    lemma_chunk_plan(size, chunk, i);
    let len = chunk_len(i, size, chunk) as u32;
    assert(len < FP_TEMPLATE_COMMIT);
    assert((len | 0x8000_0000u32) & 0x8000_0000u32 != 0 && (len | 0x8000_0000u32) & !0x8000_0000u32 == len
        && len & 0x8000_0000u32 == 0 && len & !0x8000_0000u32 == len) by (bit_vector)
        requires
            len < 0x8000_0000u32,
    ;
}

/// Whether `q` sends the template chunk request `params`.
pub open spec fn is_template_request(q: CommandRequest, params: Seq<u8>) -> bool {
    &&& q.command == CrosEcCmd::FpTemplate
    &&& q.version == 0
    &&& q.params@ == params
    &&& q.response_len == 0
}

/// What the caller does next.
#[derive(Debug, Clone, PartialEq, Eq)]
pub enum UploadAction {
    /// Send this request (its response is empty).
    Send(CommandRequest),
    /// Every chunk was accepted.
    Finished,
    /// A chunk failed; the upload ends with this error.
    Failed(EcError),
}

/// An upload in progress.
pub struct FpUpload {
    template: Vec<u8>,
    chunk: usize,
    count: usize,
    next: usize,
    failed: bool,
}

impl FpUpload {
    /// The bytes being uploaded.
    pub closed spec fn template(&self) -> Seq<u8> {
        self.template@
    }

    /// Most template bytes per chunk.
    pub closed spec fn chunk_size(&self) -> int {
        self.chunk as int
    }

    /// The chunk to send next.
    pub closed spec fn next(&self) -> int {
        self.next as int
    }

    /// Whether a chunk has failed.
    pub closed spec fn failed(&self) -> bool {
        self.failed
    }

    pub closed spec fn wf(&self) -> bool {
        &&& 0 < self.chunk < 0x1_0000
        &&& self.template@.len() <= u32::MAX
        &&& self.count == ceil_div(self.template@.len() as int, self.chunk as int)
        &&& self.next <= self.count
        &&& self.failed ==> self.next < self.count
    }

    /// The number of chunks.
    pub open spec fn chunks(&self) -> int {
        ceil_div(self.template().len() as int, self.chunk_size())
    }

    /// Whether the upload has ended.
    pub open spec fn is_done(&self) -> bool {
        self.next() == self.chunks() || self.failed()
    }

    /// Plans the upload of `template`. Its length must be the sensor's
    /// template size; that is checked before anything is sent.
    pub fn new(
        protocol_info: &EcResponseGetProtocolInfo,
        fp_info: &EcResponseFpInfo,
        template: &FpTemplate,
    ) -> (r: Result<FpUpload, EcError>)
        ensures
            template@.len() != fp_info.template_size ==> r == Err::<FpUpload, EcError>(
                EcError::ContractViolation(
                    ContractViolation::TemplateSizeMismatch {
                        expected: fp_info.template_size as usize,
                        actual: template@.len() as usize,
                    },
                ),
            ),
            template@.len() == fp_info.template_size && upload_chunk_room(protocol_info.max_request_packet_size)
                == 0 ==> r == Err::<FpUpload, EcError>(EcError::ContractViolation(ContractViolation::ZeroChunkSize)),
            template@.len() == fp_info.template_size && upload_chunk_room(protocol_info.max_request_packet_size)
                > 0 ==> (r matches Ok(u) && u.wf() && u.template() == template@ && u.chunk_size()
                == upload_chunk_room(protocol_info.max_request_packet_size) && u.next() == 0 && !u.failed()),
    {
        let bytes: &Vec<u8> = template.buffer();
        if bytes.len() != fp_info.template_size as usize {
            return Err(EcError::ContractViolation(
                ContractViolation::TemplateSizeMismatch {
                    expected: fp_info.template_size as usize,
                    actual: bytes.len(),
                },
            ));
        }
        let room: usize = protocol_info.max_ec_input_size();
        if room <= FP_TEMPLATE_CHUNK_HEADER_SIZE + FP_TEMPLATE_SAFETY_MARGIN {
            return Err(EcError::ContractViolation(ContractViolation::ZeroChunkSize));
        }
        let chunk: usize = room - FP_TEMPLATE_CHUNK_HEADER_SIZE - FP_TEMPLATE_SAFETY_MARGIN;
        let count: usize = chunk_count(bytes.len(), chunk)?;
        let mut copy: Vec<u8> = Vec::new();
        append_range(&mut copy, bytes.as_slice(), 0, bytes.len());
        assert(bytes@.subrange(0, bytes@.len() as int) =~= bytes@);
        Ok(FpUpload { template: copy, chunk, count, next: 0, failed: false })
    }

    /// The request for the next chunk, or `Finished` when all were sent.
    pub fn current_action(&self) -> (a: UploadAction)
        requires
            self.wf(),
            !self.failed(),
        ensures
            self.next() == self.chunks() ==> a == UploadAction::Finished,
            self.next() < self.chunks() ==> (a matches UploadAction::Send(req) && is_template_request(
                req,
                upload_chunk(self.template(), self.next(), self.chunk_size()),
            )),
    {
        if self.next == self.count {
            return UploadAction::Finished;
        }
        let size: usize = self.template.len();
        proof {
            lemma_chunk_plan(size as int, self.chunk as int, self.next as int);
        }
        let start: usize = self.next * self.chunk;
        let len: usize = if size - start < self.chunk { size - start } else { self.chunk };
        let field: u32 = if self.next == self.count - 1 { (len as u32) | FP_TEMPLATE_COMMIT } else { len as u32 };
        let mut req: Vec<u8> = Vec::new();
        push_u32(&mut req, start as u32);
        push_u32(&mut req, field);
        append_range(&mut req, self.template.as_slice(), start, start + len);
        UploadAction::Send(CommandRequest { command: CrosEcCmd::FpTemplate, version: 0, params: req, response_len: 0 })
    }

    /// Records the outcome of sending the current chunk and says what to do
    /// next: the next chunk on success, the end of the upload on failure.
    pub fn record(&mut self, result: Result<Vec<u8>, EcError>) -> (a: UploadAction)
        requires
            old(self).wf(),
            !old(self).is_done(),
        ensures
            final(self).wf(),
            final(self).template() == old(self).template(),
            final(self).chunk_size() == old(self).chunk_size(),
            result matches Err(e) ==> final(self).failed() && final(self).next() == old(self).next() && a
                == UploadAction::Failed(e),
            result is Ok ==> !final(self).failed() && final(self).next() == old(self).next() + 1,
            result is Ok && final(self).next() == final(self).chunks() ==> a == UploadAction::Finished,
            result is Ok && final(self).next() < final(self).chunks() ==> (a matches UploadAction::Send(req)
                && is_template_request(req, upload_chunk(final(self).template(), final(self).next(), final(self).chunk_size()))),
    {
        match result {
            Err(e) => {
                self.failed = true;
                UploadAction::Failed(e)
            },
            Ok(_) => {
                self.next = self.next + 1;
                self.current_action()
            },
        }
    }
}

} // verus!
