//! Which protocol versions of a command the device accepts.
//!
//! The version query is itself versioned: it is first sent at its newer
//! revision (a 16-bit command id); if that exchange fails, it is sent once
//! more at the older revision (an 8-bit command id), and that second outcome
//! is final.

use vstd::prelude::*;
use crate::bytes::{le_u32_at, push_u16, read_u32, u16_le};
use crate::commands::{command_id, CommandRequest, CrosEcCmd};
use crate::frame::bytes_result;
use crate::status::{ContractViolation, DecodeError, EcError};

verus! {

/// Bit of version 0 in a version mask.
pub const V0: u32 = 0b001;

/// Bit of version 1 in a version mask.
pub const V1: u32 = 0b010;

/// Bit of version 2 in a version mask.
pub const V2: u32 = 0b100;

/// Bytes of the version-query response: the mask.
pub const VERSION_MASK_SIZE: usize = 4;

/// The parameters of the newer query: the command id in 16 bits.
pub open spec fn newer_query_params(cmd: CrosEcCmd) -> Seq<u8> {
    u16_le(command_id(cmd) as u16)
}

/// The parameters of the older query: the command id in 8 bits.
pub open spec fn older_query_params(cmd: CrosEcCmd) -> Seq<u8> {
    seq![command_id(cmd) as u8]
}

/// Whether `q` is the version query for `cmd` at revision `version` with
/// the given parameters.
pub open spec fn is_version_query(q: CommandRequest, version: u8, params: Seq<u8>) -> bool {
    &&& q.command == CrosEcCmd::GetCmdVersions
    &&& q.version == version
    &&& q.params@ == params
    &&& q.response_len == VERSION_MASK_SIZE
}

/// The mask that one query's outcome yields, or its failure.
pub open spec fn mask_outcome(r: Result<Seq<u8>, EcError>) -> Result<u32, EcError> {
    match r {
        Err(e) => Err(e),
        Ok(b) => if b.len() >= VERSION_MASK_SIZE {
            Ok(le_u32_at(b, 0))
        } else {
            Err(EcError::Decode(DecodeError::ShortResponse { expected: VERSION_MASK_SIZE, actual: b.len() as usize }))
        },
    }
}

/// The outcome of the negotiation, given the outcomes of the newer query
/// and, when it is sent, of the older one.
pub open spec fn negotiated(first: Result<Seq<u8>, EcError>, second: Result<Seq<u8>, EcError>) -> Result<u32, EcError> {
    if mask_outcome(first) is Ok {
        mask_outcome(first)
    } else {
        mask_outcome(second)
    }
}

/// When the newer query fails, the outcome of the negotiation is the outcome
/// of the one older query: its mask, or its failure, which is the one
/// surfaced. When the newer query succeeds, its mask is the outcome.
pub proof fn lemma_version_fallback(first: Result<Seq<u8>, EcError>, second: Result<Seq<u8>, EcError>)
    ensures
        mask_outcome(first) is Err ==> negotiated(first, second) == mask_outcome(second),
        mask_outcome(first) is Err && second is Err ==> negotiated(first, second) == Err::<u32, EcError>(second->Err_0),
        mask_outcome(first) is Ok ==> negotiated(first, second) == mask_outcome(first),
{
}

/// What follows the newer query.
#[derive(Debug, PartialEq, Eq)]
pub enum NegotiationStep {
    /// Send this older query; its outcome will be final.
    Fallback(CommandRequest),
    /// The negotiation is over.
    Finished(Result<u32, EcError>),
}

fn decode_mask(result: Result<Vec<u8>, EcError>) -> (r: Result<u32, EcError>)
    ensures
        r == mask_outcome(bytes_result(result)),
{
    match result {
        Err(e) => Err(e),
        Ok(b) => {
            if b.len() >= VERSION_MASK_SIZE {
                Ok(read_u32(b.as_slice(), 0))
            } else {
                Err(EcError::Decode(DecodeError::ShortResponse { expected: VERSION_MASK_SIZE, actual: b.len() }))
            }
        },
    }
}

/// The version query at its newer revision.
pub fn newer_version_query(cmd: CrosEcCmd) -> (q: CommandRequest)
    ensures
        is_version_query(q, 1, newer_query_params(cmd)),
{
    let mut params: Vec<u8> = Vec::new();
    push_u16(&mut params, cmd.id() as u16);
    CommandRequest { command: CrosEcCmd::GetCmdVersions, version: 1, params, response_len: VERSION_MASK_SIZE }
}

/// The version query at its older revision.
pub fn older_version_query(cmd: CrosEcCmd) -> (q: CommandRequest)
    ensures
        is_version_query(q, 0, older_query_params(cmd)),
{
    let mut params: Vec<u8> = Vec::new();
    params.push(cmd.id() as u8);
    assert(params@ =~= older_query_params(cmd));
    CommandRequest { command: CrosEcCmd::GetCmdVersions, version: 0, params, response_len: VERSION_MASK_SIZE }
}

/// Takes the outcome of the newer query: its mask ends the negotiation; any
/// failure leads to exactly one older query.
pub fn after_newer_query(cmd: CrosEcCmd, result: Result<Vec<u8>, EcError>) -> (s: NegotiationStep)
    ensures
        mask_outcome(bytes_result(result)) is Ok ==> s == NegotiationStep::Finished(mask_outcome(bytes_result(result))),
        mask_outcome(bytes_result(result)) is Err ==> (s matches NegotiationStep::Fallback(q) && is_version_query(
            q,
            0,
            older_query_params(cmd),
        )),
{
    match decode_mask(result) {
        Ok(mask) => NegotiationStep::Finished(Ok(mask)),
        Err(_) => NegotiationStep::Fallback(older_version_query(cmd)),
    }
}

/// Takes the outcome of the older query; it is final.
pub fn after_older_query(result: Result<Vec<u8>, EcError>) -> (r: Result<u32, EcError>)
    ensures
        r == mask_outcome(bytes_result(result)),
{
    decode_mask(result)
}

/// Whether a mask advertises the version with the given bit.
pub fn supports(mask: u32, version_bit: u32) -> (r: bool)
    ensures
        r == (mask & version_bit != 0),
{
    mask & version_bit != 0
}

/// Whether the device's charge-control versions include the one with
/// reading back and a sustainer (version 2).
pub fn supports_get_and_sustainer(versions: u32) -> (r: bool)
    ensures
        r == (versions & V2 != 0),
{
    supports(versions, V2)
}

/// Fingerprint info is read at version 1; a device that does not
/// advertise it is refused before the read.
pub fn fp_info_request(versions: u32) -> (r: Result<CommandRequest, EcError>)
    ensures
        versions & V1 == 0 ==> r == Err::<CommandRequest, EcError>(
            EcError::ContractViolation(ContractViolation::UnsupportedVersion),
        ),
        versions & V1 != 0 ==> (r matches Ok(q) && q.command == CrosEcCmd::FpInfo && q.version == 1 && q.params@.len()
            == 0 && q.response_len == crate::fp_info::EcResponseFpInfo::SIZE),
{
    if !supports(versions, V1) {
        return Err(EcError::ContractViolation(ContractViolation::UnsupportedVersion));
    }
    Ok(CommandRequest {
        command: CrosEcCmd::FpInfo,
        version: 1,
        params: Vec::new(),
        response_len: crate::fp_info::EcResponseFpInfo::SIZE,
    })
}

} // verus!
