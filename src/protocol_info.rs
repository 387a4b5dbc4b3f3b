//! Protocol limits reported by the device.

use vstd::prelude::*;
use crate::bytes::{le_u16_at, le_u32_at, read_u16, read_u32};
use crate::commands::{CommandRequest, CrosEcCmd};
use crate::status::{DecodeError, EcError};

verus! {

/// Bytes of the device-side request header counted in a request packet.
pub const EC_HOST_REQUEST_SIZE: usize = 8;

/// Bytes of the device-side response header counted in a response packet.
pub const EC_HOST_RESPONSE_SIZE: usize = 8;

/// The protocol-info exchange.
pub fn get_protocol_info_request() -> (r: CommandRequest)
    ensures
        r.command == CrosEcCmd::GetProtocolInfo,
        r.version == 0,
        r.params@.len() == 0,
        r.response_len == EcResponseGetProtocolInfo::SIZE,
{
    CommandRequest {
        command: CrosEcCmd::GetProtocolInfo,
        version: 0,
        params: Vec::new(),
        response_len: EcResponseGetProtocolInfo::SIZE,
    }
}

/// The protocol-info response.
#[derive(Debug, Clone, Copy, PartialEq, Eq, Structural)]
pub struct EcResponseGetProtocolInfo {
    pub protocol_versions: u32,
    pub max_request_packet_size: u16,
    pub max_response_packet_size: u16,
    pub flags: u32,
}

/// A packet size less a header; zero when the header does not fit.
pub open spec fn payload_room(packet: u16, header: usize) -> usize {
    if packet >= header {
        (packet - header) as usize
    } else {
        0
    }
}

impl EcResponseGetProtocolInfo {
    /// Bytes of the response on the wire.
    pub const SIZE: usize = 12;

    /// Decodes the response; fails when fewer than `SIZE` bytes came back.
    pub fn from_bytes(b: &[u8]) -> (r: Result<Self, EcError>)
        ensures
            r is Ok <==> b@.len() >= Self::SIZE,
            r matches Ok(p) ==> p.protocol_versions == le_u32_at(b@, 0) && p.max_request_packet_size
                == le_u16_at(b@, 4) && p.max_response_packet_size == le_u16_at(b@, 6) && p.flags
                == le_u32_at(b@, 8),
            r matches Err(e) ==> e == EcError::Decode(
                DecodeError::ShortResponse { expected: Self::SIZE, actual: b@.len() as usize },
            ),
    {
        if b.len() < Self::SIZE {
            return Err(EcError::Decode(DecodeError::ShortResponse { expected: Self::SIZE, actual: b.len() }));
        }
        Ok(EcResponseGetProtocolInfo {
            protocol_versions: read_u32(b, 0),
            max_request_packet_size: read_u16(b, 4),
            max_response_packet_size: read_u16(b, 6),
            flags: read_u32(b, 8),
        })
    }

    /// The largest request payload: the request packet size less its header.
    pub fn max_ec_input_size(&self) -> (r: usize)
        ensures
            r == payload_room(self.max_request_packet_size, EC_HOST_REQUEST_SIZE),
    {
        if self.max_request_packet_size as usize >= EC_HOST_REQUEST_SIZE {
            self.max_request_packet_size as usize - EC_HOST_REQUEST_SIZE
        } else {
            0
        }
    }

    /// The largest response payload: the response packet size less its header.
    pub fn max_ec_output_size(&self) -> (r: usize)
        ensures
            r == payload_room(self.max_response_packet_size, EC_HOST_RESPONSE_SIZE),
    {
        if self.max_response_packet_size as usize >= EC_HOST_RESPONSE_SIZE {
            self.max_response_packet_size as usize - EC_HOST_RESPONSE_SIZE
        } else {
            0
        }
    }
}

} // verus!
