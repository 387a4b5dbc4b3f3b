//! The fingerprint sensor's description of itself.

use vstd::prelude::*;
use crate::bytes::{le_u16_at, le_u32_at, read_u16, read_u32};
use crate::status::{DecodeError, EcError};

verus! {

/// The fingerprint-info response (version 1).
#[derive(Debug, Clone, Copy, PartialEq, Eq, Structural)]
pub struct EcResponseFpInfo {
    pub vendor_id: u32,
    pub product_id: u32,
    pub model_id: u32,
    pub version: u32,
    /// The size of the raw image, in bytes.
    pub frame_size: u32,
    pub pixel_format: u32,
    pub width: u16,
    pub height: u16,
    pub bpp: u16,
    pub errors: u16,
    /// The template size, in bytes.
    pub template_size: u32,
    /// The most templates the sensor can hold and match at once.
    pub template_max: u16,
    /// The number of templates loaded.
    pub template_valid: u16,
    /// Bit `i` set: template `i` was updated and not downloaded since.
    pub template_dirty: u32,
    /// Increases with firmware updates that change the template format.
    pub template_version: u32,
}

/// The bytes of a grayscale image of the given shape.
pub open spec fn simple_image_size(width: u16, height: u16, bpp: u16) -> int {
    (width as int) * (height as int) * (bpp as int) / 8
}

impl EcResponseFpInfo {
    /// Bytes of the response on the wire.
    pub const SIZE: usize = 48;

    /// Decodes the response; fails when fewer than `SIZE` bytes came back.
    pub fn from_bytes(b: &[u8]) -> (r: Result<Self, EcError>)
        ensures
            r is Ok <==> b@.len() >= Self::SIZE,
            r matches Ok(i) ==> {
                &&& i.vendor_id == le_u32_at(b@, 0)
                &&& i.product_id == le_u32_at(b@, 4)
                &&& i.model_id == le_u32_at(b@, 8)
                &&& i.version == le_u32_at(b@, 12)
                &&& i.frame_size == le_u32_at(b@, 16)
                &&& i.pixel_format == le_u32_at(b@, 20)
                &&& i.width == le_u16_at(b@, 24)
                &&& i.height == le_u16_at(b@, 26)
                &&& i.bpp == le_u16_at(b@, 28)
                &&& i.errors == le_u16_at(b@, 30)
                &&& i.template_size == le_u32_at(b@, 32)
                &&& i.template_max == le_u16_at(b@, 36)
                &&& i.template_valid == le_u16_at(b@, 38)
                &&& i.template_dirty == le_u32_at(b@, 40)
                &&& i.template_version == le_u32_at(b@, 44)
            },
            r matches Err(e) ==> e == EcError::Decode(
                DecodeError::ShortResponse { expected: Self::SIZE, actual: b@.len() as usize },
            ),
    {
        if b.len() < Self::SIZE {
            return Err(EcError::Decode(DecodeError::ShortResponse { expected: Self::SIZE, actual: b.len() }));
        }
        Ok(EcResponseFpInfo {
            vendor_id: read_u32(b, 0),
            product_id: read_u32(b, 4),
            model_id: read_u32(b, 8),
            version: read_u32(b, 12),
            frame_size: read_u32(b, 16),
            pixel_format: read_u32(b, 20),
            width: read_u16(b, 24),
            height: read_u16(b, 26),
            bpp: read_u16(b, 28),
            errors: read_u16(b, 30),
            template_size: read_u32(b, 32),
            template_max: read_u16(b, 36),
            template_valid: read_u16(b, 38),
            template_dirty: read_u32(b, 40),
            template_version: read_u32(b, 44),
        })
    }

    /// The bytes of the grayscale image: width times height times bits per
    /// pixel, over eight.
    pub fn get_simple_image_size(&self) -> (r: u64)
        ensures
            r == simple_image_size(self.width, self.height, self.bpp),
    {
        let w: u64 = self.width as u64;
        let h: u64 = self.height as u64;
        let d: u64 = self.bpp as u64;
        assert(w * h <= 0xffff * 0xffff) by (nonlinear_arith)
            requires
                w <= 0xffff,
                h <= 0xffff,
        ;
        assert(w * h * d <= 0xffff * 0xffff * 0xffff) by (nonlinear_arith)
            requires
                w * h <= 0xffff * 0xffff,
                d <= 0xffff,
        ;
        w * h * d / 8
    }
}

} // verus!
