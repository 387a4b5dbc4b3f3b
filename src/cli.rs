//! Checks and conversions of the command-line tool's arguments.

use vstd::prelude::*;
use vstd::string::StringSliceAdditionalSpecFns;
use crate::charge_control::{SetChargeControl, Sustainer};
use crate::download::DownloadType;
use crate::fp_context::UserId;

verus! {

/// The embedded controller's device file.
pub const CROS_EC_PATH: &'static str = "/dev/cros_ec";

/// The fingerprint co-processor's device file.
pub const CROS_FP_PATH: &'static str = "/dev/cros_fp";

/// Bytes of a template seed.
pub const FP_CONTEXT_TPM_BYTES: usize = 32;

/// A template seed.
pub type Seed = [u8; 32];

/// The device to talk to.
#[derive(Debug, Clone, Copy, PartialEq, Eq, Structural)]
pub enum Device {
    Ec,
    Fp,
}

impl Device {
    /// The device file of this device.
    pub fn get_path(&self) -> (r: &'static str)
        ensures
            *self == Device::Ec ==> r@ == CROS_EC_PATH@,
            *self == Device::Fp ==> r@ == CROS_FP_PATH@,
    {
        match self {
            Device::Ec => CROS_EC_PATH,
            Device::Fp => CROS_FP_PATH,
        }
    }
}

/// Relies on `format!`: renders the message for a seed of the wrong length.
#[verifier::external_body]
fn seed_length_message(len: usize) -> String {
    format!("The seed must be {FP_CONTEXT_TPM_BYTES} bytes long. The seed you inputted is {len} bytes long.")
}

/// A seed is the bytes of its text, exactly `FP_CONTEXT_TPM_BYTES` of them.
pub fn check_seed(seed: &str) -> (r: Result<Seed, String>)
    ensures
        r is Ok <==> seed.spec_bytes().len() == FP_CONTEXT_TPM_BYTES,
        r matches Ok(a) ==> a@ == seed.spec_bytes(),
{
    let b: &[u8] = seed.as_bytes();
    if b.len() != FP_CONTEXT_TPM_BYTES {
        return Err(seed_length_message(b.len()));
    }
    let a: Seed = [b[0], b[1], b[2], b[3], b[4], b[5], b[6], b[7], b[8], b[9], b[10], b[11], b[12], b[13], b[14], b[15], b[16], b[17], b[18], b[19], b[20], b[21], b[22], b[23], b[24], b[25], b[26], b[27], b[28], b[29], b[30], b[31]];
    assert(a@ =~= b@);
    Ok(a)
}

/// The value of a hex digit, in either case.
pub open spec fn hex_value(c: char) -> Option<u8> {
    if '0' <= c <= '9' {
        Some((c as u32 - '0' as u32) as u8)
    } else if 'a' <= c <= 'f' {
        Some((c as u32 - 'a' as u32 + 10) as u8)
    } else if 'A' <= c <= 'F' {
        Some((c as u32 - 'A' as u32 + 10) as u8)
    } else {
        None
    }
}

/// Whether every character is a hex digit.
pub open spec fn all_hex_digits(s: Seq<char>) -> bool {
    forall|i: int| 0 <= i < s.len() ==> (#[trigger] hex_value(s[i])) is Some
}

/// Whether `out` is what the hex text `s` stands for, two digits a byte,
/// the high nibble first.
pub open spec fn hex_decodes(s: Seq<char>, out: Seq<u8>) -> bool {
    &&& s.len() == 2 * out.len()
    &&& all_hex_digits(s)
    &&& forall|i: int|
        0 <= i < out.len() ==> #[trigger] out[i] == hex_value(s[2 * i])->Some_0 * 16 + hex_value(s[2 * i + 1])->Some_0
}

/// Relies on `hex::decode_to_slice`: it decodes pairs of hex digits of
/// either case into bytes, high nibble first, and fails on an odd length, a
/// length other than twice the output's, or a byte that is no hex digit.
/// The error is rendered with its `Display`.
#[verifier::external_body]
fn decode_hex_32(s: &str) -> (r: Result<UserId, String>)
    ensures
        match r {
            Ok(out) => s@.len() == 64 && hex_decodes(s@, out@),
            Err(_) => !(s@.len() == 64 && all_hex_digits(s@)),
        },
{
    let mut out: UserId = [0u8; 32];
    hex::decode_to_slice(s.as_bytes(), &mut out).map(|()| out).map_err(|e| e.to_string())
}

/// A user id is written as 64 hex digits.
pub fn check_user_id(user_id_str: &str) -> (r: Result<UserId, String>)
    ensures
        r is Ok <==> user_id_str@.len() == 64 && all_hex_digits(user_id_str@),
        r matches Ok(out) ==> hex_decodes(user_id_str@, out@),
{
    decode_hex_32(user_id_str)
}

/// The image format of a downloaded frame.
#[derive(Debug, Clone, Copy, PartialEq, Eq, Structural)]
pub enum FrameType {
    /// The vendor's raw image, as it came.
    Raw,
    /// A grayscale image, written as a PGM file.
    Pgm,
}

/// What to download from the sensor.
#[derive(Debug, Clone, Copy, PartialEq, Eq, Structural)]
pub enum FpDownloadSubcommand {
    Frame { frame_type: Option<FrameType> },
    Template { index: usize },
}

impl FpDownloadSubcommand {
    /// The download that this subcommand asks for; a frame is a PGM image
    /// unless the raw one is asked for.
    pub fn download_type(&self) -> (r: DownloadType)
        ensures
            *self matches FpDownloadSubcommand::Frame { frame_type } ==> r == (if frame_type == Some(FrameType::Raw) {
                DownloadType::RawImage
            } else {
                DownloadType::SimpleImage
            }),
            *self matches FpDownloadSubcommand::Template { index } ==> r == DownloadType::Template(index),
    {
        match self {
            FpDownloadSubcommand::Frame { frame_type } => match frame_type {
                Some(FrameType::Raw) => DownloadType::RawImage,
                _ => DownloadType::SimpleImage,
            },
            FpDownloadSubcommand::Template { index } => DownloadType::Template(*index),
        }
    }
}

/// A charge-control setting as given on the command line.
#[derive(Debug, Clone, Copy, PartialEq, Eq, Structural)]
pub enum ChargeControlSubcommand {
    /// Charge from external power; with a minimum, keep the battery between
    /// it and the maximum (the minimum when no maximum is given).
    Normal { min_percent: Option<u8>, max_percent: Option<u8> },
    /// Run from external power without charging.
    Idle,
    /// Run from the battery.
    Discharge,
}

impl ChargeControlSubcommand {
    /// The setting that this subcommand asks for.
    pub fn to_setting(&self) -> (r: SetChargeControl)
        ensures
            *self == ChargeControlSubcommand::Idle ==> r == SetChargeControl::Idle,
            *self == ChargeControlSubcommand::Discharge ==> r == SetChargeControl::Discharge,
            *self matches ChargeControlSubcommand::Normal { min_percent: None, .. } ==> r == SetChargeControl::Normal(
                None,
            ),
            *self matches ChargeControlSubcommand::Normal { min_percent: Some(min), max_percent } ==> r
                == SetChargeControl::Normal(
                Some(
                    Sustainer {
                        min_percent: min as i8,
                        max_percent: (if max_percent is Some {
                            max_percent->Some_0
                        } else {
                            min
                        }) as i8,
                    },
                ),
            ),
    {
        match self {
            ChargeControlSubcommand::Normal { min_percent, max_percent } => match min_percent {
                Some(min) => {
                    let max: u8 = match max_percent {
                        Some(max) => *max,
                        None => *min,
                    };
                    SetChargeControl::Normal(Some(Sustainer { min_percent: *min as i8, max_percent: max as i8 }))
                },
                None => SetChargeControl::Normal(None),
            },
            ChargeControlSubcommand::Idle => SetChargeControl::Idle,
            ChargeControlSubcommand::Discharge => SetChargeControl::Discharge,
        }
    }
}

} // verus!
