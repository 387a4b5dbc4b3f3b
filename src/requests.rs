//! Requests and response checks of the simple host commands: one exchange
//! each, a fixed layout each way.

use vstd::prelude::*;
use crate::bytes::{le_u32_at, le_u64_at, push_u16, push_u32, read_u32, read_u64, u16_le, u32_le};
use crate::cli::Seed;
use crate::commands::{CommandRequest, CrosEcCmd};
use crate::frame::append_range;
use crate::responses::{text_before_nul, text_field};
use crate::status::{DecodeError, EcError};

verus! {

/// What the hello command sends.
pub const HELLO_INPUT: u32 = 0xa0b0_c0d0;

/// What a working device answers to the hello command.
pub const HELLO_EXPECTED_OUTPUT: u32 = 0xa1b2_c3d4;

/// The template format version that a seed is set for.
pub const FP_TEMPLATE_FORMAT_VERSION: u16 = 4;

/// Feature bit: the device drives fans.
pub const EC_FEATURE_PWM_FAN: u64 = 0b100;

/// Fan slots in the memory map.
pub const EC_FAN_SPEED_ENTRIES: usize = 4;

/// A fan slot with no fan.
pub const EC_FAN_SPEED_NOT_PRESENT: u16 = 0xffff;

/// A fan that is present but stalled.
pub const EC_FAN_SPEED_STALLED: u16 = 0xfffe;

/// The request with no parameters.
pub open spec fn is_request(q: CommandRequest, command: CrosEcCmd, version: u8, params: Seq<u8>, response_len: nat) -> bool {
    &&& q.command == command
    &&& q.version == version
    &&& q.params@ == params
    &&& q.response_len == response_len
}

/// The `u32` a response holds, or why it holds none.
pub open spec fn u32_response(b: Seq<u8>) -> Result<u32, EcError> {
    if b.len() >= 4 {
        Ok(le_u32_at(b, 0))
    } else {
        Err(EcError::Decode(DecodeError::ShortResponse { expected: 4, actual: b.len() as usize }))
    }
}

/// Decodes a response that holds one `u32`.
pub fn read_u32_response(b: &[u8]) -> (r: Result<u32, EcError>)
    ensures
        r == u32_response(b@),
{
    if b.len() < 4 {
        return Err(EcError::Decode(DecodeError::ShortResponse { expected: 4, actual: b.len() }));
    }
    Ok(read_u32(b, 0))
}

/// The hello exchange.
pub fn hello_request() -> (r: CommandRequest)
    ensures
        is_request(r, CrosEcCmd::Hello, 0, u32_le(HELLO_INPUT), 4),
{
    let mut params: Vec<u8> = Vec::new();
    push_u32(&mut params, HELLO_INPUT);
    CommandRequest { command: CrosEcCmd::Hello, version: 0, params, response_len: 4 }
}

/// Whether the device answered hello as a working device does.
pub fn hello_answered(response: &[u8]) -> (r: Result<bool, EcError>)
    ensures
        u32_response(response@) matches Ok(v) ==> r == Ok::<bool, EcError>(v == HELLO_EXPECTED_OUTPUT),
        u32_response(response@) matches Err(e) ==> r == Err::<bool, EcError>(e),
{
    let v: u32 = read_u32_response(response)?;
    Ok(v == HELLO_EXPECTED_OUTPUT)
}

/// The fingerprint-mode exchange: sets the mode bits (or leaves them, with
/// the don't-change bit) and answers the mode in force.
pub fn fp_mode_request(mode: u32) -> (r: CommandRequest)
    ensures
        is_request(r, CrosEcCmd::FpMode, 0, u32_le(mode), 4),
{
    let mut params: Vec<u8> = Vec::new();
    push_u32(&mut params, mode);
    CommandRequest { command: CrosEcCmd::FpMode, version: 0, params, response_len: 4 }
}

/// The seed exchange: the template format version, two reserved bytes,
/// then the seed.
pub fn fp_set_seed_request(seed: &Seed) -> (r: CommandRequest)
    ensures
        is_request(r, CrosEcCmd::FpSetSeed, 0, u16_le(FP_TEMPLATE_FORMAT_VERSION) + u16_le(0) + seed@, 0),
{
    let mut params: Vec<u8> = Vec::new();
    push_u16(&mut params, FP_TEMPLATE_FORMAT_VERSION);
    push_u16(&mut params, 0);
    append_range(&mut params, seed.as_slice(), 0, 32);
    assert(seed@.subrange(0, 32) =~= seed@);
    CommandRequest { command: CrosEcCmd::FpSetSeed, version: 0, params, response_len: 0 }
}

/// The fan-speed exchange: version 0 sets every fan, version 1 one fan.
pub fn set_fan_target_rpm_request(rpm: u32, fan_index: Option<u8>) -> (r: CommandRequest)
    ensures
        fan_index is None ==> is_request(r, CrosEcCmd::SetFanTargetRpm, 0, u32_le(rpm), 0),
        fan_index matches Some(i) ==> is_request(
            r,
            CrosEcCmd::SetFanTargetRpm,
            1,
            u32_le(rpm) + seq![i, 0u8, 0u8, 0u8],
            0,
        ),
{
    let mut params: Vec<u8> = Vec::new();
    push_u32(&mut params, rpm);
    match fan_index {
        Some(i) => {
            params.push(i);
            params.push(0u8);
            params.push(0u8);
            params.push(0u8);
            assert(params@ =~= u32_le(rpm) + seq![i, 0u8, 0u8, 0u8]);
            CommandRequest { command: CrosEcCmd::SetFanTargetRpm, version: 1, params, response_len: 0 }
        },
        None => CommandRequest { command: CrosEcCmd::SetFanTargetRpm, version: 0, params, response_len: 0 },
    }
}

/// The charging-current limit parameters.
#[derive(Debug, Clone, Copy, PartialEq, Eq, Structural)]
pub struct EcParamsChargeCurrentLimit {
    /// The limit, in milliamperes.
    pub limit: u32,
}

impl EcParamsChargeCurrentLimit {
    /// The charging-current exchange.
    pub fn request(&self) -> (r: CommandRequest)
        ensures
            is_request(r, CrosEcCmd::ChargeCurrentLimit, 0, u32_le(self.limit), 0),
    {
        let mut params: Vec<u8> = Vec::new();
        push_u32(&mut params, self.limit);
        CommandRequest { command: CrosEcCmd::ChargeCurrentLimit, version: 0, params, response_len: 0 }
    }
}

/// Bytes of the version response.
pub const EC_RESPONSE_VERSION_SIZE: usize = 132;

/// The version response: the read-only and read-write version strings and
/// the name of the firmware copy that runs.
pub fn version_info(b: &[u8]) -> (r: Result<(Vec<u8>, Vec<u8>, &'static str), EcError>)
    ensures
        r is Ok <==> b@.len() >= EC_RESPONSE_VERSION_SIZE,
        r matches Ok((ro, rw, image)) ==> {
            &&& ro@ == text_before_nul(b@.subrange(0, 32))
            &&& rw@ == text_before_nul(b@.subrange(32, 64))
            &&& image@ == image_name_of(le_u32_at(b@, 96))
        },
        r matches Err(e) ==> e == EcError::Decode(
            DecodeError::ShortResponse { expected: EC_RESPONSE_VERSION_SIZE, actual: b@.len() as usize },
        ),
{
    if b.len() < EC_RESPONSE_VERSION_SIZE {
        return Err(EcError::Decode(DecodeError::ShortResponse { expected: EC_RESPONSE_VERSION_SIZE, actual: b.len() }));
    }
    let ro: Vec<u8> = text_field(b, 0, 32)?;
    let rw: Vec<u8> = text_field(b, 32, 32)?;
    Ok((ro, rw, image_name(read_u32(b, 96))))
}

/// Battery data versions this library reads.
pub fn battery_version_supported(version: i8) -> (r: bool)
    ensures
        r == (version >= 1),
{
    version >= 1
}

/// The feature bits in a features response.
pub fn features_from_response(b: &[u8]) -> (r: Result<u64, EcError>)
    ensures
        b@.len() >= 8 ==> r == Ok::<u64, EcError>(le_u64_at(b@, 0)),
        b@.len() < 8 ==> r == Err::<u64, EcError>(
            EcError::Decode(DecodeError::ShortResponse { expected: 8, actual: b@.len() as usize }),
        ),
{
    if b.len() < 8 {
        return Err(EcError::Decode(DecodeError::ShortResponse { expected: 8, actual: b.len() }));
    }
    Ok(read_u64(b, 0))
}

/// Whether the features include fans.
pub fn has_fans(features: u64) -> (r: bool)
    ensures
        r == (features & EC_FEATURE_PWM_FAN != 0),
{
    features & EC_FEATURE_PWM_FAN != 0
}

/// The slots among the first `n` that hold a fan.
pub open spec fn present_fans(speeds: Seq<u16>, n: int) -> int
    decreases n,
{
    if n <= 0 {
        0
    } else {
        present_fans(speeds, n - 1) + if speeds[n - 1] != EC_FAN_SPEED_NOT_PRESENT {
            1int
        } else {
            0
        }
    }
}

/// The number of fans: the slots that do not read "not present".
pub fn count_fans(speeds: &[u16]) -> (r: usize)
    ensures
        r == present_fans(speeds@, speeds@.len() as int),
{
    let mut n: usize = 0;
    let mut i: usize = 0;
    while i < speeds.len()
        invariant
            i <= speeds@.len(),
            n == present_fans(speeds@, i as int),
            n <= i,
        decreases speeds@.len() - i,
    {
        if speeds[i] != EC_FAN_SPEED_NOT_PRESENT {
            n = n + 1;
        }
        i = i + 1;
    }
    n
}

/// The bytes of a console chunk without its trailing NUL padding.
pub open spec fn trim_nul(b: Seq<u8>) -> Seq<u8>
    decreases b.len(),
{
    if b.len() > 0 && b.last() == 0 {
        trim_nul(b.drop_last())
    } else {
        b
    }
}

/// Takes one console read: its text without trailing NULs is appended; an
/// empty one ends the console read-out (`false`).
pub fn console_chunk(console: &mut Vec<u8>, output: &[u8]) -> (more: bool)
    ensures
        more == (trim_nul(output@).len() > 0),
        final(console)@ == old(console)@ + trim_nul(output@),
{
    let mut end: usize = output.len();
    assert(output@.subrange(0, end as int) =~= output@);
    while end > 0 && output[end - 1] == 0
        invariant
            end <= output@.len(),
            trim_nul(output@.subrange(0, end as int)) == trim_nul(output@),
        decreases end,
    {
        assert(output@.subrange(0, end as int).drop_last() =~= output@.subrange(0, end - 1));
        end = end - 1;
    }
    if end > 0 {
        assert(trim_nul(output@.subrange(0, end as int)) == output@.subrange(0, end as int));
    } else {
        assert(output@.subrange(0, 0) =~= Seq::<u8>::empty());
    }
    append_range(console, output, 0, end);
    end > 0
}

/// The name of each firmware copy.
pub open spec fn image_name_of(current_image: u32) -> Seq<char> {
    if current_image == 1 {
        "RO"@
    } else if current_image == 2 {
        "RW"@
    } else if current_image == 3 {
        "RO B"@
    } else if current_image == 4 {
        "RW B"@
    } else {
        "Unknown"@
    }
}

/// The name of the firmware copy that is running.
pub fn image_name(current_image: u32) -> (r: &'static str)
    ensures
        r@ == image_name_of(current_image),
{
    match current_image {
        1 => "RO",
        2 => "RW",
        3 => "RO B",
        4 => "RW B",
        _ => "Unknown",
    }
}

} // verus!

verus! {

/// Battery data read from the memory map.
#[derive(Debug, Clone, PartialEq, Eq)]
pub struct BatteryInfo {
    pub oem_name: String,
    pub model_number: String,
    pub chemistry: String,
    pub serial_number: String,
    pub design_capacity: i32,
    pub last_full_charge: i32,
    pub design_output_voltage: i32,
    pub cycle_count: i32,
    pub present_voltage: i32,
    pub present_current: i32,
    pub remaining_capacity: i32,
    pub flags: u8,
}

} // verus!
