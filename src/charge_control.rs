//! Charge control: how the battery is charged and kept.

use vstd::prelude::*;
use crate::bytes::{le_u16_at, le_u32_at, push_u32, read_u16, read_u32, u32_le};
use crate::commands::{CommandRequest, CrosEcCmd};
use crate::status::{DecodeError, EcError};
use crate::versions::{supports, V2};

verus! {

/// The battery level window kept while on external power.
#[derive(Debug, Clone, Copy, PartialEq, Eq, Structural)]
pub struct Sustainer {
    pub min_percent: i8,
    pub max_percent: i8,
}

/// The charge-control setting to apply.
#[derive(Debug, Clone, Copy, PartialEq, Eq, Structural)]
pub enum SetChargeControl {
    /// Charge from external power, keeping the battery in the window if one
    /// is given.
    Normal(Option<Sustainer>),
    /// Run from external power without charging.
    Idle,
    /// Run from the battery.
    Discharge,
}

#[derive(Debug, Clone, Copy, PartialEq, Eq, Structural)]
pub enum ChargeControlMode {
    Normal,
    Idle,
    Discharge,
}

/// The sub-command that sets charge control.
pub const CHARGE_CONTROL_CMD_SET: u8 = 0;

/// The sub-command that reads charge control back.
pub const CHARGE_CONTROL_CMD_GET: u8 = 1;

/// The sustainer value that means "no sustainer".
pub const SUSTAINER_OFF: i8 = -1;

/// The wire code of each mode.
pub open spec fn mode_code(m: ChargeControlMode) -> u32 {
    match m {
        ChargeControlMode::Normal => 0,
        ChargeControlMode::Idle => 1,
        ChargeControlMode::Discharge => 2,
    }
}

impl ChargeControlMode {
    pub fn code(&self) -> (r: u32)
        ensures
            r == mode_code(*self),
    {
        match self {
            ChargeControlMode::Normal => 0,
            ChargeControlMode::Idle => 1,
            ChargeControlMode::Discharge => 2,
        }
    }

    /// The mode with the given wire code.
    pub fn from_repr(code: u32) -> (r: Option<ChargeControlMode>)
        ensures
            r matches Some(m) ==> mode_code(m) == code,
            r is None <==> code > 2,
    {
        match code {
            0 => Some(ChargeControlMode::Normal),
            1 => Some(ChargeControlMode::Idle),
            2 => Some(ChargeControlMode::Discharge),
            _ => None,
        }
    }
}

/// The charge-control request parameters.
#[derive(Debug, Clone, Copy, PartialEq, Eq, Structural)]
pub struct EcParamsChargeControl {
    pub mode: u32,
    pub command: u8,
    pub reserved: u8,
    pub sustain: Sustainer,
}

/// The parameters on the wire.
pub open spec fn charge_control_params_bytes(p: EcParamsChargeControl) -> Seq<u8> {
    u32_le(p.mode) + seq![p.command, p.reserved, p.sustain.min_percent as u8, p.sustain.max_percent as u8]
}

impl EcParamsChargeControl {
    /// Bytes of the parameters on the wire.
    pub const SIZE: usize = 8;

    /// The parameters that read charge control back.
    pub fn get() -> (r: Self)
        ensures
            r == (EcParamsChargeControl {
                mode: 0,
                command: CHARGE_CONTROL_CMD_GET,
                reserved: 0,
                sustain: Sustainer { min_percent: 0, max_percent: 0 },
            }),
    {
        EcParamsChargeControl {
            mode: 0,
            command: CHARGE_CONTROL_CMD_GET,
            reserved: 0,
            sustain: Sustainer { min_percent: 0, max_percent: 0 },
        }
    }

    pub fn to_bytes(&self) -> (r: Vec<u8>)
        ensures
            r@ == charge_control_params_bytes(*self),
    {
        let mut v: Vec<u8> = Vec::new();
        push_u32(&mut v, self.mode);
        v.push(self.command);
        v.push(self.reserved);
        v.push(self.sustain.min_percent as u8);
        v.push(self.sustain.max_percent as u8);
        assert(v@ =~= charge_control_params_bytes(*self));
        v
    }
}

/// The parameters that apply a setting.
pub open spec fn set_params_of(s: SetChargeControl) -> EcParamsChargeControl {
    EcParamsChargeControl {
        mode: match s {
            SetChargeControl::Normal(_) => mode_code(ChargeControlMode::Normal),
            SetChargeControl::Idle => mode_code(ChargeControlMode::Idle),
            SetChargeControl::Discharge => mode_code(ChargeControlMode::Discharge),
        },
        command: CHARGE_CONTROL_CMD_SET,
        reserved: 0,
        sustain: match s {
            SetChargeControl::Normal(Some(window)) => window,
            SetChargeControl::Normal(None) => Sustainer { min_percent: SUSTAINER_OFF, max_percent: SUSTAINER_OFF },
            _ => Sustainer { min_percent: 0, max_percent: 0 },
        },
    }
}

impl SetChargeControl {
    /// The request parameters that apply this setting.
    pub fn to_set_params(&self) -> (r: EcParamsChargeControl)
        ensures
            r == set_params_of(*self),
    {
        let mode: ChargeControlMode = match self {
            SetChargeControl::Normal(_) => ChargeControlMode::Normal,
            SetChargeControl::Idle => ChargeControlMode::Idle,
            SetChargeControl::Discharge => ChargeControlMode::Discharge,
        };
        let sustain: Sustainer = match self {
            SetChargeControl::Normal(Some(window)) => *window,
            SetChargeControl::Normal(None) => Sustainer { min_percent: SUSTAINER_OFF, max_percent: SUSTAINER_OFF },
            _ => Sustainer { min_percent: 0, max_percent: 0 },
        };
        EcParamsChargeControl { mode: mode.code(), command: CHARGE_CONTROL_CMD_SET, reserved: 0, sustain }
    }

    /// The exchange that applies this setting, at the version the device's
    /// charge-control version mask allows: 2 when advertised, else 1.
    pub fn request(&self, versions: u32) -> (r: CommandRequest)
        ensures
            r.command == CrosEcCmd::ChargeControl,
            r.version == (if versions & V2 != 0 { 2u8 } else { 1u8 }),
            r.params@ == charge_control_params_bytes(set_params_of(*self)),
            r.response_len == 0,
    {
        let version: u8 = if supports(versions, V2) { 2 } else { 1 };
        CommandRequest {
            command: CrosEcCmd::ChargeControl,
            version,
            params: self.to_set_params().to_bytes(),
            response_len: 0,
        }
    }
}

/// The exchange that reads charge control back (version 2 only).
pub fn get_charge_control_request() -> (r: CommandRequest)
    ensures
        r.command == CrosEcCmd::ChargeControl,
        r.version == 2,
        r.params@ == charge_control_params_bytes(
            EcParamsChargeControl {
                mode: 0,
                command: CHARGE_CONTROL_CMD_GET,
                reserved: 0,
                sustain: Sustainer { min_percent: 0, max_percent: 0 },
            },
        ),
        r.response_len == EcResponseChargeControl::SIZE,
{
    CommandRequest {
        command: CrosEcCmd::ChargeControl,
        version: 2,
        params: EcParamsChargeControl::get().to_bytes(),
        response_len: EcResponseChargeControl::SIZE,
    }
}

/// The charge-control response.
#[derive(Debug, Clone, Copy, PartialEq, Eq, Structural)]
pub struct EcResponseChargeControl {
    pub mode: u32,
    pub sustainer: Sustainer,
    pub reserved: u16,
}

impl EcResponseChargeControl {
    /// Bytes of the response on the wire.
    pub const SIZE: usize = 8;

    /// Decodes the response; fails when fewer than `SIZE` bytes came back.
    pub fn from_bytes(b: &[u8]) -> (r: Result<Self, EcError>)
        ensures
            r is Ok <==> b@.len() >= Self::SIZE,
            r matches Ok(c) ==> c.mode == le_u32_at(b@, 0) && c.sustainer.min_percent == b@[4] as i8
                && c.sustainer.max_percent == b@[5] as i8 && c.reserved == le_u16_at(b@, 6),
            r matches Err(e) ==> e == EcError::Decode(
                DecodeError::ShortResponse { expected: Self::SIZE, actual: b@.len() as usize },
            ),
    {
        if b.len() < Self::SIZE {
            return Err(EcError::Decode(DecodeError::ShortResponse { expected: Self::SIZE, actual: b.len() }));
        }
        Ok(EcResponseChargeControl {
            mode: read_u32(b, 0),
            sustainer: Sustainer { min_percent: b[4] as i8, max_percent: b[5] as i8 },
            reserved: read_u16(b, 6),
        })
    }
}

/// Charge control as the device reports it.
#[derive(Debug, Clone, Copy, PartialEq, Eq, Structural)]
pub struct ChargeControlStatus {
    pub mode: ChargeControlMode,
    pub sustainer: Option<Sustainer>,
}

/// The sustainer that a response reports: off, a window within 0..=100, or
/// an invalid value.
pub open spec fn sustainer_of(s: Sustainer) -> Option<Option<Sustainer>> {
    if s.min_percent == SUSTAINER_OFF && s.max_percent == SUSTAINER_OFF {
        Some(None)
    } else if 0 <= s.min_percent <= 100 && 0 <= s.max_percent <= 100 {
        Some(Some(s))
    } else {
        None
    }
}

impl ChargeControlStatus {
    /// Interprets a response; an unknown mode or a sustainer outside
    /// `0..=100` that is not the "off" value is a decode error.
    pub fn try_from(value: EcResponseChargeControl) -> (r: Result<Self, EcError>)
        ensures
            r is Ok <==> value.mode <= 2 && sustainer_of(value.sustainer) is Some,
            r matches Ok(s) ==> mode_code(s.mode) == value.mode && s.sustainer == sustainer_of(
                value.sustainer,
            )->Some_0,
            r matches Err(e) ==> e == EcError::Decode(DecodeError::InvalidChargeControl),
    {
        let mode: ChargeControlMode = match ChargeControlMode::from_repr(value.mode) {
            Some(m) => m,
            None => {
                return Err(EcError::Decode(DecodeError::InvalidChargeControl));
            },
        };
        let s: Sustainer = value.sustainer;
        let sustainer: Option<Sustainer> = if s.min_percent == SUSTAINER_OFF && s.max_percent == SUSTAINER_OFF {
            None
        } else if 0 <= s.min_percent && s.min_percent <= 100 && 0 <= s.max_percent && s.max_percent <= 100 {
            Some(s)
        } else {
            return Err(EcError::Decode(DecodeError::InvalidChargeControl));
        };
        Ok(ChargeControlStatus { mode, sustainer })
    }
}

} // verus!
