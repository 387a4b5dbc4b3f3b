//! Host command identifiers.

use vstd::prelude::*;

verus! {

/// The host commands that this library issues.
#[derive(Debug, Clone, Copy, PartialEq, Eq, Structural)]
pub enum CrosEcCmd {
    Hello,
    Version,
    GetBuildInfo,
    GetChipInfo,
    GetBoardVersion,
    ReadMemMap,
    GetCmdVersions,
    GetProtocolInfo,
    GetFeatures,
    SetFanTargetRpm,
    ChargeControl,
    ConsoleSnapshot,
    ConsoleRead,
    ChargeCurrentLimit,
    GetUptimeInfo,
    GetKeybdConfig,
    FpMode,
    FpInfo,
    FpFrame,
    FpTemplate,
    FpContext,
    FpStats,
    FpSetSeed,
    FpGetEncryptionStatus,
    BatteryGetStatic,
}

/// The wire id of each command.
pub open spec fn command_id(c: CrosEcCmd) -> u32 {
    match c {
        CrosEcCmd::Hello => 0x0001,
        CrosEcCmd::Version => 0x0002,
        CrosEcCmd::GetBuildInfo => 0x0004,
        CrosEcCmd::GetChipInfo => 0x0005,
        CrosEcCmd::GetBoardVersion => 0x0006,
        CrosEcCmd::ReadMemMap => 0x0007,
        CrosEcCmd::GetCmdVersions => 0x0008,
        CrosEcCmd::GetProtocolInfo => 0x000B,
        CrosEcCmd::GetFeatures => 0x000D,
        CrosEcCmd::SetFanTargetRpm => 0x0021,
        CrosEcCmd::ChargeControl => 0x0096,
        CrosEcCmd::ConsoleSnapshot => 0x0097,
        CrosEcCmd::ConsoleRead => 0x0098,
        CrosEcCmd::ChargeCurrentLimit => 0x00A1,
        CrosEcCmd::GetUptimeInfo => 0x0121,
        CrosEcCmd::GetKeybdConfig => 0x012A,
        CrosEcCmd::FpMode => 0x0402,
        CrosEcCmd::FpInfo => 0x0403,
        CrosEcCmd::FpFrame => 0x0404,
        CrosEcCmd::FpTemplate => 0x0405,
        CrosEcCmd::FpContext => 0x0406,
        CrosEcCmd::FpStats => 0x0407,
        CrosEcCmd::FpSetSeed => 0x0408,
        CrosEcCmd::FpGetEncryptionStatus => 0x0409,
        CrosEcCmd::BatteryGetStatic => 0x0600,
    }
}

impl CrosEcCmd {
    /// The wire id of this command.
    pub fn id(&self) -> (r: u32)
        ensures
            r == command_id(*self),
    {
        match self {
            CrosEcCmd::Hello => 0x0001,
            CrosEcCmd::Version => 0x0002,
            CrosEcCmd::GetBuildInfo => 0x0004,
            CrosEcCmd::GetChipInfo => 0x0005,
            CrosEcCmd::GetBoardVersion => 0x0006,
            CrosEcCmd::ReadMemMap => 0x0007,
            CrosEcCmd::GetCmdVersions => 0x0008,
            CrosEcCmd::GetProtocolInfo => 0x000B,
            CrosEcCmd::GetFeatures => 0x000D,
            CrosEcCmd::SetFanTargetRpm => 0x0021,
            CrosEcCmd::ChargeControl => 0x0096,
            CrosEcCmd::ConsoleSnapshot => 0x0097,
            CrosEcCmd::ConsoleRead => 0x0098,
            CrosEcCmd::ChargeCurrentLimit => 0x00A1,
            CrosEcCmd::GetUptimeInfo => 0x0121,
            CrosEcCmd::GetKeybdConfig => 0x012A,
            CrosEcCmd::FpMode => 0x0402,
            CrosEcCmd::FpInfo => 0x0403,
            CrosEcCmd::FpFrame => 0x0404,
            CrosEcCmd::FpTemplate => 0x0405,
            CrosEcCmd::FpContext => 0x0406,
            CrosEcCmd::FpStats => 0x0407,
            CrosEcCmd::FpSetSeed => 0x0408,
            CrosEcCmd::FpGetEncryptionStatus => 0x0409,
            CrosEcCmd::BatteryGetStatic => 0x0600,
        }
    }

    /// The command with the given wire id, if this library knows it.
    pub fn from_u32(id: u32) -> (r: Option<CrosEcCmd>)
        ensures
            r matches Some(c) ==> command_id(c) == id,
            r is None ==> forall|c: CrosEcCmd| command_id(c) != id,
    {
        match id {
            0x0001 => Some(CrosEcCmd::Hello),
            0x0002 => Some(CrosEcCmd::Version),
            0x0004 => Some(CrosEcCmd::GetBuildInfo),
            0x0005 => Some(CrosEcCmd::GetChipInfo),
            0x0006 => Some(CrosEcCmd::GetBoardVersion),
            0x0007 => Some(CrosEcCmd::ReadMemMap),
            0x0008 => Some(CrosEcCmd::GetCmdVersions),
            0x000B => Some(CrosEcCmd::GetProtocolInfo),
            0x000D => Some(CrosEcCmd::GetFeatures),
            0x0021 => Some(CrosEcCmd::SetFanTargetRpm),
            0x0096 => Some(CrosEcCmd::ChargeControl),
            0x0097 => Some(CrosEcCmd::ConsoleSnapshot),
            0x0098 => Some(CrosEcCmd::ConsoleRead),
            0x00A1 => Some(CrosEcCmd::ChargeCurrentLimit),
            0x0121 => Some(CrosEcCmd::GetUptimeInfo),
            0x012A => Some(CrosEcCmd::GetKeybdConfig),
            0x0402 => Some(CrosEcCmd::FpMode),
            0x0403 => Some(CrosEcCmd::FpInfo),
            0x0404 => Some(CrosEcCmd::FpFrame),
            0x0405 => Some(CrosEcCmd::FpTemplate),
            0x0406 => Some(CrosEcCmd::FpContext),
            0x0407 => Some(CrosEcCmd::FpStats),
            0x0408 => Some(CrosEcCmd::FpSetSeed),
            0x0409 => Some(CrosEcCmd::FpGetEncryptionStatus),
            0x0600 => Some(CrosEcCmd::BatteryGetStatic),
            _ => None,
        }
    }
}

/// One exchange to perform: the command, its version, the request
/// parameters and the expected response length.
#[derive(Debug, Clone, PartialEq, Eq)]
pub struct CommandRequest {
    pub command: CrosEcCmd,
    pub version: u8,
    pub params: Vec<u8>,
    pub response_len: usize,
}

} // verus!
