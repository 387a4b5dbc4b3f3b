//! Fixed-layout responses of the informational commands.

use vstd::prelude::*;
use crate::bytes::{le_u16_at, le_u32_at, read_u16, read_u32};
use crate::commands::{CommandRequest, CrosEcCmd};
use crate::status::{DecodeError, EcError};

verus! {

/// The exchange of a command that takes no parameters.
pub fn query_request(command: CrosEcCmd, version: u8, response_len: usize) -> (r: CommandRequest)
    ensures
        r.command == command,
        r.version == version,
        r.params@.len() == 0,
        r.response_len == response_len,
{
    CommandRequest { command, version, params: Vec::new(), response_len }
}

/// Bits of the encryption status.
#[derive(Debug, Clone, Copy, PartialEq, Eq, Structural)]
pub enum FpEncryptionStatus {
    /// The template seed has been set.
    SeedSet,
}

impl FpEncryptionStatus {
    pub fn bit(&self) -> (r: u32)
        ensures
            r == 1,
    {
        match self {
            FpEncryptionStatus::SeedSet => 0b1,
        }
    }
}

/// The encryption-status response.
#[derive(Debug, Clone, Copy, PartialEq, Eq, Structural)]
pub struct EcResponseFpGetEncryptionStatus {
    pub valid_flags: u32,
    pub status: u32,
}

impl EcResponseFpGetEncryptionStatus {
    /// Bytes of the response on the wire.
    pub const SIZE: usize = 8;

    /// Decodes the response; fails when fewer than `SIZE` bytes came back.
    pub fn from_bytes(b: &[u8]) -> (r: Result<Self, EcError>)
        ensures
            r is Ok <==> b@.len() >= Self::SIZE,
            r matches Ok(v) ==> {
                &&& v.valid_flags == le_u32_at(b@, 0)
                &&& v.status == le_u32_at(b@, 4)
            },
            r matches Err(e) ==> e == EcError::Decode(
                DecodeError::ShortResponse { expected: Self::SIZE, actual: b@.len() as usize },
            ),
    {
        if b.len() < Self::SIZE {
            return Err(EcError::Decode(DecodeError::ShortResponse { expected: Self::SIZE, actual: b.len() }));
        }
        Ok(EcResponseFpGetEncryptionStatus {
            valid_flags: read_u32(b, 0),
            status: read_u32(b, 4),
        })
    }
}

/// A 64-bit timestamp in two halves.
#[derive(Debug, Clone, Copy, PartialEq, Eq, Structural)]
pub struct OverallT0 {
    pub lo: u32,
    pub hi: u32,
}

impl OverallT0 {
    /// Bytes of the response on the wire.
    pub const SIZE: usize = 8;

    /// Decodes the response; fails when fewer than `SIZE` bytes came back.
    pub fn from_bytes(b: &[u8]) -> (r: Result<Self, EcError>)
        ensures
            r is Ok <==> b@.len() >= Self::SIZE,
            r matches Ok(v) ==> {
                &&& v.lo == le_u32_at(b@, 0)
                &&& v.hi == le_u32_at(b@, 4)
            },
            r matches Err(e) ==> e == EcError::Decode(
                DecodeError::ShortResponse { expected: Self::SIZE, actual: b@.len() as usize },
            ),
    {
        if b.len() < Self::SIZE {
            return Err(EcError::Decode(DecodeError::ShortResponse { expected: Self::SIZE, actual: b.len() }));
        }
        Ok(OverallT0 {
            lo: read_u32(b, 0),
            hi: read_u32(b, 4),
        })
    }
}

/// One entry of the log of AP resets.
#[derive(Debug, Clone, Copy, PartialEq, Eq, Structural)]
pub struct ApResetLogEntry {
    /// Why the AP was reset.
    pub reset_cause: u16,
    pub reserved: u16,
    /// When, in milliseconds since the EC booted; zero for an empty entry.
    pub reset_time_ms: u32,
}

impl ApResetLogEntry {
    /// Bytes of the response on the wire.
    pub const SIZE: usize = 8;

    /// Decodes the response; fails when fewer than `SIZE` bytes came back.
    pub fn from_bytes(b: &[u8]) -> (r: Result<Self, EcError>)
        ensures
            r is Ok <==> b@.len() >= Self::SIZE,
            r matches Ok(v) ==> {
                &&& v.reset_cause == le_u16_at(b@, 0)
                &&& v.reserved == le_u16_at(b@, 2)
                &&& v.reset_time_ms == le_u32_at(b@, 4)
            },
            r matches Err(e) ==> e == EcError::Decode(
                DecodeError::ShortResponse { expected: Self::SIZE, actual: b@.len() as usize },
            ),
    {
        if b.len() < Self::SIZE {
            return Err(EcError::Decode(DecodeError::ShortResponse { expected: Self::SIZE, actual: b.len() }));
        }
        Ok(ApResetLogEntry {
            reset_cause: read_u16(b, 0),
            reserved: read_u16(b, 2),
            reset_time_ms: read_u32(b, 4),
        })
    }
}

/// Timing statistics of the last capture and match.
#[derive(Debug, Clone, Copy, PartialEq, Eq, Structural)]
pub struct EcResponseFpStats {
    pub capture_time_us: u32,
    pub matching_time_us: u32,
    pub overall_time_us: u32,
    pub overall_t0: OverallT0,
    pub timestamps_invalid: u8,
    pub template_matched: i8,
}

impl EcResponseFpStats {
    /// Bytes of the response on the wire (the layout is packed).
    pub const SIZE: usize = 22;

    /// Decodes the response; fails when fewer than `SIZE` bytes came back.
    pub fn from_bytes(b: &[u8]) -> (r: Result<Self, EcError>)
        ensures
            r is Ok <==> b@.len() >= Self::SIZE,
            r matches Ok(v) ==> {
                &&& v.capture_time_us == le_u32_at(b@, 0)
                &&& v.matching_time_us == le_u32_at(b@, 4)
                &&& v.overall_time_us == le_u32_at(b@, 8)
                &&& v.overall_t0.lo == le_u32_at(b@, 12)
                &&& v.overall_t0.hi == le_u32_at(b@, 16)
                &&& v.timestamps_invalid == b@[20]
                &&& v.template_matched == b@[21] as i8
            },
            r matches Err(e) ==> e == EcError::Decode(
                DecodeError::ShortResponse { expected: Self::SIZE, actual: b@.len() as usize },
            ),
    {
        if b.len() < Self::SIZE {
            return Err(EcError::Decode(DecodeError::ShortResponse { expected: Self::SIZE, actual: b.len() }));
        }
        Ok(EcResponseFpStats {
            capture_time_us: read_u32(b, 0),
            matching_time_us: read_u32(b, 4),
            overall_time_us: read_u32(b, 8),
            overall_t0: OverallT0 { lo: read_u32(b, 12), hi: read_u32(b, 16) },
            timestamps_invalid: b[20],
            template_matched: b[21] as i8,
        })
    }
}

/// The uptime response.
#[derive(Debug, Clone, Copy, PartialEq, Eq)]
pub struct EcResponseUptimeInfo {
    /// Milliseconds since the EC last booted.
    pub time_since_ec_boot_ms: u32,
    /// AP resets by the EC since it booted.
    pub ap_resets_since_ec_boot: u32,
    /// Why the EC last reset.
    pub ec_reset_flags: u32,
    /// The latest AP resets.
    pub recent_ap_reset: [ApResetLogEntry; 4],
}

/// The reset log entry at `at`.
pub open spec fn reset_entry_at(b: Seq<u8>, at: int) -> ApResetLogEntry {
    ApResetLogEntry { reset_cause: le_u16_at(b, at), reserved: le_u16_at(b, at + 2), reset_time_ms: le_u32_at(b, at + 4) }
}

fn read_reset_entry(b: &[u8], at: usize) -> (r: ApResetLogEntry)
    requires
        at + 8 <= b@.len(),
    ensures
        r == reset_entry_at(b@, at as int),
{
    let n: usize = b.len();
    ApResetLogEntry { reset_cause: read_u16(b, at), reserved: read_u16(b, at + 2), reset_time_ms: read_u32(b, at + 4) }
}

impl EcResponseUptimeInfo {
    /// Bytes of the response on the wire.
    pub const SIZE: usize = 44;

    /// Decodes the response; fails when fewer than `SIZE` bytes came back.
    pub fn from_bytes(b: &[u8]) -> (r: Result<Self, EcError>)
        ensures
            r is Ok <==> b@.len() >= Self::SIZE,
            r matches Ok(v) ==> {
                &&& v.time_since_ec_boot_ms == le_u32_at(b@, 0)
                &&& v.ap_resets_since_ec_boot == le_u32_at(b@, 4)
                &&& v.ec_reset_flags == le_u32_at(b@, 8)
                &&& forall|i: int| 0 <= i < 4 ==> #[trigger] v.recent_ap_reset@[i] == reset_entry_at(b@, 12 + 8 * i)
            },
            r matches Err(e) ==> e == EcError::Decode(
                DecodeError::ShortResponse { expected: Self::SIZE, actual: b@.len() as usize },
            ),
    {
        if b.len() < Self::SIZE {
            return Err(EcError::Decode(DecodeError::ShortResponse { expected: Self::SIZE, actual: b.len() }));
        }
        let entries: [ApResetLogEntry; 4] = [
            read_reset_entry(b, 12),
            read_reset_entry(b, 20),
            read_reset_entry(b, 28),
            read_reset_entry(b, 36),
        ];
        assert forall|i: int| 0 <= i < 4 implies #[trigger] entries@[i] == reset_entry_at(b@, 12 + 8 * i) by {
            if i == 0 {} else if i == 1 {} else if i == 2 {} else {}
        }
        Ok(EcResponseUptimeInfo {
            time_since_ec_boot_ms: read_u32(b, 0),
            ap_resets_since_ec_boot: read_u32(b, 4),
            ec_reset_flags: read_u32(b, 8),
            recent_ap_reset: entries,
        })
    }
}

/// Top-row keys excluding Esc and Screenlock.
pub const MAX_TOP_ROW_KEYS: usize = 15;

/// The keyboard-configuration response.
#[derive(Debug, Clone, Copy, PartialEq, Eq)]
pub struct EcResponseKeybdConfig {
    /// Top-row keys, excluding Esc and Screenlock; zero disables the
    /// action-key tables.
    pub num_top_row_keys: u8,
    /// The action of each top-row key (see `ActionKey`).
    pub action_keys: [u8; 15],
    /// Capability flags.
    pub capabilities: u8,
}

impl EcResponseKeybdConfig {
    /// Bytes of the response on the wire.
    pub const SIZE: usize = 17;

    /// Decodes the response; fails when fewer than `SIZE` bytes came back.
    pub fn from_bytes(b: &[u8]) -> (r: Result<Self, EcError>)
        ensures
            r is Ok <==> b@.len() >= Self::SIZE,
            r matches Ok(v) ==> {
                &&& v.num_top_row_keys == b@[0]
                &&& v.action_keys@ == b@.subrange(1, 16)
                &&& v.capabilities == b@[16]
            },
            r matches Err(e) ==> e == EcError::Decode(
                DecodeError::ShortResponse { expected: Self::SIZE, actual: b@.len() as usize },
            ),
    {
        if b.len() < Self::SIZE {
            return Err(EcError::Decode(DecodeError::ShortResponse { expected: Self::SIZE, actual: b.len() }));
        }
        let keys: [u8; 15] = [b[1], b[2], b[3], b[4], b[5], b[6], b[7], b[8], b[9], b[10], b[11], b[12], b[13], b[14], b[15]];
        assert(keys@ =~= b@.subrange(1, 16));
        Ok(EcResponseKeybdConfig { num_top_row_keys: b[0], action_keys: keys, capabilities: b[16] })
    }
}

/// The action of a top-row key.
#[derive(Debug, Clone, Copy, PartialEq, Eq, Structural)]
pub enum ActionKey {
    TkAbsent,
    TkBack,
    TkForward,
    TkRefresh,
    TkFullscreen,
    TkOverview,
    TkBrightnessDown,
    TkBrightnessUp,
    TkVolMute,
    TkVolDown,
    TkVolUp,
    TkSnapshot,
    TkPrivacyScrnToggle,
    TkKbdBklightDown,
    TkKbdBklightUp,
    TkPlayPause,
    TkNextTrack,
    TkPrevTrack,
    TkKbdBklightToggle,
    TkMicmute,
    TkMenu,
    TkDictate,
    TkAccessibility,
    TkDonotdisturb,
}

/// The action key with each code.
pub open spec fn action_key_of(code: u8) -> Option<ActionKey> {
    match code {
        0 => Some(ActionKey::TkAbsent),
        1 => Some(ActionKey::TkBack),
        2 => Some(ActionKey::TkForward),
        3 => Some(ActionKey::TkRefresh),
        4 => Some(ActionKey::TkFullscreen),
        5 => Some(ActionKey::TkOverview),
        6 => Some(ActionKey::TkBrightnessDown),
        7 => Some(ActionKey::TkBrightnessUp),
        8 => Some(ActionKey::TkVolMute),
        9 => Some(ActionKey::TkVolDown),
        10 => Some(ActionKey::TkVolUp),
        11 => Some(ActionKey::TkSnapshot),
        12 => Some(ActionKey::TkPrivacyScrnToggle),
        13 => Some(ActionKey::TkKbdBklightDown),
        14 => Some(ActionKey::TkKbdBklightUp),
        15 => Some(ActionKey::TkPlayPause),
        16 => Some(ActionKey::TkNextTrack),
        17 => Some(ActionKey::TkPrevTrack),
        18 => Some(ActionKey::TkKbdBklightToggle),
        19 => Some(ActionKey::TkMicmute),
        20 => Some(ActionKey::TkMenu),
        21 => Some(ActionKey::TkDictate),
        22 => Some(ActionKey::TkAccessibility),
        23 => Some(ActionKey::TkDonotdisturb),
        _ => None,
    }
}

impl ActionKey {
    /// The action key with the given code, if there is one.
    pub fn from_u8(code: u8) -> (r: Option<ActionKey>)
        ensures
            r == action_key_of(code),
    {
        match code {
            0 => Some(ActionKey::TkAbsent),
            1 => Some(ActionKey::TkBack),
            2 => Some(ActionKey::TkForward),
            3 => Some(ActionKey::TkRefresh),
            4 => Some(ActionKey::TkFullscreen),
            5 => Some(ActionKey::TkOverview),
            6 => Some(ActionKey::TkBrightnessDown),
            7 => Some(ActionKey::TkBrightnessUp),
            8 => Some(ActionKey::TkVolMute),
            9 => Some(ActionKey::TkVolDown),
            10 => Some(ActionKey::TkVolUp),
            11 => Some(ActionKey::TkSnapshot),
            12 => Some(ActionKey::TkPrivacyScrnToggle),
            13 => Some(ActionKey::TkKbdBklightDown),
            14 => Some(ActionKey::TkKbdBklightUp),
            15 => Some(ActionKey::TkPlayPause),
            16 => Some(ActionKey::TkNextTrack),
            17 => Some(ActionKey::TkPrevTrack),
            18 => Some(ActionKey::TkKbdBklightToggle),
            19 => Some(ActionKey::TkMicmute),
            20 => Some(ActionKey::TkMenu),
            21 => Some(ActionKey::TkDictate),
            22 => Some(ActionKey::TkAccessibility),
            23 => Some(ActionKey::TkDonotdisturb),
            _ => None,
        }
    }
}

/// The bytes of a fixed-size text field before its first NUL.
pub open spec fn text_before_nul(field: Seq<u8>) -> Seq<u8>
    decreases field.len(),
{
    if field.len() == 0 || field[0] == 0 {
        Seq::empty()
    } else {
        seq![field[0]] + text_before_nul(field.drop_first())
    }
}

/// The text of the field `b[start..start + len]`: its bytes up to the first
/// NUL; a field that came back short is a decode error.
pub fn text_field(b: &[u8], start: usize, len: usize) -> (r: Result<Vec<u8>, EcError>)
    requires
        start + len <= usize::MAX,
    ensures
        b@.len() >= start + len ==> (r matches Ok(t) && t@ == text_before_nul(
            b@.subrange(start as int, (start + len) as int),
        )),
        b@.len() < start + len ==> r == Err::<Vec<u8>, EcError>(
            EcError::Decode(DecodeError::ShortResponse { expected: (start + len) as usize, actual: b@.len() as usize }),
        ),
{
    if b.len() < start + len {
        return Err(EcError::Decode(DecodeError::ShortResponse { expected: start + len, actual: b.len() }));
    }
    let stop: usize = start + len;
    let mut end: usize = start;
    while end < stop && b[end] != 0
        invariant
            stop == start + len,
            start <= end <= stop <= b@.len(),
            forall|k: int| start <= k < end ==> b@[k] != 0,
        decreases stop - end,
    {
        end = end + 1;
    }
    let mut out: Vec<u8> = Vec::new();
    crate::frame::append_range(&mut out, b, start, end);
    proof {
        lemma_text_before_nul(b@.subrange(start as int, (start + len) as int), (end - start) as int);
    }
    Ok(out)
}

proof fn lemma_text_before_nul(field: Seq<u8>, n: int)
    requires
        0 <= n <= field.len(),
        forall|k: int| 0 <= k < n ==> field[k] != 0,
        n == field.len() || field[n] == 0,
    ensures
        text_before_nul(field) == field.subrange(0, n),
    decreases n,
{
    if n == 0 {
        assert(field.subrange(0, 0) =~= Seq::<u8>::empty());
    } else {
        lemma_text_before_nul(field.drop_first(), n - 1);
        assert(field.subrange(0, n) =~= seq![field[0]] + field.drop_first().subrange(0, n - 1));
    }
}

} // verus!
