//! The fingerprint sensor's mode bits.

use vstd::prelude::*;
use vstd::string::StringExecFns;

verus! {

/// A mode bit of the sensor. `Reset` is the empty set of bits;
/// `DontChange` asks the sensor to keep its mode and only report it.
#[derive(Debug, Clone, Copy, PartialEq, Eq, Structural)]
pub enum FpMode {
    Reset,
    DeepSleep,
    FingerDown,
    FingerUp,
    Capture,
    EnrollSession,
    EnrollImage,
    Match,
    ResetSensor,
    Maintanence,
    DontChange,
}

/// The bit of each mode.
pub open spec fn mode_value(m: FpMode) -> u32 {
    match m {
        FpMode::Reset => 0x0,
        FpMode::DeepSleep => 0x1,
        FpMode::FingerDown => 0x2,
        FpMode::FingerUp => 0x4,
        FpMode::Capture => 0x8,
        FpMode::EnrollSession => 0x10,
        FpMode::EnrollImage => 0x20,
        FpMode::Match => 0x40,
        FpMode::ResetSensor => 0x80,
        FpMode::Maintanence => 0x100,
        FpMode::DontChange => 0x80000000,
    }
}

/// The name of each mode.
pub open spec fn mode_name(m: FpMode) -> Seq<char> {
    match m {
        FpMode::Reset => "Reset"@,
        FpMode::DeepSleep => "DeepSleep"@,
        FpMode::FingerDown => "FingerDown"@,
        FpMode::FingerUp => "FingerUp"@,
        FpMode::Capture => "Capture"@,
        FpMode::EnrollSession => "EnrollSession"@,
        FpMode::EnrollImage => "EnrollImage"@,
        FpMode::Match => "Match"@,
        FpMode::ResetSensor => "ResetSensor"@,
        FpMode::Maintanence => "Maintanence"@,
        FpMode::DontChange => "DontChange"@,
    }
}

/// The modes in order.
pub open spec fn mode_at(i: int) -> FpMode {
    if i == 0 {
        FpMode::Reset
    } else if i == 1 {
        FpMode::DeepSleep
    } else if i == 2 {
        FpMode::FingerDown
    } else if i == 3 {
        FpMode::FingerUp
    } else if i == 4 {
        FpMode::Capture
    } else if i == 5 {
        FpMode::EnrollSession
    } else if i == 6 {
        FpMode::EnrollImage
    } else if i == 7 {
        FpMode::Match
    } else if i == 8 {
        FpMode::ResetSensor
    } else if i == 9 {
        FpMode::Maintanence
    } else {
        FpMode::DontChange
    }
}

/// Number of modes.
pub const FP_MODE_COUNT: usize = 11;

/// Binary digits of `n`, most significant first, without leading zeros.
pub open spec fn binary_digits(n: nat) -> Seq<char>
    decreases n,
{
    if n < 2 {
        if n == 0 {
            "0"@
        } else {
            "1"@
        }
    } else {
        binary_digits(n / 2) + if n % 2 == 0 {
            "0"@
        } else {
            "1"@
        }
    }
}

/// The names of the modes among the first `k` whose bit is set in `m`,
/// joined by ", ", and whether there is any.
pub open spec fn joined_names(m: u32, k: int) -> (Seq<char>, bool)
    decreases k,
{
    if k <= 0 {
        (Seq::empty(), false)
    } else {
        let (text, any) = joined_names(m, k - 1);
        let f = mode_at(k - 1);
        if m & mode_value(f) != 0 {
            (if any {
                text + ", "@ + mode_name(f)
            } else {
                mode_name(f)
            }, true)
        } else {
            (text, any)
        }
    }
}

/// The names of the modes in a mode word; `Reset` for no bits.
pub open spec fn mode_names(m: u32) -> Seq<char> {
    if m == 0 {
        mode_name(FpMode::Reset)
    } else {
        joined_names(m, FP_MODE_COUNT as int).0
    }
}

/// How a mode word is shown: its binary digits, then the names of its bits.
pub open spec fn mode_display(m: u32) -> Seq<char> {
    "0b"@ + binary_digits(m as nat) + " ("@ + mode_names(m) + ")"@
}

impl FpMode {
    pub fn value(&self) -> (r: u32)
        ensures
            r == mode_value(*self),
    {
        match self {
            FpMode::Reset => 0x0,
            FpMode::DeepSleep => 0x1,
            FpMode::FingerDown => 0x2,
            FpMode::FingerUp => 0x4,
            FpMode::Capture => 0x8,
            FpMode::EnrollSession => 0x10,
            FpMode::EnrollImage => 0x20,
            FpMode::Match => 0x40,
            FpMode::ResetSensor => 0x80,
            FpMode::Maintanence => 0x100,
            FpMode::DontChange => 0x80000000,
        }
    }

    pub fn name(&self) -> (r: &'static str)
        ensures
            r@ == mode_name(*self),
    {
        match self {
            FpMode::Reset => "Reset",
            FpMode::DeepSleep => "DeepSleep",
            FpMode::FingerDown => "FingerDown",
            FpMode::FingerUp => "FingerUp",
            FpMode::Capture => "Capture",
            FpMode::EnrollSession => "EnrollSession",
            FpMode::EnrollImage => "EnrollImage",
            FpMode::Match => "Match",
            FpMode::ResetSensor => "ResetSensor",
            FpMode::Maintanence => "Maintanence",
            FpMode::DontChange => "DontChange",
        }
    }

    /// Every mode, in order.
    pub fn all() -> (r: Vec<FpMode>)
        ensures
            r@.len() == FP_MODE_COUNT,
            forall|i: int| 0 <= i < FP_MODE_COUNT ==> #[trigger] r@[i] == mode_at(i),
    {
        let mut v: Vec<FpMode> = Vec::new();
        v.push(FpMode::Reset);
        v.push(FpMode::DeepSleep);
        v.push(FpMode::FingerDown);
        v.push(FpMode::FingerUp);
        v.push(FpMode::Capture);
        v.push(FpMode::EnrollSession);
        v.push(FpMode::EnrollImage);
        v.push(FpMode::Match);
        v.push(FpMode::ResetSensor);
        v.push(FpMode::Maintanence);
        v.push(FpMode::DontChange);
        v
    }

    /// Shows a mode word: `0b` and its binary digits, then the names of the
    /// bits that are set, in brackets (`0b0 (Reset)` for no bits).
    pub fn display(fp_mode: u32) -> (r: String)
        ensures
            r@ == mode_display(fp_mode),
    {
        let mut s: String = String::new();
        s.append("0b");
        push_binary(&mut s, fp_mode);
        s.append(" (");
        if fp_mode == 0 {
            s.append(FpMode::Reset.name());
        } else {
            let all: Vec<FpMode> = FpMode::all();
            let ghost head = s@;
            let mut any: bool = false;
            let mut i: usize = 0;
            while i < all.len()
                invariant
                    i <= all@.len() == FP_MODE_COUNT,
                    forall|k: int| 0 <= k < FP_MODE_COUNT ==> #[trigger] all@[k] == mode_at(k),
                    s@ == head + joined_names(fp_mode, i as int).0,
                    any == joined_names(fp_mode, i as int).1,
                    !any ==> s@ == head,
                decreases all@.len() - i,
            {
                let f: FpMode = all[i];
                if fp_mode & f.value() != 0 {
                    if any {
                        s.append(", ");
                    }
                    s.append(f.name());
                    any = true;
                }
                assert(s@ =~= head + joined_names(fp_mode, i + 1).0);
                i = i + 1;
            }
        }
        s.append(")");
        s
    }
}

/// Appends the binary digits of `n`.
fn push_binary(s: &mut String, n: u32)
    ensures
        final(s)@ == old(s)@ + binary_digits(n as nat),
    decreases n,
{
    if n >= 2 {
        push_binary(s, n / 2);
    }
    if n % 2 == 0 {
        s.append("0");
    } else {
        s.append("1");
    }
}

} // verus!
