//! Semantic decoding of the fingerprint co-processor's event word.
//!
//! The top bits of the word select one category; enroll and match events
//! carry a 4-bit sub-code in the low nibble.

use vstd::prelude::*;
use crate::status::{DecodeError, EcError};

verus! {

/// Why an enroll step did not take.
#[derive(Debug, Clone, Copy, PartialEq, Eq, Structural)]
pub enum EcMkbpEventFingerprintEnrollError {
    LowQuality,
    Immobile,
    LowCoverage,
    Internal,
}

/// Progress of an enrollment.
#[derive(Debug, Clone, Copy, PartialEq, Eq, Structural)]
pub struct EcMkbpEventFingerprintEnroll {
    /// Enroll progress, as a percentage.
    pub percentage: u8,
    pub error: Option<EcMkbpEventFingerprintEnrollError>,
}

/// A successful match.
#[derive(Debug, Clone, Copy, PartialEq, Eq)]
pub struct EcMkbpEventFingerprintMatch {
    /// The index of the template that matched.
    pub index: usize,
    /// `None`: the template was left as it was. `Some(Ok(()))`: the template
    /// was updated to match future fingerprints better. `Some(Err(()))`: that
    /// update failed.
    pub update: Option<Result<(), ()>>,
}

/// Why a match attempt found nothing.
#[derive(Debug, Clone, Copy, PartialEq, Eq, Structural)]
pub enum EcMkbpEventFingerprintNoMatchError {
    /// The sensor had an internal error.
    Internal,
    /// There are no templates, or they are unusable.
    Templates,
    /// The image was of low quality.
    LowQuality,
    /// Too little of the finger was sensed.
    LowCoverage,
}

#[derive(Debug, Clone, Copy, PartialEq, Eq)]
pub enum EcMkbpEventFingerprintMatchResult {
    Match(EcMkbpEventFingerprintMatch),
    /// `Ok(())` for a clean no-match.
    NoMatch(Result<(), EcMkbpEventFingerprintNoMatchError>),
}

/// What a fingerprint event word means.
#[derive(Debug, Clone, Copy, PartialEq, Eq)]
pub enum EcMkbpEventFingerprintRust {
    Enroll(EcMkbpEventFingerprintEnroll),
    Match(EcMkbpEventFingerprintMatchResult),
    FingerDown,
    FingerUp,
    ImageReady,
}

/// The raw fingerprint event word.
#[derive(Debug, Clone, Copy, PartialEq, Eq, Structural)]
pub struct EcMkbpEventFingerprint {
    pub fp_events: u32,
}

pub const EC_MKBP_FP_IMAGE_READY: u32 = 0x8000_0000;
pub const EC_MKBP_FP_FINGER_UP: u32 = 0x4000_0000;
pub const EC_MKBP_FP_FINGER_DOWN: u32 = 0x2000_0000;
pub const EC_MKBP_FP_MATCH: u32 = 0x1000_0000;
pub const EC_MKBP_FP_ENROLL: u32 = 0x0800_0000;
pub const EC_MKBP_EVENT_FINGERPRINT_ERROR_MASK: u32 = 0x0000_000F;
pub const EC_MKBP_FP_ENROLL_PROGRESS_MASK: u32 = 0x0000_0FF0;
pub const EC_MKBP_FP_MATCH_IDX_MASK: u32 = 0x0000_F000;

/// The enroll outcome of a sub-code: `None` for a code the protocol does
/// not define.
pub open spec fn enroll_error_of(code: u32) -> Option<Option<EcMkbpEventFingerprintEnrollError>> {
    match code {
        0 => Some(None),
        1 => Some(Some(EcMkbpEventFingerprintEnrollError::LowQuality)),
        2 => Some(Some(EcMkbpEventFingerprintEnrollError::Immobile)),
        3 => Some(Some(EcMkbpEventFingerprintEnrollError::LowCoverage)),
        5 => Some(Some(EcMkbpEventFingerprintEnrollError::Internal)),
        _ => None,
    }
}

/// The match outcome of a sub-code, with the matched template's index:
/// `None` for a code the protocol does not define.
pub open spec fn match_result_of(code: u32, index: usize) -> Option<EcMkbpEventFingerprintMatchResult> {
    match code {
        0 => Some(EcMkbpEventFingerprintMatchResult::NoMatch(Ok(()))),
        6 => Some(EcMkbpEventFingerprintMatchResult::NoMatch(Err(EcMkbpEventFingerprintNoMatchError::Internal))),
        7 => Some(EcMkbpEventFingerprintMatchResult::NoMatch(Err(EcMkbpEventFingerprintNoMatchError::Templates))),
        2 => Some(EcMkbpEventFingerprintMatchResult::NoMatch(Err(EcMkbpEventFingerprintNoMatchError::LowQuality))),
        4 => Some(EcMkbpEventFingerprintMatchResult::NoMatch(Err(EcMkbpEventFingerprintNoMatchError::LowCoverage))),
        1 => Some(EcMkbpEventFingerprintMatchResult::Match(EcMkbpEventFingerprintMatch { index, update: None })),
        3 => Some(EcMkbpEventFingerprintMatchResult::Match(EcMkbpEventFingerprintMatch { index, update: Some(Ok(())) })),
        5 => Some(EcMkbpEventFingerprintMatchResult::Match(EcMkbpEventFingerprintMatch { index, update: Some(Err(())) })),
        _ => None,
    }
}

/// The sub-code in the low nibble.
pub open spec fn fp_sub_code(fp: u32) -> u32 {
    fp & EC_MKBP_EVENT_FINGERPRINT_ERROR_MASK
}

/// The enroll percentage in bits 4..12.
pub open spec fn fp_enroll_percentage(fp: u32) -> u8 {
    ((fp & EC_MKBP_FP_ENROLL_PROGRESS_MASK) >> 4u32) as u8
}

/// The matched template's index in bits 12..16.
pub open spec fn fp_match_index(fp: u32) -> usize {
    ((fp & EC_MKBP_FP_MATCH_IDX_MASK) >> 12u32) as usize
}

/// What an event word means. The category bits are inspected from the top
/// down (image ready, finger up, finger down, match, enroll), and the first
/// one set decides.
pub open spec fn fingerprint_meaning(fp: u32) -> Result<EcMkbpEventFingerprintRust, EcError> {
    if fp & EC_MKBP_FP_IMAGE_READY != 0 {
        Ok(EcMkbpEventFingerprintRust::ImageReady)
    } else if fp & EC_MKBP_FP_FINGER_UP != 0 {
        Ok(EcMkbpEventFingerprintRust::FingerUp)
    } else if fp & EC_MKBP_FP_FINGER_DOWN != 0 {
        Ok(EcMkbpEventFingerprintRust::FingerDown)
    } else if fp & EC_MKBP_FP_MATCH != 0 {
        match match_result_of(fp_sub_code(fp), fp_match_index(fp)) {
            Some(m) => Ok(EcMkbpEventFingerprintRust::Match(m)),
            None => Err(EcError::Decode(DecodeError::UnknownFingerprintCode(fp))),
        }
    } else if fp & EC_MKBP_FP_ENROLL != 0 {
        match enroll_error_of(fp_sub_code(fp)) {
            Some(error) => Ok(EcMkbpEventFingerprintRust::Enroll(
                EcMkbpEventFingerprintEnroll { percentage: fp_enroll_percentage(fp), error },
            )),
            None => Err(EcError::Decode(DecodeError::UnknownFingerprintCode(fp))),
        }
    } else {
        Err(EcError::Decode(DecodeError::UnknownFingerprintEvent(fp)))
    }
}

impl EcMkbpEventFingerprint {
    pub fn new(fp_events: u32) -> (r: Self)
        ensures
            r.fp_events == fp_events,
    {
        EcMkbpEventFingerprint { fp_events }
    }

    /// Decodes the event word into its category and sub-fields.
    pub fn rust(&self) -> (r: Result<EcMkbpEventFingerprintRust, EcError>)
        ensures
            r == fingerprint_meaning(self.fp_events),
    {
        let fp = self.fp_events;
        if fp & EC_MKBP_FP_IMAGE_READY != 0 {
            Ok(EcMkbpEventFingerprintRust::ImageReady)
        } else if fp & EC_MKBP_FP_FINGER_UP != 0 {
            Ok(EcMkbpEventFingerprintRust::FingerUp)
        } else if fp & EC_MKBP_FP_FINGER_DOWN != 0 {
            Ok(EcMkbpEventFingerprintRust::FingerDown)
        } else if fp & EC_MKBP_FP_MATCH != 0 {
            let index: usize = ((fp & EC_MKBP_FP_MATCH_IDX_MASK) >> 12u32) as usize;
            let found = |update: Option<Result<(), ()>>| -> (m: EcMkbpEventFingerprintRust)
                ensures
                    m == EcMkbpEventFingerprintRust::Match(
                        EcMkbpEventFingerprintMatchResult::Match(EcMkbpEventFingerprintMatch { index, update }),
                    ),
                {
                    EcMkbpEventFingerprintRust::Match(
                        EcMkbpEventFingerprintMatchResult::Match(EcMkbpEventFingerprintMatch { index, update }),
                    )
                };
            let missed = |why: Result<(), EcMkbpEventFingerprintNoMatchError>| -> (m: EcMkbpEventFingerprintRust)
                ensures
                    m == EcMkbpEventFingerprintRust::Match(EcMkbpEventFingerprintMatchResult::NoMatch(why)),
                {
                    EcMkbpEventFingerprintRust::Match(EcMkbpEventFingerprintMatchResult::NoMatch(why))
                };
            match fp & EC_MKBP_EVENT_FINGERPRINT_ERROR_MASK {
                0 => Ok(missed(Ok(()))),
                6 => Ok(missed(Err(EcMkbpEventFingerprintNoMatchError::Internal))),
                7 => Ok(missed(Err(EcMkbpEventFingerprintNoMatchError::Templates))),
                2 => Ok(missed(Err(EcMkbpEventFingerprintNoMatchError::LowQuality))),
                4 => Ok(missed(Err(EcMkbpEventFingerprintNoMatchError::LowCoverage))),
                1 => Ok(found(None)),
                3 => Ok(found(Some(Ok(())))),
                5 => Ok(found(Some(Err(())))),
                _ => Err(EcError::Decode(DecodeError::UnknownFingerprintCode(fp))),
            }
        } else if fp & EC_MKBP_FP_ENROLL != 0 {
            let percentage: u8 = ((fp & EC_MKBP_FP_ENROLL_PROGRESS_MASK) >> 4u32) as u8;
            let error = match fp & EC_MKBP_EVENT_FINGERPRINT_ERROR_MASK {
                0 => None,
                1 => Some(EcMkbpEventFingerprintEnrollError::LowQuality),
                2 => Some(EcMkbpEventFingerprintEnrollError::Immobile),
                3 => Some(EcMkbpEventFingerprintEnrollError::LowCoverage),
                5 => Some(EcMkbpEventFingerprintEnrollError::Internal),
                _ => {
                    return Err(EcError::Decode(DecodeError::UnknownFingerprintCode(fp)));
                },
            };
            Ok(EcMkbpEventFingerprintRust::Enroll(EcMkbpEventFingerprintEnroll { percentage, error }))
        } else {
            Err(EcError::Decode(DecodeError::UnknownFingerprintEvent(fp)))
        }
    }
}

} // verus!
