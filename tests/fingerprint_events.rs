use crosec::fingerprint::{
    EcMkbpEventFingerprint, EcMkbpEventFingerprintEnroll, EcMkbpEventFingerprintEnrollError,
    EcMkbpEventFingerprintMatch, EcMkbpEventFingerprintMatchResult, EcMkbpEventFingerprintNoMatchError,
    EcMkbpEventFingerprintRust,
};
use crosec::{DecodeError, EcError};

fn decode(word: u32) -> Result<EcMkbpEventFingerprintRust, EcError> {
    EcMkbpEventFingerprint::new(word).rust()
}

#[test]
fn fingerprint_enroll_progress() {
    assert_eq!(
        decode(0x0800_0640),
        Ok(EcMkbpEventFingerprintRust::Enroll(EcMkbpEventFingerprintEnroll { percentage: 100, error: None }))
    );
    assert_eq!(
        decode(0x0800_0323),
        Ok(EcMkbpEventFingerprintRust::Enroll(EcMkbpEventFingerprintEnroll {
            percentage: 0x32,
            error: Some(EcMkbpEventFingerprintEnrollError::LowCoverage),
        }))
    );
    assert_eq!(
        decode(0x0800_0005),
        Ok(EcMkbpEventFingerprintRust::Enroll(EcMkbpEventFingerprintEnroll {
            percentage: 0,
            error: Some(EcMkbpEventFingerprintEnrollError::Internal),
        }))
    );
}

#[test]
fn fingerprint_match_found_with_index() {
    assert_eq!(
        decode(0x1000_3001),
        Ok(EcMkbpEventFingerprintRust::Match(EcMkbpEventFingerprintMatchResult::Match(
            EcMkbpEventFingerprintMatch { index: 3, update: None }
        )))
    );
    assert_eq!(
        decode(0x1000_2003),
        Ok(EcMkbpEventFingerprintRust::Match(EcMkbpEventFingerprintMatchResult::Match(
            EcMkbpEventFingerprintMatch { index: 2, update: Some(Ok(())) }
        )))
    );
    assert_eq!(
        decode(0x1000_f005),
        Ok(EcMkbpEventFingerprintRust::Match(EcMkbpEventFingerprintMatchResult::Match(
            EcMkbpEventFingerprintMatch { index: 15, update: Some(Err(())) }
        )))
    );
}

#[test]
fn fingerprint_no_match_outcomes() {
    let cases = [
        (0x1000_0000u32, Ok(())),
        (0x1000_0006, Err(EcMkbpEventFingerprintNoMatchError::Internal)),
        (0x1000_0007, Err(EcMkbpEventFingerprintNoMatchError::Templates)),
        (0x1000_0002, Err(EcMkbpEventFingerprintNoMatchError::LowQuality)),
        (0x1000_0004, Err(EcMkbpEventFingerprintNoMatchError::LowCoverage)),
    ];
    for (word, why) in cases {
        assert_eq!(
            decode(word),
            Ok(EcMkbpEventFingerprintRust::Match(EcMkbpEventFingerprintMatchResult::NoMatch(why)))
        );
    }
}

#[test]
fn fingerprint_single_bit_categories() {
    assert_eq!(decode(0x2000_0000), Ok(EcMkbpEventFingerprintRust::FingerDown));
    assert_eq!(decode(0x4000_0000), Ok(EcMkbpEventFingerprintRust::FingerUp));
    assert_eq!(decode(0x8000_0000), Ok(EcMkbpEventFingerprintRust::ImageReady));
}

#[test]
fn fingerprint_top_bit_takes_priority() {
    assert_eq!(decode(0x8800_0001), Ok(EcMkbpEventFingerprintRust::ImageReady));
    assert_eq!(decode(0x3000_0001), Ok(EcMkbpEventFingerprintRust::FingerDown));
}

#[test]
fn fingerprint_unknown_sub_code_fails() {
    assert_eq!(decode(0x1800_00ab), Err(EcError::Decode(DecodeError::UnknownFingerprintCode(0x1800_00ab))));
    assert_eq!(decode(0x0800_00ab), Err(EcError::Decode(DecodeError::UnknownFingerprintCode(0x0800_00ab))));
    assert_eq!(decode(0x1000_0008), Err(EcError::Decode(DecodeError::UnknownFingerprintCode(0x1000_0008))));
    assert_eq!(decode(0x0800_0004), Err(EcError::Decode(DecodeError::UnknownFingerprintCode(0x0800_0004))));
}

#[test]
fn fingerprint_no_category_fails() {
    assert_eq!(decode(0x0000_00ab), Err(EcError::Decode(DecodeError::UnknownFingerprintEvent(0xab))));
}
