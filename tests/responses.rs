use crosec::commands::CrosEcCmd;
use crosec::fp_info::EcResponseFpInfo;
use crosec::fp_mode::FpMode;
use crosec::requests::{
    battery_version_supported, features_from_response, fp_mode_request, has_fans, read_u32_response, version_info,
    EcParamsChargeCurrentLimit,
};
use crosec::responses::{
    query_request, text_field, ActionKey, ApResetLogEntry, EcResponseFpGetEncryptionStatus, EcResponseFpStats,
    EcResponseKeybdConfig, EcResponseUptimeInfo, FpEncryptionStatus, OverallT0,
};
use crosec::{DecodeError, EcError};

#[test]
fn mode_display_names_bits() {
    assert_eq!(FpMode::display(0), "0b0 (Reset)");
    assert_eq!(FpMode::display(0b110000), "0b110000 (EnrollSession, EnrollImage)");
    assert_eq!(FpMode::display(0b1), "0b1 (DeepSleep)");
    assert_eq!(FpMode::display(0x8000_0000), "0b10000000000000000000000000000000 (DontChange)");
    assert_eq!(FpMode::display(0b1000_0000_0000), "0b100000000000 ()");
    assert_eq!(FpMode::Match.value(), 0x40);
    assert_eq!(FpMode::all().len(), 11);
}

#[test]
fn fp_mode_exchange() {
    let req = fp_mode_request(FpMode::DontChange.value());
    assert_eq!((req.command, req.version, req.response_len), (CrosEcCmd::FpMode, 0, 4));
    assert_eq!(req.params, vec![0, 0, 0, 0x80]);
    assert_eq!(read_u32_response(&[0x10, 0, 0, 0]), Ok(0x10));
}

#[test]
fn fp_info_decodes_every_field() {
    let mut b = Vec::new();
    for v in [1u32, 2, 3, 4, 25600, 6] {
        b.extend_from_slice(&v.to_le_bytes());
    }
    for v in [160u16, 160, 8, 0] {
        b.extend_from_slice(&v.to_le_bytes());
    }
    b.extend_from_slice(&5156u32.to_le_bytes());
    b.extend_from_slice(&5u16.to_le_bytes());
    b.extend_from_slice(&2u16.to_le_bytes());
    b.extend_from_slice(&0b10u32.to_le_bytes());
    b.extend_from_slice(&4u32.to_le_bytes());
    let info = EcResponseFpInfo::from_bytes(&b).unwrap();
    assert_eq!(info.vendor_id, 1);
    assert_eq!(info.frame_size, 25600);
    assert_eq!((info.width, info.height, info.bpp), (160, 160, 8));
    assert_eq!(info.template_size, 5156);
    assert_eq!((info.template_max, info.template_valid, info.template_dirty, info.template_version), (5, 2, 2, 4));
    assert_eq!(
        EcResponseFpInfo::from_bytes(&b[..47]),
        Err(EcError::Decode(DecodeError::ShortResponse { expected: 48, actual: 47 }))
    );
}

#[test]
fn encryption_status_and_stats() {
    let s = EcResponseFpGetEncryptionStatus::from_bytes(&[1, 0, 0, 0, 1, 0, 0, 0]).unwrap();
    assert_eq!(s, EcResponseFpGetEncryptionStatus { valid_flags: 1, status: 1 });
    assert_eq!(s.status & FpEncryptionStatus::SeedSet.bit(), 1);
    let mut b = Vec::new();
    for v in [10u32, 20, 30, 0xdead, 0xbeef] {
        b.extend_from_slice(&v.to_le_bytes());
    }
    b.push(0);
    b.push(0xff);
    let stats = EcResponseFpStats::from_bytes(&b).unwrap();
    assert_eq!(stats.overall_t0, OverallT0 { lo: 0xdead, hi: 0xbeef });
    assert_eq!(stats.template_matched, -1);
    assert!(EcResponseFpStats::from_bytes(&b[..21]).is_err());
}

#[test]
fn uptime_info_entries() {
    let mut b = Vec::new();
    for v in [1000u32, 2, 0x20] {
        b.extend_from_slice(&v.to_le_bytes());
    }
    for i in 0..4u16 {
        b.extend_from_slice(&(i + 1).to_le_bytes());
        b.extend_from_slice(&0u16.to_le_bytes());
        b.extend_from_slice(&(100 * i as u32).to_le_bytes());
    }
    let info = EcResponseUptimeInfo::from_bytes(&b).unwrap();
    assert_eq!(info.time_since_ec_boot_ms, 1000);
    assert_eq!(info.recent_ap_reset[3], ApResetLogEntry { reset_cause: 4, reserved: 0, reset_time_ms: 300 });
}

#[test]
fn keyboard_config_and_action_keys() {
    let mut b = vec![10u8];
    b.extend(1..=15u8);
    b.push(0b101);
    let cfg = EcResponseKeybdConfig::from_bytes(&b).unwrap();
    assert_eq!(cfg.num_top_row_keys, 10);
    assert_eq!(cfg.action_keys[0], 1);
    assert_eq!(cfg.capabilities, 0b101);
    assert_eq!(ActionKey::from_u8(cfg.action_keys[0]), Some(ActionKey::TkBack));
    assert_eq!(ActionKey::from_u8(23), Some(ActionKey::TkDonotdisturb));
    assert_eq!(ActionKey::from_u8(24), None);
}

#[test]
fn text_fields_stop_at_nul() {
    assert_eq!(text_field(b"abc\0def", 0, 7), Ok(b"abc".to_vec()));
    assert_eq!(text_field(b"xxabcd", 2, 4), Ok(b"abcd".to_vec()));
    assert_eq!(text_field(b"\0abc", 0, 4), Ok(vec![]));
    assert_eq!(
        text_field(b"ab", 0, 4),
        Err(EcError::Decode(DecodeError::ShortResponse { expected: 4, actual: 2 }))
    );
}

#[test]
fn version_response_strings() {
    let mut b = vec![0u8; 132];
    b[..5].copy_from_slice(b"ro-v1");
    b[32..37].copy_from_slice(b"rw-v2");
    b[96] = 2;
    let (ro, rw, image) = version_info(&b).unwrap();
    assert_eq!((ro, rw, image), (b"ro-v1".to_vec(), b"rw-v2".to_vec(), "RW"));
    b[96] = 7;
    assert_eq!(version_info(&b).unwrap().2, "Unknown");
    assert!(version_info(&b[..100]).is_err());
}

#[test]
fn features_and_other_requests() {
    assert_eq!(features_from_response(&[4, 0, 0, 0, 0, 0, 0, 1]), Ok(0x0100_0000_0000_0004));
    assert!(has_fans(0b100));
    assert!(!has_fans(0b011));
    let q = query_request(CrosEcCmd::GetUptimeInfo, 0, 44);
    assert_eq!((q.command, q.params.len(), q.response_len), (CrosEcCmd::GetUptimeInfo, 0, 44));
    let limit = EcParamsChargeCurrentLimit { limit: 1500 }.request();
    assert_eq!((limit.command, limit.params), (CrosEcCmd::ChargeCurrentLimit, vec![0xdc, 0x05, 0, 0]));
    assert!(battery_version_supported(1));
    assert!(!battery_version_supported(0));
}
