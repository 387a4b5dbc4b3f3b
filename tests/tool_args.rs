use crosec::charge_control::{
    get_charge_control_request, ChargeControlMode, ChargeControlStatus, EcParamsChargeControl,
    EcResponseChargeControl, SetChargeControl, Sustainer,
};
use crosec::cli::{check_seed, check_user_id, ChargeControlSubcommand, Device, FpDownloadSubcommand, FrameType};
use crosec::commands::CrosEcCmd;
use crosec::download::DownloadType;
use crosec::requests::{
    console_chunk, count_fans, fp_set_seed_request, hello_answered, hello_request, image_name,
    set_fan_target_rpm_request,
};
use crosec::{DecodeError, EcError};

#[test]
fn seed_must_be_32_bytes() {
    let seed = "0123456789abcdef0123456789abcdef";
    assert_eq!(check_seed(seed).unwrap().to_vec(), seed.as_bytes().to_vec());
    assert_eq!(
        check_seed("short"),
        Err("The seed must be 32 bytes long. The seed you inputted is 5 bytes long.".to_string())
    );
}

#[test]
fn user_id_is_decoded_from_hex() {
    let text = "00112233445566778899aabbccddeeffFFEEDDCCBBAA99887766554433221100";
    let id = check_user_id(text).unwrap();
    assert_eq!(id[0], 0x00);
    assert_eq!(id[1], 0x11);
    assert_eq!(id[15], 0xff);
    assert_eq!(id[16], 0xff);
    assert_eq!(id[17], 0xee);
    assert_eq!(id[31], 0x00);
}

#[test]
fn user_id_rejects_bad_text() {
    assert!(check_user_id("abc").is_err());
    assert!(check_user_id("00").is_err());
    let bad = "zz112233445566778899aabbccddeeffffeeddccbbaa99887766554433221100";
    assert!(check_user_id(bad).is_err());
}

#[test]
fn device_paths() {
    assert_eq!(Device::Ec.get_path(), "/dev/cros_ec");
    assert_eq!(Device::Fp.get_path(), "/dev/cros_fp");
}

#[test]
fn download_subcommand_types() {
    assert_eq!(FpDownloadSubcommand::Frame { frame_type: None }.download_type(), DownloadType::SimpleImage);
    assert_eq!(
        FpDownloadSubcommand::Frame { frame_type: Some(FrameType::Raw) }.download_type(),
        DownloadType::RawImage
    );
    assert_eq!(FpDownloadSubcommand::Template { index: 4 }.download_type(), DownloadType::Template(4));
}

#[test]
fn charge_subcommand_settings() {
    assert_eq!(
        ChargeControlSubcommand::Normal { min_percent: Some(60), max_percent: None }.to_setting(),
        SetChargeControl::Normal(Some(Sustainer { min_percent: 60, max_percent: 60 }))
    );
    assert_eq!(
        ChargeControlSubcommand::Normal { min_percent: Some(40), max_percent: Some(80) }.to_setting(),
        SetChargeControl::Normal(Some(Sustainer { min_percent: 40, max_percent: 80 }))
    );
    assert_eq!(
        ChargeControlSubcommand::Normal { min_percent: None, max_percent: Some(80) }.to_setting(),
        SetChargeControl::Normal(None)
    );
    assert_eq!(ChargeControlSubcommand::Idle.to_setting(), SetChargeControl::Idle);
}

#[test]
fn charge_set_params() {
    let p = SetChargeControl::Normal(None).to_set_params();
    assert_eq!(p.to_bytes(), vec![0, 0, 0, 0, 0, 0, 0xff, 0xff]);
    let p = SetChargeControl::Discharge.to_set_params();
    assert_eq!(p.to_bytes(), vec![2, 0, 0, 0, 0, 0, 0, 0]);
    let req = SetChargeControl::Idle.request(0b011);
    assert_eq!((req.command, req.version), (CrosEcCmd::ChargeControl, 1));
    assert_eq!(SetChargeControl::Idle.request(0b111).version, 2);
    assert_eq!(EcParamsChargeControl::get().to_bytes(), vec![0, 0, 0, 0, 1, 0, 0, 0]);
    assert_eq!(get_charge_control_request().response_len, 8);
}

#[test]
fn charge_status_from_response() {
    let r = EcResponseChargeControl::from_bytes(&[1, 0, 0, 0, 20, 90, 0, 0]).unwrap();
    assert_eq!(
        ChargeControlStatus::try_from(r),
        Ok(ChargeControlStatus {
            mode: ChargeControlMode::Idle,
            sustainer: Some(Sustainer { min_percent: 20, max_percent: 90 }),
        })
    );
    let off = EcResponseChargeControl::from_bytes(&[0, 0, 0, 0, 0xff, 0xff, 0, 0]).unwrap();
    assert_eq!(
        ChargeControlStatus::try_from(off),
        Ok(ChargeControlStatus { mode: ChargeControlMode::Normal, sustainer: None })
    );
    let bad_mode = EcResponseChargeControl::from_bytes(&[3, 0, 0, 0, 0xff, 0xff, 0, 0]).unwrap();
    assert_eq!(ChargeControlStatus::try_from(bad_mode), Err(EcError::Decode(DecodeError::InvalidChargeControl)));
    let bad_window = EcResponseChargeControl::from_bytes(&[0, 0, 0, 0, 101, 5, 0, 0]).unwrap();
    assert_eq!(ChargeControlStatus::try_from(bad_window), Err(EcError::Decode(DecodeError::InvalidChargeControl)));
}

#[test]
fn hello_exchange() {
    let req = hello_request();
    assert_eq!(req.params, vec![0xd0, 0xc0, 0xb0, 0xa0]);
    assert_eq!(hello_answered(&[0xd4, 0xc3, 0xb2, 0xa1]), Ok(true));
    assert_eq!(hello_answered(&[0, 0, 0, 0]), Ok(false));
    assert_eq!(
        hello_answered(&[1]),
        Err(EcError::Decode(DecodeError::ShortResponse { expected: 4, actual: 1 }))
    );
}

#[test]
fn seed_and_fan_requests() {
    let seed = [7u8; 32];
    let req = fp_set_seed_request(&seed);
    assert_eq!(&req.params[0..4], &[4, 0, 0, 0]);
    assert_eq!(&req.params[4..], &seed);
    let all = set_fan_target_rpm_request(3000, None);
    assert_eq!((all.version, all.params.clone()), (0, vec![0xb8, 0x0b, 0, 0]));
    let one = set_fan_target_rpm_request(3000, Some(1));
    assert_eq!((one.version, one.params), (1, vec![0xb8, 0x0b, 0, 0, 1, 0, 0, 0]));
}

#[test]
fn fans_and_console() {
    assert_eq!(count_fans(&[1200, 0xffff, 0xfffe, 0xffff]), 2);
    let mut console = Vec::new();
    assert!(console_chunk(&mut console, b"boot ok\0\0\0"));
    assert!(console_chunk(&mut console, b"\nready"));
    assert!(!console_chunk(&mut console, b"\0\0\0\0"));
    assert_eq!(console, b"boot ok\nready".to_vec());
    assert_eq!(image_name(2), "RW");
    assert_eq!(image_name(9), "Unknown");
}
