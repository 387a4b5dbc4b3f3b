use crosec::chunks::chunk_count;
use crosec::commands::CrosEcCmd;
use crosec::download::{DownloadAction, DownloadType, FpDownload, FrameRequest, MAX_ATTEMPTS, RETRY_DELAY_MICROS};
use crosec::fp_info::EcResponseFpInfo;
use crosec::protocol_info::EcResponseGetProtocolInfo;
use crosec::upload::{FpTemplate, FpUpload, UploadAction, FP_TEMPLATE_COMMIT};
use crosec::{ContractViolation, EcError, EcResponseStatus};

fn fp_info(frame_size: u32, template_size: u32) -> EcResponseFpInfo {
    EcResponseFpInfo {
        vendor_id: 0,
        product_id: 0,
        model_id: 0,
        version: 0,
        frame_size,
        pixel_format: 0,
        width: 160,
        height: 160,
        bpp: 8,
        errors: 0,
        template_size,
        template_max: 5,
        template_valid: 0,
        template_dirty: 0,
        template_version: 4,
    }
}

fn limits(max_request_packet_size: u16, max_response_packet_size: u16) -> EcResponseGetProtocolInfo {
    EcResponseGetProtocolInfo {
        protocol_versions: 0b1000,
        max_request_packet_size,
        max_response_packet_size,
        flags: 0,
    }
}

fn answer(req: &FrameRequest) -> Vec<u8> {
    let offset = (req.offset & 0x0fff_ffff) as usize;
    (0..req.size as usize).map(|i| ((offset + i) % 251) as u8).collect()
}

#[test]
fn chunk_count_rounds_up() {
    assert_eq!(chunk_count(1000, 400), Ok(3));
    assert_eq!(chunk_count(800, 400), Ok(2));
    assert_eq!(chunk_count(0, 400), Ok(0));
    assert_eq!(chunk_count(1, 400), Ok(1));
    assert_eq!(chunk_count(10, 0), Err(EcError::ContractViolation(ContractViolation::ZeroChunkSize)));
}

#[test]
fn download_thousand_bytes_in_three_chunks() {
    let info = fp_info(1000, 0);
    let mut dl = FpDownload::new(&info, &limits(544, 408), &DownloadType::RawImage).unwrap();
    let mut action = dl.current_action();
    let mut seen = Vec::new();
    loop {
        match action {
            DownloadAction::Read(req) => {
                seen.push((req.offset, req.size));
                let cmd = req.command_request();
                assert_eq!(cmd.command, CrosEcCmd::FpFrame);
                assert_eq!(cmd.response_len, req.size as usize);
                action = dl.record(Ok(answer(&req)));
            }
            other => {
                assert_eq!(other, DownloadAction::Finished);
                break;
            }
        }
    }
    assert_eq!(seen, vec![(0, 400), (400, 400), (800, 200)]);
    let data = dl.into_data();
    let expected: Vec<u8> = (0..1000usize).map(|i| (i % 251) as u8).collect();
    assert_eq!(data, expected);
}

#[test]
fn download_retries_twice_then_succeeds() {
    let info = fp_info(300, 0);
    let mut dl = FpDownload::new(&info, &limits(544, 408), &DownloadType::RawImage).unwrap();
    let first = match dl.current_action() {
        DownloadAction::Read(req) => req,
        other => panic!("unexpected {other:?}"),
    };
    let mut delays = 0;
    let failure = Err(EcError::Response(EcResponseStatus::Busy));
    let mut action = dl.record(failure);
    if let DownloadAction::Retry { delay_micros, request } = action {
        assert_eq!(delay_micros, RETRY_DELAY_MICROS);
        assert_eq!(request, first);
        delays += 1;
    }
    action = dl.record(Err(EcError::Response(EcResponseStatus::Busy)));
    if let DownloadAction::Retry { delay_micros, .. } = action {
        assert_eq!(delay_micros, 100_000);
        delays += 1;
    }
    action = dl.record(Ok(answer(&first)));
    assert_eq!(action, DownloadAction::Finished);
    assert_eq!(delays, 2);
    assert_eq!(dl.into_data(), answer(&first));
}

#[test]
fn download_fails_after_three_attempts() {
    let info = fp_info(300, 0);
    let mut dl = FpDownload::new(&info, &limits(544, 408), &DownloadType::RawImage).unwrap();
    let _ = dl.current_action();
    let mut last = DownloadAction::Finished;
    for attempt in 0..MAX_ATTEMPTS {
        last = dl.record(Err(EcError::UnknownResponseCode(100 + attempt as u32)));
    }
    assert_eq!(last, DownloadAction::Failed(EcError::UnknownResponseCode(102)));
}

#[test]
fn download_wrong_length_counts_as_failure() {
    let info = fp_info(300, 0);
    let mut dl = FpDownload::new(&info, &limits(544, 408), &DownloadType::RawImage).unwrap();
    let _ = dl.current_action();
    match dl.record(Ok(vec![1, 2, 3])) {
        DownloadAction::Retry { .. } => {}
        other => panic!("unexpected {other:?}"),
    }
}

#[test]
fn download_template_selector_in_high_bits() {
    let info = fp_info(0, 1000);
    let dl = FpDownload::new(&info, &limits(544, 408), &DownloadType::Template(2)).unwrap();
    assert_eq!(dl.current_action(), DownloadAction::Read(FrameRequest { offset: 3 << 28, size: 400 }));
    let params = FrameRequest { offset: 3 << 28, size: 400 }.params();
    assert_eq!(params, vec![0, 0, 0, 0x30, 0x90, 0x01, 0, 0]);
}

#[test]
fn download_simple_image_size() {
    let info = fp_info(0, 0);
    assert_eq!(info.get_simple_image_size(), 25600);
    let dl = FpDownload::new(&info, &limits(544, 408), &DownloadType::SimpleImage).unwrap();
    assert_eq!(dl.current_action(), DownloadAction::Read(FrameRequest { offset: 0, size: 400 }));
}

#[test]
fn download_rejects_zero_limit_and_bad_source() {
    let info = fp_info(1000, 1000);
    assert_eq!(
        FpDownload::new(&info, &limits(544, 8), &DownloadType::RawImage).err(),
        Some(EcError::ContractViolation(ContractViolation::ZeroChunkSize))
    );
    assert_eq!(
        FpDownload::new(&info, &limits(544, 408), &DownloadType::Template(15)).err(),
        Some(EcError::ContractViolation(ContractViolation::SourceOutOfRange))
    );
    let huge = fp_info(0x1000_0000, 0);
    assert_eq!(
        FpDownload::new(&huge, &limits(544, 408), &DownloadType::RawImage).err(),
        Some(EcError::ContractViolation(ContractViolation::SourceOutOfRange))
    );
}

#[test]
fn protocol_limits_subtract_headers() {
    let p = limits(544, 408);
    assert_eq!(p.max_ec_input_size(), 536);
    assert_eq!(p.max_ec_output_size(), 400);
    assert_eq!(limits(4, 0).max_ec_input_size(), 0);
    let decoded = EcResponseGetProtocolInfo::from_bytes(&[8, 0, 0, 0, 0x20, 0x02, 0x98, 0x01, 1, 0, 0, 0]).unwrap();
    assert_eq!(decoded, EcResponseGetProtocolInfo {
        protocol_versions: 8,
        max_request_packet_size: 544,
        max_response_packet_size: 408,
        flags: 1,
    });
}

#[test]
fn upload_commit_flag_only_on_last_chunk() {
    let template: Vec<u8> = (0..1000u32).map(|i| (i % 256) as u8).collect();
    let info = fp_info(0, 1000);
    // 420 - 8 (host header) - 8 (chunk header) - 4 (margin) = 400 bytes per chunk
    let mut up = FpUpload::new(&limits(420, 408), &info, &FpTemplate::from_vec_unchecked(template.clone())).unwrap();
    let mut action = up.current_action();
    let mut sent = Vec::new();
    loop {
        match action {
            UploadAction::Send(req) => {
                assert_eq!(req.command, CrosEcCmd::FpTemplate);
                assert_eq!(req.response_len, 0);
                let offset = u32::from_le_bytes(req.params[0..4].try_into().unwrap());
                let size = u32::from_le_bytes(req.params[4..8].try_into().unwrap());
                sent.push((offset, size));
                assert_eq!(&req.params[8..], &template[offset as usize..(offset + (size & !FP_TEMPLATE_COMMIT)) as usize]);
                action = up.record(Ok(vec![]));
            }
            other => {
                assert_eq!(other, UploadAction::Finished);
                break;
            }
        }
    }
    assert_eq!(sent, vec![(0, 400), (400, 400), (800, 200 | FP_TEMPLATE_COMMIT)]);
}

#[test]
fn upload_single_chunk_carries_commit() {
    let info = fp_info(0, 10);
    let up = FpUpload::new(&limits(420, 408), &info, &FpTemplate::from_vec_unchecked(vec![7; 10])).unwrap();
    match up.current_action() {
        UploadAction::Send(req) => assert_eq!(&req.params[0..8], &[0, 0, 0, 0, 10, 0, 0, 0x80]),
        other => panic!("unexpected {other:?}"),
    }
}

#[test]
fn upload_failure_aborts() {
    let info = fp_info(0, 1000);
    let mut up = FpUpload::new(&limits(420, 408), &info, &FpTemplate::from_vec_unchecked(vec![1; 1000])).unwrap();
    let _ = up.current_action();
    assert_eq!(
        up.record(Err(EcError::Response(EcResponseStatus::InvalidParam))),
        UploadAction::Failed(EcError::Response(EcResponseStatus::InvalidParam))
    );
}

#[test]
fn upload_rejects_wrong_template_size() {
    let info = fp_info(0, 1000);
    assert_eq!(
        FpUpload::new(&limits(420, 408), &info, &FpTemplate::from_vec_unchecked(vec![0; 999])).err(),
        Some(EcError::ContractViolation(ContractViolation::TemplateSizeMismatch { expected: 1000, actual: 999 }))
    );
    assert_eq!(
        FpUpload::new(&limits(20, 408), &info, &FpTemplate::from_vec_unchecked(vec![0; 1000])).err(),
        Some(EcError::ContractViolation(ContractViolation::ZeroChunkSize))
    );
}

#[test]
fn template_buffer_is_the_bytes() {
    let t = FpTemplate::from_vec_unchecked(vec![1, 2, 3]);
    assert_eq!(t.buffer(), &vec![1, 2, 3]);
    assert_eq!(t.into_vec(), vec![1, 2, 3]);
    let v: Vec<u8> = FpTemplate::from_vec_unchecked(vec![4, 5]).into();
    assert_eq!(v, vec![4, 5]);
}
