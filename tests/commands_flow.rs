use crosec::commands::CrosEcCmd;
use crosec::fp_context::{
    AsyncAction, FpSetContext, FP_CONTEXT_ACTION_ASYNC, FP_CONTEXT_ACTION_GET_RESULT, FP_CONTEXT_POLL_ATTEMPTS,
    FP_CONTEXT_POLL_DELAY_MICROS,
};
use crosec::versions::{
    after_newer_query, after_older_query, fp_info_request, newer_version_query, supports_get_and_sustainer,
    NegotiationStep, V1, V2,
};
use crosec::{ContractViolation, DecodeError, EcError, EcResponseStatus};

fn user() -> [u8; 32] {
    let mut id = [0u8; 32];
    for (i, b) in id.iter_mut().enumerate() {
        *b = i as u8;
    }
    id
}

fn fail(n: u32) -> Result<Vec<u8>, EcError> {
    Err(EcError::UnknownResponseCode(1000 + n))
}

#[test]
fn context_start_request_layout() {
    let ctx = FpSetContext::new(user());
    let req = ctx.start_request();
    assert_eq!(req.command, CrosEcCmd::FpContext);
    assert_eq!(req.version, 1);
    assert_eq!(req.params.len(), 36);
    assert_eq!(&req.params[0..4], &[FP_CONTEXT_ACTION_ASYNC, 0, 0, 0]);
    assert_eq!(&req.params[4..], &user());
}

#[test]
fn context_start_failure_ends() {
    let ctx = FpSetContext::new(user());
    assert_eq!(
        ctx.record_start(Err(EcError::Response(EcResponseStatus::AccessDenied))),
        AsyncAction::Finished(Err(EcError::Response(EcResponseStatus::AccessDenied)))
    );
}

#[test]
fn context_poll_succeeds_on_twentieth() {
    let mut ctx = FpSetContext::new(user());
    let mut action = ctx.record_start(Ok(vec![]));
    let mut polls = 0;
    loop {
        match action {
            AsyncAction::Poll { delay_micros, request } => {
                assert_eq!(delay_micros, FP_CONTEXT_POLL_DELAY_MICROS);
                assert_eq!(request.params[0], FP_CONTEXT_ACTION_GET_RESULT);
                polls += 1;
                let result = if polls == 20 { Ok(vec![]) } else { fail(polls) };
                action = ctx.record_poll(result);
            }
            AsyncAction::Finished(outcome) => {
                assert_eq!(outcome, Ok(()));
                break;
            }
        }
    }
    assert_eq!(polls, 20);
}

#[test]
fn context_all_polls_fail_returns_last_failure() {
    let mut ctx = FpSetContext::new(user());
    let mut action = ctx.record_start(Ok(vec![]));
    let mut polls = 0;
    loop {
        match action {
            AsyncAction::Poll { .. } => {
                polls += 1;
                action = ctx.record_poll(fail(polls));
            }
            AsyncAction::Finished(outcome) => {
                assert_eq!(outcome, Err(EcError::UnknownResponseCode(1020)));
                break;
            }
        }
    }
    assert_eq!(polls, FP_CONTEXT_POLL_ATTEMPTS as u32);
}

#[test]
fn versions_newer_query_success() {
    let q = newer_version_query(CrosEcCmd::FpInfo);
    assert_eq!(q.command, CrosEcCmd::GetCmdVersions);
    assert_eq!(q.version, 1);
    assert_eq!(q.params, vec![0x03, 0x04]);
    assert_eq!(q.response_len, 4);
    assert_eq!(
        after_newer_query(CrosEcCmd::FpInfo, Ok(vec![0b110, 0, 0, 0])),
        NegotiationStep::Finished(Ok(0b110))
    );
}

#[test]
fn versions_fallback_once_then_surface_second_error() {
    let step = after_newer_query(CrosEcCmd::FpInfo, Err(EcError::Response(EcResponseStatus::InvalidVersion)));
    match step {
        NegotiationStep::Fallback(q) => {
            assert_eq!(q.command, CrosEcCmd::GetCmdVersions);
            assert_eq!(q.version, 0);
            assert_eq!(q.params, vec![0x03]);
            assert_eq!(q.response_len, 4);
        }
        other => panic!("unexpected {other:?}"),
    }
    assert_eq!(
        after_older_query(Err(EcError::Response(EcResponseStatus::InvalidCommand))),
        Err(EcError::Response(EcResponseStatus::InvalidCommand))
    );
    assert_eq!(after_older_query(Ok(vec![1, 0, 0, 0])), Ok(1));
}

#[test]
fn versions_short_answer_is_a_failure() {
    match after_newer_query(CrosEcCmd::ChargeControl, Ok(vec![1, 2])) {
        NegotiationStep::Fallback(q) => assert_eq!(q.params, vec![0x96]),
        other => panic!("unexpected {other:?}"),
    }
    assert_eq!(
        after_older_query(Ok(vec![])),
        Err(EcError::Decode(DecodeError::ShortResponse { expected: 4, actual: 0 }))
    );
}

#[test]
fn versions_mask_checks() {
    assert!(supports_get_and_sustainer(V2 | V1));
    assert!(!supports_get_and_sustainer(V1));
    assert_eq!(
        fp_info_request(0b001).err(),
        Some(EcError::ContractViolation(ContractViolation::UnsupportedVersion))
    );
    let q = fp_info_request(V1).unwrap();
    assert_eq!((q.command, q.version, q.response_len), (CrosEcCmd::FpInfo, 1, 48));
}

#[test]
fn command_ids_round_trip() {
    assert_eq!(CrosEcCmd::FpTemplate.id(), 0x0405);
    assert_eq!(CrosEcCmd::from_u32(0x0121), Some(CrosEcCmd::GetUptimeInfo));
    assert_eq!(CrosEcCmd::from_u32(0x0003), None);
}
