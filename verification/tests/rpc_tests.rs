use gateway_sp_comms::backoff::BusyBackoff;
use gateway_sp_comms::error::{CommunicationError, SpError};
use gateway_sp_comms::message::{InboundMessage, MgsRequest, SpResponse, VersionedSpState};
use gateway_sp_comms::reactor::Reactor;
use gateway_sp_comms::rpc::{max_attempts_for, self_reset_attempts, AttemptEvent, AttemptStep};
use gateway_sp_comms::types::{HostPhase2Request, SpAddr, SpComponent};

fn addr() -> SpAddr {
    SpAddr { octets: [0xFE; 16], port: 11111, scope_id: 2 }
}

fn phase2_request() -> HostPhase2Request {
    HostPhase2Request { hash: [0; 32], offset: 0, data_sent: 0, received_at_ms: 0 }
}

fn response(message_id: u32, response: SpResponse) -> AttemptEvent {
    AttemptEvent::Message(InboundMessage::SpResponse {
        peer: addr(),
        message_id,
        response,
        data: Vec::new(),
    })
}

#[test]
fn self_reset_attempt_budget_formula() {
    // ceil(30000 / max(1, per_attempt_ms)), whatever the configured cap.
    assert_eq!(self_reset_attempts(200), 150);
    assert_eq!(self_reset_attempts(0), 30000);
    assert_eq!(self_reset_attempts(1), 30000);
    assert_eq!(self_reset_attempts(7), 4286);
    assert_eq!(self_reset_attempts(30000), 1);
    assert_eq!(self_reset_attempts(u64::MAX), 1);
    assert_eq!(self_reset_attempts(29999), 2);
}

#[test]
fn self_reset_budget_ignores_configured_cap() {
    let trigger_self =
        MgsRequest::ResetComponentTrigger { component: SpComponent::sp_itself() };
    assert_eq!(max_attempts_for(&trigger_self, 1, 200), 150);
    assert_eq!(max_attempts_for(&MgsRequest::ResetTrigger, 1, 200), 150);
    let trigger_other =
        MgsRequest::ResetComponentTrigger { component: SpComponent { id: [3; 16] } };
    assert_eq!(max_attempts_for(&trigger_other, 5, 200), 5);
    assert_eq!(max_attempts_for(&MgsRequest::SpState, 5, 200), 5);
}

#[test]
fn message_ids_increase_per_rpc_and_retries_reuse_them() {
    let mut reactor = Reactor::new(3, 200);
    let mut call = reactor.start_rpc(&MgsRequest::SpState);
    assert_eq!(call.message_id, 1);
    let a1 = call.begin_attempt().unwrap();
    let a2 = call.begin_attempt().unwrap();
    let a3 = call.begin_attempt().unwrap();
    // Three retries, one id.
    assert_eq!(call.message_id, 1);
    assert!(call.begin_attempt().is_none());
    drop((a1, a2, a3));
    let call2 = reactor.start_rpc(&MgsRequest::SpState);
    assert_eq!(call2.message_id, 2);
}

#[test]
fn foreign_id_reply_kills_the_attempt_not_the_call() {
    let mut reactor = Reactor::new(3, 200);
    let mut call = reactor.start_rpc(&MgsRequest::SpState);
    let mut attempt = call.begin_attempt().unwrap();
    let step = reactor.attempt_event(
        &call,
        &mut attempt,
        response(99, SpResponse::SpState(VersionedSpState { raw: vec![1] })),
    );
    assert!(matches!(step, AttemptStep::GiveUp));
    // Budget remains: the next attempt may still succeed.
    assert_eq!(call.attempts_used, 1);
    let mut attempt = call.begin_attempt().unwrap();
    let step = reactor.attempt_event(
        &call,
        &mut attempt,
        response(call.message_id, SpResponse::SpState(VersionedSpState { raw: vec![1] })),
    );
    assert!(matches!(step, AttemptStep::Complete { .. }));
}

#[test]
fn busy_storm_is_absorbed_within_one_attempt() {
    // Three busy replies, then the state: one attempt consumed, the
    // sleeps following the 20 ms, factor two schedule.
    let mut reactor = Reactor::new(3, 200);
    let mut call = reactor.start_rpc(&MgsRequest::SpState);
    let mut attempt = call.begin_attempt().unwrap();
    let mut sleeps = Vec::new();
    for _ in 0..3 {
        let step = reactor.attempt_event(
            &call,
            &mut attempt,
            response(call.message_id, SpResponse::Error(SpError::Busy)),
        );
        match step {
            AttemptStep::SleepThenResend { ms } => sleeps.push(ms),
            other => panic!("expected a busy sleep, got {other:?}"),
        }
    }
    assert_eq!(sleeps, vec![20, 40, 80]);
    let step = reactor.attempt_event(
        &call,
        &mut attempt,
        response(call.message_id, SpResponse::SpState(VersionedSpState { raw: vec![2] })),
    );
    match step {
        AttemptStep::Complete { response, .. } => {
            assert_eq!(response, SpResponse::SpState(VersionedSpState { raw: vec![2] }));
        }
        other => panic!("expected completion, got {other:?}"),
    }
    assert_eq!(call.attempts_used, 1);
    assert_eq!(call.max_attempts, 3);
}

#[test]
fn busy_backoff_doubles_to_its_ceiling() {
    let mut b = BusyBackoff::new();
    let mut sleeps = Vec::new();
    for _ in 0..8 {
        sleeps.push(b.next_backoff());
    }
    assert_eq!(sleeps, vec![20, 40, 80, 160, 320, 640, 1000, 1000]);
}

#[test]
fn sp_error_fails_the_whole_call() {
    let mut reactor = Reactor::new(3, 200);
    let mut call = reactor.start_rpc(&MgsRequest::SpState);
    let mut attempt = call.begin_attempt().unwrap();
    let step = reactor.attempt_event(
        &call,
        &mut attempt,
        response(call.message_id, SpResponse::Error(SpError::Other(7))),
    );
    match step {
        AttemptStep::Fail(e) => {
            assert_eq!(e, CommunicationError::SpError(SpError::Other(7)));
        }
        other => panic!("expected failure, got {other:?}"),
    }
}

#[test]
fn rpc_call_one_attempt_times_out_while_receiving_host_request_updates() {
    // A storm of out-of-band host phase-2 requests keeps the attempt
    // waiting without resending and without resetting its deadline, so
    // the attempt still times out.
    let mut reactor = Reactor::new(1, 200);
    let mut call = reactor.start_rpc(&MgsRequest::SpState);
    let mut attempt = call.begin_attempt().unwrap();
    for _ in 0..32 {
        let step = reactor.attempt_event(
            &call,
            &mut attempt,
            AttemptEvent::Message(InboundMessage::HostPhase2Request(phase2_request())),
        );
        // `Wait` neither resends nor resets the per-attempt timer.
        assert!(matches!(step, AttemptStep::Wait));
    }
    assert_eq!(reactor.most_recent_host_phase2_request(), Some(phase2_request()));
    let step = reactor.attempt_event(&call, &mut attempt, AttemptEvent::TimerExpired);
    assert!(matches!(step, AttemptStep::GiveUp));
    // The single configured attempt is spent.
    assert!(call.begin_attempt().is_none());
    assert_eq!(
        call.exhausted_error(1),
        CommunicationError::ExhaustedNumAttempts(1)
    );
}

#[test]
fn phase2_storm_during_long_reset_exhausts_the_derived_budget() {
    // A self-reset trigger with a configured cap of one attempt and a
    // 200 ms window still gets 150 attempts — 30 s of wall clock — and
    // a storm of host phase-2 requests cannot stretch any of them.
    let mut reactor = Reactor::new(1, 200);
    let mut call = reactor.start_rpc(&MgsRequest::ResetComponentTrigger {
        component: SpComponent::sp_itself(),
    });
    assert_eq!(call.max_attempts, 150);
    let mut attempts = 0u32;
    while let Some(mut attempt) = call.begin_attempt() {
        attempts += 1;
        for _ in 0..4 {
            let step = reactor.attempt_event(
                &call,
                &mut attempt,
                AttemptEvent::Message(InboundMessage::HostPhase2Request(phase2_request())),
            );
            assert!(matches!(step, AttemptStep::Wait));
        }
        let step = reactor.attempt_event(&call, &mut attempt, AttemptEvent::TimerExpired);
        assert!(matches!(step, AttemptStep::GiveUp));
    }
    assert_eq!(attempts, 150);
    // The error reports the configured cap, which is what the caller set.
    assert_eq!(
        call.exhausted_error(1),
        CommunicationError::ExhaustedNumAttempts(1)
    );
}

#[test]
fn serial_console_data_does_not_reset_the_attempt_deadline() {
    // Console data arriving mid-attempt is forwarded to the attached
    // receiver's queue and answered with `Wait`: no resend, no new
    // deadline.
    let mut reactor = Reactor::new(1, 200);
    reactor.attach_serial_console_finish();
    let mut call = reactor.start_rpc(&MgsRequest::SpState);
    let mut attempt = call.begin_attempt().unwrap();
    let step = reactor.attempt_event(
        &call,
        &mut attempt,
        AttemptEvent::Message(InboundMessage::SerialConsole {
            component: SpComponent { id: [1; 16] },
            offset: 0,
            data: vec![65],
        }),
    );
    assert!(matches!(step, AttemptStep::Wait));
    let packet = reactor.take_next_serial_console_packet().unwrap();
    assert_eq!(packet.offset, 0);
    assert_eq!(packet.data, vec![65]);
}
