use gateway_sp_comms::error::{CommunicationError, ResponseKind, SpError, UpdateError};
use gateway_sp_comms::facade;
use gateway_sp_comms::facade::UpdateTarget;
use gateway_sp_comms::message::{SpResponse, VersionedSpState};
use gateway_sp_comms::types::{PowerState, SpAddr, SpComponent, SpPort};

fn addr() -> SpAddr {
    SpAddr { octets: [0xFE; 16], port: 22222, scope_id: 1 }
}

fn ok(response: SpResponse) -> facade::RpcOutcome {
    Ok((addr(), response, Vec::new()))
}

#[test]
fn reset_trigger_without_prepare_is_success_for_the_sp_itself() {
    let sp = SpComponent::sp_itself();
    let outcome = Err(CommunicationError::SpError(
        SpError::ResetComponentTriggerWithoutPrepare,
    ));
    assert_eq!(facade::reset_component_trigger(sp, outcome), Ok(()));
}

#[test]
fn reset_trigger_without_prepare_is_an_error_for_other_components() {
    let other = SpComponent { id: [4; 16] };
    let outcome = Err(CommunicationError::SpError(
        SpError::ResetComponentTriggerWithoutPrepare,
    ));
    assert_eq!(
        facade::reset_component_trigger(other, outcome),
        Err(CommunicationError::SpError(
            SpError::ResetComponentTriggerWithoutPrepare
        ))
    );
}

#[test]
fn reset_trigger_reply_from_the_sp_itself_means_no_reset_yet() {
    let sp = SpComponent::sp_itself();
    let r = facade::reset_component_trigger(sp, ok(SpResponse::ResetComponentTriggerAck));
    assert_eq!(
        r,
        Err(CommunicationError::BadResponseType {
            expected: ResponseKind::SystemReset,
            got: ResponseKind::ResetComponentTriggerAck,
        })
    );
}

#[test]
fn reset_trigger_ack_is_success_for_other_components() {
    let other = SpComponent { id: [4; 16] };
    let r = facade::reset_component_trigger(other, ok(SpResponse::ResetComponentTriggerAck));
    assert_eq!(r, Ok(()));
}

#[test]
fn ipcc_value_too_large_fails_without_io() {
    assert_eq!(facade::set_ipcc_key_lookup_value_precheck(512), Ok(()));
    assert_eq!(
        facade::set_ipcc_key_lookup_value_precheck(513),
        Err(CommunicationError::IpccKeyLookupValueTooLarge)
    );
}

#[test]
fn start_update_validates_image_and_slot() {
    let sp = SpComponent::sp_itself();
    let rot = SpComponent::rot();
    let other = SpComponent { id: [8; 16] };
    assert_eq!(facade::start_update(sp, 0, 0), Err(UpdateError::ImageEmpty));
    assert_eq!(
        facade::start_update(sp, 1, 100),
        Err(UpdateError::Communication(CommunicationError::SpError(
            SpError::InvalidSlotForComponent
        )))
    );
    assert_eq!(facade::start_update(sp, 0, 100), Ok(UpdateTarget::Sp));
    assert_eq!(facade::start_update(rot, 1, 100), Ok(UpdateTarget::Rot));
    assert_eq!(facade::start_update(other, 3, 100), Ok(UpdateTarget::Component));
}

#[test]
fn mismatched_reply_names_both_kinds() {
    let r = facade::state(ok(SpResponse::PowerState(PowerState::A0)));
    assert_eq!(
        r,
        Err(CommunicationError::BadResponseType {
            expected: ResponseKind::SpState,
            got: ResponseKind::PowerState,
        })
    );
}

#[test]
fn typed_payloads_come_through() {
    let r = facade::state(ok(SpResponse::SpState(VersionedSpState { raw: vec![1, 2] })));
    assert_eq!(r, Ok(VersionedSpState { raw: vec![1, 2] }));
    let r = facade::power_state(ok(SpResponse::PowerState(PowerState::A2)));
    assert_eq!(r, Ok(PowerState::A2));
    let r = facade::component_active_slot(ok(SpResponse::ComponentActiveSlot(7)));
    assert_eq!(r, Ok(7));
    let r = facade::discover(ok(SpResponse::Discover { sp_port: SpPort::Two }));
    assert_eq!(r, Ok((addr(), SpPort::Two)));
}

#[test]
fn caboose_value_is_the_trailing_data() {
    let outcome = Ok((addr(), SpResponse::CabooseValue, vec![4, 5, 6]));
    assert_eq!(facade::get_caboose_value(outcome), Ok(vec![4, 5, 6]));
    let outcome = Ok((addr(), SpResponse::CabooseValue, vec![7]));
    assert_eq!(facade::read_component_caboose(outcome), Ok(vec![7]));
}

#[test]
fn errors_pass_through_every_interpreter() {
    let e = CommunicationError::ExhaustedNumAttempts(5);
    assert_eq!(facade::ignition_command(Err(e)), Err(e));
    assert_eq!(facade::set_power_state(Err(e)), Err(e));
    assert_eq!(facade::send_host_nmi(Err(e)), Err(e));
    assert_eq!(facade::keepalive(Err(e)), Err(e));
    let e = CommunicationError::SendFailure;
    assert_eq!(facade::state(Err(e)), Err(e));
}

#[test]
fn slot_set_ack_depends_on_the_persist_flag() {
    let r = facade::set_component_active_slot(
        true,
        ok(SpResponse::ComponentSetAndPersistActiveSlotAck),
    );
    assert_eq!(r, Ok(()));
    let r = facade::set_component_active_slot(
        false,
        ok(SpResponse::ComponentSetAndPersistActiveSlotAck),
    );
    assert_eq!(
        r,
        Err(CommunicationError::BadResponseType {
            expected: ResponseKind::ComponentSetActiveSlotAck,
            got: ResponseKind::ComponentSetAndPersistActiveSlotAck,
        })
    );
}

#[test]
fn acks_are_accepted_for_their_own_operations() {
    assert_eq!(
        facade::clear_ignition_link_events(ok(SpResponse::ClearIgnitionLinkEventsAck)),
        Ok(())
    );
    assert_eq!(facade::ignition_command(ok(SpResponse::IgnitionCommandAck)), Ok(()));
    assert_eq!(facade::set_startup_options(ok(SpResponse::SetStartupOptionsAck)), Ok(()));
    assert_eq!(facade::update_abort(ok(SpResponse::UpdateAbortAck)), Ok(()));
    assert_eq!(facade::component_clear_status(ok(SpResponse::ComponentClearStatusAck)), Ok(()));
    assert_eq!(facade::reset_component_prepare(ok(SpResponse::ResetComponentPrepareAck)), Ok(()));
    assert_eq!(facade::component_action(ok(SpResponse::ComponentActionAck)), Ok(()));
    assert_eq!(facade::serial_console_attach(ok(SpResponse::SerialConsoleAttachAck)), Ok(()));
    assert_eq!(facade::serial_console_detach(ok(SpResponse::SerialConsoleDetachAck)), Ok(()));
    assert_eq!(facade::send_break(ok(SpResponse::SerialConsoleBreakAck)), Ok(()));
    assert_eq!(
        facade::set_ipcc_key_lookup_value(ok(SpResponse::SetIpccKeyLookupValueAck)),
        Ok(())
    );
}

#[test]
fn write_ack_payload_is_the_ingested_offset() {
    let r = facade::serial_console_write_ack(ok(SpResponse::SerialConsoleWriteAck {
        furthest_ingested_offset: 321,
    }));
    assert_eq!(r, Ok(321));
}
