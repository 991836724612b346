//! Typed interpretation of RPC outcomes, one function per operation.
//!
//! The RPC machinery yields an outcome: the peer, the SP's (non-error)
//! response and its trailing bytes, or the error that ended the call.
//! Each facade function turns that outcome into its operation's typed
//! result, failing with a "bad response type" error when the SP answered
//! with the wrong variant. A few operations add their own rules: a
//! self-reset trigger treats one particular SP error as success, an IPCC
//! value is bounded before any I/O, and an update start validates its
//! target and image.

use crate::error::CommunicationError;
use crate::error::ResponseKind;
use crate::error::SpError;
use crate::error::UpdateError;
use crate::message::IgnitionState;
use crate::message::LinkEvents;
use crate::message::SpResponse;
use crate::message::VersionedSpState;
use crate::types::PowerState;
use crate::types::SpAddr;
use crate::types::SpComponent;
use crate::types::SpPort;
use crate::types::StartupOptions;
use crate::writer::MIN_TRAILING_DATA_LEN;
use vstd::prelude::*;

verus! {

/// What one RPC came to: the peer, response and trailing bytes, or the
/// error that ended the call.
pub type RpcOutcome = Result<(SpAddr, SpResponse, Vec<u8>), CommunicationError>;

/// Interpreting an outcome whose only payload is an acknowledgement of
/// the expected kind.
pub open spec fn spec_expect_ack(outcome: RpcOutcome, expected: ResponseKind) -> Result<
    (),
    CommunicationError,
> {
    match outcome {
        Err(e) => Err(e),
        Ok(t) => if t.1.spec_kind() == expected {
            Ok(())
        } else {
            Err(CommunicationError::BadResponseType { expected, got: t.1.spec_kind() })
        },
    }
}

/// Accepts exactly the acknowledgement `expected`; anything else is a
/// mismatched reply.
pub fn expect_ack(outcome: RpcOutcome, expected: ResponseKind) -> (r: Result<
    (),
    CommunicationError,
>)
    ensures
        r == spec_expect_ack(outcome, expected),
{
    match outcome {
        Err(e) => Err(e),
        Ok((_peer, response, _data)) => {
            let got = response.kind();
            if got == expected {
                Ok(())
            } else {
                Err(CommunicationError::BadResponseType { expected, got })
            }
        },
    }
}

/// Interprets the outcome of a `Discover` RPC: the SP's address is the
/// answering peer, together with the port it reports.
pub fn discover(outcome: RpcOutcome) -> (r: Result<(SpAddr, SpPort), CommunicationError>)
    ensures
        match outcome {
            Err(e) => r == Err::<(SpAddr, SpPort), CommunicationError>(e),
            Ok(t) => match t.1 {
                SpResponse::Discover { sp_port } => r == Ok::<
                    (SpAddr, SpPort),
                    CommunicationError,
                >((t.0, sp_port)),
                _ => r == Err::<(SpAddr, SpPort), CommunicationError>(
                    CommunicationError::BadResponseType {
                        expected: ResponseKind::Discover,
                        got: t.1.spec_kind(),
                    },
                ),
            },
        },
{
    match outcome {
        Err(e) => Err(e),
        Ok((peer, response, _data)) => match response {
            SpResponse::Discover { sp_port } => Ok((peer, sp_port)),
            other => Err(
                CommunicationError::BadResponseType {
                    expected: ResponseKind::Discover,
                    got: other.kind(),
                },
            ),
        },
    }
}

/// Interprets the outcome of an `IgnitionState` RPC.
pub fn ignition_state(outcome: RpcOutcome) -> (r: Result<IgnitionState, CommunicationError>)
    ensures
        match outcome {
            Err(e) => r == Err::<IgnitionState, CommunicationError>(e),
            Ok(t) => match t.1 {
                SpResponse::IgnitionState(s) => r == Ok::<IgnitionState, CommunicationError>(s),
                _ => r == Err::<IgnitionState, CommunicationError>(
                    CommunicationError::BadResponseType {
                        expected: ResponseKind::IgnitionState,
                        got: t.1.spec_kind(),
                    },
                ),
            },
        },
{
    match outcome {
        Err(e) => Err(e),
        Ok((_peer, response, _data)) => match response {
            SpResponse::IgnitionState(s) => Ok(s),
            other => Err(
                CommunicationError::BadResponseType {
                    expected: ResponseKind::IgnitionState,
                    got: other.kind(),
                },
            ),
        },
    }
}

/// Interprets the outcome of an `IgnitionLinkEvents` RPC.
pub fn ignition_link_events(outcome: RpcOutcome) -> (r: Result<LinkEvents, CommunicationError>)
    ensures
        match outcome {
            Err(e) => r == Err::<LinkEvents, CommunicationError>(e),
            Ok(t) => match t.1 {
                SpResponse::IgnitionLinkEvents(ev) => r == Ok::<LinkEvents, CommunicationError>(
                    ev,
                ),
                _ => r == Err::<LinkEvents, CommunicationError>(
                    CommunicationError::BadResponseType {
                        expected: ResponseKind::IgnitionLinkEvents,
                        got: t.1.spec_kind(),
                    },
                ),
            },
        },
{
    match outcome {
        Err(e) => Err(e),
        Ok((_peer, response, _data)) => match response {
            SpResponse::IgnitionLinkEvents(ev) => Ok(ev),
            other => Err(
                CommunicationError::BadResponseType {
                    expected: ResponseKind::IgnitionLinkEvents,
                    got: other.kind(),
                },
            ),
        },
    }
}

/// Interprets the outcome of a `ClearIgnitionLinkEvents` RPC.
pub fn clear_ignition_link_events(outcome: RpcOutcome) -> (r: Result<(), CommunicationError>)
    ensures
        r == spec_expect_ack(outcome, ResponseKind::ClearIgnitionLinkEventsAck),
{
    expect_ack(outcome, ResponseKind::ClearIgnitionLinkEventsAck)
}

/// Interprets the outcome of an `IgnitionCommand` RPC.
pub fn ignition_command(outcome: RpcOutcome) -> (r: Result<(), CommunicationError>)
    ensures
        r == spec_expect_ack(outcome, ResponseKind::IgnitionCommandAck),
{
    expect_ack(outcome, ResponseKind::IgnitionCommandAck)
}

/// Interprets the outcome of an `SpState` RPC.
pub fn state(outcome: RpcOutcome) -> (r: Result<VersionedSpState, CommunicationError>)
    ensures
        match outcome {
            Err(e) => r == Err::<VersionedSpState, CommunicationError>(e),
            Ok(t) => match t.1 {
                SpResponse::SpState(s) => r == Ok::<VersionedSpState, CommunicationError>(s),
                _ => r == Err::<VersionedSpState, CommunicationError>(
                    CommunicationError::BadResponseType {
                        expected: ResponseKind::SpState,
                        got: t.1.spec_kind(),
                    },
                ),
            },
        },
{
    match outcome {
        Err(e) => Err(e),
        Ok((_peer, response, _data)) => match response {
            SpResponse::SpState(s) => Ok(s),
            other => Err(
                CommunicationError::BadResponseType {
                    expected: ResponseKind::SpState,
                    got: other.kind(),
                },
            ),
        },
    }
}

/// Interprets the outcome of a `ComponentGetActiveSlot` RPC.
pub fn component_active_slot(outcome: RpcOutcome) -> (r: Result<u16, CommunicationError>)
    ensures
        match outcome {
            Err(e) => r == Err::<u16, CommunicationError>(e),
            Ok(t) => match t.1 {
                SpResponse::ComponentActiveSlot(slot) => r == Ok::<u16, CommunicationError>(slot),
                _ => r == Err::<u16, CommunicationError>(
                    CommunicationError::BadResponseType {
                        expected: ResponseKind::ComponentActiveSlot,
                        got: t.1.spec_kind(),
                    },
                ),
            },
        },
{
    match outcome {
        Err(e) => Err(e),
        Ok((_peer, response, _data)) => match response {
            SpResponse::ComponentActiveSlot(slot) => Ok(slot),
            other => Err(
                CommunicationError::BadResponseType {
                    expected: ResponseKind::ComponentActiveSlot,
                    got: other.kind(),
                },
            ),
        },
    }
}

/// Interprets the outcome of a slot-set RPC; which acknowledgement is
/// owed depends on whether the persistent variant was requested.
pub fn set_component_active_slot(persist: bool, outcome: RpcOutcome) -> (r: Result<
    (),
    CommunicationError,
>)
    ensures
        r == spec_expect_ack(
            outcome,
            if persist {
                ResponseKind::ComponentSetAndPersistActiveSlotAck
            } else {
                ResponseKind::ComponentSetActiveSlotAck
            },
        ),
{
    if persist {
        expect_ack(outcome, ResponseKind::ComponentSetAndPersistActiveSlotAck)
    } else {
        expect_ack(outcome, ResponseKind::ComponentSetActiveSlotAck)
    }
}

/// Interprets the outcome of a `ComponentClearStatus` RPC.
pub fn component_clear_status(outcome: RpcOutcome) -> (r: Result<(), CommunicationError>)
    ensures
        r == spec_expect_ack(outcome, ResponseKind::ComponentClearStatusAck),
{
    expect_ack(outcome, ResponseKind::ComponentClearStatusAck)
}

/// Interprets the outcome of a `GetStartupOptions` RPC.
pub fn get_startup_options(outcome: RpcOutcome) -> (r: Result<StartupOptions, CommunicationError>)
    ensures
        match outcome {
            Err(e) => r == Err::<StartupOptions, CommunicationError>(e),
            Ok(t) => match t.1 {
                SpResponse::StartupOptions(o) => r == Ok::<StartupOptions, CommunicationError>(o),
                _ => r == Err::<StartupOptions, CommunicationError>(
                    CommunicationError::BadResponseType {
                        expected: ResponseKind::StartupOptions,
                        got: t.1.spec_kind(),
                    },
                ),
            },
        },
{
    match outcome {
        Err(e) => Err(e),
        Ok((_peer, response, _data)) => match response {
            SpResponse::StartupOptions(o) => Ok(o),
            other => Err(
                CommunicationError::BadResponseType {
                    expected: ResponseKind::StartupOptions,
                    got: other.kind(),
                },
            ),
        },
    }
}

/// Interprets the outcome of a `SetStartupOptions` RPC.
pub fn set_startup_options(outcome: RpcOutcome) -> (r: Result<(), CommunicationError>)
    ensures
        r == spec_expect_ack(outcome, ResponseKind::SetStartupOptionsAck),
{
    expect_ack(outcome, ResponseKind::SetStartupOptionsAck)
}

/// Interprets the outcome of an `UpdateAbort` RPC.
pub fn update_abort(outcome: RpcOutcome) -> (r: Result<(), CommunicationError>)
    ensures
        r == spec_expect_ack(outcome, ResponseKind::UpdateAbortAck),
{
    expect_ack(outcome, ResponseKind::UpdateAbortAck)
}

/// Interprets the outcome of a `GetPowerState` RPC.
pub fn power_state(outcome: RpcOutcome) -> (r: Result<PowerState, CommunicationError>)
    ensures
        match outcome {
            Err(e) => r == Err::<PowerState, CommunicationError>(e),
            Ok(t) => match t.1 {
                SpResponse::PowerState(p) => r == Ok::<PowerState, CommunicationError>(p),
                _ => r == Err::<PowerState, CommunicationError>(
                    CommunicationError::BadResponseType {
                        expected: ResponseKind::PowerState,
                        got: t.1.spec_kind(),
                    },
                ),
            },
        },
{
    match outcome {
        Err(e) => Err(e),
        Ok((_peer, response, _data)) => match response {
            SpResponse::PowerState(p) => Ok(p),
            other => Err(
                CommunicationError::BadResponseType {
                    expected: ResponseKind::PowerState,
                    got: other.kind(),
                },
            ),
        },
    }
}

/// Interprets the outcome of a `SetPowerState` RPC.
pub fn set_power_state(outcome: RpcOutcome) -> (r: Result<(), CommunicationError>)
    ensures
        r == spec_expect_ack(outcome, ResponseKind::SetPowerStateAck),
{
    expect_ack(outcome, ResponseKind::SetPowerStateAck)
}

/// Interprets the outcome of a `SendHostNmi` RPC.
pub fn send_host_nmi(outcome: RpcOutcome) -> (r: Result<(), CommunicationError>)
    ensures
        r == spec_expect_ack(outcome, ResponseKind::SendHostNmiAck),
{
    expect_ack(outcome, ResponseKind::SendHostNmiAck)
}

/// Holds an IPCC key-lookup value against the single-packet limit before
/// any I/O happens.
pub fn set_ipcc_key_lookup_value_precheck(data_len: usize) -> (r: Result<(), CommunicationError>)
    ensures
        data_len <= MIN_TRAILING_DATA_LEN ==> r == Ok::<(), CommunicationError>(()),
        data_len > MIN_TRAILING_DATA_LEN ==> r == Err::<(), CommunicationError>(
            CommunicationError::IpccKeyLookupValueTooLarge,
        ),
{
    if data_len > MIN_TRAILING_DATA_LEN {
        Err(CommunicationError::IpccKeyLookupValueTooLarge)
    } else {
        Ok(())
    }
}

/// Interprets the outcome of a `SetIpccKeyLookupValue` RPC.
pub fn set_ipcc_key_lookup_value(outcome: RpcOutcome) -> (r: Result<(), CommunicationError>)
    ensures
        r == spec_expect_ack(outcome, ResponseKind::SetIpccKeyLookupValueAck),
{
    expect_ack(outcome, ResponseKind::SetIpccKeyLookupValueAck)
}

/// Interprets the outcome of a `ReadCaboose` RPC: the value is the
/// trailing bytes of a `CabooseValue` response.
pub fn get_caboose_value(outcome: RpcOutcome) -> (r: Result<Vec<u8>, CommunicationError>)
    ensures
        match outcome {
            Err(e) => r == Err::<Vec<u8>, CommunicationError>(e),
            Ok(t) => match t.1 {
                SpResponse::CabooseValue => r matches Ok(v) && v@ == t.2@,
                _ => r == Err::<Vec<u8>, CommunicationError>(
                    CommunicationError::BadResponseType {
                        expected: ResponseKind::CabooseValue,
                        got: t.1.spec_kind(),
                    },
                ),
            },
        },
{
    match outcome {
        Err(e) => Err(e),
        Ok((_peer, response, data)) => match response {
            SpResponse::CabooseValue => Ok(data),
            other => Err(
                CommunicationError::BadResponseType {
                    expected: ResponseKind::CabooseValue,
                    got: other.kind(),
                },
            ),
        },
    }
}

/// Interprets the outcome of a `ReadComponentCaboose` RPC; the reply is
/// the same `CabooseValue` shape as the legacy read.
pub fn read_component_caboose(outcome: RpcOutcome) -> (r: Result<Vec<u8>, CommunicationError>)
    ensures
        match outcome {
            Err(e) => r == Err::<Vec<u8>, CommunicationError>(e),
            Ok(t) => match t.1 {
                SpResponse::CabooseValue => r matches Ok(v) && v@ == t.2@,
                _ => r == Err::<Vec<u8>, CommunicationError>(
                    CommunicationError::BadResponseType {
                        expected: ResponseKind::CabooseValue,
                        got: t.1.spec_kind(),
                    },
                ),
            },
        },
{
    get_caboose_value(outcome)
}

/// Interprets the outcome of a `ResetComponentPrepare` RPC.
pub fn reset_component_prepare(outcome: RpcOutcome) -> (r: Result<(), CommunicationError>)
    ensures
        r == spec_expect_ack(outcome, ResponseKind::ResetComponentPrepareAck),
{
    expect_ack(outcome, ResponseKind::ResetComponentPrepareAck)
}

/// What a reset trigger's outcome means.
///
/// For the SP itself, the trigger is resent until the SP answers that no
/// reset was prepared — because it has reset and lost its state machine:
/// that error is success, and any ordinary response means the reset has
/// not happened yet. For every other component an ordinary
/// acknowledgement is expected and the same error is an error.
pub open spec fn spec_reset_component_trigger(
    component: SpComponent,
    outcome: RpcOutcome,
) -> Result<(), CommunicationError> {
    match outcome {
        Ok(t) => if component.is_sp_itself() {
            Err(
                CommunicationError::BadResponseType {
                    expected: ResponseKind::SystemReset,
                    got: t.1.spec_kind(),
                },
            )
        } else {
            spec_expect_ack(outcome, ResponseKind::ResetComponentTriggerAck)
        },
        Err(e) => if e == CommunicationError::SpError(
            SpError::ResetComponentTriggerWithoutPrepare,
        ) && component.is_sp_itself() {
            Ok(())
        } else {
            Err(e)
        },
    }
}

/// Interprets the outcome of a `ResetComponentTrigger` RPC, exactly as
/// [`spec_reset_component_trigger`] says.
pub fn reset_component_trigger(component: SpComponent, outcome: RpcOutcome) -> (r: Result<
    (),
    CommunicationError,
>)
    ensures
        r == spec_reset_component_trigger(component, outcome),
{
    let is_sp_itself = component == SpComponent::sp_itself();
    match outcome {
        Ok((_peer, response, _data)) => {
            if is_sp_itself {
                Err(
                    CommunicationError::BadResponseType {
                        expected: ResponseKind::SystemReset,
                        got: response.kind(),
                    },
                )
            } else {
                expect_ack(Ok((_peer, response, _data)), ResponseKind::ResetComponentTriggerAck)
            }
        },
        Err(e) => {
            if is_sp_itself && e == CommunicationError::SpError(
                SpError::ResetComponentTriggerWithoutPrepare,
            ) {
                Ok(())
            } else {
                Err(e)
            }
        },
    }
}

/// Interprets the outcome of a `ComponentAction` RPC.
pub fn component_action(outcome: RpcOutcome) -> (r: Result<(), CommunicationError>)
    ensures
        r == spec_expect_ack(outcome, ResponseKind::ComponentActionAck),
{
    expect_ack(outcome, ResponseKind::ComponentActionAck)
}

/// Interprets the outcome of a `SerialConsoleAttach` RPC.
pub fn serial_console_attach(outcome: RpcOutcome) -> (r: Result<(), CommunicationError>)
    ensures
        r == spec_expect_ack(outcome, ResponseKind::SerialConsoleAttachAck),
{
    expect_ack(outcome, ResponseKind::SerialConsoleAttachAck)
}

/// Interprets the outcome of a `SerialConsoleDetach` RPC.
pub fn serial_console_detach(outcome: RpcOutcome) -> (r: Result<(), CommunicationError>)
    ensures
        r == spec_expect_ack(outcome, ResponseKind::SerialConsoleDetachAck),
{
    expect_ack(outcome, ResponseKind::SerialConsoleDetachAck)
}

/// Interprets the outcome of a `SerialConsoleKeepAlive` RPC.
pub fn keepalive(outcome: RpcOutcome) -> (r: Result<(), CommunicationError>)
    ensures
        r == spec_expect_ack(outcome, ResponseKind::SerialConsoleKeepAliveAck),
{
    expect_ack(outcome, ResponseKind::SerialConsoleKeepAliveAck)
}

/// Interprets the outcome of a `SerialConsoleBreak` RPC.
pub fn send_break(outcome: RpcOutcome) -> (r: Result<(), CommunicationError>)
    ensures
        r == spec_expect_ack(outcome, ResponseKind::SerialConsoleBreakAck),
{
    expect_ack(outcome, ResponseKind::SerialConsoleBreakAck)
}

/// Interprets the outcome of a `SerialConsoleWrite` RPC: the ack names
/// the SP's cumulative accepted byte count.
pub fn serial_console_write_ack(outcome: RpcOutcome) -> (r: Result<u64, CommunicationError>)
    ensures
        match outcome {
            Err(e) => r == Err::<u64, CommunicationError>(e),
            Ok(t) => match t.1 {
                SpResponse::SerialConsoleWriteAck { furthest_ingested_offset } => r == Ok::<
                    u64,
                    CommunicationError,
                >(furthest_ingested_offset),
                _ => r == Err::<u64, CommunicationError>(
                    CommunicationError::BadResponseType {
                        expected: ResponseKind::SerialConsoleWriteAck,
                        got: t.1.spec_kind(),
                    },
                ),
            },
        },
{
    match outcome {
        Err(e) => Err(e),
        Ok((_peer, response, _data)) => match response {
            SpResponse::SerialConsoleWriteAck { furthest_ingested_offset } => Ok(
                furthest_ingested_offset,
            ),
            other => Err(
                CommunicationError::BadResponseType {
                    expected: ResponseKind::SerialConsoleWriteAck,
                    got: other.kind(),
                },
            ),
        },
    }
}

/// Which update path a start-update request takes.
#[derive(Clone, Copy, Debug, PartialEq, Eq, Structural)]
pub enum UpdateTarget {
    /// The SP itself; only slot 0 exists.
    Sp,
    /// The SP's root of trust.
    Rot,
    /// Any other component.
    Component,
}

/// Validates an update start: an empty image is rejected, and the SP
/// itself has only slot 0, so any other slot fails fast without I/O.
pub fn start_update(component: SpComponent, slot: u16, image_len: usize) -> (r: Result<
    UpdateTarget,
    UpdateError,
>)
    ensures
        image_len == 0 ==> r == Err::<UpdateTarget, UpdateError>(UpdateError::ImageEmpty),
        image_len > 0 && component.is_sp_itself() && slot != 0 ==> r == Err::<
            UpdateTarget,
            UpdateError,
        >(
            UpdateError::Communication(
                CommunicationError::SpError(SpError::InvalidSlotForComponent),
            ),
        ),
        image_len > 0 && component.is_sp_itself() && slot == 0 ==> r == Ok::<
            UpdateTarget,
            UpdateError,
        >(UpdateTarget::Sp),
        image_len > 0 && !component.is_sp_itself() && component.is_rot() ==> r == Ok::<
            UpdateTarget,
            UpdateError,
        >(UpdateTarget::Rot),
        image_len > 0 && !component.is_sp_itself() && !component.is_rot() ==> r == Ok::<
            UpdateTarget,
            UpdateError,
        >(UpdateTarget::Component),
{
    if image_len == 0 {
        return Err(UpdateError::ImageEmpty);
    }
    if component == SpComponent::sp_itself() {
        if slot != 0 {
            return Err(
                UpdateError::Communication(
                    CommunicationError::SpError(SpError::InvalidSlotForComponent),
                ),
            );
        }
        Ok(UpdateTarget::Sp)
    } else if component == SpComponent::rot() {
        Ok(UpdateTarget::Rot)
    } else {
        Ok(UpdateTarget::Component)
    }
}

} // verus!
