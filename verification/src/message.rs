//! The request and response messages the core exchanges with the SP.
//!
//! Wire encoding and decoding of individual message variants is the socket
//! layer's business; the core sees requests and responses as the plain
//! values below. Response payloads whose internal structure the core never
//! reads (ignition state, link events, versioned SP state, component
//! actions) are carried as their raw encoded bytes.

use crate::error::ResponseKind;
use crate::error::SpError;
use crate::types::HostPhase2Request;
use crate::types::IgnitionCommand;
use crate::types::SpAddr;
use crate::types::PowerState;
use crate::types::SpComponent;
use crate::types::SpPort;
use crate::types::StartupOptions;
use crate::types::TlvPage;
use crate::types::TransceiverSelect;
use crate::types::UpdateId;
use vstd::prelude::*;

verus! {

/// The state of a single ignition target, carried as its raw encoded bytes.
#[derive(Clone, Debug, PartialEq, Eq)]
pub struct IgnitionState {
    pub raw: Vec<u8>,
}

impl View for IgnitionState {
    type V = Seq<u8>;

    open spec fn view(&self) -> Seq<u8> {
        self.raw@
    }
}

/// The link events of a single ignition target, carried as raw bytes.
#[derive(Clone, Debug, PartialEq, Eq)]
pub struct LinkEvents {
    pub raw: Vec<u8>,
}

impl View for LinkEvents {
    type V = Seq<u8>;

    open spec fn view(&self) -> Seq<u8> {
        self.raw@
    }
}

/// The SP's versioned state report, carried as raw bytes.
#[derive(Clone, Debug, PartialEq, Eq)]
pub struct VersionedSpState {
    pub raw: Vec<u8>,
}

/// An opaque component action payload.
#[derive(Clone, Debug, PartialEq, Eq)]
pub struct ComponentAction {
    pub raw: Vec<u8>,
}

/// A request from this gateway to the SP.
#[derive(Clone, Debug, PartialEq, Eq)]
pub enum MgsRequest {
    Discover,
    IgnitionState { target: u8 },
    BulkIgnitionState { offset: u32 },
    IgnitionLinkEvents { target: u8 },
    BulkIgnitionLinkEvents { offset: u32 },
    ClearIgnitionLinkEvents { target: Option<u8>, transceiver_select: Option<TransceiverSelect> },
    IgnitionCommand { target: u8, command: IgnitionCommand },
    SpState,
    Inventory { device_index: u32 },
    ComponentDetails { component: SpComponent, offset: u32 },
    ComponentGetActiveSlot(SpComponent),
    ComponentSetActiveSlot { component: SpComponent, slot: u16 },
    ComponentSetAndPersistActiveSlot { component: SpComponent, slot: u16 },
    ComponentClearStatus(SpComponent),
    GetStartupOptions,
    SetStartupOptions(StartupOptions),
    UpdateAbort { component: SpComponent, id: UpdateId },
    GetPowerState,
    SetPowerState(PowerState),
    SerialConsoleAttach(SpComponent),
    SerialConsoleWrite { offset: u64 },
    SerialConsoleKeepAlive,
    SerialConsoleBreak,
    SerialConsoleDetach,
    SendHostNmi,
    SetIpccKeyLookupValue { key: u8 },
    ReadCaboose { key: [u8; 4] },
    ReadComponentCaboose { component: SpComponent, slot: u16, key: [u8; 4] },
    ResetComponentPrepare { component: SpComponent },
    ResetComponentTrigger { component: SpComponent },
    ResetTrigger,
    ComponentAction { component: SpComponent, action: ComponentAction },
}

impl MgsRequest {
    /// Requests that trigger a reset of the SP itself lose their reply to
    /// the reset; they get a retry budget derived from a wall-clock
    /// allowance instead of the configured cap.
    pub open spec fn is_self_reset(&self) -> bool {
        match *self {
            MgsRequest::ResetComponentTrigger { component } => component.is_sp_itself(),
            MgsRequest::ResetTrigger => true,
            _ => false,
        }
    }
}

/// A message arriving from the socket, already parsed and classified by the
/// socket layer.
#[derive(Clone, Debug, PartialEq, Eq)]
pub enum InboundMessage {
    /// The SP relays a host request for a phase-2 boot image chunk.
    HostPhase2Request(HostPhase2Request),
    /// The SP relays serial-console output.
    SerialConsole { component: SpComponent, offset: u64, data: Vec<u8> },
    /// The SP answers an RPC.
    SpResponse { peer: SpAddr, message_id: u32, response: SpResponse, data: Vec<u8> },
}

/// A response from the SP, already classified by the socket layer.
#[derive(Clone, Debug, PartialEq, Eq)]
pub enum SpResponse {
    Discover { sp_port: SpPort },
    IgnitionState(IgnitionState),
    BulkIgnitionState(TlvPage),
    IgnitionLinkEvents(LinkEvents),
    BulkIgnitionLinkEvents(TlvPage),
    ClearIgnitionLinkEventsAck,
    IgnitionCommandAck,
    SpState(VersionedSpState),
    Inventory(TlvPage),
    ComponentDetails(TlvPage),
    ComponentActiveSlot(u16),
    ComponentSetActiveSlotAck,
    ComponentSetAndPersistActiveSlotAck,
    ComponentClearStatusAck,
    StartupOptions(StartupOptions),
    SetStartupOptionsAck,
    PowerState(PowerState),
    SetPowerStateAck,
    SerialConsoleAttachAck,
    SerialConsoleWriteAck { furthest_ingested_offset: u64 },
    SerialConsoleKeepAliveAck,
    SerialConsoleBreakAck,
    SerialConsoleDetachAck,
    SendHostNmiAck,
    SetIpccKeyLookupValueAck,
    CabooseValue,
    ResetComponentPrepareAck,
    ResetComponentTriggerAck,
    UpdateAbortAck,
    ComponentActionAck,
    Error(SpError),
}

impl SpResponse {
    /// The variant of this response, for reporting mismatched replies.
    pub open spec fn spec_kind(&self) -> ResponseKind {
        match *self {
            SpResponse::Discover { .. } => ResponseKind::Discover,
            SpResponse::IgnitionState(..) => ResponseKind::IgnitionState,
            SpResponse::BulkIgnitionState(..) => ResponseKind::BulkIgnitionState,
            SpResponse::IgnitionLinkEvents(..) => ResponseKind::IgnitionLinkEvents,
            SpResponse::BulkIgnitionLinkEvents(..) => ResponseKind::BulkIgnitionLinkEvents,
            SpResponse::ClearIgnitionLinkEventsAck => ResponseKind::ClearIgnitionLinkEventsAck,
            SpResponse::IgnitionCommandAck => ResponseKind::IgnitionCommandAck,
            SpResponse::SpState(..) => ResponseKind::SpState,
            SpResponse::Inventory(..) => ResponseKind::Inventory,
            SpResponse::ComponentDetails(..) => ResponseKind::ComponentDetails,
            SpResponse::ComponentActiveSlot(..) => ResponseKind::ComponentActiveSlot,
            SpResponse::ComponentSetActiveSlotAck => ResponseKind::ComponentSetActiveSlotAck,
            SpResponse::ComponentSetAndPersistActiveSlotAck => ResponseKind::ComponentSetAndPersistActiveSlotAck,
            SpResponse::ComponentClearStatusAck => ResponseKind::ComponentClearStatusAck,
            SpResponse::StartupOptions(..) => ResponseKind::StartupOptions,
            SpResponse::SetStartupOptionsAck => ResponseKind::SetStartupOptionsAck,
            SpResponse::PowerState(..) => ResponseKind::PowerState,
            SpResponse::SetPowerStateAck => ResponseKind::SetPowerStateAck,
            SpResponse::SerialConsoleAttachAck => ResponseKind::SerialConsoleAttachAck,
            SpResponse::SerialConsoleWriteAck { .. } => ResponseKind::SerialConsoleWriteAck,
            SpResponse::SerialConsoleKeepAliveAck => ResponseKind::SerialConsoleKeepAliveAck,
            SpResponse::SerialConsoleBreakAck => ResponseKind::SerialConsoleBreakAck,
            SpResponse::SerialConsoleDetachAck => ResponseKind::SerialConsoleDetachAck,
            SpResponse::SendHostNmiAck => ResponseKind::SendHostNmiAck,
            SpResponse::SetIpccKeyLookupValueAck => ResponseKind::SetIpccKeyLookupValueAck,
            SpResponse::CabooseValue => ResponseKind::CabooseValue,
            SpResponse::ResetComponentPrepareAck => ResponseKind::ResetComponentPrepareAck,
            SpResponse::ResetComponentTriggerAck => ResponseKind::ResetComponentTriggerAck,
            SpResponse::UpdateAbortAck => ResponseKind::UpdateAbortAck,
            SpResponse::ComponentActionAck => ResponseKind::ComponentActionAck,
            SpResponse::Error(..) => ResponseKind::Error,
        }
    }

    /// The variant of this response, for reporting mismatched replies.
    pub fn kind(&self) -> (k: ResponseKind)
        ensures
            k == self.spec_kind(),
    {
        match *self {
            SpResponse::Discover { .. } => ResponseKind::Discover,
            SpResponse::IgnitionState(..) => ResponseKind::IgnitionState,
            SpResponse::BulkIgnitionState(..) => ResponseKind::BulkIgnitionState,
            SpResponse::IgnitionLinkEvents(..) => ResponseKind::IgnitionLinkEvents,
            SpResponse::BulkIgnitionLinkEvents(..) => ResponseKind::BulkIgnitionLinkEvents,
            SpResponse::ClearIgnitionLinkEventsAck => ResponseKind::ClearIgnitionLinkEventsAck,
            SpResponse::IgnitionCommandAck => ResponseKind::IgnitionCommandAck,
            SpResponse::SpState(..) => ResponseKind::SpState,
            SpResponse::Inventory(..) => ResponseKind::Inventory,
            SpResponse::ComponentDetails(..) => ResponseKind::ComponentDetails,
            SpResponse::ComponentActiveSlot(..) => ResponseKind::ComponentActiveSlot,
            SpResponse::ComponentSetActiveSlotAck => ResponseKind::ComponentSetActiveSlotAck,
            SpResponse::ComponentSetAndPersistActiveSlotAck => ResponseKind::ComponentSetAndPersistActiveSlotAck,
            SpResponse::ComponentClearStatusAck => ResponseKind::ComponentClearStatusAck,
            SpResponse::StartupOptions(..) => ResponseKind::StartupOptions,
            SpResponse::SetStartupOptionsAck => ResponseKind::SetStartupOptionsAck,
            SpResponse::PowerState(..) => ResponseKind::PowerState,
            SpResponse::SetPowerStateAck => ResponseKind::SetPowerStateAck,
            SpResponse::SerialConsoleAttachAck => ResponseKind::SerialConsoleAttachAck,
            SpResponse::SerialConsoleWriteAck { .. } => ResponseKind::SerialConsoleWriteAck,
            SpResponse::SerialConsoleKeepAliveAck => ResponseKind::SerialConsoleKeepAliveAck,
            SpResponse::SerialConsoleBreakAck => ResponseKind::SerialConsoleBreakAck,
            SpResponse::SerialConsoleDetachAck => ResponseKind::SerialConsoleDetachAck,
            SpResponse::SendHostNmiAck => ResponseKind::SendHostNmiAck,
            SpResponse::SetIpccKeyLookupValueAck => ResponseKind::SetIpccKeyLookupValueAck,
            SpResponse::CabooseValue => ResponseKind::CabooseValue,
            SpResponse::ResetComponentPrepareAck => ResponseKind::ResetComponentPrepareAck,
            SpResponse::ResetComponentTriggerAck => ResponseKind::ResetComponentTriggerAck,
            SpResponse::UpdateAbortAck => ResponseKind::UpdateAbortAck,
            SpResponse::ComponentActionAck => ResponseKind::ComponentActionAck,
            SpResponse::Error(..) => ResponseKind::Error,
        }
    }
}

} // verus!
