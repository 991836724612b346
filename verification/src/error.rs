//! Error taxonomy of the protocol core.

use crate::tlv;
use vstd::prelude::*;

verus! {

/// An error reported by the SP in a response message.
///
/// Only the variants the protocol core reacts to are distinguished; every
/// other SP error is carried as `Other` with its wire code.
#[derive(Clone, Copy, Debug, PartialEq, Eq, Structural)]
pub enum SpError {
    Busy,
    ResetComponentTriggerWithoutPrepare,
    SerialConsoleAlreadyAttached,
    InvalidSlotForComponent,
    Other(u32),
}

/// Why a paginated TLV collection was abandoned.
#[derive(Clone, Copy, Debug, PartialEq, Eq, Structural)]
pub enum TlvPaginationError {
    /// The SP claims more records than the DoS cap allows.
    TooManyItems,
    /// A page does not start at the record index we asked for.
    UnexpectedOffset,
    /// A later page reports a different total than the first page did.
    TotalItemCountChanged,
    /// The SP returned more records than its reported total.
    OverReported,
    /// A page yielded no records while the total says some remain.
    NoProgress,
    /// A record's byte length disagrees with the lengths in its header.
    LengthMismatch,
    /// An inventory record's device name is not UTF-8.
    NotUtf8Device,
    /// An inventory record's description is not UTF-8.
    NotUtf8Description,
    /// A measurement record's name is not UTF-8.
    NotUtf8MeasurementName,
}

/// Which response variant a caller expected; used to report a mismatched
/// reply.
#[derive(Clone, Copy, Debug, PartialEq, Eq, Structural)]
pub enum ResponseKind {
    Discover,
    IgnitionState,
    BulkIgnitionState,
    IgnitionLinkEvents,
    BulkIgnitionLinkEvents,
    ClearIgnitionLinkEventsAck,
    IgnitionCommandAck,
    SpState,
    Inventory,
    ComponentDetails,
    ComponentActiveSlot,
    ComponentSetActiveSlotAck,
    ComponentSetAndPersistActiveSlotAck,
    ComponentClearStatusAck,
    StartupOptions,
    SetStartupOptionsAck,
    PowerState,
    SetPowerStateAck,
    SerialConsoleAttachAck,
    SerialConsoleWriteAck,
    SerialConsoleKeepAliveAck,
    SerialConsoleBreakAck,
    SerialConsoleDetachAck,
    SendHostNmiAck,
    SetIpccKeyLookupValueAck,
    CabooseValue,
    ResetComponentPrepareAck,
    ResetComponentTriggerAck,
    UpdateAbortAck,
    ComponentActionAck,
    Error,
    /// Not a wire variant: the "response" a self-reset trigger expects,
    /// namely the loss of the SP's reply. Any ordinary response to a
    /// self-reset is reported as a mismatch against this.
    SystemReset,
}

/// Everything that can go wrong between the caller and the SP.
#[derive(Clone, Copy, Debug, PartialEq, Eq, Structural)]
pub enum CommunicationError {
    /// No SP has been discovered yet; issued to commands that arrive during
    /// initial discovery.
    NoSpDiscovered,
    /// Sending a packet to the SP failed at the transport layer.
    SendFailure,
    /// Every attempt of an RPC timed out; carries the configured per-RPC
    /// attempt cap.
    ExhaustedNumAttempts(usize),
    /// The SP answered with a response of the wrong variant.
    BadResponseType { expected: ResponseKind, got: ResponseKind },
    /// The SP reported an error.
    SpError(SpError),
    /// A paginated TLV collection went wrong.
    TlvPagination { reason: TlvPaginationError },
    /// A page's TLV framing was malformed.
    TlvDecode(tlv::DecodeError),
    /// A record with a known tag could not be deserialized.
    TlvDeserialize { tag: tlv::Tag },
    /// A serial-console write ack acknowledged bytes we never sent.
    BogusSerialConsoleState,
    /// An IPCC key-lookup value does not fit in a single packet.
    IpccKeyLookupValueTooLarge,
}

/// Errors starting an update.
#[derive(Clone, Copy, Debug, PartialEq, Eq, Structural)]
pub enum UpdateError {
    ImageEmpty,
    Communication(CommunicationError),
}

} // verus!
