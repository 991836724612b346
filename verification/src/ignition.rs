//! The bulk ignition queries: per-target state and link-event records.
//!
//! Each record carries one protocol-defined value whose internal
//! structure belongs to the wire layer; the core passes it through as
//! raw bytes. Unknown tags are skipped and logged.

use crate::error::CommunicationError;
use crate::error::ResponseKind;
use crate::message::IgnitionState;
use crate::message::LinkEvents;
use crate::message::MgsRequest;
use crate::message::SpResponse;
use crate::paginator::TlvRpc;
use crate::tlv::Tag;
use crate::types::TlvPage;
use vstd::prelude::*;
use vstd::slice::slice_to_vec;

verus! {

/// The record tag of an ignition state record (`"IGN0"`).
pub open spec fn spec_ignition_state_tag() -> Tag {
    Tag { b0: 73u8, b1: 71u8, b2: 78u8, b3: 48u8 }
}

/// The record tag of an ignition state record (`"IGN0"`).
pub fn ignition_state_tag() -> (t: Tag)
    ensures
        t == spec_ignition_state_tag(),
{
    Tag { b0: 73, b1: 71, b2: 78, b3: 48 }
}

/// The record tag of a link events record (`"LNK0"`).
pub open spec fn spec_link_events_tag() -> Tag {
    Tag { b0: 76u8, b1: 78u8, b2: 75u8, b3: 48u8 }
}

/// The record tag of a link events record (`"LNK0"`).
pub fn link_events_tag() -> (t: Tag)
    ensures
        t == spec_link_events_tag(),
{
    Tag { b0: 76, b1: 78, b2: 75, b3: 48 }
}

/// Bulk ignition state, as a paginated TLV query.
pub struct BulkIgnitionStateTlvRpc;

impl TlvRpc for BulkIgnitionStateTlvRpc {
    type Item = IgnitionState;

    open spec fn spec_request(&self, offset: u32) -> MgsRequest {
        MgsRequest::BulkIgnitionState { offset }
    }

    open spec fn spec_parse_response(&self, response: SpResponse) -> Result<
        TlvPage,
        CommunicationError,
    > {
        match response {
            SpResponse::BulkIgnitionState(page) => Ok(page),
            _ => Err(
                CommunicationError::BadResponseType {
                    expected: ResponseKind::BulkIgnitionState,
                    got: response.spec_kind(),
                },
            ),
        }
    }

    open spec fn spec_parse_tag_value(&self, tag: Tag, value: Seq<u8>) -> Result<
        Option<Seq<u8>>,
        CommunicationError,
    > {
        if tag == spec_ignition_state_tag() {
            Ok(Some(value))
        } else {
            Ok(None)
        }
    }

    fn request(&self, offset: u32) -> (r: MgsRequest) {
        MgsRequest::BulkIgnitionState { offset }
    }

    fn parse_response(&self, response: SpResponse) -> (r: Result<TlvPage, CommunicationError>) {
        match response {
            SpResponse::BulkIgnitionState(page) => Ok(page),
            other => Err(
                CommunicationError::BadResponseType {
                    expected: ResponseKind::BulkIgnitionState,
                    got: other.kind(),
                },
            ),
        }
    }

    fn parse_tag_value(&self, tag: Tag, value: &[u8]) -> (r: Result<
        Option<IgnitionState>,
        CommunicationError,
    >) {
        if tag == ignition_state_tag() {
            Ok(Some(IgnitionState { raw: slice_to_vec(value) }))
        } else {
            Ok(None)
        }
    }
}

/// Bulk ignition link events, as a paginated TLV query.
pub struct BulkIgnitionLinkEventsTlvRpc;

impl TlvRpc for BulkIgnitionLinkEventsTlvRpc {
    type Item = LinkEvents;

    open spec fn spec_request(&self, offset: u32) -> MgsRequest {
        MgsRequest::BulkIgnitionLinkEvents { offset }
    }

    open spec fn spec_parse_response(&self, response: SpResponse) -> Result<
        TlvPage,
        CommunicationError,
    > {
        match response {
            SpResponse::BulkIgnitionLinkEvents(page) => Ok(page),
            _ => Err(
                CommunicationError::BadResponseType {
                    expected: ResponseKind::BulkIgnitionLinkEvents,
                    got: response.spec_kind(),
                },
            ),
        }
    }

    open spec fn spec_parse_tag_value(&self, tag: Tag, value: Seq<u8>) -> Result<
        Option<Seq<u8>>,
        CommunicationError,
    > {
        if tag == spec_link_events_tag() {
            Ok(Some(value))
        } else {
            Ok(None)
        }
    }

    fn request(&self, offset: u32) -> (r: MgsRequest) {
        MgsRequest::BulkIgnitionLinkEvents { offset }
    }

    fn parse_response(&self, response: SpResponse) -> (r: Result<TlvPage, CommunicationError>) {
        match response {
            SpResponse::BulkIgnitionLinkEvents(page) => Ok(page),
            other => Err(
                CommunicationError::BadResponseType {
                    expected: ResponseKind::BulkIgnitionLinkEvents,
                    got: other.kind(),
                },
            ),
        }
    }

    fn parse_tag_value(&self, tag: Tag, value: &[u8]) -> (r: Result<
        Option<LinkEvents>,
        CommunicationError,
    >) {
        if tag == link_events_tag() {
            Ok(Some(LinkEvents { raw: slice_to_vec(value) }))
        } else {
            Ok(None)
        }
    }
}

} // verus!
