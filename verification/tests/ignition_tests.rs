use gateway_sp_comms::error::{CommunicationError, ResponseKind};
use gateway_sp_comms::ignition::{
    ignition_state_tag, link_events_tag, BulkIgnitionLinkEventsTlvRpc, BulkIgnitionStateTlvRpc,
};
use gateway_sp_comms::message::{IgnitionState, LinkEvents, MgsRequest, SpResponse};
use gateway_sp_comms::paginator::TlvRpc;
use gateway_sp_comms::tlv::Tag;
use gateway_sp_comms::types::TlvPage;

#[test]
fn ignition_state_record_passes_through_raw() {
    let rpc = BulkIgnitionStateTlvRpc;
    let got = rpc.parse_tag_value(ignition_state_tag(), &[3, 1, 4]).unwrap().unwrap();
    assert_eq!(got, IgnitionState { raw: vec![3, 1, 4] });
}

#[test]
fn ignition_state_unknown_tag_is_skipped() {
    let rpc = BulkIgnitionStateTlvRpc;
    let unknown = Tag { b0: 0, b1: 0, b2: 0, b3: 0 };
    assert_eq!(rpc.parse_tag_value(unknown, &[1, 2]).unwrap(), None);
}

#[test]
fn ignition_state_request_and_response_shapes() {
    let rpc = BulkIgnitionStateTlvRpc;
    assert_eq!(rpc.request(7), MgsRequest::BulkIgnitionState { offset: 7 });
    let page = TlvPage { offset: 7, total: 9 };
    assert_eq!(rpc.parse_response(SpResponse::BulkIgnitionState(page)), Ok(page));
    assert_eq!(
        rpc.parse_response(SpResponse::BulkIgnitionLinkEvents(page)),
        Err(CommunicationError::BadResponseType {
            expected: ResponseKind::BulkIgnitionState,
            got: ResponseKind::BulkIgnitionLinkEvents,
        })
    );
}

#[test]
fn link_events_record_passes_through_raw() {
    let rpc = BulkIgnitionLinkEventsTlvRpc;
    let got = rpc.parse_tag_value(link_events_tag(), &[5]).unwrap().unwrap();
    assert_eq!(got, LinkEvents { raw: vec![5] });
    assert_eq!(rpc.request(3), MgsRequest::BulkIgnitionLinkEvents { offset: 3 });
}
