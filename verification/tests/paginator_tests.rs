use gateway_sp_comms::error::{CommunicationError, TlvPaginationError};
use gateway_sp_comms::inventory::{encode_device_record, InventoryTlvRpc, SpDevice};
use gateway_sp_comms::paginator::{PageCollector, PageStep, TlvRpc};
use gateway_sp_comms::tlv::{encode_into, Tag};
use gateway_sp_comms::types::{DeviceCapabilities, DevicePresence, SpComponent, TlvPage};

fn device(n: u8) -> SpDevice {
    SpDevice {
        component: SpComponent { id: [n; 16] },
        device: format!("dev-{n}"),
        description: format!("device number {n}"),
        capabilities: DeviceCapabilities { bits: n as u32 },
        presence: DevicePresence::Present,
    }
}

fn device_page(devices: &[SpDevice]) -> Vec<u8> {
    let mut data = Vec::new();
    for d in devices {
        let mut record = Vec::new();
        encode_device_record(d, &mut record);
        encode_into(&mut data, gateway_sp_comms::inventory::device_tag(), &record);
    }
    data
}

#[test]
fn inventory_pagination() {
    // The SP declares three records, hands one back on page zero and the
    // remaining two on page one.
    let rpc = InventoryTlvRpc;
    let mut c: PageCollector<SpDevice> = PageCollector::new();
    assert_eq!(c.next_offset(), 0);
    let step = c
        .handle_page(&rpc, TlvPage { offset: 0, total: 3 }, &device_page(&[device(1)]))
        .unwrap();
    assert_eq!(step, PageStep::Continue { next_offset: 1 });
    assert_eq!(c.next_offset(), 1);
    let step = c
        .handle_page(
            &rpc,
            TlvPage { offset: 1, total: 3 },
            &device_page(&[device(2), device(3)]),
        )
        .unwrap();
    assert_eq!(step, PageStep::Done);
    let entries = c.take_entries();
    assert_eq!(entries, vec![device(1), device(2), device(3)]);
}

#[test]
fn inventory_pagination_total_changed() {
    // Page one suddenly claims a different total: the collection fails.
    let rpc = InventoryTlvRpc;
    let mut c: PageCollector<SpDevice> = PageCollector::new();
    c.handle_page(&rpc, TlvPage { offset: 0, total: 3 }, &device_page(&[device(1)]))
        .unwrap();
    let err = c
        .handle_page(&rpc, TlvPage { offset: 1, total: 4 }, &device_page(&[device(2)]))
        .unwrap_err();
    assert_eq!(
        err,
        CommunicationError::TlvPagination {
            reason: TlvPaginationError::TotalItemCountChanged
        }
    );
}

#[test]
fn first_page_over_dos_cap_fails_before_any_decoding() {
    let rpc = InventoryTlvRpc;
    let mut c: PageCollector<SpDevice> = PageCollector::new();
    let err = c
        .handle_page(&rpc, TlvPage { offset: 0, total: 1025 }, &[])
        .unwrap_err();
    assert_eq!(
        err,
        CommunicationError::TlvPagination { reason: TlvPaginationError::TooManyItems }
    );
}

#[test]
fn total_at_dos_cap_is_accepted() {
    let rpc = InventoryTlvRpc;
    let mut c: PageCollector<SpDevice> = PageCollector::new();
    let step = c
        .handle_page(&rpc, TlvPage { offset: 0, total: 1024 }, &device_page(&[device(1)]))
        .unwrap();
    assert_eq!(step, PageStep::Continue { next_offset: 1 });
}

#[test]
fn unexpected_offset_fails() {
    let rpc = InventoryTlvRpc;
    let mut c: PageCollector<SpDevice> = PageCollector::new();
    let err = c
        .handle_page(&rpc, TlvPage { offset: 2, total: 3 }, &device_page(&[device(1)]))
        .unwrap_err();
    assert_eq!(
        err,
        CommunicationError::TlvPagination { reason: TlvPaginationError::UnexpectedOffset }
    );
}

#[test]
fn unknown_tag_only_fails_no_progress() {
    // The page declares records but carries only tags unknown to the
    // parser: without the progress guard this would loop forever.
    let rpc = InventoryTlvRpc;
    let mut c: PageCollector<SpDevice> = PageCollector::new();
    let mut data = Vec::new();
    let unknown = Tag { b0: 90, b1: 90, b2: 90, b3: 90 };
    encode_into(&mut data, unknown, &[1, 2, 3]);
    encode_into(&mut data, unknown, &[4, 5]);
    let err = c
        .handle_page(&rpc, TlvPage { offset: 0, total: 2 }, &data)
        .unwrap_err();
    assert_eq!(
        err,
        CommunicationError::TlvPagination { reason: TlvPaginationError::NoProgress }
    );
}

#[test]
fn unknown_tags_are_skipped_when_progress_is_made() {
    let rpc = InventoryTlvRpc;
    let mut c: PageCollector<SpDevice> = PageCollector::new();
    let mut data = Vec::new();
    let unknown = Tag { b0: 90, b1: 90, b2: 90, b3: 90 };
    encode_into(&mut data, unknown, &[1, 2, 3]);
    let mut record = Vec::new();
    encode_device_record(&device(7), &mut record);
    encode_into(&mut data, gateway_sp_comms::inventory::device_tag(), &record);
    let step = c
        .handle_page(&rpc, TlvPage { offset: 0, total: 1 }, &data)
        .unwrap();
    assert_eq!(step, PageStep::Done);
    assert_eq!(c.take_entries(), vec![device(7)]);
}

#[test]
fn over_reported_records_fail() {
    // The SP hands back more records than its own declared total.
    let rpc = InventoryTlvRpc;
    let mut c: PageCollector<SpDevice> = PageCollector::new();
    let err = c
        .handle_page(
            &rpc,
            TlvPage { offset: 0, total: 1 },
            &device_page(&[device(1), device(2)]),
        )
        .unwrap_err();
    assert_eq!(
        err,
        CommunicationError::TlvPagination { reason: TlvPaginationError::OverReported }
    );
}

#[test]
fn zero_total_completes_at_once() {
    let rpc = InventoryTlvRpc;
    let mut c: PageCollector<SpDevice> = PageCollector::new();
    let step = c
        .handle_page(&rpc, TlvPage { offset: 0, total: 0 }, &[])
        .unwrap();
    assert_eq!(step, PageStep::Done);
    assert!(c.take_entries().is_empty());
}

#[test]
fn malformed_tlv_stream_fails_decode() {
    let rpc = InventoryTlvRpc;
    let mut c: PageCollector<SpDevice> = PageCollector::new();
    let err = c
        .handle_page(&rpc, TlvPage { offset: 0, total: 1 }, &[1, 2, 3])
        .unwrap_err();
    assert!(matches!(err, CommunicationError::TlvDecode(_)));
}

#[test]
fn request_offsets_follow_the_collection() {
    let rpc = InventoryTlvRpc;
    assert!(matches!(
        rpc.request(5),
        gateway_sp_comms::message::MgsRequest::Inventory { device_index: 5 }
    ));
}
