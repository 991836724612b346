//! The inventory query: device description records.
//!
//! An inventory record's value is a fixed-width header — component id,
//! the byte lengths of two strings, capability bits, presence — followed
//! by the concatenated UTF-8 bytes of the device and description strings.
//! The record is rejected if the data length disagrees with the header or
//! either segment is not UTF-8. Encoding and decoding are specified to
//! the byte, and proved to round-trip.

use crate::error::CommunicationError;
use crate::error::ResponseKind;
use crate::error::TlvPaginationError;
use crate::message::MgsRequest;
use crate::message::SpResponse;
use crate::paginator::TlvRpc;
use crate::text::bytes_to_string;
use crate::text::push_str_bytes;
use crate::text::read_bytes16;
use crate::tlv::push_bytes;
use crate::tlv::Tag;
use crate::types::DeviceCapabilities;
use crate::types::DevicePresence;
use crate::types::SpComponent;
use crate::types::TlvPage;
use vstd::bytes::lemma_auto_spec_u32_to_from_le_bytes;
use vstd::bytes::spec_u32_from_le_bytes;
use vstd::bytes::spec_u32_to_le_bytes;
use vstd::bytes::u32_from_le_bytes;
use vstd::bytes::u32_to_le_bytes;
use vstd::prelude::*;
use vstd::slice::slice_subrange;
use vstd::slice::slice_to_vec;
use vstd::utf8::decode_utf8;
use vstd::utf8::encode_utf8;
use vstd::utf8::valid_utf8;

verus! {

broadcast use vstd::utf8::encode_utf8_valid_utf8, vstd::utf8::encode_utf8_decode_utf8;

/// The record tag of a device description header.
pub open spec fn spec_device_tag() -> Tag {
    Tag { b0: 68u8, b1: 69u8, b2: 86u8, b3: 48u8 }
}

/// The record tag of a device description header (`"DEV0"`).
pub fn device_tag() -> (t: Tag)
    ensures
        t == spec_device_tag(),
{
    Tag { b0: 68, b1: 69, b2: 86, b3: 48 }
}

/// Byte width of the fixed part of a device record: sixteen id bytes,
/// three little-endian `u32`s, one presence byte.
pub const DEVICE_HEADER_LEN: usize = 29;

/// One device in the SP's inventory.
#[derive(Clone, Debug, PartialEq, Eq)]
pub struct SpDevice {
    pub component: SpComponent,
    pub device: String,
    pub description: String,
    pub capabilities: DeviceCapabilities,
    pub presence: DevicePresence,
}

/// The mathematical content of a device record.
pub ghost struct SpDeviceView {
    pub component: Seq<u8>,
    pub device: Seq<char>,
    pub description: Seq<char>,
    pub capabilities: u32,
    pub presence: DevicePresence,
}

impl View for SpDevice {
    type V = SpDeviceView;

    open spec fn view(&self) -> SpDeviceView {
        SpDeviceView {
            component: self.component.id@,
            device: self.device@,
            description: self.description@,
            capabilities: self.capabilities.bits,
            presence: self.presence,
        }
    }
}

/// The inventory of an SP: all devices it reported.
#[derive(Clone, Debug, PartialEq, Eq)]
pub struct SpInventory {
    pub devices: Vec<SpDevice>,
}

/// Presence as its wire byte.
pub open spec fn spec_presence_to_byte(p: DevicePresence) -> u8 {
    match p {
        DevicePresence::Present => 0u8,
        DevicePresence::NotPresent => 1u8,
        DevicePresence::Failed => 2u8,
        DevicePresence::Unavailable => 3u8,
        DevicePresence::Timeout => 4u8,
        DevicePresence::Error => 5u8,
    }
}

/// Presence from its wire byte; anything else is a malformed record.
pub open spec fn spec_presence_from_byte(b: u8) -> Option<DevicePresence> {
    if b == 0 {
        Some(DevicePresence::Present)
    } else if b == 1 {
        Some(DevicePresence::NotPresent)
    } else if b == 2 {
        Some(DevicePresence::Failed)
    } else if b == 3 {
        Some(DevicePresence::Unavailable)
    } else if b == 4 {
        Some(DevicePresence::Timeout)
    } else if b == 5 {
        Some(DevicePresence::Error)
    } else {
        None
    }
}

/// Decodes a presence byte.
pub fn presence_from_byte(b: u8) -> (r: Option<DevicePresence>)
    ensures
        r == spec_presence_from_byte(b),
{
    if b == 0 {
        Some(DevicePresence::Present)
    } else if b == 1 {
        Some(DevicePresence::NotPresent)
    } else if b == 2 {
        Some(DevicePresence::Failed)
    } else if b == 3 {
        Some(DevicePresence::Unavailable)
    } else if b == 4 {
        Some(DevicePresence::Timeout)
    } else if b == 5 {
        Some(DevicePresence::Error)
    } else {
        None
    }
}

/// What a device record's value denotes: the parsed device, or exactly
/// which way it is malformed.
pub open spec fn spec_parse_device_record(value: Seq<u8>) -> Result<
    Option<SpDeviceView>,
    CommunicationError,
> {
    if value.len() < DEVICE_HEADER_LEN {
        Err(CommunicationError::TlvDeserialize { tag: spec_device_tag() })
    } else {
        let device_len = spec_u32_from_le_bytes(value.subrange(16, 20)) as int;
        let description_len = spec_u32_from_le_bytes(value.subrange(20, 24)) as int;
        let capabilities = spec_u32_from_le_bytes(value.subrange(24, 28));
        match spec_presence_from_byte(value[28]) {
            Option::None => Err(CommunicationError::TlvDeserialize { tag: spec_device_tag() }),
            Option::Some(presence) => {
                let data = value.skip(DEVICE_HEADER_LEN as int);
                if data.len() != device_len + description_len {
                    Err(
                        CommunicationError::TlvPagination {
                            reason: TlvPaginationError::LengthMismatch,
                        },
                    )
                } else {
                    let device_bytes = data.subrange(0, device_len);
                    let description_bytes = data.subrange(device_len, data.len() as int);
                    if !valid_utf8(device_bytes) {
                        Err(
                            CommunicationError::TlvPagination {
                                reason: TlvPaginationError::NotUtf8Device,
                            },
                        )
                    } else if !valid_utf8(description_bytes) {
                        Err(
                            CommunicationError::TlvPagination {
                                reason: TlvPaginationError::NotUtf8Description,
                            },
                        )
                    } else {
                        Ok(
                            Some(
                                SpDeviceView {
                                    component: value.subrange(0, 16),
                                    device: decode_utf8(device_bytes),
                                    description: decode_utf8(description_bytes),
                                    capabilities,
                                    presence,
                                },
                            ),
                        )
                    }
                }
            },
        }
    }
}

/// Parses one device record exactly as [`spec_parse_device_record`] says.
pub fn parse_device_record(value: &[u8]) -> (r: Result<Option<SpDevice>, CommunicationError>)
    ensures
        crate::paginator::parse_result_view(r) == spec_parse_device_record(value@),
{
    if value.len() < DEVICE_HEADER_LEN {
        return Err(CommunicationError::TlvDeserialize { tag: device_tag() });
    }
    let id = read_bytes16(value, 0);
    let device_len32 = u32_from_le_bytes(slice_subrange(value, 16, 20));
    let description_len32 = u32_from_le_bytes(slice_subrange(value, 20, 24));
    let capabilities = u32_from_le_bytes(slice_subrange(value, 24, 28));
    let presence = match presence_from_byte(value[28]) {
        Some(p) => p,
        None => {
            return Err(CommunicationError::TlvDeserialize { tag: device_tag() });
        },
    };
    let data_len: usize = value.len() - DEVICE_HEADER_LEN;
    let ghost data = value@.skip(DEVICE_HEADER_LEN as int);
    if data_len as u64 != device_len32 as u64 + description_len32 as u64 {
        return Err(
            CommunicationError::TlvPagination { reason: TlvPaginationError::LengthMismatch },
        );
    }
    let device_len = device_len32 as usize;
    let device_bytes = slice_to_vec(
        slice_subrange(value, DEVICE_HEADER_LEN, DEVICE_HEADER_LEN + device_len),
    );
    let description_bytes = slice_to_vec(
        slice_subrange(value, DEVICE_HEADER_LEN + device_len, value.len()),
    );
    proof {
        assert(device_bytes@ =~= data.subrange(0, device_len32 as int));
        assert(description_bytes@ =~= data.subrange(device_len32 as int, data.len() as int));
    }
    let device = match bytes_to_string(device_bytes) {
        Some(s) => s,
        None => {
            return Err(
                CommunicationError::TlvPagination { reason: TlvPaginationError::NotUtf8Device },
            );
        },
    };
    let description = match bytes_to_string(description_bytes) {
        Some(s) => s,
        None => {
            return Err(
                CommunicationError::TlvPagination {
                    reason: TlvPaginationError::NotUtf8Description,
                },
            );
        },
    };
    let d = SpDevice {
        component: SpComponent { id },
        device,
        description,
        capabilities: DeviceCapabilities { bits: capabilities },
        presence,
    };
    proof {
        assert(d@.component =~= value@.subrange(0, 16));
    }
    Ok(Some(d))
}

/// The exact encoding of a device record's value.
pub open spec fn spec_encode_device_record(v: SpDeviceView) -> Seq<u8> {
    v.component + spec_u32_to_le_bytes(encode_utf8(v.device).len() as u32) + spec_u32_to_le_bytes(
        encode_utf8(v.description).len() as u32,
    ) + spec_u32_to_le_bytes(v.capabilities) + seq![spec_presence_to_byte(v.presence)]
        + encode_utf8(v.device) + encode_utf8(v.description)
}

/// Appends the encoding of one device record's value to `out`.
pub fn encode_device_record(d: &SpDevice, out: &mut Vec<u8>)
    requires
        encode_utf8(d.device@).len() <= u32::MAX,
        encode_utf8(d.description@).len() <= u32::MAX,
    ensures
        final(out)@ == old(out)@ + spec_encode_device_record(d@),
{
    push_bytes(out, d.component.id.as_slice());
    let device_bytes = d.device.as_str().as_bytes();
    let description_bytes = d.description.as_str().as_bytes();
    let len_bytes = u32_to_le_bytes(device_bytes.len() as u32);
    push_bytes(out, len_bytes.as_slice());
    let len_bytes = u32_to_le_bytes(description_bytes.len() as u32);
    push_bytes(out, len_bytes.as_slice());
    let len_bytes = u32_to_le_bytes(d.capabilities.bits);
    push_bytes(out, len_bytes.as_slice());
    let presence_byte: u8 = match d.presence {
        DevicePresence::Present => 0,
        DevicePresence::NotPresent => 1,
        DevicePresence::Failed => 2,
        DevicePresence::Unavailable => 3,
        DevicePresence::Timeout => 4,
        DevicePresence::Error => 5,
    };
    out.push(presence_byte);
    push_str_bytes(out, d.device.as_str());
    push_str_bytes(out, d.description.as_str());
    proof {
        assert(out@ =~= old(out)@ + spec_encode_device_record(d@));
    }
}

/// A well-formed device record decodes back to the record itself: the
/// round trip over encoding, header checks, segment split and UTF-8.
pub proof fn lemma_device_record_round_trip(v: SpDeviceView)
    requires
        v.component.len() == 16,
        encode_utf8(v.device).len() <= u32::MAX,
        encode_utf8(v.description).len() <= u32::MAX,
    ensures
        spec_parse_device_record(spec_encode_device_record(v)) == Ok::<
            Option<SpDeviceView>,
            CommunicationError,
        >(Some(v)),
{
    lemma_auto_spec_u32_to_from_le_bytes();
    let bytes = spec_encode_device_record(v);
    let dl = encode_utf8(v.device).len() as int;
    let sl = encode_utf8(v.description).len() as int;
    assert(bytes.len() == 29 + dl + sl);
    assert(bytes.subrange(16, 20) =~= spec_u32_to_le_bytes(encode_utf8(v.device).len() as u32));
    assert(bytes.subrange(20, 24) =~= spec_u32_to_le_bytes(
        encode_utf8(v.description).len() as u32,
    ));
    assert(bytes.subrange(24, 28) =~= spec_u32_to_le_bytes(v.capabilities));
    assert(bytes[28] == spec_presence_to_byte(v.presence));
    assert(spec_presence_from_byte(spec_presence_to_byte(v.presence)) == Some(v.presence));
    let data = bytes.skip(29);
    assert(data.len() == dl + sl);
    assert(data.subrange(0, dl) =~= encode_utf8(v.device));
    assert(data.subrange(dl, data.len() as int) =~= encode_utf8(v.description));
    assert(bytes.subrange(0, 16) =~= v.component);
    assert(valid_utf8(encode_utf8(v.device)));
    assert(decode_utf8(encode_utf8(v.device)) == v.device);
    assert(valid_utf8(encode_utf8(v.description)));
    assert(decode_utf8(encode_utf8(v.description)) == v.description);
}

/// A device record as the TLV triple carrying it.
pub open spec fn spec_device_triple(v: SpDeviceView) -> (Tag, Seq<u8>) {
    (spec_device_tag(), spec_encode_device_record(v))
}

/// A device list as the TLV triples of one page.
pub open spec fn spec_device_triples(devices: Seq<SpDeviceView>) -> Seq<(Tag, Seq<u8>)> {
    devices.map_values(|v: SpDeviceView| spec_device_triple(v))
}

/// A well-formed device record: its component id is sixteen bytes and
/// the whole record fits a TLV value.
pub open spec fn spec_device_wf(v: SpDeviceView) -> bool {
    &&& v.component.len() == 16
    &&& DEVICE_HEADER_LEN + encode_utf8(v.device).len() + encode_utf8(v.description).len()
        <= u32::MAX
}

proof fn lemma_absorb_devices(
    entries: Seq<SpDeviceView>,
    devices: Seq<SpDeviceView>,
    total: int,
)
    requires
        entries.len() + devices.len() <= total,
        forall|i: int| 0 <= i < devices.len() ==> spec_device_wf(#[trigger] devices[i]),
    ensures
        crate::paginator::spec_absorb(
            InventoryTlvRpc,
            entries,
            total,
            spec_device_triples(devices),
        ) == Ok::<Seq<SpDeviceView>, CommunicationError>(entries + devices),
    decreases devices.len(),
{
    let triples = spec_device_triples(devices);
    if devices.len() == 0 {
        assert(triples.len() == 0);
        assert(entries + devices =~= entries);
    } else {
        let v = devices[0];
        assert(triples[0] == spec_device_triple(v));
        lemma_device_record_round_trip(v);
        assert(InventoryTlvRpc.spec_parse_tag_value(spec_device_tag(), spec_encode_device_record(v))
            == Ok::<Option<SpDeviceView>, CommunicationError>(Some(v)));
        lemma_absorb_devices(entries.push(v), devices.drop_first(), total);
        assert(triples.drop_first() =~= spec_device_triples(devices.drop_first()));
        assert(entries.push(v) + devices.drop_first() =~= entries + devices);
    }
}

/// Law: an inventory page the SP serializes from well-formed device
/// records decodes back to exactly those records. The page declares the
/// device count as its total, carries the records as TLV triples, and
/// collecting it yields the same list, complete.
pub proof fn lemma_inventory_round_trip(devices: Seq<SpDeviceView>)
    requires
        devices.len() <= crate::paginator::TLV_RPC_TOTAL_ITEMS_DOS_LIMIT,
        forall|i: int| 0 <= i < devices.len() ==> spec_device_wf(#[trigger] devices[i]),
    ensures
        crate::paginator::spec_handle_page(
            InventoryTlvRpc,
            Seq::empty(),
            None,
            TlvPage { offset: 0, total: devices.len() as u32 },
            crate::tlv::spec_encode(spec_device_triples(devices)),
        ) == Ok::<(Seq<SpDeviceView>, u32, crate::paginator::PageStep), CommunicationError>(
            (devices, devices.len() as u32, crate::paginator::PageStep::Done),
        ),
{
    let triples = spec_device_triples(devices);
    assert forall|i: int| 0 <= i < triples.len() implies (#[trigger] triples[i]).1.len()
        <= u32::MAX by {
        lemma_auto_spec_u32_to_from_le_bytes();
        assert(triples[i] == spec_device_triple(devices[i]));
        assert(spec_device_wf(devices[i]));
        assert(spec_encode_device_record(devices[i]).len() == DEVICE_HEADER_LEN + encode_utf8(
            devices[i].device,
        ).len() + encode_utf8(devices[i].description).len());
    }
    crate::tlv::lemma_encode_decode(triples);
    lemma_absorb_devices(Seq::empty(), devices, devices.len() as int);
    assert(Seq::<SpDeviceView>::empty() + devices =~= devices);
}

/// The inventory as a paginated TLV query.
pub struct InventoryTlvRpc;

impl TlvRpc for InventoryTlvRpc {
    type Item = SpDevice;

    open spec fn spec_request(&self, offset: u32) -> MgsRequest {
        MgsRequest::Inventory { device_index: offset }
    }

    open spec fn spec_parse_response(&self, response: SpResponse) -> Result<
        TlvPage,
        CommunicationError,
    > {
        match response {
            SpResponse::Inventory(page) => Ok(page),
            _ => Err(
                CommunicationError::BadResponseType {
                    expected: ResponseKind::Inventory,
                    got: response.spec_kind(),
                },
            ),
        }
    }

    open spec fn spec_parse_tag_value(&self, tag: Tag, value: Seq<u8>) -> Result<
        Option<SpDeviceView>,
        CommunicationError,
    > {
        if tag == spec_device_tag() {
            spec_parse_device_record(value)
        } else {
            Ok(None)
        }
    }

    fn request(&self, offset: u32) -> (r: MgsRequest) {
        MgsRequest::Inventory { device_index: offset }
    }

    fn parse_response(&self, response: SpResponse) -> (r: Result<TlvPage, CommunicationError>) {
        match response {
            SpResponse::Inventory(page) => Ok(page),
            other => Err(
                CommunicationError::BadResponseType {
                    expected: ResponseKind::Inventory,
                    got: other.kind(),
                },
            ),
        }
    }

    fn parse_tag_value(&self, tag: Tag, value: &[u8]) -> (r: Result<
        Option<SpDevice>,
        CommunicationError,
    >) {
        if tag == device_tag() {
            parse_device_record(value)
        } else {
            Ok(None)
        }
    }
}

} // verus!
