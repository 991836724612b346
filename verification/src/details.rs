//! The component-details query: port status and measurement records.
//!
//! Two record tags are known. A port status record's body is carried
//! through as its raw bytes: its internal structure belongs to the wire
//! layer, and nothing here reads it. A measurement record is a fixed
//! header — name length, kind, value bits — followed by the UTF-8 name,
//! validated against the header. Unknown tags are skipped and logged.

use crate::error::CommunicationError;
use crate::error::ResponseKind;
use crate::error::TlvPaginationError;
use crate::message::MgsRequest;
use crate::message::SpResponse;
use crate::paginator::TlvRpc;
use crate::text::bytes_to_string;
use crate::tlv::Tag;
use crate::types::SpComponent;
use crate::types::TlvPage;
use vstd::bytes::spec_u32_from_le_bytes;
use vstd::bytes::u32_from_le_bytes;
use vstd::prelude::*;
use vstd::slice::slice_subrange;
use vstd::slice::slice_to_vec;
use vstd::utf8::decode_utf8;
use vstd::utf8::valid_utf8;

verus! {

/// The record tag of a port status record (`"PRT0"`).
pub open spec fn spec_port_status_tag() -> Tag {
    Tag { b0: 80u8, b1: 82u8, b2: 84u8, b3: 48u8 }
}

/// The record tag of a port status record (`"PRT0"`).
pub fn port_status_tag() -> (t: Tag)
    ensures
        t == spec_port_status_tag(),
{
    Tag { b0: 80, b1: 82, b2: 84, b3: 48 }
}

/// The record tag of a measurement record (`"MEA0"`).
pub open spec fn spec_measurement_tag() -> Tag {
    Tag { b0: 77u8, b1: 69u8, b2: 65u8, b3: 48u8 }
}

/// The record tag of a measurement record (`"MEA0"`).
pub fn measurement_tag() -> (t: Tag)
    ensures
        t == spec_measurement_tag(),
{
    Tag { b0: 77, b1: 69, b2: 65, b3: 48 }
}

/// Byte width of the fixed part of a measurement record: a little-endian
/// `u32` name length, a kind byte, and the measured value's four raw
/// bytes.
pub const MEASUREMENT_HEADER_LEN: usize = 9;

/// What a measurement measures.
#[derive(Clone, Copy, Debug, PartialEq, Eq, Structural)]
pub enum MeasurementKind {
    Temperature,
    Power,
    Current,
    Voltage,
    InputCurrent,
    InputVoltage,
    Speed,
}

/// One measurement reported for a component. The measured value is held
/// as the raw bits of its wire encoding.
#[derive(Clone, Debug, PartialEq, Eq)]
pub struct Measurement {
    pub name: String,
    pub kind: MeasurementKind,
    pub value_bits: u32,
}

/// One detail record of a component.
#[derive(Clone, Debug, PartialEq, Eq)]
pub enum ComponentDetails {
    /// A port status record, carried as its raw bytes.
    PortStatus(Vec<u8>),
    Measurement(Measurement),
}

/// The mathematical content of a detail record.
pub ghost enum ComponentDetailsView {
    PortStatus(Seq<u8>),
    Measurement { name: Seq<char>, kind: MeasurementKind, value_bits: u32 },
}

impl View for ComponentDetails {
    type V = ComponentDetailsView;

    open spec fn view(&self) -> ComponentDetailsView {
        match self {
            ComponentDetails::PortStatus(raw) => ComponentDetailsView::PortStatus(raw@),
            ComponentDetails::Measurement(m) => ComponentDetailsView::Measurement {
                name: m.name@,
                kind: m.kind,
                value_bits: m.value_bits,
            },
        }
    }
}

/// The detail records of one component.
#[derive(Clone, Debug, PartialEq, Eq)]
pub struct SpComponentDetails {
    pub entries: Vec<ComponentDetails>,
}

/// A measurement kind from its wire byte.
pub open spec fn spec_kind_from_byte(b: u8) -> Option<MeasurementKind> {
    if b == 0 {
        Some(MeasurementKind::Temperature)
    } else if b == 1 {
        Some(MeasurementKind::Power)
    } else if b == 2 {
        Some(MeasurementKind::Current)
    } else if b == 3 {
        Some(MeasurementKind::Voltage)
    } else if b == 4 {
        Some(MeasurementKind::InputCurrent)
    } else if b == 5 {
        Some(MeasurementKind::InputVoltage)
    } else if b == 6 {
        Some(MeasurementKind::Speed)
    } else {
        None
    }
}

/// Decodes a measurement kind byte.
pub fn kind_from_byte(b: u8) -> (r: Option<MeasurementKind>)
    ensures
        r == spec_kind_from_byte(b),
{
    if b == 0 {
        Some(MeasurementKind::Temperature)
    } else if b == 1 {
        Some(MeasurementKind::Power)
    } else if b == 2 {
        Some(MeasurementKind::Current)
    } else if b == 3 {
        Some(MeasurementKind::Voltage)
    } else if b == 4 {
        Some(MeasurementKind::InputCurrent)
    } else if b == 5 {
        Some(MeasurementKind::InputVoltage)
    } else if b == 6 {
        Some(MeasurementKind::Speed)
    } else {
        None
    }
}

/// What a measurement record's value denotes: the measurement, or
/// exactly which way it is malformed.
pub open spec fn spec_parse_measurement_record(value: Seq<u8>) -> Result<
    Option<ComponentDetailsView>,
    CommunicationError,
> {
    if value.len() < MEASUREMENT_HEADER_LEN {
        Err(CommunicationError::TlvDeserialize { tag: spec_measurement_tag() })
    } else {
        let name_length = spec_u32_from_le_bytes(value.subrange(0, 4)) as int;
        let value_bits = spec_u32_from_le_bytes(value.subrange(5, 9));
        match spec_kind_from_byte(value[4]) {
            Option::None => Err(CommunicationError::TlvDeserialize { tag: spec_measurement_tag() }),
            Option::Some(kind) => {
                let leftover = value.skip(MEASUREMENT_HEADER_LEN as int);
                if leftover.len() != name_length {
                    Err(
                        CommunicationError::TlvPagination {
                            reason: TlvPaginationError::LengthMismatch,
                        },
                    )
                } else if !valid_utf8(leftover) {
                    Err(
                        CommunicationError::TlvPagination {
                            reason: TlvPaginationError::NotUtf8MeasurementName,
                        },
                    )
                } else {
                    Ok(
                        Some(
                            ComponentDetailsView::Measurement {
                                name: decode_utf8(leftover),
                                kind,
                                value_bits,
                            },
                        ),
                    )
                }
            },
        }
    }
}

/// Parses one measurement record exactly as
/// [`spec_parse_measurement_record`] says.
pub fn parse_measurement_record(value: &[u8]) -> (r: Result<
    Option<ComponentDetails>,
    CommunicationError,
>)
    ensures
        crate::paginator::parse_result_view(r) == spec_parse_measurement_record(value@),
{
    if value.len() < MEASUREMENT_HEADER_LEN {
        return Err(CommunicationError::TlvDeserialize { tag: measurement_tag() });
    }
    let name_length32 = u32_from_le_bytes(slice_subrange(value, 0, 4));
    let value_bits = u32_from_le_bytes(slice_subrange(value, 5, 9));
    let kind = match kind_from_byte(value[4]) {
        Some(k) => k,
        None => {
            return Err(CommunicationError::TlvDeserialize { tag: measurement_tag() });
        },
    };
    let leftover_len: usize = value.len() - MEASUREMENT_HEADER_LEN;
    if leftover_len as u64 != name_length32 as u64 {
        return Err(
            CommunicationError::TlvPagination { reason: TlvPaginationError::LengthMismatch },
        );
    }
    let leftover = slice_to_vec(slice_subrange(value, MEASUREMENT_HEADER_LEN, value.len()));
    proof {
        assert(leftover@ =~= value@.skip(MEASUREMENT_HEADER_LEN as int));
    }
    let name = match bytes_to_string(leftover) {
        Some(s) => s,
        None => {
            return Err(
                CommunicationError::TlvPagination {
                    reason: TlvPaginationError::NotUtf8MeasurementName,
                },
            );
        },
    };
    Ok(Some(ComponentDetails::Measurement(Measurement { name, kind, value_bits })))
}

/// The component-details query for one component, as a paginated TLV
/// query.
pub struct ComponentDetailsTlvRpc {
    pub component: SpComponent,
}

impl TlvRpc for ComponentDetailsTlvRpc {
    type Item = ComponentDetails;

    open spec fn spec_request(&self, offset: u32) -> MgsRequest {
        MgsRequest::ComponentDetails { component: self.component, offset }
    }

    open spec fn spec_parse_response(&self, response: SpResponse) -> Result<
        TlvPage,
        CommunicationError,
    > {
        match response {
            SpResponse::ComponentDetails(page) => Ok(page),
            _ => Err(
                CommunicationError::BadResponseType {
                    expected: ResponseKind::ComponentDetails,
                    got: response.spec_kind(),
                },
            ),
        }
    }

    open spec fn spec_parse_tag_value(&self, tag: Tag, value: Seq<u8>) -> Result<
        Option<ComponentDetailsView>,
        CommunicationError,
    > {
        if tag == spec_port_status_tag() {
            Ok(Some(ComponentDetailsView::PortStatus(value)))
        } else if tag == spec_measurement_tag() {
            spec_parse_measurement_record(value)
        } else {
            Ok(None)
        }
    }

    fn request(&self, offset: u32) -> (r: MgsRequest) {
        MgsRequest::ComponentDetails { component: self.component, offset }
    }

    fn parse_response(&self, response: SpResponse) -> (r: Result<TlvPage, CommunicationError>) {
        match response {
            SpResponse::ComponentDetails(page) => Ok(page),
            other => Err(
                CommunicationError::BadResponseType {
                    expected: ResponseKind::ComponentDetails,
                    got: other.kind(),
                },
            ),
        }
    }

    fn parse_tag_value(&self, tag: Tag, value: &[u8]) -> (r: Result<
        Option<ComponentDetails>,
        CommunicationError,
    >) {
        if tag == port_status_tag() {
            Ok(Some(ComponentDetails::PortStatus(slice_to_vec(value))))
        } else if tag == measurement_tag() {
            parse_measurement_record(value)
        } else {
            Ok(None)
        }
    }
}

} // verus!
