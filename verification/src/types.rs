//! Plain data carried through the protocol core.
//!
//! Values that the wire protocol packs into richer shapes elsewhere are held
//! here as plain integers and byte arrays, so that every rule about them can
//! be stated and checked.

use vstd::prelude::*;

verus! {

broadcast use vstd::array::group_array_axioms;

/// Identifier of a component accessible through an SP: a fixed-width,
/// NUL-padded name.
#[derive(Clone, Copy, Debug, Eq)]
pub struct SpComponent {
    pub id: [u8; 16],
}

impl PartialEq for SpComponent {
    fn eq(&self, other: &SpComponent) -> (r: bool) {
        bytes16_eq(&self.id, &other.id)
    }
}

impl vstd::std_specs::cmp::PartialEqSpecImpl for SpComponent {
    open spec fn obeys_eq_spec() -> bool {
        true
    }

    open spec fn eq_spec(&self, other: &SpComponent) -> bool {
        self.id@ == other.id@
    }
}

/// Compares two sixteen-byte identifiers.
pub fn bytes16_eq(a: &[u8; 16], b: &[u8; 16]) -> (r: bool)
    ensures
        r == (a@ == b@),
{
    let mut i: usize = 0;
    while i < 16
        invariant
            0 <= i <= 16,
            forall|j: int| 0 <= j < i ==> a@[j] == b@[j],
        decreases 16 - i,
    {
        if a[i] != b[i] {
            assert(a@[i as int] != b@[i as int]);
            return false;
        }
        i += 1;
    }
    assert(a@ =~= b@);
    true
}

/// The sixteen id bytes that name the SP itself: `"sp"` padded with NULs.
pub open spec fn sp_itself_id() -> Seq<u8> {
    seq![115u8, 112u8, 0u8, 0u8, 0u8, 0u8, 0u8, 0u8, 0u8, 0u8, 0u8, 0u8, 0u8, 0u8, 0u8, 0u8]
}

/// The sixteen id bytes that name the SP's root of trust: `"rot"` padded
/// with NULs.
pub open spec fn rot_id() -> Seq<u8> {
    seq![114u8, 111u8, 116u8, 0u8, 0u8, 0u8, 0u8, 0u8, 0u8, 0u8, 0u8, 0u8, 0u8, 0u8, 0u8, 0u8]
}

impl SpComponent {
    pub open spec fn is_sp_itself(self) -> bool {
        self.id@ == sp_itself_id()
    }

    pub open spec fn is_rot(self) -> bool {
        self.id@ == rot_id()
    }

    /// The component id for the SP itself.
    pub fn sp_itself() -> (c: SpComponent)
        ensures
            c.is_sp_itself(),
    {
        let id: [u8; 16] = [115u8, 112, 0, 0, 0, 0, 0, 0, 0, 0, 0, 0, 0, 0, 0, 0];
        assert(id@ =~= sp_itself_id());
        SpComponent { id }
    }

    /// The component id for the SP's root of trust.
    pub fn rot() -> (c: SpComponent)
        ensures
            c.is_rot(),
    {
        let id: [u8; 16] = [114u8, 111, 116, 0, 0, 0, 0, 0, 0, 0, 0, 0, 0, 0, 0, 0];
        assert(id@ =~= rot_id());
        SpComponent { id }
    }
}

/// One of the two management network ports an SP can be reached on.
#[derive(Clone, Copy, Debug, PartialEq, Eq, Structural)]
pub enum SpPort {
    One,
    Two,
}

/// An SP's IPv6 socket address, held as plain values.
#[derive(Clone, Copy, Debug, Eq)]
pub struct SpAddr {
    pub octets: [u8; 16],
    pub port: u16,
    pub scope_id: u32,
}

impl PartialEq for SpAddr {
    fn eq(&self, other: &SpAddr) -> (r: bool) {
        bytes16_eq(&self.octets, &other.octets) && self.port == other.port && self.scope_id
            == other.scope_id
    }
}

impl vstd::std_specs::cmp::PartialEqSpecImpl for SpAddr {
    open spec fn obeys_eq_spec() -> bool {
        true
    }

    open spec fn eq_spec(&self, other: &SpAddr) -> bool {
        self.octets@ == other.octets@ && self.port == other.port && self.scope_id
            == other.scope_id
    }
}

/// The most recent host phase-2 image request relayed by the SP.
///
/// `received_at_ms` is the wall-clock receipt time in milliseconds, as
/// observed by the driver that handed the request in.
#[derive(Clone, Copy, Debug, PartialEq, Eq)]
pub struct HostPhase2Request {
    pub hash: [u8; 32],
    pub offset: u64,
    pub data_sent: u64,
    pub received_at_ms: u64,
}

/// Identifier of an update in progress, as sixteen raw bytes.
#[derive(Clone, Copy, Debug, PartialEq, Eq)]
pub struct UpdateId {
    pub bytes: [u8; 16],
}

/// Host power states.
#[derive(Clone, Copy, Debug, PartialEq, Eq, Structural)]
pub enum PowerState {
    A0,
    A1,
    A2,
}

/// Commands an ignition controller can send to a target.
#[derive(Clone, Copy, Debug, PartialEq, Eq, Structural)]
pub enum IgnitionCommand {
    PowerOn,
    PowerOff,
    PowerReset,
}

/// Selects which transceiver of an ignition target a request applies to.
#[derive(Clone, Copy, Debug, PartialEq, Eq, Structural)]
pub enum TransceiverSelect {
    Controller,
    TargetLink0,
    TargetLink1,
}

/// Sled startup options, held as a plain bit set.
#[derive(Clone, Copy, Debug, PartialEq, Eq, Structural)]
pub struct StartupOptions {
    pub bits: u64,
}

/// Capabilities advertised for a device in the SP's inventory, as a plain
/// bit set.
#[derive(Clone, Copy, Debug, PartialEq, Eq, Structural)]
pub struct DeviceCapabilities {
    pub bits: u32,
}

/// Presence of a device in the SP's inventory.
#[derive(Clone, Copy, Debug, PartialEq, Eq, Structural)]
pub enum DevicePresence {
    Present,
    NotPresent,
    Failed,
    Unavailable,
    Timeout,
    Error,
}

/// Header of one page of a paginated TLV query: which record the page starts
/// at, and how many records the SP claims to have in total.
#[derive(Clone, Copy, Debug, PartialEq, Eq, Structural)]
pub struct TlvPage {
    pub offset: u32,
    pub total: u32,
}

} // verus!
