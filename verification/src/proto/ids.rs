//! Identifier layout.
//!
//! ```text
//!   0x200 | (kind << 4) | node_id     process data out of a node   (5-bit kind, 4-bit node)
//!   0x580 + node_id                   response from a node
//!   0x600 + node_id                   request to a node
//!   0x700 + node_id                   heartbeat
//! ```
use crate::index::{Id, Per};
use vstd::prelude::*;

verus! {

/// Base of the process data range.
pub const PDO_BASE: u16 = 0x200;

/// Response of the object server, plus node id.
pub const SDO_RESPONSE_BASE: u16 = 0x580;

/// Request to the object server, plus node id.
pub const SDO_REQUEST_BASE: u16 = 0x600;

/// Heartbeat, plus node id.
pub const HEARTBEAT_BASE: u16 = 0x700;

pub const NODE_ID_MASK: u16 = 0x000F;

/// Number of broadcast kinds: the length of [`TPDO_KINDS`] and of the interval table at 0x3040.
pub const NUM_TPDO_KINDS: usize = 18;

/// The fixed broadcast table. A kind's position is the `kind` field of its identifier and its
/// index into the interval table at 0x3040.
#[derive(Clone, Copy, PartialEq, Eq, Debug, Structural)]
pub enum TpdoKind {
    ValveCommanded,
    ValveTarget,
    ValveMeasured,
    /// Also carries output ownership and the relief state.
    ValveStatus,
    /// Digital and PWM outputs merged into one frame.
    HcoState,
    RawBus0A,
    RawBus0B,
    RawBus1A,
    RawBus1B,
    Sensor0,
    Sensor1,
    /// Channels 8..12.
    Sensor3,
    SensorUnits,
    /// Presence bitmaps and the sweep counter.
    I2cScan,
    RailVoltage,
    RailCurrent,
    Status,
    ValveCurrent,
}

/// All kinds, in position order. The broadcaster walks this.
pub const TPDO_KINDS: [TpdoKind; 18] = [
    TpdoKind::ValveCommanded,
    TpdoKind::ValveTarget,
    TpdoKind::ValveMeasured,
    TpdoKind::ValveStatus,
    TpdoKind::HcoState,
    TpdoKind::RawBus0A,
    TpdoKind::RawBus0B,
    TpdoKind::RawBus1A,
    TpdoKind::RawBus1B,
    TpdoKind::Sensor0,
    TpdoKind::Sensor1,
    TpdoKind::Sensor3,
    TpdoKind::SensorUnits,
    TpdoKind::I2cScan,
    TpdoKind::RailVoltage,
    TpdoKind::RailCurrent,
    TpdoKind::Status,
    TpdoKind::ValveCurrent,
];

/// The identifier of a process data frame.
pub open spec fn pdo_cob_id(kind: TpdoKind, node_id: int) -> int {
    0x200 + 16 * kind.position() + node_id % 16
}

impl TpdoKind {
    pub const COUNT: usize = 18;

    /// The identifier this kind is broadcast on for a given node.
    pub fn cob_id(self, node_id: u8) -> (r: u16)
        ensures
            r == pdo_cob_id(self, node_id as int),
    {
        let kind: u16 = self as u16;
        let node: u16 = node_id as u16;
        assert(0x200 | (kind << 4) | (node & 0xF) == 0x200 + 16 * kind + node % 16) by (bit_vector)
            requires
                kind < 32,
        ;
        PDO_BASE | (kind << 4) | (node & NODE_ID_MASK)
    }

    /// The kind for a given [`decode_pdo`] index.
    pub fn from_index(index: u8) -> (r: Option<Self>)
        ensures
            r is Some <==> index < 18,
            r matches Some(kind) ==> kind.position() == index,
    {
        if index < 18 {
            Some(TPDO_KINDS[index as usize])
        } else {
            None
        }
    }
}

impl Id for TpdoKind {
    const COUNT: usize = 18;

    open spec fn size() -> nat {
        18
    }

    open spec fn position(self) -> int {
        self as int
    }

    open spec fn nth(i: int) -> Self {
        TPDO_KINDS[i]
    }

    proof fn position_in_range(self) {
    }

    proof fn nth_inverts_position(self) {
    }

    proof fn position_inverts_nth(i: int) {
    }

    fn index(self) -> usize {
        self as usize
    }

    fn from_index(index: usize) -> Option<Self> {
        if index < 18 {
            Some(TPDO_KINDS[index])
        } else {
            None
        }
    }
}

/// An array with one entry per [`TpdoKind`]: object 0x3040.
pub type PerTpdoKind<T> = Per<TpdoKind, T, 18>;

/// Splits a process data identifier into node and kind index; `None` outside the process data
/// range. Pair with [`TpdoKind::from_index`] and [`crate::proto::TpdoFrame::decode`].
pub fn decode_pdo(cob_id: u16) -> (r: Option<(u8, u8)>)
    ensures
        r is Some <==> 0x200 <= cob_id < 0x400,
        r matches Some((node, kind)) ==> node < 16 && kind < 32 && cob_id == 0x200 + 16 * kind
            + node,
{
    if cob_id < PDO_BASE || cob_id >= PDO_BASE + 0x200 {
        return None;
    }
    let offset: u16 = (cob_id - PDO_BASE) as u16;
    assert(cob_id & 0xF == cob_id % 16) by (bit_vector);
    assert(offset >> 4 == offset / 16) by (bit_vector);
    Some(((cob_id & NODE_ID_MASK) as u8, (offset >> 4) as u8))
}

/// An identifier splits back into the node and the kind it was built from, so no two nodes and no
/// two kinds share one.
pub proof fn identifiers_round_trip(kind: TpdoKind, node_id: u8, node: u8, index: u8)
    requires
        node_id < 16,
        node < 16,
        pdo_cob_id(kind, node_id as int) == 0x200 + 16 * index + node,
    ensures
        node == node_id,
        index == kind.position(),
{
}

/// Process data stays inside its own range, clear of every response, request and heartbeat.
pub proof fn process_data_stays_below_the_servers(kind: TpdoKind, node_id: int)
    requires
        node_id >= 0,
    ensures
        PDO_BASE <= pdo_cob_id(kind, node_id) < PDO_BASE + 0x200,
        pdo_cob_id(kind, node_id) < SDO_RESPONSE_BASE,
{
    kind.position_in_range();
}

/// The fields of an identifier stand in its bits: the node in the lowest four, the kind in the five
/// above, in the order of the table, and the process data range above those.
pub proof fn an_identifier_is_its_fields(kind: TpdoKind, node_id: u8)
    ensures
        pdo_cob_id(kind, node_id as int) % 16 == node_id % 16,
        pdo_cob_id(kind, node_id as int) / 512 == 1,
        TPDO_KINDS@[pdo_cob_id(kind, node_id as int) / 16 % 32] == kind,
{
    kind.position_in_range();
    kind.nth_inverts_position();
    let at = kind.position();
    let id = pdo_cob_id(kind, node_id as int);
    assert(id / 16 == 32 + at);
}

} // verus!
