//! Wire protocol of the bus: identifiers, the object dictionary's constants, and broadcast
//! frames.
//!
//! At most 16 nodes share the bus, one of which (id 1 by default) is the master and makes every
//! decision. Objects are read and written with expedited transfers of at most four bytes;
//! process data is broadcast in frames of exactly eight little-endian bytes.
use vstd::prelude::*;

pub mod ids;
pub mod od;
pub mod tpdo;
pub mod valve;

pub use ids::{decode_pdo, TpdoKind, TPDO_KINDS};
pub use tpdo::{HcoOutput, TpdoFrame, NUM_PROTOCOL_SENSOR_SLOTS};
pub use valve::{is_unpowered, position_of, unpowered_at, POSITION_MASK, PROMILLE_MAX, UNPOWERED_FLAG};

verus! {

} // verus!
