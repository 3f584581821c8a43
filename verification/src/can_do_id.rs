//! Process data identifiers of the first protocol generation, and the quantities it carries.
use vstd::prelude::*;

verus! {

#[derive(Clone, Copy)]
pub struct DeciVolts(pub u8);

#[derive(Clone, Copy)]
pub struct DeciCelsius(pub i16);

#[derive(Clone, Copy)]
pub struct KiloPascals(pub u16);

#[derive(Clone, Copy)]
pub struct Promille(pub u16);

#[derive(Clone, Copy)]
pub struct SensorReading(pub i16);

/// What a process data frame holds. The order of the variants is the wire encoding.
#[derive(Clone, Copy, PartialEq, Eq, Debug, Structural)]
pub enum PdMessageKind {
    /// Four valve positions (promille open) as little-endian words.
    Valves,
    /// Four truth values as little-endian words.
    BinaryOutputs,
    /// Four pulse widths in microseconds as little-endian words.
    PwmUs,
    /// The first four raw measurements of bus 0.
    RawBus0a,
    /// The second four raw measurements of bus 0.
    RawBus0b,
    /// The first four raw measurements of bus 1.
    RawBus1a,
    /// The second four raw measurements of bus 1.
    RawBus1b,
    /// The first four processed sensor values: centicelsius or kilopascal.
    Sensor0,
    /// The second four processed sensor values.
    Sensor1,
    /// The third four processed sensor values.
    Sensor2,
}

/// The kind at a position of the encoding.
pub open spec fn kind_at(value: int) -> PdMessageKind {
    if value == 0 {
        PdMessageKind::Valves
    } else if value == 1 {
        PdMessageKind::BinaryOutputs
    } else if value == 2 {
        PdMessageKind::PwmUs
    } else if value == 3 {
        PdMessageKind::RawBus0a
    } else if value == 4 {
        PdMessageKind::RawBus0b
    } else if value == 5 {
        PdMessageKind::RawBus1a
    } else if value == 6 {
        PdMessageKind::RawBus1b
    } else if value == 7 {
        PdMessageKind::Sensor0
    } else if value == 8 {
        PdMessageKind::Sensor1
    } else {
        PdMessageKind::Sensor2
    }
}

impl vstd::std_specs::convert::TryFromSpecImpl<u8> for PdMessageKind {
    open spec fn obeys_try_from_spec() -> bool {
        true
    }

    open spec fn try_from_spec(value: u8) -> Result<Self, ()> {
        if value < 10 {
            Ok(kind_at(value as int))
        } else {
            Err(())
        }
    }
}

impl TryFrom<u8> for PdMessageKind {
    type Error = ();

    fn try_from(value: u8) -> Result<Self, ()> {
        match value {
            0 => Ok(PdMessageKind::Valves),
            1 => Ok(PdMessageKind::BinaryOutputs),
            2 => Ok(PdMessageKind::PwmUs),
            3 => Ok(PdMessageKind::RawBus0a),
            4 => Ok(PdMessageKind::RawBus0b),
            5 => Ok(PdMessageKind::RawBus1a),
            6 => Ok(PdMessageKind::RawBus1b),
            7 => Ok(PdMessageKind::Sensor0),
            8 => Ok(PdMessageKind::Sensor1),
            9 => Ok(PdMessageKind::Sensor2),
            _ => Err(()),
        }
    }
}

/// Who sends a process data frame, and what it holds.
#[derive(Clone, Copy, PartialEq, Eq, Debug, Structural)]
pub struct ProcessDataCanId {
    pub node_id: u8,
    pub kind: PdMessageKind,
}

impl vstd::std_specs::convert::FromSpecImpl<ProcessDataCanId> for u16 {
    open spec fn obeys_from_spec() -> bool {
        true
    }

    open spec fn from_spec(value: ProcessDataCanId) -> Self {
        (0x200 + 16 * (value.kind as int) + value.node_id % 16) as u16
    }
}

impl From<ProcessDataCanId> for u16 {
    fn from(value: ProcessDataCanId) -> Self {
        let node: u16 = value.node_id as u16;
        let kind: u16 = value.kind as u16;
        assert(((node & 0b1111) | ((kind << 4) & 0b1_1111_0000)) | 0x200 == 0x200 + 16 * kind + node
            % 16) by (bit_vector)
            requires
                kind < 10,
        ;
        ((node & 0b1111) | ((kind << 4) & 0b1_1111_0000)) | 0x200
    }
}

impl vstd::std_specs::convert::TryFromSpecImpl<u16> for ProcessDataCanId {
    open spec fn obeys_try_from_spec() -> bool {
        true
    }

    open spec fn try_from_spec(value: u16) -> Result<Self, ()> {
        if 0x200 <= value < 0x400 && value / 16 % 32 < 10 {
            Ok(
                ProcessDataCanId {
                    node_id: (value % 16) as u8,
                    kind: kind_at(value as int / 16 % 32),
                },
            )
        } else {
            Err(())
        }
    }
}

impl TryFrom<u16> for ProcessDataCanId {
    type Error = ();

    fn try_from(value: u16) -> Result<Self, ()> {
        if value < 0x200 || value >= 0x200 + 512 {
            return Err(());
        }
        assert((value >> 4) & 0b1_1111 == value / 16 % 32) by (bit_vector);
        assert(value & 0b1111 == value % 16) by (bit_vector);
        let identifier: u16 = (value >> 4) & 0b1_1111;
        match PdMessageKind::try_from(identifier as u8) {
            Ok(kind) => Ok(Self { node_id: (value & 0b1111) as u8, kind }),
            Err(_) => Err(()),
        }
    }
}

/// An identifier gives back the node and the kind it was built from, for every node that fits its
/// field, and every identifier that is accepted is the one its parts build.
pub proof fn process_data_ids_round_trip(id: ProcessDataCanId, value: u16)
    ensures
        id.node_id < 16 ==> <ProcessDataCanId as vstd::std_specs::convert::TryFromSpec<
            u16,
        >>::try_from_spec(
            <u16 as vstd::std_specs::convert::FromSpec<ProcessDataCanId>>::from_spec(id),
        ) == Ok::<ProcessDataCanId, ()>(id),
        <ProcessDataCanId as vstd::std_specs::convert::TryFromSpec<u16>>::try_from_spec(
            value,
        ) matches Ok(parsed) ==> <u16 as vstd::std_specs::convert::FromSpec<
            ProcessDataCanId,
        >>::from_spec(parsed) == value,
{
}

/// The kinds are numbered in the order of the encoding.
pub proof fn a_kind_stands_at_its_number(value: u8)
    requires
        value < 10,
    ensures
        kind_at(value as int) as int == value,
{
}

/// An identifier is 0x200, sixteen times the kind's number and the node, of which four bits fit; one
/// outside the range, or of a kind that there is not, is refused.
pub proof fn an_identifier_is_its_parts(id: ProcessDataCanId, value: u16)
    ensures
        ({
            let made = <u16 as vstd::std_specs::convert::FromSpec<ProcessDataCanId>>::from_spec(id);
            &&& made % 16 == id.node_id % 16
            &&& made / 16 == 32 + id.kind as int
        }),
        <ProcessDataCanId as vstd::std_specs::convert::TryFromSpec<u16>>::try_from_spec(value)
            == Err::<ProcessDataCanId, ()>(()) <==> value < 0x200 || value >= 0x200 + 160,
{
    let kind = id.kind as int;
    assert(0 <= kind < 10);
}

} // verus!
