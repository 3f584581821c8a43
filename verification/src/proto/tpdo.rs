//! Broadcast frame layouts: a typed value as the eight bytes that go on the bus, and those bytes
//! as a typed value.
//!
//! Every frame is a full eight bytes however much of it is meaningful, and everything is
//! little-endian, so a decoder can pull any field out by a fixed offset.
use crate::bytes::{bits16, byte_of, i16_from_bits, i16_to_bits, le16, le16_bytes, le16_of_bytes, le32, le32_bytes, le32_of_bytes, u16_from_le, u16_to_le, u32_from_le, u32_to_le};
use crate::proto::ids::TpdoKind;
use vstd::prelude::*;

verus! {

/// Number of sensor channels that the broadcast frames can carry: [`TpdoFrame::Sensor0`] (0..4),
/// [`TpdoFrame::Sensor1`] (4..8) and [`TpdoFrame::Sensor3`] (8..12).
pub const NUM_PROTOCOL_SENSOR_SLOTS: usize = 12;

/// One high current output's state, as packed into [`TpdoFrame::HcoState`].
///
/// `0x8000` and `0x0000` are sentinels rather than pulse widths, so a decoder can tell the two
/// levels and a pulse width apart with no extra flag byte.
#[derive(Clone, Copy, PartialEq, Eq, Debug, Structural)]
pub enum HcoOutput {
    DigitalOn,
    DigitalOff,
    Pwm(u16),
}

impl HcoOutput {
    const DIGITAL_ON: u16 = 0x8000;

    const DIGITAL_OFF: u16 = 0x0000;

    /// The word that stands for this output.
    pub open spec fn word(self) -> u16 {
        match self {
            HcoOutput::DigitalOn => 0x8000,
            HcoOutput::DigitalOff => 0,
            HcoOutput::Pwm(us) => us,
        }
    }

    /// The output that a word stands for.
    pub open spec fn of_word(v: u16) -> Self {
        if v == 0x8000 {
            HcoOutput::DigitalOn
        } else if v == 0 {
            HcoOutput::DigitalOff
        } else {
            HcoOutput::Pwm(v)
        }
    }

    /// A pulse width that is neither of the two sentinels.
    pub open spec fn is_legal(self) -> bool {
        self matches HcoOutput::Pwm(us) ==> us != 0 && us != 0x8000
    }

    pub fn to_u16(self) -> (r: u16)
        ensures
            r == self.word(),
    {
        match self {
            Self::DigitalOn => Self::DIGITAL_ON,
            Self::DigitalOff => Self::DIGITAL_OFF,
            Self::Pwm(us) => us,
        }
    }

    pub fn from_u16(v: u16) -> (r: Self)
        ensures
            r == Self::of_word(v),
    {
        if v == Self::DIGITAL_ON {
            Self::DigitalOn
        } else if v == Self::DIGITAL_OFF {
            Self::DigitalOff
        } else {
            Self::Pwm(v)
        }
    }
}

/// Every output that is no sentinel in disguise survives being sent, and every word is the word of
/// the output it stands for.
pub proof fn hco_outputs_round_trip(output: HcoOutput, word: u16)
    ensures
        output.is_legal() ==> HcoOutput::of_word(output.word()) == output,
        HcoOutput::of_word(word).word() == word,
        HcoOutput::of_word(word).is_legal(),
{
}

/// One kind's typed payload.
#[derive(Clone, Copy, PartialEq, Eq, Debug)]
pub enum TpdoFrame {
    /// Mirrors 0x2010, one entry per valve.
    ValveCommanded([u16; 4]),
    /// Mirrors 0x2011, one entry per valve.
    ValveTarget([u16; 4]),
    /// Mirrors 0x2012, one entry per valve.
    ValveMeasured([u16; 4]),
    /// `status` mirrors 0x2013, `hco_owner` mirrors 0x2022, `relief_state` mirrors 0x2015. The
    /// first two are packed four bits per entry; the last three bytes are padding.
    ValveStatus { status: [u8; 4], hco_owner: [u8; 4], relief_state: u8 },
    /// Digital and PWM outputs in one frame. Mirrors 0x2020/0x2021.
    HcoState([HcoOutput; 4]),
    /// A window of 0x2000 (bus 0): amplifiers 0..4.
    RawBus0A([u16; 4]),
    /// A window of 0x2000 (bus 0): amplifiers 4..8.
    RawBus0B([u16; 4]),
    /// A window of 0x2001 (bus 1): amplifiers 0..4.
    RawBus1A([u16; 4]),
    /// A window of 0x2001 (bus 1): amplifiers 4..8.
    RawBus1B([u16; 4]),
    /// A window of 0x2004 (calibrated values): channels 0..4.
    Sensor0([i16; 4]),
    /// A window of 0x2004 (calibrated values): channels 4..8.
    Sensor1([i16; 4]),
    /// A window of 0x2004 (calibrated values): channels 8..12.
    Sensor3([i16; 4]),
    /// Mirrors 0x2005: the unit code of each channel, two bits each, in the first three bytes.
    SensorUnits([u8; 12]),
    /// `present` mirrors 0x2002, `sweeps` mirrors 0x2003 (its low 16 bits). The last two bytes
    /// are padding.
    I2cScan { present: [u16; 2], sweeps: u16 },
    /// The logic, output 1+2 and output 3+4 rail voltages (0x2041). The last two bytes are
    /// padding.
    RailVoltage([u16; 3]),
    /// The logic, output 1+2 and output 3+4 rail currents (0x2040). The last two bytes are
    /// padding.
    RailCurrent([u16; 3]),
    /// `link_state` mirrors 0x2032, `raw_debug` mirrors 0x2031, `ms_since_heartbeat` mirrors
    /// 0x2033; bit i of `stalled_mask` says that valve i is stalled.
    Status { link_state: u8, raw_debug: bool, stalled_mask: u8, ms_since_heartbeat: u32 },
    /// Mirrors 0x2014, one entry per valve.
    ValveCurrent([u16; 4]),
}

/// The words of eight bytes.
pub open spec fn words_of(bytes: Seq<u8>) -> Seq<u16> {
    Seq::new(4, |i: int| le16(bytes[2 * i], bytes[2 * i + 1]) as u16)
}

/// The eight bytes of four words.
pub open spec fn bytes_of(words: Seq<u16>) -> Seq<u8> {
    Seq::new(8, |i: int| byte_of(words[i / 2] as int, i % 2))
}

/// Signed numbers as the words with the same bits.
pub open spec fn words_of_signed(values: Seq<i16>) -> Seq<u16> {
    values.map_values(|v: i16| bits16(v) as u16)
}

/// Two four-bit values in one byte, the first in the low half.
pub open spec fn nibble_pair(lo: u8, hi: u8) -> u8 {
    lo | (hi << 4)
}

/// Four two-bit values in one byte, the first in the low bits.
pub open spec fn two_bit_quad(values: Seq<u8>, at: int) -> u8 {
    (values[at] % 4 + 4 * (values[at + 1] % 4) + 16 * (values[at + 2] % 4) + 64 * (values[at + 3]
        % 4)) as u8
}

/// The two-bit value at a position of a packed sequence.
pub open spec fn two_bit_at(bytes: Seq<u8>, i: int) -> u8 {
    if i % 4 == 0 {
        (bytes[i / 4] % 4) as u8
    } else if i % 4 == 1 {
        (bytes[i / 4] / 4 % 4) as u8
    } else if i % 4 == 2 {
        (bytes[i / 4] / 16 % 4) as u8
    } else {
        (bytes[i / 4] / 64) as u8
    }
}

impl TpdoFrame {
    /// The kind whose payload this is.
    pub open spec fn spec_kind(self) -> TpdoKind {
        match self {
            TpdoFrame::ValveCommanded(_) => TpdoKind::ValveCommanded,
            TpdoFrame::ValveTarget(_) => TpdoKind::ValveTarget,
            TpdoFrame::ValveMeasured(_) => TpdoKind::ValveMeasured,
            TpdoFrame::ValveStatus { .. } => TpdoKind::ValveStatus,
            TpdoFrame::HcoState(_) => TpdoKind::HcoState,
            TpdoFrame::RawBus0A(_) => TpdoKind::RawBus0A,
            TpdoFrame::RawBus0B(_) => TpdoKind::RawBus0B,
            TpdoFrame::RawBus1A(_) => TpdoKind::RawBus1A,
            TpdoFrame::RawBus1B(_) => TpdoKind::RawBus1B,
            TpdoFrame::Sensor0(_) => TpdoKind::Sensor0,
            TpdoFrame::Sensor1(_) => TpdoKind::Sensor1,
            TpdoFrame::Sensor3(_) => TpdoKind::Sensor3,
            TpdoFrame::SensorUnits(_) => TpdoKind::SensorUnits,
            TpdoFrame::I2cScan { .. } => TpdoKind::I2cScan,
            TpdoFrame::RailVoltage(_) => TpdoKind::RailVoltage,
            TpdoFrame::RailCurrent(_) => TpdoKind::RailCurrent,
            TpdoFrame::Status { .. } => TpdoKind::Status,
            TpdoFrame::ValveCurrent(_) => TpdoKind::ValveCurrent,
        }
    }

    /// The eight bytes of a frame.
    pub open spec fn layout(self) -> Seq<u8> {
        match self {
            TpdoFrame::ValveCommanded(v) => bytes_of(v@),
            TpdoFrame::ValveTarget(v) => bytes_of(v@),
            TpdoFrame::ValveMeasured(v) => bytes_of(v@),
            TpdoFrame::ValveCurrent(v) => bytes_of(v@),
            TpdoFrame::RawBus0A(v) => bytes_of(v@),
            TpdoFrame::RawBus0B(v) => bytes_of(v@),
            TpdoFrame::RawBus1A(v) => bytes_of(v@),
            TpdoFrame::RawBus1B(v) => bytes_of(v@),
            TpdoFrame::Sensor0(v) => bytes_of(words_of_signed(v@)),
            TpdoFrame::Sensor1(v) => bytes_of(words_of_signed(v@)),
            TpdoFrame::Sensor3(v) => bytes_of(words_of_signed(v@)),
            TpdoFrame::HcoState(v) => bytes_of(v@.map_values(|o: HcoOutput| o.word())),
            TpdoFrame::ValveStatus { status, hco_owner, relief_state } => seq![
                nibble_pair(status@[0], status@[1]),
                nibble_pair(status@[2], status@[3]),
                nibble_pair(hco_owner@[0], hco_owner@[1]),
                nibble_pair(hco_owner@[2], hco_owner@[3]),
                relief_state,
                0,
                0,
                0,
            ],
            TpdoFrame::SensorUnits(v) => seq![
                two_bit_quad(v@, 0),
                two_bit_quad(v@, 4),
                two_bit_quad(v@, 8),
                0,
                0,
                0,
                0,
                0,
            ],
            TpdoFrame::I2cScan { present, sweeps } => bytes_of(
                present@.push(sweeps).push(0),
            ),
            TpdoFrame::RailVoltage(v) => bytes_of(v@.push(0)),
            TpdoFrame::RailCurrent(v) => bytes_of(v@.push(0)),
            TpdoFrame::Status { link_state, raw_debug, stalled_mask, ms_since_heartbeat } => seq![
                link_state,
                if raw_debug {
                    1u8
                } else {
                    0u8
                },
                stalled_mask,
                0,
                byte_of(ms_since_heartbeat as int, 0),
                byte_of(ms_since_heartbeat as int, 1),
                byte_of(ms_since_heartbeat as int, 2),
                byte_of(ms_since_heartbeat as int, 3),
            ],
        }
    }

    /// Whether this is the frame that eight bytes stand for, read as a frame of its kind.
    pub open spec fn reads_as(self, bytes: Seq<u8>) -> bool {
        match self {
            TpdoFrame::ValveCommanded(v) => v@ == words_of(bytes),
            TpdoFrame::ValveTarget(v) => v@ == words_of(bytes),
            TpdoFrame::ValveMeasured(v) => v@ == words_of(bytes),
            TpdoFrame::ValveCurrent(v) => v@ == words_of(bytes),
            TpdoFrame::RawBus0A(v) => v@ == words_of(bytes),
            TpdoFrame::RawBus0B(v) => v@ == words_of(bytes),
            TpdoFrame::RawBus1A(v) => v@ == words_of(bytes),
            TpdoFrame::RawBus1B(v) => v@ == words_of(bytes),
            TpdoFrame::Sensor0(v) => words_of_signed(v@) == words_of(bytes),
            TpdoFrame::Sensor1(v) => words_of_signed(v@) == words_of(bytes),
            TpdoFrame::Sensor3(v) => words_of_signed(v@) == words_of(bytes),
            TpdoFrame::HcoState(v) => v@ == words_of(bytes).map_values(
                |w: u16| HcoOutput::of_word(w),
            ),
            TpdoFrame::ValveStatus { status, hco_owner, relief_state } => {
                &&& status@ == Seq::new(
                    4,
                    |i: int|
                        if i % 2 == 0 {
                            (bytes[i / 2] % 16) as u8
                        } else {
                            (bytes[i / 2] / 16) as u8
                        },
                )
                &&& hco_owner@ == Seq::new(
                    4,
                    |i: int|
                        if i % 2 == 0 {
                            (bytes[2 + i / 2] % 16) as u8
                        } else {
                            (bytes[2 + i / 2] / 16) as u8
                        },
                )
                &&& relief_state == bytes[4]
            },
            TpdoFrame::SensorUnits(v) => v@ == Seq::new(12, |i: int| two_bit_at(bytes, i)),
            TpdoFrame::I2cScan { present, sweeps } => {
                &&& present@ == words_of(bytes).take(2)
                &&& sweeps == words_of(bytes)[2]
            },
            TpdoFrame::RailVoltage(v) => v@ == words_of(bytes).take(3),
            TpdoFrame::RailCurrent(v) => v@ == words_of(bytes).take(3),
            TpdoFrame::Status { link_state, raw_debug, stalled_mask, ms_since_heartbeat } => {
                &&& link_state == bytes[0]
                &&& raw_debug == (bytes[1] != 0)
                &&& stalled_mask == bytes[2]
                &&& ms_since_heartbeat == le32(bytes[4], bytes[5], bytes[6], bytes[7])
            },
        }
    }

    /// Whether every entry fits the room that the layout gives it: four bits per status and owner,
    /// two bits per unit code, and no pulse width that is a sentinel.
    pub open spec fn fits_the_layout(self) -> bool {
        match self {
            TpdoFrame::ValveStatus { status, hco_owner, .. } => {
                &&& forall|i: int| 0 <= i < 4 ==> #[trigger] status@[i] < 16
                &&& forall|i: int| 0 <= i < 4 ==> #[trigger] hco_owner@[i] < 16
            },
            TpdoFrame::SensorUnits(v) => forall|i: int| 0 <= i < 12 ==> #[trigger] v@[i] < 4,
            TpdoFrame::HcoState(v) => forall|i: int| 0 <= i < 4 ==> (#[trigger] v@[i]).is_legal(),
            _ => true,
        }
    }

    /// Which kind this payload belongs on the bus as.
    pub fn kind(&self) -> (r: TpdoKind)
        ensures
            r == self.spec_kind(),
    {
        match self {
            Self::ValveCommanded(_) => TpdoKind::ValveCommanded,
            Self::ValveTarget(_) => TpdoKind::ValveTarget,
            Self::ValveMeasured(_) => TpdoKind::ValveMeasured,
            Self::ValveStatus { .. } => TpdoKind::ValveStatus,
            Self::HcoState(_) => TpdoKind::HcoState,
            Self::RawBus0A(_) => TpdoKind::RawBus0A,
            Self::RawBus0B(_) => TpdoKind::RawBus0B,
            Self::RawBus1A(_) => TpdoKind::RawBus1A,
            Self::RawBus1B(_) => TpdoKind::RawBus1B,
            Self::Sensor0(_) => TpdoKind::Sensor0,
            Self::Sensor1(_) => TpdoKind::Sensor1,
            Self::Sensor3(_) => TpdoKind::Sensor3,
            Self::SensorUnits(_) => TpdoKind::SensorUnits,
            Self::I2cScan { .. } => TpdoKind::I2cScan,
            Self::RailVoltage(_) => TpdoKind::RailVoltage,
            Self::RailCurrent(_) => TpdoKind::RailCurrent,
            Self::Status { .. } => TpdoKind::Status,
            Self::ValveCurrent(_) => TpdoKind::ValveCurrent,
        }
    }

    /// Serializes to the eight bytes that go on the bus.
    pub fn encode(&self) -> (r: [u8; 8])
        ensures
            r@ == self.layout(),
    {
        match *self {
            Self::ValveCommanded(v) => u16x4_to_bytes(v),
            Self::ValveTarget(v) => u16x4_to_bytes(v),
            Self::ValveMeasured(v) => u16x4_to_bytes(v),
            Self::ValveCurrent(v) => u16x4_to_bytes(v),
            Self::RawBus0A(v) => u16x4_to_bytes(v),
            Self::RawBus0B(v) => u16x4_to_bytes(v),
            Self::RawBus1A(v) => u16x4_to_bytes(v),
            Self::RawBus1B(v) => u16x4_to_bytes(v),
            Self::Sensor0(v) => i16x4_to_bytes(v),
            Self::Sensor1(v) => i16x4_to_bytes(v),
            Self::Sensor3(v) => i16x4_to_bytes(v),
            Self::HcoState(v) => {
                let words = [v[0].to_u16(), v[1].to_u16(), v[2].to_u16(), v[3].to_u16()];
                assert(words@ =~= v@.map_values(|o: HcoOutput| o.word()));
                u16x4_to_bytes(words)
            },
            Self::ValveStatus { status, hco_owner, relief_state } => {
                let s = pack_nibbles(status);
                let o = pack_nibbles(hco_owner);
                let out = [s[0], s[1], o[0], o[1], relief_state, 0, 0, 0];
                assert(out@ =~= self.layout());
                out
            },
            Self::SensorUnits(units) => {
                let u = pack_2bit(units);
                let out = [u[0], u[1], u[2], 0, 0, 0, 0, 0];
                assert(out@ =~= self.layout());
                out
            },
            Self::I2cScan { present, sweeps } => {
                let words = [present[0], present[1], sweeps, 0];
                assert(words@ =~= present@.push(sweeps).push(0));
                u16x4_to_bytes(words)
            },
            Self::RailVoltage(v) => {
                let words = [v[0], v[1], v[2], 0];
                assert(words@ =~= v@.push(0));
                u16x4_to_bytes(words)
            },
            Self::RailCurrent(v) => {
                let words = [v[0], v[1], v[2], 0];
                assert(words@ =~= v@.push(0));
                u16x4_to_bytes(words)
            },
            Self::Status { link_state, raw_debug, stalled_mask, ms_since_heartbeat } => {
                let ms = u32_to_le(ms_since_heartbeat);
                let debug: u8 = if raw_debug {
                    1
                } else {
                    0
                };
                let out = [link_state, debug, stalled_mask, 0, ms[0], ms[1], ms[2], ms[3]];
                assert(out@ =~= self.layout());
                out
            },
        }
    }

    /// Parses a captured frame's bytes according to `kind`.
    pub fn decode(kind: TpdoKind, bytes: [u8; 8]) -> (r: Self)
        ensures
            r.spec_kind() == kind,
            r.reads_as(bytes@),
    {
        match kind {
            TpdoKind::ValveCommanded => Self::ValveCommanded(u16x4_from_bytes(bytes)),
            TpdoKind::ValveTarget => Self::ValveTarget(u16x4_from_bytes(bytes)),
            TpdoKind::ValveMeasured => Self::ValveMeasured(u16x4_from_bytes(bytes)),
            TpdoKind::ValveCurrent => Self::ValveCurrent(u16x4_from_bytes(bytes)),
            TpdoKind::RawBus0A => Self::RawBus0A(u16x4_from_bytes(bytes)),
            TpdoKind::RawBus0B => Self::RawBus0B(u16x4_from_bytes(bytes)),
            TpdoKind::RawBus1A => Self::RawBus1A(u16x4_from_bytes(bytes)),
            TpdoKind::RawBus1B => Self::RawBus1B(u16x4_from_bytes(bytes)),
            TpdoKind::Sensor0 => Self::Sensor0(i16x4_from_bytes(bytes)),
            TpdoKind::Sensor1 => Self::Sensor1(i16x4_from_bytes(bytes)),
            TpdoKind::Sensor3 => Self::Sensor3(i16x4_from_bytes(bytes)),
            TpdoKind::HcoState => {
                let w = u16x4_from_bytes(bytes);
                let outputs = [
                    HcoOutput::from_u16(w[0]),
                    HcoOutput::from_u16(w[1]),
                    HcoOutput::from_u16(w[2]),
                    HcoOutput::from_u16(w[3]),
                ];
                assert(outputs@ =~= w@.map_values(|w: u16| HcoOutput::of_word(w)));
                Self::HcoState(outputs)
            },
            TpdoKind::ValveStatus => {
                let status = unpack_nibbles([bytes[0], bytes[1]]);
                let hco_owner = unpack_nibbles([bytes[2], bytes[3]]);
                let r = Self::ValveStatus { status, hco_owner, relief_state: bytes[4] };
                assert(status@ =~= Seq::new(
                    4,
                    |i: int|
                        if i % 2 == 0 {
                            (bytes@[i / 2] % 16) as u8
                        } else {
                            (bytes@[i / 2] / 16) as u8
                        },
                ));
                assert(hco_owner@ =~= Seq::new(
                    4,
                    |i: int|
                        if i % 2 == 0 {
                            (bytes@[2 + i / 2] % 16) as u8
                        } else {
                            (bytes@[2 + i / 2] / 16) as u8
                        },
                ));
                r
            },
            TpdoKind::SensorUnits => {
                let units = unpack_2bit([bytes[0], bytes[1], bytes[2]]);
                assert(units@ =~= Seq::new(12, |i: int| two_bit_at(bytes@, i)));
                Self::SensorUnits(units)
            },
            TpdoKind::I2cScan => {
                let words = u16x4_from_bytes(bytes);
                let present = [words[0], words[1]];
                assert(present@ =~= words@.take(2));
                Self::I2cScan { present, sweeps: words[2] }
            },
            TpdoKind::RailVoltage => {
                let words = u16x4_from_bytes(bytes);
                let rails = [words[0], words[1], words[2]];
                assert(rails@ =~= words@.take(3));
                Self::RailVoltage(rails)
            },
            TpdoKind::RailCurrent => {
                let words = u16x4_from_bytes(bytes);
                let rails = [words[0], words[1], words[2]];
                assert(rails@ =~= words@.take(3));
                Self::RailCurrent(rails)
            },
            TpdoKind::Status => Self::Status {
                link_state: bytes[0],
                raw_debug: bytes[1] != 0,
                stalled_mask: bytes[2],
                ms_since_heartbeat: u32_from_le(bytes[4], bytes[5], bytes[6], bytes[7]),
            },
        }
    }
}

/// Four little-endian `u16`s: the shape most kinds use.
pub fn u16x4_to_bytes(values: [u16; 4]) -> (r: [u8; 8])
    ensures
        r@ == bytes_of(values@),
{
    let a = u16_to_le(values[0]);
    let b = u16_to_le(values[1]);
    let c = u16_to_le(values[2]);
    let d = u16_to_le(values[3]);
    let r = [a[0], a[1], b[0], b[1], c[0], c[1], d[0], d[1]];
    assert(r@ =~= bytes_of(values@));
    r
}

/// The inverse of [`u16x4_to_bytes`].
pub fn u16x4_from_bytes(bytes: [u8; 8]) -> (r: [u16; 4])
    ensures
        r@ == words_of(bytes@),
{
    let r = [
        u16_from_le(bytes[0], bytes[1]),
        u16_from_le(bytes[2], bytes[3]),
        u16_from_le(bytes[4], bytes[5]),
        u16_from_le(bytes[6], bytes[7]),
    ];
    assert(r@ =~= words_of(bytes@));
    r
}

/// Four little-endian `i16`s, with the same bits as [`u16x4_to_bytes`] gives.
pub fn i16x4_to_bytes(values: [i16; 4]) -> (r: [u8; 8])
    ensures
        r@ == bytes_of(words_of_signed(values@)),
{
    let words = [
        i16_to_bits(values[0]),
        i16_to_bits(values[1]),
        i16_to_bits(values[2]),
        i16_to_bits(values[3]),
    ];
    assert(words@ =~= words_of_signed(values@));
    u16x4_to_bytes(words)
}

/// The inverse of [`i16x4_to_bytes`].
pub fn i16x4_from_bytes(bytes: [u8; 8]) -> (r: [i16; 4])
    ensures
        words_of_signed(r@) == words_of(bytes@),
{
    let words = u16x4_from_bytes(bytes);
    let r = [
        i16_from_bits(words[0]),
        i16_from_bits(words[1]),
        i16_from_bits(words[2]),
        i16_from_bits(words[3]),
    ];
    assert(words_of_signed(r@) =~= words_of(bytes@));
    r
}

/// Four 4-bit values, low half first, into two bytes. A value of 16 or more spills into its
/// neighbour, so callers keep each one below that.
fn pack_nibbles(values: [u8; 4]) -> (r: [u8; 2])
    ensures
        r@ == seq![nibble_pair(values@[0], values@[1]), nibble_pair(values@[2], values@[3])],
{
    let r = [values[0] | (values[1] << 4), values[2] | (values[3] << 4)];
    assert(r@ =~= seq![nibble_pair(values@[0], values@[1]), nibble_pair(values@[2], values@[3])]);
    r
}

/// The inverse of [`pack_nibbles`].
fn unpack_nibbles(bytes: [u8; 2]) -> (r: [u8; 4])
    ensures
        r@ == seq![
            (bytes@[0] % 16) as u8,
            (bytes@[0] / 16) as u8,
            (bytes@[1] % 16) as u8,
            (bytes@[1] / 16) as u8,
        ],
{
    let b0: u8 = bytes[0];
    let b1: u8 = bytes[1];
    assert(b0 & 0xF == b0 % 16 && b0 >> 4 == b0 / 16) by (bit_vector);
    assert(b1 & 0xF == b1 % 16 && b1 >> 4 == b1 / 16) by (bit_vector);
    let r = [b0 & 0xF, b0 >> 4, b1 & 0xF, b1 >> 4];
    assert(r@ =~= seq![
        (bytes@[0] % 16) as u8,
        (bytes@[0] / 16) as u8,
        (bytes@[1] % 16) as u8,
        (bytes@[1] / 16) as u8,
    ]);
    r
}

/// Four 2-bit values, low bits first, into one byte. Only the low two bits of each count.
fn pack_quad(a: u8, b: u8, c: u8, d: u8) -> (r: u8)
    ensures
        r == a % 4 + 4 * (b % 4) + 16 * (c % 4) + 64 * (d % 4),
{
    a % 4 + 4 * (b % 4) + 16 * (c % 4) + 64 * (d % 4)
}

/// Twelve 2-bit values, low bits first, into three bytes.
fn pack_2bit(values: [u8; 12]) -> (r: [u8; 3])
    ensures
        r@ == seq![two_bit_quad(values@, 0), two_bit_quad(values@, 4), two_bit_quad(values@, 8)],
{
    let r = [
        pack_quad(values[0], values[1], values[2], values[3]),
        pack_quad(values[4], values[5], values[6], values[7]),
        pack_quad(values[8], values[9], values[10], values[11]),
    ];
    assert(r@ =~= seq![
        two_bit_quad(values@, 0),
        two_bit_quad(values@, 4),
        two_bit_quad(values@, 8),
    ]);
    r
}

/// The inverse of [`pack_2bit`].
fn unpack_2bit(bytes: [u8; 3]) -> (r: [u8; 12])
    ensures
        forall|i: int| 0 <= i < 12 ==> r@[i] == two_bit_at(bytes@, i),
{
    let mut out = [0u8;12];
    let mut i: usize = 0;
    while i < 12
        invariant
            i <= 12,
            forall|j: int| 0 <= j < i ==> out@[j] == two_bit_at(bytes@, j),
        decreases 12 - i,
    {
        let byte: u8 = bytes[i / 4];
        out[i] = match i % 4 {
            0 => byte % 4,
            1 => byte / 4 % 4,
            2 => byte / 16 % 4,
            _ => byte / 64,
        };
        i += 1;
    }
    out
}

/// Four words survive the trip through their bytes.
proof fn words_survive(words: Seq<u16>)
    requires
        words.len() == 4,
    ensures
        words_of(bytes_of(words)) == words,
{
    assert forall|i: int| 0 <= i < 4 implies words_of(bytes_of(words))[i] == words[i] by {
        le16_of_bytes(words[i] as int);
    }
    assert(words_of(bytes_of(words)) =~= words);
}

/// Eight bytes survive the trip through their words.
proof fn bytes_survive(bytes: Seq<u8>)
    requires
        bytes.len() == 8,
    ensures
        bytes_of(words_of(bytes)) == bytes,
{
    assert forall|i: int| 0 <= i < 8 implies bytes_of(words_of(bytes))[i] == bytes[i] by {
        le16_bytes(bytes[2 * (i / 2)], bytes[2 * (i / 2) + 1]);
    }
    assert(bytes_of(words_of(bytes)) =~= bytes);
}

/// Signed values are told apart by their words.
proof fn signed_by_words(a: Seq<i16>, b: Seq<i16>)
    requires
        words_of_signed(a) == words_of_signed(b),
    ensures
        a == b,
{
    assert(a.len() == words_of_signed(a).len());
    assert(b.len() == words_of_signed(b).len());
    assert forall|i: int| 0 <= i < a.len() implies a[i] == b[i] by {
        let x: i16 = a[i];
        let y: i16 = b[i];
        assert(words_of_signed(a)[i] == bits16(x) as u16);
        assert(words_of_signed(b)[i] == bits16(y) as u16);
        assert(0 <= bits16(x) < 65536 && 0 <= bits16(y) < 65536);
    }
    assert(a =~= b);
}

/// Two values below 16 come back out of the byte they share.
proof fn nibbles_survive(lo: u8, hi: u8)
    requires
        lo < 16,
        hi < 16,
    ensures
        nibble_pair(lo, hi) == lo + 16 * hi,
        nibble_pair(lo, hi) % 16 == lo,
        nibble_pair(lo, hi) / 16 == hi,
{
    assert(lo | (hi << 4) == lo + 16 * hi) by (bit_vector)
        requires
            lo < 16,
            hi < 16,
    ;
}

/// Four values below 4 come back out of the byte they share.
proof fn quad_survives(a: u8, b: u8, c: u8, d: u8)
    requires
        a < 4,
        b < 4,
        c < 4,
        d < 4,
    ensures
        ({
            let byte = a + 4 * b + 16 * c + 64 * d;
            &&& byte < 256
            &&& byte % 4 == a
            &&& byte / 4 % 4 == b
            &&& byte / 16 % 4 == c
            &&& byte / 64 == d
        }),
{
}

/// Four unit codes below 4 come back out of the byte they share.
proof fn units_survive(v: Seq<u8>, at: int)
    requires
        v.len() == 12,
        forall|j: int| 0 <= j < 12 ==> #[trigger] v[j] < 4,
        at == 0 || at == 4 || at == 8,
    ensures
        two_bit_quad(v, at) % 4 == v[at],
        two_bit_quad(v, at) / 4 % 4 == v[at + 1],
        two_bit_quad(v, at) / 16 % 4 == v[at + 2],
        two_bit_quad(v, at) / 64 == v[at + 3],
{
    quad_survives(v[at], v[at + 1], v[at + 2], v[at + 3]);
}

/// A byte is rebuilt from its four two-bit values.
proof fn quad_rebuilds(byte: u8)
    ensures
        byte % 4 + 4 * (byte / 4 % 4) + 16 * (byte / 16 % 4) + 64 * (byte / 64) == byte,
        byte / 64 < 4,
{
    assert(byte % 4 + 4 * (byte / 4 % 4) + 16 * (byte / 16 % 4) + 64 * (byte / 64) == byte
        && byte / 64 < 4) by (bit_vector);
}

/// Two word payloads that read the same bytes are the same payload.
proof fn same_words(v: [u16; 4], w: [u16; 4])
    requires
        w@ == words_of(bytes_of(v@)),
    ensures
        v == w,
{
    words_survive(v@);
    assert(v =~= w);
}

/// Two signed payloads that read the same bytes are the same payload.
proof fn same_signed(v: [i16; 4], w: [i16; 4])
    requires
        words_of_signed(w@) == words_of(bytes_of(words_of_signed(v@))),
    ensures
        v == w,
{
    words_survive(words_of_signed(v@));
    signed_by_words(v@, w@);
    assert(v =~= w);
}

/// Two rail payloads that read the same bytes are the same payload.
proof fn same_rails(v: [u16; 3], w: [u16; 3])
    requires
        w@ == words_of(bytes_of(v@.push(0))).take(3),
    ensures
        v == w,
{
    words_survive(v@.push(0));
    assert(v =~= w);
}

proof fn same_outputs(v: [HcoOutput; 4], w: [HcoOutput; 4])
    requires
        forall|i: int| 0 <= i < 4 ==> (#[trigger] v@[i]).is_legal(),
        w@ == words_of(bytes_of(v@.map_values(|o: HcoOutput| o.word()))).map_values(
            |w: u16| HcoOutput::of_word(w),
        ),
    ensures
        v == w,
{
    let words = v@.map_values(|o: HcoOutput| o.word());
    words_survive(words);
    assert forall|i: int| 0 <= i < 4 implies v@[i] == w@[i] by {
        assert(words[i] == v@[i].word());
        assert(v@[i].is_legal());
    }
    assert(v =~= w);
}

proof fn same_units(v: [u8; 12], w: [u8; 12])
    requires
        forall|i: int| 0 <= i < 12 ==> #[trigger] v@[i] < 4,
        w@ == Seq::new(12, |i: int| two_bit_at(TpdoFrame::SensorUnits(v).layout(), i)),
    ensures
        v == w,
{
    let bytes = TpdoFrame::SensorUnits(v).layout();
    units_survive(v@, 0);
    units_survive(v@, 4);
    units_survive(v@, 8);
    assert(bytes[0] == two_bit_quad(v@, 0));
    assert(bytes[1] == two_bit_quad(v@, 4));
    assert(bytes[2] == two_bit_quad(v@, 8));
    assert(w@[0] == v@[0] && w@[1] == v@[1] && w@[2] == v@[2] && w@[3] == v@[3]);
    assert(w@[4] == v@[4] && w@[5] == v@[5] && w@[6] == v@[6] && w@[7] == v@[7]);
    assert(w@[8] == v@[8] && w@[9] == v@[9] && w@[10] == v@[10] && w@[11] == v@[11]);
    assert(v =~= w);
}

proof fn same_valve_status(frame: TpdoFrame, decoded: TpdoFrame)
    requires
        frame is ValveStatus,
        decoded is ValveStatus,
        frame.fits_the_layout(),
        decoded.reads_as(frame.layout()),
    ensures
        decoded == frame,
{
    if let TpdoFrame::ValveStatus { status: s, hco_owner: o, relief_state: r } = frame {
        if let TpdoFrame::ValveStatus { status: s2, hco_owner: o2, relief_state: r2 } = decoded {
            nibbles_survive(s@[0], s@[1]);
            nibbles_survive(s@[2], s@[3]);
            nibbles_survive(o@[0], o@[1]);
            nibbles_survive(o@[2], o@[3]);
            let bytes = frame.layout();
            assert(bytes[0] == nibble_pair(s@[0], s@[1]));
            assert(bytes[1] == nibble_pair(s@[2], s@[3]));
            assert(bytes[2] == nibble_pair(o@[0], o@[1]));
            assert(bytes[3] == nibble_pair(o@[2], o@[3]));
            assert(s2@[0] == s@[0] && s2@[1] == s@[1] && s2@[2] == s@[2] && s2@[3] == s@[3]);
            assert(o2@[0] == o@[0] && o2@[1] == o@[1] && o2@[2] == o@[2] && o2@[3] == o@[3]);
            assert(s =~= s2);
            assert(o =~= o2);
        }
    }
}

proof fn same_scan(p: [u16; 2], n: u16, p2: [u16; 2], n2: u16)
    requires
        p2@ == words_of(bytes_of(p@.push(n).push(0))).take(2),
        n2 == words_of(bytes_of(p@.push(n).push(0)))[2],
    ensures
        p == p2,
        n == n2,
{
    words_survive(p@.push(n).push(0));
    assert(p =~= p2);
}

proof fn same_status(frame: TpdoFrame, decoded: TpdoFrame)
    requires
        frame is Status,
        decoded is Status,
        decoded.reads_as(frame.layout()),
    ensures
        decoded == frame,
{
    if let TpdoFrame::Status { ms_since_heartbeat, .. } = frame {
        le32_of_bytes(ms_since_heartbeat as int);
    }
}

/// Decoding is the inverse of encoding: the frame that a frame's own bytes stand for, read as its
/// own kind, is that frame, for every frame whose entries fit the room they are given.
pub proof fn every_frame_round_trips(frame: TpdoFrame, decoded: TpdoFrame)
    requires
        frame.fits_the_layout(),
        decoded.spec_kind() == frame.spec_kind(),
        decoded.reads_as(frame.layout()),
    ensures
        decoded == frame,
{
    match frame {
        TpdoFrame::ValveCommanded(v) => same_words(v, decoded->ValveCommanded_0),
        TpdoFrame::ValveTarget(v) => same_words(v, decoded->ValveTarget_0),
        TpdoFrame::ValveMeasured(v) => same_words(v, decoded->ValveMeasured_0),
        TpdoFrame::ValveCurrent(v) => same_words(v, decoded->ValveCurrent_0),
        TpdoFrame::RawBus0A(v) => same_words(v, decoded->RawBus0A_0),
        TpdoFrame::RawBus0B(v) => same_words(v, decoded->RawBus0B_0),
        TpdoFrame::RawBus1A(v) => same_words(v, decoded->RawBus1A_0),
        TpdoFrame::RawBus1B(v) => same_words(v, decoded->RawBus1B_0),
        TpdoFrame::Sensor0(v) => same_signed(v, decoded->Sensor0_0),
        TpdoFrame::Sensor1(v) => same_signed(v, decoded->Sensor1_0),
        TpdoFrame::Sensor3(v) => same_signed(v, decoded->Sensor3_0),
        TpdoFrame::HcoState(v) => same_outputs(v, decoded->HcoState_0),
        TpdoFrame::ValveStatus { .. } => same_valve_status(frame, decoded),
        TpdoFrame::SensorUnits(v) => same_units(v, decoded->SensorUnits_0),
        TpdoFrame::I2cScan { present, sweeps } => same_scan(
            present,
            sweeps,
            decoded->present,
            decoded->sweeps,
        ),
        TpdoFrame::RailVoltage(v) => same_rails(v, decoded->RailVoltage_0),
        TpdoFrame::RailCurrent(v) => same_rails(v, decoded->RailCurrent_0),
        TpdoFrame::Status { .. } => same_status(frame, decoded),
    }
}

/// Whether the bytes that a kind leaves unused are clear, and its truth values are written as 0
/// or 1.
pub open spec fn padding_is_clear(kind: TpdoKind, bytes: Seq<u8>) -> bool {
    match kind {
        TpdoKind::ValveStatus => bytes[5] == 0 && bytes[6] == 0 && bytes[7] == 0,
        TpdoKind::SensorUnits => forall|i: int| 3 <= i < 8 ==> #[trigger] bytes[i] == 0,
        TpdoKind::I2cScan | TpdoKind::RailVoltage | TpdoKind::RailCurrent => bytes[6] == 0
            && bytes[7] == 0,
        TpdoKind::Status => bytes[1] <= 1 && bytes[3] == 0,
        _ => true,
    }
}

proof fn valve_status_rebuilds(bytes: Seq<u8>, decoded: TpdoFrame)
    requires
        bytes.len() == 8,
        decoded is ValveStatus,
        padding_is_clear(TpdoKind::ValveStatus, bytes),
        decoded.reads_as(bytes),
    ensures
        decoded.layout() == bytes,
        decoded.fits_the_layout(),
{
    if let TpdoFrame::ValveStatus { status: s, hco_owner: o, relief_state } = decoded {
        assert(s@[0] == bytes[0] % 16 && s@[1] == bytes[0] / 16);
        assert(s@[2] == bytes[1] % 16 && s@[3] == bytes[1] / 16);
        assert(o@[0] == bytes[2] % 16 && o@[1] == bytes[2] / 16);
        assert(o@[2] == bytes[3] % 16 && o@[3] == bytes[3] / 16);
        nibbles_survive(s@[0], s@[1]);
        nibbles_survive(s@[2], s@[3]);
        nibbles_survive(o@[0], o@[1]);
        nibbles_survive(o@[2], o@[3]);
        assert(decoded.layout() =~= bytes);
    }
}

proof fn units_rebuild(bytes: Seq<u8>, v: [u8; 12])
    requires
        bytes.len() == 8,
        padding_is_clear(TpdoKind::SensorUnits, bytes),
        v@ == Seq::new(12, |i: int| two_bit_at(bytes, i)),
    ensures
        TpdoFrame::SensorUnits(v).layout() == bytes,
        TpdoFrame::SensorUnits(v).fits_the_layout(),
{
    quad_rebuilds(bytes[0]);
    quad_rebuilds(bytes[1]);
    quad_rebuilds(bytes[2]);
    assert(v@[0] == two_bit_at(bytes, 0) && v@[1] == two_bit_at(bytes, 1));
    assert(v@[2] == two_bit_at(bytes, 2) && v@[3] == two_bit_at(bytes, 3));
    assert(v@[4] == two_bit_at(bytes, 4) && v@[5] == two_bit_at(bytes, 5));
    assert(v@[6] == two_bit_at(bytes, 6) && v@[7] == two_bit_at(bytes, 7));
    assert(v@[8] == two_bit_at(bytes, 8) && v@[9] == two_bit_at(bytes, 9));
    assert(v@[10] == two_bit_at(bytes, 10) && v@[11] == two_bit_at(bytes, 11));
    assert(v@[0] < 4 && v@[1] < 4 && v@[2] < 4 && v@[3] < 4);
    assert(v@[4] < 4 && v@[5] < 4 && v@[6] < 4 && v@[7] < 4);
    assert(v@[8] < 4 && v@[9] < 4 && v@[10] < 4 && v@[11] < 4);
    assert(two_bit_quad(v@, 0) == bytes[0]);
    assert(two_bit_quad(v@, 4) == bytes[1]);
    assert(two_bit_quad(v@, 8) == bytes[2]);
    assert(TpdoFrame::SensorUnits(v).layout() =~= bytes);
}

proof fn status_rebuilds(bytes: Seq<u8>, decoded: TpdoFrame)
    requires
        bytes.len() == 8,
        decoded is Status,
        padding_is_clear(TpdoKind::Status, bytes),
        decoded.reads_as(bytes),
    ensures
        decoded.layout() == bytes,
{
    le32_bytes(bytes[4], bytes[5], bytes[6], bytes[7]);
    assert(decoded.layout() =~= bytes);
}

proof fn outputs_rebuild(bytes: Seq<u8>, v: [HcoOutput; 4])
    requires
        bytes.len() == 8,
        v@ == words_of(bytes).map_values(|w: u16| HcoOutput::of_word(w)),
    ensures
        TpdoFrame::HcoState(v).layout() == bytes,
        TpdoFrame::HcoState(v).fits_the_layout(),
{
    bytes_survive(bytes);
    assert(v@.map_values(|o: HcoOutput| o.word()) =~= words_of(bytes));
}

proof fn signed_rebuild(bytes: Seq<u8>, v: Seq<i16>)
    requires
        bytes.len() == 8,
        words_of_signed(v) == words_of(bytes),
    ensures
        bytes_of(words_of_signed(v)) == bytes,
{
    bytes_survive(bytes);
}

proof fn rails_rebuild(bytes: Seq<u8>, v: Seq<u16>)
    requires
        bytes.len() == 8,
        bytes[6] == 0,
        bytes[7] == 0,
        v == words_of(bytes).take(3),
    ensures
        bytes_of(v.push(0)) == bytes,
{
    bytes_survive(bytes);
    assert(words_of(bytes)[3] == 0);
    assert(v.push(0) =~= words_of(bytes));
}

proof fn scan_rebuilds(bytes: Seq<u8>, present: Seq<u16>, sweeps: u16)
    requires
        bytes.len() == 8,
        bytes[6] == 0,
        bytes[7] == 0,
        present == words_of(bytes).take(2),
        sweeps == words_of(bytes)[2],
    ensures
        bytes_of(present.push(sweeps).push(0)) == bytes,
{
    bytes_survive(bytes);
    assert(words_of(bytes)[3] == 0);
    assert(present.push(sweeps).push(0) =~= words_of(bytes));
}

/// Encoding is the inverse of decoding: the bytes of the frame that eight bytes stand for are those
/// bytes, for all bytes with clear padding.
pub proof fn every_payload_round_trips(bytes: Seq<u8>, decoded: TpdoFrame)
    requires
        bytes.len() == 8,
        padding_is_clear(decoded.spec_kind(), bytes),
        decoded.reads_as(bytes),
    ensures
        decoded.layout() == bytes,
        decoded.fits_the_layout(),
{
    match decoded {
        TpdoFrame::HcoState(v) => outputs_rebuild(bytes, v),
        TpdoFrame::ValveStatus { .. } => valve_status_rebuilds(bytes, decoded),
        TpdoFrame::SensorUnits(v) => units_rebuild(bytes, v),
        TpdoFrame::I2cScan { present, sweeps } => scan_rebuilds(bytes, present@, sweeps),
        TpdoFrame::RailVoltage(v) => rails_rebuild(bytes, v@),
        TpdoFrame::RailCurrent(v) => rails_rebuild(bytes, v@),
        TpdoFrame::Sensor0(v) => signed_rebuild(bytes, v@),
        TpdoFrame::Sensor1(v) => signed_rebuild(bytes, v@),
        TpdoFrame::Sensor3(v) => signed_rebuild(bytes, v@),
        TpdoFrame::Status { .. } => status_rebuilds(bytes, decoded),
        _ => bytes_survive(bytes),
    }
}

} // verus!
