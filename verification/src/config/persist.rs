//! Persisting [`Config`] to the on-board NOR flash.
//!
//! Two 4 KiB sectors hold a record each and are written alternately, so a power loss during a
//! save can only ever destroy the copy that was already the older of the two. Each record carries
//! a sequence number and a checksum; the highest sequence that passes its checksum wins.
//!
//! ```text
//!   0   magic      u32        16   four valves    25 bytes each     (offsets into the body)
//!   4   version    u16       116   eight sensors  16 bytes each
//!   6   body_len   u16       244   18 periods      2 bytes each
//!   8   sequence   u32       280   relief loop    11 bytes
//!  12   body       291 bytes
//! 303   checksum   u32
//! ```
//!
//! The layout of the record is fixed, so that boards which differ in age read each other's. Position
//! sensors, pins, broadcast channels and what concerns heating have no place in it: they stand in a
//! [`supplement`] behind the record, in the same sector. A record that no supplement follows leaves
//! them at their defaults.
//!
//! [`supplement`]: super::supplement
use super::{Config, FallbackAction, ReliefConfig, SensorCalib, SensorKind, SensorSlotConfig, Unit, ValveConfig, ValveKind, HEATER_SETPOINT_UNSET};
use super::supplement::{append_content, build_supplement, content_length, content_of as supplement_content, read_slot, slot_describes, slot_is_usable, stored_config, supplement_of};
use crate::bytes::{bits16, bits32, byte_of, i16_from_bits, i16_to_bits, i32_from_bits, i32_to_bits, le16, le16_of_bytes, le32, le32_of_bytes, u16_from_le, u16_to_le, u32_from_le, u32_to_le};
use crate::index::{AmplifierId, HcoId, I2cBus, Id, Per, PerSensorSlot, PerValve, SensorSlot, ValveId};
use crate::proto::ids::{PerTpdoKind, TPDO_KINDS};
use core::ops::IndexMut;
use vstd::prelude::*;

verus! {

/// "COIB", little-endian "IOCB".
pub const MAGIC: u32 = 0x4249_4F43;

/// The layout that this module reads and writes, to be raised whenever the layout changes. A record
/// of another version is rejected rather than misparsed.
pub const VERSION: u16 = 3;

pub const HEADER_LEN: usize = 12;

pub const BODY_LEN: usize = 291;

pub const RECORD_LEN: usize = 307;

/// How much of a sector is read back: a comfortable margin over [`RECORD_LEN`].
pub const BUF_LEN: usize = 320;

pub const SECTOR_LEN: u32 = 4096;

/// Where the two records stand in the flash.
pub const SLOT_OFFSETS: [u32; 2] = [0, 4096];

/// What an absent id is written as.
pub const NONE_U8: u8 = 0xFF;

#[derive(Clone, Copy, PartialEq, Eq, Debug, Structural)]
pub enum PersistError {
    /// The flash rejected a read, write or erase.
    Flash,
    /// Neither sector holds a usable record: what a virgin board looks like.
    NoValidRecord,
    /// A record was structurally sound but described a configuration that is refused.
    Invalid,
}

// What the bytes say.

pub open spec fn u16_at(b: Seq<u8>, at: int) -> u16 {
    le16(b[at], b[at + 1]) as u16
}

pub open spec fn u32_at(b: Seq<u8>, at: int) -> u32 {
    le32(b[at], b[at + 1], b[at + 2], b[at + 3]) as u32
}

/// The signed number whose bits stand at an offset.
pub open spec fn i32_at(b: Seq<u8>, at: int) -> i32 {
    let bits = u32_at(b, at);
    if bits >= 0x8000_0000 {
        (bits - 0x1_0000_0000) as i32
    } else {
        bits as i32
    }
}

pub open spec fn i16_at(b: Seq<u8>, at: int) -> i16 {
    let bits = u16_at(b, at);
    if bits >= 0x8000 {
        (bits - 0x1_0000) as i16
    } else {
        bits as i16
    }
}

/// Whether a byte is an id of a domain, or the mark of an absent one.
pub open spec fn opt_id_ok<I: Id>(byte: u8) -> bool {
    byte == NONE_U8 || byte < I::size()
}

/// The id that a byte stands for.
pub open spec fn opt_id_of<I: Id>(byte: u8) -> Option<I> {
    if byte == NONE_U8 {
        None
    } else {
        Some(I::nth(byte as int))
    }
}

pub open spec fn valve_kind_of(byte: u8) -> ValveKind {
    if byte == 0 {
        ValveKind::Unfitted
    } else if byte == 1 {
        ValveKind::Solenoid
    } else {
        ValveKind::Servo
    }
}

pub open spec fn sensor_kind_of(byte: u8) -> SensorKind {
    if byte == 0 {
        SensorKind::Unused
    } else if byte == 1 {
        SensorKind::Pressure
    } else if byte == 2 {
        SensorKind::Pt1000
    } else if byte == 3 {
        SensorKind::Mcp9700
    } else if byte == 4 {
        SensorKind::Angle
    } else if byte == 5 {
        SensorKind::Ntc
    } else {
        SensorKind::NtcToSupply
    }
}

pub open spec fn unit_of(byte: u8) -> Unit {
    if byte == 0 {
        Unit::CentiBar
    } else if byte == 1 {
        Unit::DeciBar
    } else if byte == 2 {
        Unit::CentiCelsius
    } else if byte == 3 {
        Unit::RawCounts
    } else {
        Unit::Promille
    }
}

/// The valve that a block of 25 bytes describes; none if its kind or an output does not exist.
pub open spec fn valve_at(b: Seq<u8>, at: int) -> Option<ValveConfig> {
    if b[at] < 3 && opt_id_ok::<HcoId>(b[at + 1]) && opt_id_ok::<HcoId>(b[at + 2]) {
        Some(
            ValveConfig {
                kind: valve_kind_of(b[at]),
                power_hco: opt_id_of(b[at + 1]),
                signal_hco: opt_id_of(b[at + 2]),
                closed_us: u16_at(b, at + 3),
                open_us: u16_at(b, at + 5),
                travel_ms: u16_at(b, at + 7),
                stall_ma: u16_at(b, at + 9),
                stall_ms: u16_at(b, at + 11),
                settle_ms: u16_at(b, at + 13),
                min_promille: u16_at(b, at + 15),
                max_promille: u16_at(b, at + 17),
                position_sensor: None,
                fallback_a: FallbackAction {
                    position: u16_at(b, at + 19),
                    unpower: b[at + 21] != 0,
                },
                fallback_b: FallbackAction {
                    position: u16_at(b, at + 22),
                    unpower: b[at + 24] != 0,
                },
            },
        )
    } else {
        None
    }
}

/// The sensor slot that a block of 16 bytes describes; none if its kind, bus, strap or unit does
/// not exist.
pub open spec fn sensor_at(b: Seq<u8>, at: int) -> Option<SensorSlotConfig> {
    if b[at] < 7 && opt_id_ok::<I2cBus>(b[at + 1]) && b[at + 2] < 9 && b[at + 3] < 5 {
        Some(
            SensorSlotConfig {
                kind: sensor_kind_of(b[at]),
                bus: opt_id_of(b[at + 1]),
                amplifier: AmplifierId::nth(b[at + 2] as int),
                unit: unit_of(b[at + 3]),
                calib: SensorCalib {
                    offset_milli: i32_at(b, at + 4),
                    slope_nano: i32_at(b, at + 8),
                    constant_milli: i32_at(b, at + 12),
                },
                ..SensorSlotConfig::spec_unused()
            },
        )
    } else {
        None
    }
}

/// The relief loop that a block of 11 bytes describes; none if its valve or slot does not exist.
pub open spec fn relief_at(b: Seq<u8>, at: int) -> Option<ReliefConfig> {
    if opt_id_ok::<ValveId>(b[at + 1]) && b[at + 2] < 8 {
        Some(
            ReliefConfig {
                enabled: b[at] != 0,
                valve: opt_id_of(b[at + 1]),
                sensor: SensorSlot::nth(b[at + 2] as int),
                threshold: i16_at(b, at + 3),
                position: u16_at(b, at + 5),
                pulse_ms: u16_at(b, at + 7),
                cooldown_ms: u16_at(b, at + 9),
            },
        )
    } else {
        None
    }
}

/// Whether a body describes a configuration at all: long enough, with every kind, unit and id
/// existing.
pub open spec fn body_is_valid(b: Seq<u8>) -> bool {
    &&& b.len() >= BODY_LEN
    &&& forall|i: int| 0 <= i < 4 ==> (#[trigger] valve_at(b, 16 + 25 * i)) is Some
    &&& forall|i: int| 0 <= i < 8 ==> (#[trigger] sensor_at(b, 116 + 16 * i)) is Some
    &&& relief_at(b, 280) is Some
}

/// Whether a configuration is the one that a body describes. What the body does not carry has its
/// default.
pub open spec fn body_describes(b: Seq<u8>, cfg: Config) -> bool {
    &&& cfg.master_node_id == b[0]
    &&& cfg.fallback_enabled == (b[1] != 0)
    &&& cfg.heartbeat_period_ms == u16_at(b, 2)
    &&& cfg.fallback_a_ms == u32_at(b, 4)
    &&& cfg.fallback_b_ms == u32_at(b, 8)
    &&& cfg.sensor_interval_ms == u16_at(b, 12)
    &&& cfg.scan_interval_ms == u16_at(b, 14)
    &&& forall|i: int| 0 <= i < 4 ==> valve_at(b, 16 + 25 * i) == Some(#[trigger] cfg.valves@[i])
    &&& forall|i: int| 0 <= i < 8 ==> sensor_at(b, 116 + 16 * i) == Some(#[trigger] cfg.sensors@[i])
    &&& forall|i: int|
        0 <= i < 18 ==> #[trigger] cfg.tpdo_interval_ms@[i] == u16_at(b, 244 + 2 * i)
    &&& relief_at(b, 280) == Some(cfg.relief)
    &&& forall|i: int| 0 <= i < 4 ==> (#[trigger] cfg.heating@[i]).is_none()
    &&& cfg.heater_setpoint_centi_c == HEATER_SETPOINT_UNSET
}

// What the writer puts down.

pub open spec fn bytes16(x: int) -> Seq<u8> {
    seq![byte_of(x, 0), byte_of(x, 1)]
}

pub open spec fn bytes32(x: int) -> Seq<u8> {
    seq![byte_of(x, 0), byte_of(x, 1), byte_of(x, 2), byte_of(x, 3)]
}

pub open spec fn flag_byte(b: bool) -> u8 {
    if b {
        1
    } else {
        0
    }
}

pub open spec fn opt_id_byte<I: Id>(id: Option<I>) -> u8 {
    match id {
        Some(id) => id.position() as u8,
        None => NONE_U8,
    }
}

/// A valve's kind and outputs: 3 bytes.
pub open spec fn valve_wiring(v: ValveConfig) -> Seq<u8> {
    seq![v.kind as u8, opt_id_byte(v.power_hco), opt_id_byte(v.signal_hco)]
}

/// A valve's stops, travel time and stall limits: 10 bytes.
pub open spec fn valve_drive(v: ValveConfig) -> Seq<u8> {
    bytes16(v.closed_us as int) + bytes16(v.open_us as int) + bytes16(v.travel_ms as int) + bytes16(
        v.stall_ma as int,
    ) + bytes16(v.stall_ms as int)
}

/// A valve's settling time and clamp range: 6 bytes.
pub open spec fn valve_range(v: ValveConfig) -> Seq<u8> {
    bytes16(v.settle_ms as int) + bytes16(v.min_promille as int) + bytes16(v.max_promille as int)
}

/// What a valve does in a fallback stage: 3 bytes.
pub open spec fn action_block(a: FallbackAction) -> Seq<u8> {
    bytes16(a.position as int) + seq![flag_byte(a.unpower)]
}

/// A valve: 25 bytes.
#[verifier::opaque]
pub open spec fn valve_block(v: ValveConfig) -> Seq<u8> {
    valve_wiring(v) + valve_drive(v) + valve_range(v) + action_block(v.fallback_a) + action_block(
        v.fallback_b,
    )
}

#[verifier::opaque]
pub open spec fn sensor_block(s: SensorSlotConfig) -> Seq<u8> {
    seq![s.kind as u8, opt_id_byte(s.bus), s.amplifier as u8, s.unit as u8] + bytes32(
        bits32(s.calib.offset_milli),
    ) + bytes32(bits32(s.calib.slope_nano)) + bytes32(bits32(s.calib.constant_milli))
}

#[verifier::opaque]
pub open spec fn relief_block(r: ReliefConfig) -> Seq<u8> {
    seq![flag_byte(r.enabled), opt_id_byte(r.valve), r.sensor as u8] + bytes16(bits16(r.threshold))
        + bytes16(r.position as int) + bytes16(r.pulse_ms as int) + bytes16(r.cooldown_ms as int)
}

#[verifier::opaque]
pub open spec fn settings_block(cfg: Config) -> Seq<u8> {
    seq![cfg.master_node_id, flag_byte(cfg.fallback_enabled)] + bytes16(
        cfg.heartbeat_period_ms as int,
    ) + bytes32(cfg.fallback_a_ms as int) + bytes32(cfg.fallback_b_ms as int) + bytes16(
        cfg.sensor_interval_ms as int,
    ) + bytes16(cfg.scan_interval_ms as int)
}

/// The first `n` valve blocks.
pub open spec fn valve_blocks(cfg: Config, n: nat) -> Seq<u8>
    decreases n,
{
    if n == 0 {
        seq![]
    } else {
        valve_blocks(cfg, (n - 1) as nat) + valve_block(cfg.valves@[n - 1])
    }
}

/// The first `n` sensor blocks.
pub open spec fn sensor_blocks(cfg: Config, n: nat) -> Seq<u8>
    decreases n,
{
    if n == 0 {
        seq![]
    } else {
        sensor_blocks(cfg, (n - 1) as nat) + sensor_block(cfg.sensors@[n - 1])
    }
}

/// The first `n` broadcast periods.
pub open spec fn period_blocks(cfg: Config, n: nat) -> Seq<u8>
    decreases n,
{
    if n == 0 {
        seq![]
    } else {
        period_blocks(cfg, (n - 1) as nat) + bytes16(cfg.tpdo_interval_ms@[n - 1] as int)
    }
}

/// The body of a configuration's record.
pub open spec fn body_of(cfg: Config) -> Seq<u8> {
    settings_block(cfg) + valve_blocks(cfg, 4) + sensor_blocks(cfg, 8) + period_blocks(cfg, 18)
        + relief_block(cfg.relief)
}

/// Appends little-endian fields.
pub(crate) struct Writer {
    pub(crate) buf: Vec<u8>,
}

impl Writer {
    pub(crate) fn new() -> (r: Self)
        ensures
            r.buf@ == Seq::<u8>::empty(),
    {
        Self { buf: Vec::new() }
    }

    pub(crate) fn u8(&mut self, v: u8)
        ensures
            final(self).buf@ == old(self).buf@ + seq![v],
    {
        self.buf.push(v);
        assert(self.buf@ =~= old(self).buf@ + seq![v]);
    }

    pub(crate) fn u16(&mut self, v: u16)
        ensures
            final(self).buf@ == old(self).buf@ + bytes16(v as int),
    {
        let b = u16_to_le(v);
        self.buf.push(b[0]);
        self.buf.push(b[1]);
        assert(self.buf@ =~= old(self).buf@ + bytes16(v as int));
    }

    pub(crate) fn u32(&mut self, v: u32)
        ensures
            final(self).buf@ == old(self).buf@ + bytes32(v as int),
    {
        let b = u32_to_le(v);
        self.buf.push(b[0]);
        self.buf.push(b[1]);
        self.buf.push(b[2]);
        self.buf.push(b[3]);
        assert(self.buf@ =~= old(self).buf@ + bytes32(v as int));
    }

    fn i32(&mut self, v: i32)
        ensures
            final(self).buf@ == old(self).buf@ + bytes32(bits32(v)),
    {
        self.u32(i32_to_bits(v));
    }

    pub(crate) fn flag(&mut self, v: bool)
        ensures
            final(self).buf@ == old(self).buf@ + seq![flag_byte(v)],
    {
        self.u8(
            if v {
                1
            } else {
                0
            },
        );
    }

    /// An optional id, as its index, with [`NONE_U8`] for `None`.
    pub(crate) fn opt_id<I: Id>(&mut self, v: Option<I>)
        requires
            I::size() < 255,
        ensures
            final(self).buf@ == old(self).buf@ + seq![opt_id_byte(v)],
    {
        let byte: u8 = match v {
            Some(id) => id.index() as u8,
            None => NONE_U8,
        };
        self.u8(byte);
    }

    fn valve_wiring(&mut self, v: &ValveConfig)
        ensures
            final(self).buf@ == old(self).buf@ + valve_wiring(*v),
    {
        self.u8(v.kind as u8);
        self.opt_id(v.power_hco);
        self.opt_id(v.signal_hco);
        assert(self.buf@ =~= old(self).buf@ + valve_wiring(*v));
    }

    fn valve_drive(&mut self, v: &ValveConfig)
        ensures
            final(self).buf@ == old(self).buf@ + valve_drive(*v),
    {
        self.u16(v.closed_us);
        self.u16(v.open_us);
        self.u16(v.travel_ms);
        self.u16(v.stall_ma);
        self.u16(v.stall_ms);
        assert(self.buf@ =~= old(self).buf@ + valve_drive(*v));
    }

    fn valve_range(&mut self, v: &ValveConfig)
        ensures
            final(self).buf@ == old(self).buf@ + valve_range(*v),
    {
        self.u16(v.settle_ms);
        self.u16(v.min_promille);
        self.u16(v.max_promille);
        assert(self.buf@ =~= old(self).buf@ + valve_range(*v));
    }

    fn action(&mut self, a: &FallbackAction)
        ensures
            final(self).buf@ == old(self).buf@ + action_block(*a),
    {
        self.u16(a.position);
        self.flag(a.unpower);
        assert(self.buf@ =~= old(self).buf@ + action_block(*a));
    }

    fn valve(&mut self, v: &ValveConfig)
        ensures
            final(self).buf@ == old(self).buf@ + valve_block(*v),
    {
        self.valve_wiring(v);
        self.valve_drive(v);
        self.valve_range(v);
        self.action(&v.fallback_a);
        self.action(&v.fallback_b);
        reveal(valve_block);
        assert(self.buf@ =~= old(self).buf@ + valve_block(*v));
    }

    fn sensor(&mut self, s: &SensorSlotConfig)
        ensures
            final(self).buf@ == old(self).buf@ + sensor_block(*s),
    {
        self.u8(s.kind as u8);
        self.opt_id(s.bus);
        self.u8(s.amplifier.as_u8());
        self.u8(s.unit as u8);
        self.i32(s.calib.offset_milli);
        self.i32(s.calib.slope_nano);
        self.i32(s.calib.constant_milli);
        reveal(sensor_block);
        assert(self.buf@ =~= old(self).buf@ + sensor_block(*s));
    }

    fn relief(&mut self, r: &ReliefConfig)
        ensures
            final(self).buf@ == old(self).buf@ + relief_block(*r),
    {
        self.flag(r.enabled);
        self.opt_id(r.valve);
        self.u8(r.sensor.as_u8());
        self.u16(i16_to_bits(r.threshold));
        self.u16(r.position);
        self.u16(r.pulse_ms);
        self.u16(r.cooldown_ms);
        reveal(relief_block);
        assert(self.buf@ =~= old(self).buf@ + relief_block(*r));
    }

    fn settings(&mut self, cfg: &Config)
        ensures
            final(self).buf@ == old(self).buf@ + settings_block(*cfg),
    {
        self.u8(cfg.master_node_id);
        self.flag(cfg.fallback_enabled);
        self.u16(cfg.heartbeat_period_ms);
        self.u32(cfg.fallback_a_ms);
        self.u32(cfg.fallback_b_ms);
        self.u16(cfg.sensor_interval_ms);
        self.u16(cfg.scan_interval_ms);
        reveal(settings_block);
        assert(self.buf@ =~= old(self).buf@ + settings_block(*cfg));
    }
}

/// Serializes the config body.
fn write_body(cfg: &Config, w: &mut Writer)
    ensures
        final(w).buf@ == old(w).buf@ + body_of(*cfg),
{
    let ghost start = w.buf@;
    w.settings(cfg);
    let ghost head = settings_block(*cfg);
    let mut i: usize = 0;
    while i < 4
        invariant
            i <= 4,
            w.buf@ == start + head + valve_blocks(*cfg, i as nat),
        decreases 4 - i,
    {
        w.valve(&cfg.valves.as_array()[i]);
        assert(w.buf@ =~= start + head + valve_blocks(*cfg, (i + 1) as nat));
        i += 1;
    }
    let ghost head = head + valve_blocks(*cfg, 4);
    let mut i: usize = 0;
    assert(w.buf@ =~= start + head + sensor_blocks(*cfg, 0));
    while i < 8
        invariant
            i <= 8,
            w.buf@ == start + head + sensor_blocks(*cfg, i as nat),
        decreases 8 - i,
    {
        w.sensor(&cfg.sensors.as_array()[i]);
        assert(w.buf@ =~= start + head + sensor_blocks(*cfg, (i + 1) as nat));
        i += 1;
    }
    let ghost head = head + sensor_blocks(*cfg, 8);
    let mut i: usize = 0;
    assert(w.buf@ =~= start + head + period_blocks(*cfg, 0));
    while i < 18
        invariant
            i <= 18,
            w.buf@ == start + head + period_blocks(*cfg, i as nat),
        decreases 18 - i,
    {
        w.u16(cfg.tpdo_interval_ms.as_array()[i]);
        assert(w.buf@ =~= start + head + period_blocks(*cfg, (i + 1) as nat));
        i += 1;
    }
    w.relief(&cfg.relief);
    assert(w.buf@ =~= start + body_of(*cfg));
}

/// Serializes just the body, for comparing a candidate save against what is already stored.
pub fn serialize_body(cfg: &Config) -> (r: Vec<u8>)
    ensures
        r@ == body_of(*cfg),
        r@.len() == BODY_LEN,
{
    let mut w = Writer::new();
    write_body(cfg, &mut w);
    proof {
        body_length(*cfg);
        assert(w.buf@ =~= body_of(*cfg));
    }
    w.buf
}

proof fn body_length(cfg: Config)
    ensures
        body_of(cfg).len() == 291,
        settings_block(cfg).len() == 16,
        valve_blocks(cfg, 4).len() == 100,
        sensor_blocks(cfg, 8).len() == 128,
        period_blocks(cfg, 18).len() == 36,
        relief_block(cfg.relief).len() == 11,
{
    reveal(settings_block);
    reveal(relief_block);
    valve_blocks_length(cfg, 4);
    sensor_blocks_length(cfg, 8);
    period_blocks_length(cfg, 18);
}

proof fn valve_block_length(v: ValveConfig)
    ensures
        valve_block(v).len() == 25,
{
    reveal(valve_block);
}

proof fn sensor_block_length(s: SensorSlotConfig)
    ensures
        sensor_block(s).len() == 16,
{
    reveal(sensor_block);
}

proof fn valve_blocks_length(cfg: Config, n: nat)
    ensures
        valve_blocks(cfg, n).len() == 25 * n,
    decreases n,
{
    if n > 0 {
        valve_blocks_length(cfg, (n - 1) as nat);
        reveal(valve_block);
    }
}

proof fn sensor_blocks_length(cfg: Config, n: nat)
    ensures
        sensor_blocks(cfg, n).len() == 16 * n,
    decreases n,
{
    if n > 0 {
        sensor_blocks_length(cfg, (n - 1) as nat);
        reveal(sensor_block);
    }
}

proof fn period_blocks_length(cfg: Config, n: nat)
    ensures
        period_blocks(cfg, n).len() == 2 * n,
    decreases n,
{
    if n > 0 {
        period_blocks_length(cfg, (n - 1) as nat);
    }
}

/// Takes little-endian fields from the front.
pub(crate) struct Reader<'a> {
    pub(crate) buf: &'a [u8],
    pub(crate) pos: usize,
}

impl<'a> Reader<'a> {
    pub(crate) open spec fn has(self, n: int) -> bool {
        self.pos + n <= self.buf@.len()
    }

    /// This reader, `n` bytes further on.
    pub(crate) open spec fn moved(self, from: Self, n: int) -> bool {
        self.buf == from.buf && self.pos == from.pos + n
    }

    pub(crate) fn new(buf: &'a [u8]) -> (r: Self)
        ensures
            r.buf == buf,
            r.pos == 0,
    {
        Self { buf, pos: 0 }
    }

    pub(crate) fn u8(&mut self) -> (r: u8)
        requires
            old(self).has(1),
        ensures
            final(self).moved(*old(self), 1),
            r == old(self).buf@[old(self).pos as int],
    {
        let v: u8 = self.buf[self.pos];
        self.pos += 1;
        v
    }

    pub(crate) fn flag(&mut self) -> (r: bool)
        requires
            old(self).has(1),
        ensures
            final(self).moved(*old(self), 1),
            r == (old(self).buf@[old(self).pos as int] != 0),
    {
        self.u8() != 0
    }

    pub(crate) fn u16(&mut self) -> (r: u16)
        requires
            old(self).has(2),
        ensures
            final(self).moved(*old(self), 2),
            r == u16_at(old(self).buf@, old(self).pos as int),
    {
        let lo: u8 = self.u8();
        let hi: u8 = self.u8();
        u16_from_le(lo, hi)
    }

    pub(crate) fn u32(&mut self) -> (r: u32)
        requires
            old(self).has(4),
        ensures
            final(self).moved(*old(self), 4),
            r == u32_at(old(self).buf@, old(self).pos as int),
    {
        let b0: u8 = self.u8();
        let b1: u8 = self.u8();
        let b2: u8 = self.u8();
        let b3: u8 = self.u8();
        u32_from_le(b0, b1, b2, b3)
    }

    fn i32(&mut self) -> (r: i32)
        requires
            old(self).has(4),
        ensures
            final(self).moved(*old(self), 4),
            r == i32_at(old(self).buf@, old(self).pos as int),
    {
        i32_from_bits(self.u32())
    }

    /// An optional id. `Err` for a byte that is neither [`NONE_U8`] nor an index of the domain,
    /// which fails the whole record.
    pub(crate) fn opt_id<I: Id>(&mut self) -> (r: Result<Option<I>, ()>)
        requires
            old(self).has(1),
            I::size() < 255,
        ensures
            final(self).moved(*old(self), 1),
            r is Ok <==> opt_id_ok::<I>(old(self).buf@[old(self).pos as int]),
            r matches Ok(id) ==> id == opt_id_of::<I>(old(self).buf@[old(self).pos as int]),
    {
        let byte: u8 = self.u8();
        if byte == NONE_U8 {
            return Ok(None);
        }
        match I::from_index(byte as usize) {
            Some(id) => Ok(Some(id)),
            None => Err(()),
        }
    }

    pub(crate) fn id<I: Id>(&mut self) -> (r: Result<I, ()>)
        requires
            old(self).has(1),
        ensures
            final(self).moved(*old(self), 1),
            r is Ok <==> old(self).buf@[old(self).pos as int] < I::size(),
            r matches Ok(id) ==> id == I::nth(old(self).buf@[old(self).pos as int] as int),
    {
        let byte: u8 = self.u8();
        match I::from_index(byte as usize) {
            Some(id) => Ok(id),
            None => Err(()),
        }
    }

    fn action(&mut self) -> (r: FallbackAction)
        requires
            old(self).has(3),
        ensures
            final(self).moved(*old(self), 3),
            r.position == u16_at(old(self).buf@, old(self).pos as int),
            r.unpower == (old(self).buf@[old(self).pos + 2] != 0),
    {
        let position: u16 = self.u16();
        let unpower = self.flag();
        FallbackAction { position, unpower }
    }

    fn valve(&mut self) -> (r: Option<ValveConfig>)
        requires
            old(self).has(25),
        ensures
            r == valve_at(old(self).buf@, old(self).pos as int),
            r is Some ==> final(self).moved(*old(self), 25),
    {
        let kind = match ValveKind::from_u8(self.u8()) {
            Some(kind) => kind,
            None => return None,
        };
        let power_hco: Option<HcoId> = match self.opt_id() {
            Ok(id) => id,
            Err(_) => return None,
        };
        let signal_hco: Option<HcoId> = match self.opt_id() {
            Ok(id) => id,
            Err(_) => return None,
        };
        let closed_us: u16 = self.u16();
        let open_us: u16 = self.u16();
        let travel_ms: u16 = self.u16();
        let stall_ma: u16 = self.u16();
        let stall_ms: u16 = self.u16();
        let settle_ms: u16 = self.u16();
        let min_promille: u16 = self.u16();
        let max_promille: u16 = self.u16();
        let fallback_a = self.action();
        let fallback_b = self.action();
        Some(
            ValveConfig {
                kind,
                power_hco,
                signal_hco,
                closed_us,
                open_us,
                travel_ms,
                stall_ma,
                stall_ms,
                settle_ms,
                min_promille,
                max_promille,
                fallback_a,
                fallback_b,
                ..ValveConfig::unmapped()
            },
        )
    }

    fn sensor(&mut self) -> (r: Option<SensorSlotConfig>)
        requires
            old(self).has(16),
        ensures
            r == sensor_at(old(self).buf@, old(self).pos as int),
            r is Some ==> final(self).moved(*old(self), 16),
    {
        let kind = match SensorKind::from_u8(self.u8()) {
            Some(kind) => kind,
            None => return None,
        };
        let bus: Option<I2cBus> = match self.opt_id() {
            Ok(id) => id,
            Err(_) => return None,
        };
        let amplifier: AmplifierId = match self.id() {
            Ok(id) => id,
            Err(_) => return None,
        };
        let unit = match Unit::from_u8(self.u8()) {
            Some(unit) => unit,
            None => return None,
        };
        let offset_milli: i32 = self.i32();
        let slope_nano: i32 = self.i32();
        let constant_milli: i32 = self.i32();
        Some(
            SensorSlotConfig {
                kind,
                bus,
                amplifier,
                unit,
                calib: SensorCalib { offset_milli, slope_nano, constant_milli },
                ..SensorSlotConfig::unused()
            },
        )
    }

    fn relief(&mut self) -> (r: Option<ReliefConfig>)
        requires
            old(self).has(11),
        ensures
            r == relief_at(old(self).buf@, old(self).pos as int),
    {
        let enabled = self.flag();
        let valve: Option<ValveId> = match self.opt_id() {
            Ok(id) => id,
            Err(_) => return None,
        };
        let sensor: SensorSlot = match self.id() {
            Ok(id) => id,
            Err(_) => return None,
        };
        let threshold: i16 = i16_from_bits(self.u16());
        let position: u16 = self.u16();
        let pulse_ms: u16 = self.u16();
        let cooldown_ms: u16 = self.u16();
        Some(
            ReliefConfig { enabled, valve, sensor, threshold, position, pulse_ms, cooldown_ms },
        )
    }
}

/// Reads the four valve blocks.
fn read_valves(r: &mut Reader) -> (out: Option<PerValve<ValveConfig>>)
    requires
        old(r).has(100),
    ensures
        out is Some <==> forall|i: int|
            0 <= i < 4 ==> (#[trigger] valve_at(old(r).buf@, old(r).pos + 25 * i)) is Some,
        out matches Some(valves) ==> final(r).moved(*old(r), 100) && forall|i: int|
            0 <= i < 4 ==> valve_at(old(r).buf@, old(r).pos + 25 * i) == Some(
                #[trigger] valves@[i],
            ),
{
    broadcast use crate::index::per_len;

    let mut valves: PerValve<ValveConfig> = Per::splat(ValveConfig::unmapped());
    let mut i: usize = 0;
    while i < 4
        invariant
            i <= 4,
            valves@.len() == 4,
            old(r).has(100),
            r.buf == old(r).buf,
            r.pos == old(r).pos + 25 * i,
            forall|k: int|
                0 <= k < i ==> valve_at(r.buf@, old(r).pos + 25 * k) == Some(#[trigger] valves@[k]),
        decreases 4 - i,
    {
        let valve = match r.valve() {
            Some(valve) => valve,
            None => {
                assert(valve_at(old(r).buf@, old(r).pos + 25 * i) is None);
                return None;
            },
        };
        let ghost before = valves;
        *valves.index_mut(ValveId::ALL[i]) = valve;
        assert(valves@ == before@.update(i as int, valve));
        i += 1;
    }
    assert forall|k: int| 0 <= k < 4 implies (#[trigger] valve_at(
        old(r).buf@,
        old(r).pos + 25 * k,
    )) is Some by {
        assert(valve_at(r.buf@, old(r).pos + 25 * k) == Some(valves@[k]));
    }
    Some(valves)
}

/// Reads the eight sensor blocks.
fn read_sensors(r: &mut Reader) -> (out: Option<PerSensorSlot<SensorSlotConfig>>)
    requires
        old(r).has(128),
    ensures
        out is Some <==> forall|i: int|
            0 <= i < 8 ==> (#[trigger] sensor_at(old(r).buf@, old(r).pos + 16 * i)) is Some,
        out matches Some(sensors) ==> final(r).moved(*old(r), 128) && forall|i: int|
            0 <= i < 8 ==> sensor_at(old(r).buf@, old(r).pos + 16 * i) == Some(
                #[trigger] sensors@[i],
            ),
{
    broadcast use crate::index::per_len;

    let mut sensors: PerSensorSlot<SensorSlotConfig> = Per::splat(SensorSlotConfig::unused());
    let mut i: usize = 0;
    while i < 8
        invariant
            i <= 8,
            sensors@.len() == 8,
            old(r).has(128),
            r.buf == old(r).buf,
            r.pos == old(r).pos + 16 * i,
            forall|k: int|
                0 <= k < i ==> sensor_at(r.buf@, old(r).pos + 16 * k) == Some(
                    #[trigger] sensors@[k],
                ),
        decreases 8 - i,
    {
        let sensor = match r.sensor() {
            Some(sensor) => sensor,
            None => {
                assert(sensor_at(old(r).buf@, old(r).pos + 16 * i) is None);
                return None;
            },
        };
        let ghost before = sensors;
        *sensors.index_mut(SensorSlot::ALL[i]) = sensor;
        assert(sensors@ == before@.update(i as int, sensor));
        i += 1;
    }
    assert forall|k: int| 0 <= k < 8 implies (#[trigger] sensor_at(
        old(r).buf@,
        old(r).pos + 16 * k,
    )) is Some by {
        assert(sensor_at(r.buf@, old(r).pos + 16 * k) == Some(sensors@[k]));
    }
    Some(sensors)
}

/// Reads the broadcast periods.
fn read_periods(r: &mut Reader) -> (out: PerTpdoKind<u16>)
    requires
        old(r).has(36),
    ensures
        final(r).moved(*old(r), 36),
        forall|i: int|
            0 <= i < 18 ==> #[trigger] out@[i] == u16_at(old(r).buf@, old(r).pos + 2 * i),
{
    broadcast use crate::index::per_len;

    let mut periods: PerTpdoKind<u16> = Per::splat(0);
    let mut i: usize = 0;
    while i < 18
        invariant
            i <= 18,
            periods@.len() == 18,
            old(r).has(36),
            r.buf == old(r).buf,
            r.pos == old(r).pos + 2 * i,
            forall|k: int|
                0 <= k < i ==> #[trigger] periods@[k] == u16_at(r.buf@, old(r).pos + 2 * k),
        decreases 18 - i,
    {
        let period: u16 = r.u16();
        let ghost before = periods;
        *periods.index_mut(TPDO_KINDS[i]) = period;
        assert(periods@ == before@.update(i as int, period));
        i += 1;
    }
    periods
}

/// Parses a config body. Any kind, unit or id that does not exist fails the whole record rather
/// than being coerced.
pub fn read_body(body: &[u8]) -> (r: Option<Config>)
    ensures
        r is Some <==> body_is_valid(body@),
        r matches Some(cfg) ==> body_describes(body@, cfg),
{
    if body.len() < BODY_LEN {
        return None;
    }
    let mut r = Reader::new(body);
    let mut cfg = Config::new();
    cfg.master_node_id = r.u8();
    cfg.fallback_enabled = r.flag();
    cfg.heartbeat_period_ms = r.u16();
    cfg.fallback_a_ms = r.u32();
    cfg.fallback_b_ms = r.u32();
    cfg.sensor_interval_ms = r.u16();
    cfg.scan_interval_ms = r.u16();
    match read_valves(&mut r) {
        Some(valves) => cfg.valves = valves,
        None => return None,
    }
    match read_sensors(&mut r) {
        Some(sensors) => cfg.sensors = sensors,
        None => return None,
    }
    cfg.tpdo_interval_ms = read_periods(&mut r);
    match r.relief() {
        Some(relief) => cfg.relief = relief,
        None => return None,
    }
    Some(cfg)
}

// What was written is what is read.

/// A valve as a record carries it.
pub open spec fn recorded_valve(v: ValveConfig) -> ValveConfig {
    ValveConfig { position_sensor: None, ..v }
}

/// A sensor slot as a record carries it.
pub open spec fn recorded_sensor(s: SensorSlotConfig) -> SensorSlotConfig {
    SensorSlotConfig {
        analog: SensorSlotConfig::spec_unused().analog,
        pdo_channel: SensorSlotConfig::spec_unused().pdo_channel,
        ..s
    }
}

/// Whether two configurations agree on everything that a record carries, the second one having
/// defaults for the rest.
pub open spec fn recorded_as(cfg: Config, back: Config) -> bool {
    &&& back.master_node_id == cfg.master_node_id
    &&& back.fallback_enabled == cfg.fallback_enabled
    &&& back.heartbeat_period_ms == cfg.heartbeat_period_ms
    &&& back.fallback_a_ms == cfg.fallback_a_ms
    &&& back.fallback_b_ms == cfg.fallback_b_ms
    &&& back.sensor_interval_ms == cfg.sensor_interval_ms
    &&& back.scan_interval_ms == cfg.scan_interval_ms
    &&& forall|i: int|
        0 <= i < 4 ==> #[trigger] back.valves@[i] == recorded_valve(cfg.valves@[i])
    &&& forall|i: int|
        0 <= i < 8 ==> #[trigger] back.sensors@[i] == recorded_sensor(cfg.sensors@[i])
    &&& back.tpdo_interval_ms == cfg.tpdo_interval_ms
    &&& back.relief == cfg.relief
    &&& forall|i: int| 0 <= i < 4 ==> (#[trigger] back.heating@[i]).is_none()
    &&& back.heater_setpoint_centi_c == HEATER_SETPOINT_UNSET
}

/// Whether a configuration agrees with a body on everything that the body carries.
pub open spec fn record_says(b: Seq<u8>, cfg: Config) -> bool {
    &&& cfg.master_node_id == b[0]
    &&& cfg.fallback_enabled == (b[1] != 0)
    &&& cfg.heartbeat_period_ms == u16_at(b, 2)
    &&& cfg.fallback_a_ms == u32_at(b, 4)
    &&& cfg.fallback_b_ms == u32_at(b, 8)
    &&& cfg.sensor_interval_ms == u16_at(b, 12)
    &&& cfg.scan_interval_ms == u16_at(b, 14)
    &&& forall|i: int|
        0 <= i < 4 ==> valve_at(b, 16 + 25 * i) == Some(recorded_valve(#[trigger] cfg.valves@[i]))
    &&& forall|i: int|
        0 <= i < 8 ==> sensor_at(b, 116 + 16 * i) == Some(
            recorded_sensor(#[trigger] cfg.sensors@[i]),
        )
    &&& forall|i: int|
        0 <= i < 18 ==> #[trigger] cfg.tpdo_interval_ms@[i] == u16_at(b, 244 + 2 * i)
    &&& relief_at(b, 280) == Some(cfg.relief)
}

/// Whether a block stands at an offset.
pub(crate) open spec fn stands_at(b: Seq<u8>, at: int, block: Seq<u8>) -> bool {
    forall|k: int| 0 <= k < block.len() ==> #[trigger] b[at + k] == block[k]
}

pub(crate) proof fn word_reads_back(b: Seq<u8>, at: int, x: u16)
    requires
        b[at] == byte_of(x as int, 0),
        b[at + 1] == byte_of(x as int, 1),
    ensures
        u16_at(b, at) == x,
{
    le16_of_bytes(x as int);
}

pub(crate) proof fn long_reads_back(b: Seq<u8>, at: int, x: int)
    requires
        0 <= x < 0x1_0000_0000,
        b[at] == byte_of(x, 0),
        b[at + 1] == byte_of(x, 1),
        b[at + 2] == byte_of(x, 2),
        b[at + 3] == byte_of(x, 3),
    ensures
        u32_at(b, at) == x,
{
    le32_of_bytes(x);
}

pub(crate) proof fn id_reads_back<I: Id>(id: Option<I>)
    requires
        I::size() < 255,
    ensures
        opt_id_ok::<I>(opt_id_byte(id)),
        opt_id_of::<I>(opt_id_byte(id)) == id,
{
    if let Some(i) = id {
        i.position_in_range();
        i.nth_inverts_position();
    }
}

/// A valve reads back from wherever its block stands.
proof fn valve_reads_back(b: Seq<u8>, at: int, v: ValveConfig)
    requires
        stands_at(b, at, valve_block(v)),
    ensures
        valve_at(b, at) == Some(recorded_valve(v)),
{
    reveal(valve_block);
    let blk = valve_block(v);
    assert(blk.len() == 25);
    assert(forall|k: int| 0 <= k < 25 ==> #[trigger] b[at + k] == blk[k]);
    assert(b[at + 0] == blk[0] && b[at + 1] == blk[1] && b[at + 2] == blk[2]);
    assert(blk[0] == v.kind as u8 && blk[1] == opt_id_byte(v.power_hco) && blk[2] == opt_id_byte(
        v.signal_hco,
    ));
    id_reads_back(v.power_hco);
    id_reads_back(v.signal_hco);
    assert(b[at + 3] == blk[3] && b[at + 4] == blk[4]);
    word_reads_back(b, at + 3, v.closed_us);
    assert(b[at + 5] == blk[5] && b[at + 6] == blk[6]);
    word_reads_back(b, at + 5, v.open_us);
    assert(b[at + 7] == blk[7] && b[at + 8] == blk[8]);
    word_reads_back(b, at + 7, v.travel_ms);
    assert(b[at + 9] == blk[9] && b[at + 10] == blk[10]);
    word_reads_back(b, at + 9, v.stall_ma);
    assert(b[at + 11] == blk[11] && b[at + 12] == blk[12]);
    word_reads_back(b, at + 11, v.stall_ms);
    assert(b[at + 13] == blk[13] && b[at + 14] == blk[14]);
    word_reads_back(b, at + 13, v.settle_ms);
    assert(b[at + 15] == blk[15] && b[at + 16] == blk[16]);
    word_reads_back(b, at + 15, v.min_promille);
    assert(b[at + 17] == blk[17] && b[at + 18] == blk[18]);
    word_reads_back(b, at + 17, v.max_promille);
    assert(b[at + 19] == blk[19] && b[at + 20] == blk[20] && b[at + 21] == blk[21]);
    word_reads_back(b, at + 19, v.fallback_a.position);
    assert(b[at + 22] == blk[22] && b[at + 23] == blk[23] && b[at + 24] == blk[24]);
    word_reads_back(b, at + 22, v.fallback_b.position);
}

/// A sensor slot reads back from wherever its block stands.
proof fn sensor_reads_back(b: Seq<u8>, at: int, s: SensorSlotConfig)
    requires
        stands_at(b, at, sensor_block(s)),
    ensures
        sensor_at(b, at) == Some(recorded_sensor(s)),
{
    reveal(sensor_block);
    let blk = sensor_block(s);
    assert(blk.len() == 16);
    assert(b[at + 0] == blk[0] && b[at + 1] == blk[1] && b[at + 2] == blk[2] && b[at + 3] == blk[3]);
    id_reads_back(s.bus);
    s.amplifier.nth_inverts_position();
    assert(b[at + 4] == blk[4] && b[at + 5] == blk[5] && b[at + 6] == blk[6] && b[at + 7] == blk[7]);
    long_reads_back(b, at + 4, bits32(s.calib.offset_milli));
    assert(b[at + 8] == blk[8] && b[at + 9] == blk[9] && b[at + 10] == blk[10] && b[at + 11]
        == blk[11]);
    long_reads_back(b, at + 8, bits32(s.calib.slope_nano));
    assert(b[at + 12] == blk[12] && b[at + 13] == blk[13] && b[at + 14] == blk[14] && b[at + 15]
        == blk[15]);
    long_reads_back(b, at + 12, bits32(s.calib.constant_milli));
}

/// The relief loop reads back from wherever its block stands.
proof fn relief_reads_back(b: Seq<u8>, at: int, r: ReliefConfig)
    requires
        stands_at(b, at, relief_block(r)),
    ensures
        relief_at(b, at) == Some(r),
{
    reveal(relief_block);
    let blk = relief_block(r);
    assert(blk.len() == 11);
    assert(b[at + 0] == blk[0] && b[at + 1] == blk[1] && b[at + 2] == blk[2]);
    id_reads_back(r.valve);
    r.sensor.nth_inverts_position();
    assert(b[at + 3] == blk[3] && b[at + 4] == blk[4]);
    word_reads_back(b, at + 3, bits16(r.threshold) as u16);
    assert(b[at + 5] == blk[5] && b[at + 6] == blk[6]);
    word_reads_back(b, at + 5, r.position);
    assert(b[at + 7] == blk[7] && b[at + 8] == blk[8]);
    word_reads_back(b, at + 7, r.pulse_ms);
    assert(b[at + 9] == blk[9] && b[at + 10] == blk[10]);
    word_reads_back(b, at + 9, r.cooldown_ms);
}

proof fn valve_block_stands(cfg: Config, n: nat, i: int)
    requires
        0 <= i < n,
    ensures
        stands_at(valve_blocks(cfg, n), 25 * i, valve_block(cfg.valves@[i])),
    decreases n,
{
    valve_blocks_length(cfg, (n - 1) as nat);
    valve_block_length(cfg.valves@[i]);
    if i < n - 1 {
        valve_block_stands(cfg, (n - 1) as nat, i);
        let shorter = valve_blocks(cfg, (n - 1) as nat);
        let block = valve_block(cfg.valves@[i]);
        assert forall|k: int| 0 <= k < block.len() implies #[trigger] valve_blocks(cfg, n)[25 * i
            + k] == block[k] by {
            assert(shorter[25 * i + k] == block[k]);
        }
    }
}

proof fn sensor_block_stands(cfg: Config, n: nat, i: int)
    requires
        0 <= i < n,
    ensures
        stands_at(sensor_blocks(cfg, n), 16 * i, sensor_block(cfg.sensors@[i])),
    decreases n,
{
    sensor_blocks_length(cfg, (n - 1) as nat);
    sensor_block_length(cfg.sensors@[i]);
    if i < n - 1 {
        sensor_block_stands(cfg, (n - 1) as nat, i);
        let shorter = sensor_blocks(cfg, (n - 1) as nat);
        let block = sensor_block(cfg.sensors@[i]);
        assert forall|k: int| 0 <= k < block.len() implies #[trigger] sensor_blocks(cfg, n)[16 * i
            + k] == block[k] by {
            assert(shorter[16 * i + k] == block[k]);
        }
    }
}

proof fn period_block_stands(cfg: Config, n: nat, i: int)
    requires
        0 <= i < n,
    ensures
        stands_at(period_blocks(cfg, n), 2 * i, bytes16(cfg.tpdo_interval_ms@[i] as int)),
    decreases n,
{
    period_blocks_length(cfg, (n - 1) as nat);
    if i < n - 1 {
        period_block_stands(cfg, (n - 1) as nat, i);
        let shorter = period_blocks(cfg, (n - 1) as nat);
        let block = bytes16(cfg.tpdo_interval_ms@[i] as int);
        assert forall|k: int| 0 <= k < block.len() implies #[trigger] period_blocks(cfg, n)[2 * i
            + k] == block[k] by {
            assert(shorter[2 * i + k] == block[k]);
        }
    }
}

/// A block that stands in a part stands in the whole, further on.
pub(crate) proof fn stands_in_the_whole(b: Seq<u8>, from: int, part: Seq<u8>, at: int, block: Seq<u8>)
    requires
        stands_at(b, from, part),
        stands_at(part, at, block),
        0 <= at,
        at + block.len() <= part.len(),
    ensures
        stands_at(b, from + at, block),
{
    assert forall|k: int| 0 <= k < block.len() implies #[trigger] b[from + at + k] == block[k] by {
        assert(b[from + (at + k)] == part[at + k]);
        assert(part[at + k] == block[k]);
    }
}

/// The five parts of a body stand one after the other.
proof fn body_parts_stand(cfg: Config)
    ensures
        stands_at(body_of(cfg), 0, settings_block(cfg)),
        stands_at(body_of(cfg), 16, valve_blocks(cfg, 4)),
        stands_at(body_of(cfg), 116, sensor_blocks(cfg, 8)),
        stands_at(body_of(cfg), 244, period_blocks(cfg, 18)),
        stands_at(body_of(cfg), 280, relief_block(cfg.relief)),
{
    body_length(cfg);
}

proof fn written_valve_reads_back(cfg: Config, i: int)
    requires
        0 <= i < 4,
    ensures
        valve_at(body_of(cfg), 16 + 25 * i) == Some(recorded_valve(cfg.valves@[i])),
{
    let b = body_of(cfg);
    body_length(cfg);
    body_parts_stand(cfg);
    valve_block_length(cfg.valves@[i]);
    valve_block_stands(cfg, 4, i);
    stands_in_the_whole(b, 16, valve_blocks(cfg, 4), 25 * i, valve_block(cfg.valves@[i]));
    valve_reads_back(b, 16 + 25 * i, cfg.valves@[i]);
}

proof fn written_sensor_reads_back(cfg: Config, i: int)
    requires
        0 <= i < 8,
    ensures
        sensor_at(body_of(cfg), 116 + 16 * i) == Some(recorded_sensor(cfg.sensors@[i])),
{
    let b = body_of(cfg);
    body_length(cfg);
    body_parts_stand(cfg);
    sensor_block_length(cfg.sensors@[i]);
    sensor_block_stands(cfg, 8, i);
    stands_in_the_whole(b, 116, sensor_blocks(cfg, 8), 16 * i, sensor_block(cfg.sensors@[i]));
    sensor_reads_back(b, 116 + 16 * i, cfg.sensors@[i]);
}

proof fn written_period_reads_back(cfg: Config, i: int)
    requires
        0 <= i < 18,
    ensures
        u16_at(body_of(cfg), 244 + 2 * i) == cfg.tpdo_interval_ms@[i],
{
    let b = body_of(cfg);
    let block = bytes16(cfg.tpdo_interval_ms@[i] as int);
    body_length(cfg);
    body_parts_stand(cfg);
    period_block_stands(cfg, 18, i);
    stands_in_the_whole(b, 244, period_blocks(cfg, 18), 2 * i, block);
    assert(b[244 + 2 * i + 0] == block[0] && b[244 + 2 * i + 1] == block[1]);
    word_reads_back(b, 244 + 2 * i, cfg.tpdo_interval_ms@[i]);
}

/// Every body that is written is valid, and describes the configuration that it was written for.
pub proof fn a_written_body_reads_back(cfg: Config, back: Config)
    ensures
        body_is_valid(body_of(cfg)),
        body_of(cfg).len() == BODY_LEN,
        body_describes(body_of(cfg), back) <==> recorded_as(cfg, back),
{
    let b = body_of(cfg);
    body_length(cfg);
    body_parts_stand(cfg);
    relief_reads_back(b, 280, cfg.relief);
    settings_read_back(b, cfg);
    assert forall|i: int| 0 <= i < 4 implies (#[trigger] valve_at(b, 16 + 25 * i)) is Some by {
        written_valve_reads_back(cfg, i);
    }
    assert forall|i: int| 0 <= i < 8 implies (#[trigger] sensor_at(b, 116 + 16 * i)) is Some by {
        written_sensor_reads_back(cfg, i);
    }
    if body_describes(b, back) {
        assert forall|i: int| 0 <= i < 4 implies #[trigger] back.valves@[i] == recorded_valve(
            cfg.valves@[i],
        ) by {
            written_valve_reads_back(cfg, i);
        }
        assert forall|i: int| 0 <= i < 8 implies #[trigger] back.sensors@[i] == recorded_sensor(
            cfg.sensors@[i],
        ) by {
            written_sensor_reads_back(cfg, i);
        }
        assert forall|i: int| 0 <= i < 18 implies #[trigger] back.tpdo_interval_ms@[i]
            == cfg.tpdo_interval_ms@[i] by {
            written_period_reads_back(cfg, i);
        }
        crate::index::per_len(back.tpdo_interval_ms);
        crate::index::per_len(cfg.tpdo_interval_ms);
        crate::index::per_is_its_entries(back.tpdo_interval_ms, cfg.tpdo_interval_ms);
    }
    if recorded_as(cfg, back) {
        assert forall|i: int| 0 <= i < 4 implies valve_at(b, 16 + 25 * i) == Some(
            #[trigger] back.valves@[i],
        ) by {
            written_valve_reads_back(cfg, i);
        }
        assert forall|i: int| 0 <= i < 8 implies sensor_at(b, 116 + 16 * i) == Some(
            #[trigger] back.sensors@[i],
        ) by {
            written_sensor_reads_back(cfg, i);
        }
        assert forall|i: int| 0 <= i < 18 implies #[trigger] back.tpdo_interval_ms@[i] == u16_at(
            b,
            244 + 2 * i,
        ) by {
            written_period_reads_back(cfg, i);
        }
    }
}

/// A written body agrees with the configuration that it was written for.
pub proof fn a_written_body_says_its_config(cfg: Config)
    ensures
        record_says(body_of(cfg), cfg),
{
    let b = body_of(cfg);
    body_length(cfg);
    body_parts_stand(cfg);
    relief_reads_back(b, 280, cfg.relief);
    settings_read_back(b, cfg);
    assert forall|i: int| 0 <= i < 4 implies valve_at(b, 16 + 25 * i) == Some(
        recorded_valve(#[trigger] cfg.valves@[i]),
    ) by {
        written_valve_reads_back(cfg, i);
    }
    assert forall|i: int| 0 <= i < 8 implies sensor_at(b, 116 + 16 * i) == Some(
        recorded_sensor(#[trigger] cfg.sensors@[i]),
    ) by {
        written_sensor_reads_back(cfg, i);
    }
    assert forall|i: int| 0 <= i < 18 implies #[trigger] cfg.tpdo_interval_ms@[i] == u16_at(
        b,
        244 + 2 * i,
    ) by {
        written_period_reads_back(cfg, i);
    }
}

proof fn settings_read_back(b: Seq<u8>, cfg: Config)
    requires
        stands_at(b, 0, settings_block(cfg)),
    ensures
        b[0] == cfg.master_node_id,
        (b[1] != 0) == cfg.fallback_enabled,
        u16_at(b, 2) == cfg.heartbeat_period_ms,
        u32_at(b, 4) == cfg.fallback_a_ms,
        u32_at(b, 8) == cfg.fallback_b_ms,
        u16_at(b, 12) == cfg.sensor_interval_ms,
        u16_at(b, 14) == cfg.scan_interval_ms,
{
    reveal(settings_block);
    let blk = settings_block(cfg);
    assert(blk.len() == 16);
    assert forall|k: int| 0 <= k < 16 implies #[trigger] b[k] == blk[k] by {
        assert(b[0 + k] == blk[k]);
    }
    word_reads_back(b, 2, cfg.heartbeat_period_ms);
    long_reads_back(b, 4, cfg.fallback_a_ms as int);
    long_reads_back(b, 8, cfg.fallback_b_ms as int);
    word_reads_back(b, 12, cfg.sensor_interval_ms);
    word_reads_back(b, 14, cfg.scan_interval_ms);
}

// Records.

/// The CRC-32/ISO-HDLC checksum of some bytes.
pub uninterp spec fn crc32_iso_hdlc(bytes: Seq<u8>) -> u32;

/// Calls [`crc::Crc::checksum`] with the catalogue's `CRC_32_ISO_HDLC` algorithm. The contract
/// claims only that the result is a function of the bytes.
#[verifier::external_body]
pub(crate) fn checksum(bytes: &[u8]) -> (r: u32)
    ensures
        r == crc32_iso_hdlc(bytes@),
{
    crc::Crc::<u32>::new(&crc::CRC_32_ISO_HDLC).checksum(bytes)
}

/// A record's header.
pub open spec fn header_of(sequence: u32) -> Seq<u8> {
    bytes32(MAGIC as int) + bytes16(VERSION as int) + bytes16(BODY_LEN as int) + bytes32(
        sequence as int,
    )
}

/// What a record's checksum is taken over.
pub open spec fn content_of(cfg: Config, sequence: u32) -> Seq<u8> {
    header_of(sequence) + body_of(cfg)
}

/// A whole record.
pub open spec fn record_of(cfg: Config, sequence: u32) -> Seq<u8> {
    content_of(cfg, sequence) + bytes32(crc32_iso_hdlc(content_of(cfg, sequence)) as int)
}

/// Where the content of a record ends, if it starts like one and is all there.
pub open spec fn content_end(buf: Seq<u8>) -> Option<int> {
    if buf.len() >= 16 && u32_at(buf, 0) == MAGIC && u16_at(buf, 4) == VERSION && 12 + u16_at(
        buf,
        6,
    ) + 4 <= buf.len() {
        Some(12 + u16_at(buf, 6))
    } else {
        None
    }
}

/// Whether a record with this computed checksum is to be believed.
pub open spec fn passes(buf: Seq<u8>, computed: u32) -> bool {
    &&& content_end(buf) is Some
    &&& u32_at(buf, content_end(buf)->0) == computed
    &&& body_is_valid(record_body(buf))
}

/// The body of a record.
pub open spec fn record_body(buf: Seq<u8>) -> Seq<u8> {
    buf.subrange(12, content_end(buf)->0)
}

/// The sequence number of a record.
pub open spec fn record_sequence(buf: Seq<u8>) -> u32 {
    u32_at(buf, 8)
}

/// Whether a buffer holds a record that can be used.
pub open spec fn record_is_valid(buf: Seq<u8>) -> bool {
    &&& content_end(buf) is Some
    &&& passes(buf, crc32_iso_hdlc(buf.take(content_end(buf)->0)))
}

/// Writes a record to the front of a buffer and returns its length; the rest of the buffer stays as
/// it was.
pub fn write_record(cfg: &Config, sequence: u32, buf: &mut [u8; 320]) -> (r: usize)
    ensures
        r == RECORD_LEN,
        final(buf)@ == record_of(*cfg, sequence) + old(buf)@.skip(307),
{
    let record = build_record(cfg, sequence);
    let ghost before = buf@;
    let mut i: usize = 0;
    while i < record.len()
        invariant
            i <= record@.len() == 307,
            before.len() == 320,
            buf@ == record@.take(i as int) + before.skip(i as int),
        decreases record@.len() - i,
    {
        buf[i] = record[i];
        assert(buf@ =~= record@.take(i + 1) + before.skip(i + 1));
        i += 1;
    }
    assert(record@.take(307) =~= record@);
    record.len()
}

/// Header, body and checksum of a record.
fn build_record(cfg: &Config, sequence: u32) -> (r: Vec<u8>)
    ensures
        r@ == record_of(*cfg, sequence),
        r@.len() == RECORD_LEN,
{
    let mut w = Writer::new();
    w.u32(MAGIC);
    w.u16(VERSION);
    w.u16(BODY_LEN as u16);
    w.u32(sequence);
    assert(w.buf@ =~= header_of(sequence));
    write_body(cfg, &mut w);
    let crc: u32 = checksum(w.buf.as_slice());
    w.u32(crc);
    proof {
        body_length(*cfg);
    }
    w.buf
}

/// Validates a record and returns its sequence number and parsed config.
pub fn read_record(buf: &[u8]) -> (r: Option<(u32, Config)>)
    ensures
        r is Some <==> record_is_valid(buf@),
        r matches Some((sequence, cfg)) ==> sequence == record_sequence(buf@) && body_describes(
            record_body(buf@),
            cfg,
        ),
{
    match record_content_end(buf) {
        Some(end) => {
            let content = &buf[0..end];
            assert(content@ =~= buf@.take(end as int));
            accept_record(buf, checksum(content))
        },
        None => None,
    }
}

/// Checks a record's magic, version and length, and says where its content ends.
fn record_content_end(buf: &[u8]) -> (r: Option<usize>)
    ensures
        r is Some <==> content_end(buf@) is Some,
        r matches Some(end) ==> end == content_end(buf@)->0,
{
    if buf.len() < HEADER_LEN + 4 {
        return None;
    }
    let mut header = Reader::new(buf);
    if header.u32() != MAGIC {
        return None;
    }
    if header.u16() != VERSION {
        return None;
    }
    let body_len: usize = header.u16() as usize;
    let end: usize = HEADER_LEN + body_len;
    if end + 4 > buf.len() {
        return None;
    }
    Some(end)
}

/// Accepts or rejects a record, given the checksum computed over its content.
pub fn accept_record(buf: &[u8], computed: u32) -> (r: Option<(u32, Config)>)
    ensures
        r is Some <==> passes(buf@, computed),
        r matches Some((sequence, cfg)) ==> sequence == record_sequence(buf@) && body_describes(
            record_body(buf@),
            cfg,
        ),
{
    let end: usize = match record_content_end(buf) {
        Some(end) => end,
        None => return None,
    };
    let stored: u32 = u32_from_le(buf[end], buf[end + 1], buf[end + 2], buf[end + 3]);
    if stored != computed {
        return None;
    }
    let sequence: u32 = u32_from_le(buf[8], buf[9], buf[10], buf[11]);
    let body = &buf[HEADER_LEN..end];
    assert(body@ == record_body(buf@));
    match read_body(body) {
        Some(cfg) => Some((sequence, cfg)),
        None => None,
    }
}

/// A record that was written is valid wherever it stands at the front of a buffer, carries its
/// sequence number, and describes the configuration that it was written for.
pub proof fn a_written_record_reads_back(cfg: Config, sequence: u32, rest: Seq<u8>, back: Config)
    ensures
        record_of(cfg, sequence).len() == RECORD_LEN,
        record_is_valid(record_of(cfg, sequence) + rest),
        record_sequence(record_of(cfg, sequence) + rest) == sequence,
        record_body(record_of(cfg, sequence) + rest) == body_of(cfg),
        body_describes(record_body(record_of(cfg, sequence) + rest), back) <==> recorded_as(
            cfg,
            back,
        ),
{
    let buf = record_of(cfg, sequence) + rest;
    let content = content_of(cfg, sequence);
    let header = header_of(sequence);
    let crc = crc32_iso_hdlc(content);
    body_length(cfg);
    assert(header.len() == 12);
    assert forall|k: int| 0 <= k < 12 implies buf[k] == header[k] by {}
    long_reads_back(buf, 0, MAGIC as int);
    word_reads_back(buf, 4, VERSION);
    word_reads_back(buf, 6, BODY_LEN as u16);
    long_reads_back(buf, 8, sequence as int);
    assert(content_end(buf) == Some(303int));
    assert(buf.take(303) =~= content);
    assert(buf.subrange(303, 307) =~= bytes32(crc as int));
    assert(buf[303] == buf.subrange(303, 307)[0] && buf[304] == buf.subrange(303, 307)[1]);
    assert(buf[305] == buf.subrange(303, 307)[2] && buf[306] == buf.subrange(303, 307)[3]);
    long_reads_back(buf, 303, crc as int);
    assert(record_body(buf) =~= body_of(cfg));
    a_written_body_reads_back(cfg, back);
}

/// Erased flash holds no record, whatever its length.
pub proof fn erased_flash_is_no_record(buf: Seq<u8>)
    requires
        forall|i: int| 0 <= i < buf.len() ==> #[trigger] buf[i] == 0xFF,
    ensures
        !record_is_valid(buf),
{
    if buf.len() >= 16 {
        assert(buf[0] == 0xFF && buf[1] == 0xFF && buf[2] == 0xFF && buf[3] == 0xFF);
    }
}

/// A record whose stored checksum is not the checksum of its content is rejected.
pub proof fn a_record_with_a_wrong_checksum_is_rejected(buf: Seq<u8>)
    requires
        content_end(buf) is Some,
        u32_at(buf, content_end(buf)->0) != crc32_iso_hdlc(buf.take(content_end(buf)->0)),
    ensures
        !record_is_valid(buf),
{
}

/// A record of another version is rejected.
pub proof fn another_version_is_rejected(buf: Seq<u8>)
    requires
        u16_at(buf, 4) != VERSION,
    ensures
        !record_is_valid(buf),
{
}

/// A body describes at most one configuration.
pub proof fn a_body_describes_one_config(b: Seq<u8>, x: Config, y: Config)
    requires
        body_describes(b, x),
        body_describes(b, y),
    ensures
        x == y,
{
    broadcast use crate::index::per_len;

    assert forall|i: int| 0 <= i < 4 implies x.valves@[i] == y.valves@[i] by {
        assert(Some(x.valves@[i]) == Some(y.valves@[i]));
    }
    assert forall|i: int| 0 <= i < 8 implies x.sensors@[i] == y.sensors@[i] by {
        assert(Some(x.sensors@[i]) == Some(y.sensors@[i]));
    }
    assert forall|i: int| 0 <= i < 18 implies x.tpdo_interval_ms@[i] == y.tpdo_interval_ms@[i] by {
        assert(x.tpdo_interval_ms@[i] == u16_at(b, 244 + 2 * i));
    }
    assert forall|i: int| 0 <= i < 4 implies x.heating@[i] == y.heating@[i] by {
        let (h, g) = (x.heating@[i], y.heating@[i]);
        assert(h.is_none() && g.is_none());
        assert forall|hco: HcoId| #[trigger] h.also.has(hco) == g.also.has(hco) by {
            assert(!g.also.has(hco));
        }
        super::heating::a_set_is_its_members(h.also, g.also);
    }
    crate::index::per_is_its_entries(x.valves, y.valves);
    crate::index::per_is_its_entries(x.sensors, y.sensors);
    crate::index::per_is_its_entries(x.tpdo_interval_ms, y.tpdo_interval_ms);
    crate::index::per_is_its_entries(x.heating, y.heating);
}

// The two-slot store.

/// What is known of the record that the flash currently holds.
pub struct NorConfigStore {
    /// Sequence number of the newest record, so a save can succeed it.
    last_sequence: Option<u32>,
    /// Which slot the newest record lives in, so a save goes to the other one.
    last_slot: usize,
    /// What the newest record and its supplement carry, so a save can tell a no-op commit from a
    /// real one.
    last_body: Option<Vec<u8>>,
}

/// A record to be put into the flash: erase the sector, write the supplement behind where the record
/// goes, then the record. Until the record is complete the sector holds none.
pub struct Commit {
    pub slot: usize,
    pub offset: u32,
    pub sequence: u32,
    pub record: Vec<u8>,
    pub supplement_offset: u32,
    pub supplement: Vec<u8>,
    pub stored: Vec<u8>,
}

/// Everything that is stored of a configuration: its body, and the content of its supplement.
pub open spec fn stored_of(cfg: Config) -> Seq<u8> {
    body_of(cfg) + supplement_content(cfg)
}

/// Serializes everything that is stored, for comparing a candidate save against what is already
/// there.
pub fn serialize_stored(cfg: &Config) -> (r: Vec<u8>)
    ensures
        r@ == stored_of(*cfg),
{
    let mut w = Writer { buf: serialize_body(cfg) };
    append_content(cfg, &mut w);
    assert(w.buf@ =~= stored_of(*cfg));
    w.buf
}

/// Whether what was read of a slot holds a usable record. `None` means that the read failed.
pub open spec fn slot_is_valid(slot: Option<[u8; 398]>) -> bool {
    slot is Some && slot_is_usable(slot->0@)
}

/// The slot whose record wins: the valid one with the higher sequence number, the first of two
/// equal ones.
pub open spec fn newest_of(slots: [Option<[u8; 398]>; 2]) -> Option<int> {
    let first = slots@[0];
    let second = slots@[1];
    if slot_is_valid(first) && slot_is_valid(second) {
        if record_sequence(second->0@) > record_sequence(first->0@) {
            Some(1)
        } else {
            Some(0)
        }
    } else if slot_is_valid(first) {
        Some(0)
    } else if slot_is_valid(second) {
        Some(1)
    } else {
        None
    }
}

impl NorConfigStore {
    pub closed spec fn newest_slot(self) -> int {
        self.last_slot as int
    }

    pub closed spec fn newest_sequence(self) -> Option<u32> {
        self.last_sequence
    }

    pub closed spec fn newest_body(self) -> Option<Seq<u8>> {
        match self.last_body {
            Some(body) => Some(body@),
            None => None,
        }
    }

    pub open spec fn wf(self) -> bool {
        0 <= self.newest_slot() < 2
    }

    /// Nothing known of the flash.
    pub open spec fn knows_nothing(self) -> bool {
        &&& self.newest_slot() == 1
        &&& self.newest_sequence() is None
        &&& self.newest_body() is None
    }

    pub fn new() -> (r: Self)
        ensures
            r.wf(),
            r.knows_nothing(),
    {
        Self { last_sequence: None, last_slot: 1, last_body: None }
    }

    /// Picks the newest valid config out of what was read of the two slots.
    ///
    /// A virgin board gives [`PersistError::NoValidRecord`], which is the caller's cue to keep the
    /// factory defaults. A slot that could not be read does not hide a good record in the other.
    pub fn load(&mut self, slots: &[Option<[u8; 398]>; 2]) -> (r: Result<Config, PersistError>)
        requires
            old(self).wf(),
        ensures
            final(self).wf(),
            r == Err::<Config, PersistError>(PersistError::NoValidRecord) <==> newest_of(*slots) is None,
            newest_of(*slots) matches Some(slot) ==> {
                let held = slots@[slot]->0@;
                &&& r is Ok <==> exists|cfg: Config| slot_describes(held, cfg) && cfg.is_sane()
                &&& r is Err ==> r == Err::<Config, PersistError>(PersistError::Invalid)
                &&& r matches Ok(cfg) ==> {
                    &&& slot_describes(held, cfg)
                    &&& cfg.is_sane()
                    &&& final(self).newest_slot() == slot
                    &&& final(self).newest_sequence() == Some(record_sequence(held))
                    &&& final(self).newest_body() == Some(stored_of(cfg))
                }
            },
            r is Err ==> *final(self) == *old(self),
    {
        let first = match &slots[0] {
            Some(buf) => read_slot(buf),
            None => None,
        };
        let second = match &slots[1] {
            Some(buf) => read_slot(buf),
            None => None,
        };
        let (slot, sequence, cfg): (usize, u32, Config) = match (first, second) {
            (Some((s0, c0)), Some((s1, c1))) => if s1 > s0 {
                (1, s1, c1)
            } else {
                (0, s0, c0)
            },
            (Some((s0, c0)), None) => (0, s0, c0),
            (None, Some((s1, c1))) => (1, s1, c1),
            (None, None) => return Err(PersistError::NoValidRecord),
        };
        let ghost held = slots@[slot as int]->0@;
        assert(slot_describes(held, cfg));
        proof {
            assert forall|other: Config| slot_describes(held, other) implies other == cfg by {
                super::supplement::a_slot_describes_one_config(held, cfg, other);
            }
        }
        if cfg.sanity_check().is_err() {
            return Err(PersistError::Invalid);
        }
        self.last_sequence = Some(sequence);
        self.last_slot = slot;
        self.last_body = Some(serialize_stored(&cfg));
        Ok(cfg)
    }

    /// Decides what to write so that `cfg` is committed: nothing if that is what is already
    /// stored, else a record in the slot that is not currently newest. Once it is in the flash,
    /// call [`Self::committed`].
    pub fn save(&self, cfg: &Config) -> (r: Result<Option<Commit>, PersistError>)
        requires
            self.wf(),
        ensures
            r is Err <==> !cfg.is_sane(),
            r is Err ==> r->Err_0 == PersistError::Invalid,
            r matches Ok(None) ==> self.newest_body() == Some(stored_of(*cfg)),
            r matches Ok(Some(commit)) ==> {
                &&& self.newest_body() != Some(stored_of(*cfg))
                &&& commit.slot == 1 - self.newest_slot()
                &&& commit.offset == 4096 * commit.slot
                &&& commit.sequence == self.next_sequence()
                &&& commit.record@ == record_of(*cfg, commit.sequence)
                &&& commit.supplement_offset == commit.offset + 320
                &&& commit.supplement@ == supplement_of(*cfg, commit.sequence)
                &&& commit.stored@ == stored_of(*cfg)
                &&& self.commits(*cfg, commit)
            },
    {
        if cfg.sanity_check().is_err() {
            return Err(PersistError::Invalid);
        }
        let stored = serialize_stored(cfg);
        if let Some(last) = &self.last_body {
            if same_bytes(last.as_slice(), stored.as_slice()) {
                return Ok(None);
            }
        }
        let slot: usize = 1 - self.last_slot;
        let sequence: u32 = match self.last_sequence {
            Some(last) => last.wrapping_add(1),
            None => 1,
        };
        let record = build_record(cfg, sequence);
        let supplement = build_supplement(cfg, sequence);
        let offset: u32 = SLOT_OFFSETS[slot];
        Ok(
            Some(
                Commit {
                    slot,
                    offset,
                    sequence,
                    record,
                    supplement_offset: offset + BUF_LEN as u32,
                    supplement,
                    stored,
                },
            ),
        )
    }

    /// The sequence number of the record after the newest one.
    pub open spec fn next_sequence(self) -> u32 {
        match self.newest_sequence() {
            Some(last) => if last == u32::MAX {
                0
            } else {
                (last + 1) as u32
            },
            None => 1,
        }
    }

    /// What a configuration is committed with: a record for the slot that is not the newest, under the
    /// next sequence number, and the supplement behind it.
    pub open spec fn commits(self, cfg: Config, commit: Commit) -> bool {
        &&& self.newest_body() != Some(stored_of(cfg))
        &&& commit.slot == 1 - self.newest_slot()
        &&& commit.offset == 4096 * commit.slot
        &&& commit.sequence == self.next_sequence()
        &&& commit.record@ == record_of(cfg, commit.sequence)
        &&& commit.supplement_offset == commit.offset + 320
        &&& commit.supplement@ == supplement_of(cfg, commit.sequence)
        &&& commit.stored@ == stored_of(cfg)
    }

    /// Adopts a record as the newest, once it is in the flash.
    pub fn committed(&mut self, commit: Commit)
        requires
            commit.slot < 2,
        ensures
            final(self).wf(),
            final(self).newest_slot() == commit.slot,
            final(self).newest_sequence() == Some(commit.sequence),
            final(self).newest_body() == Some(commit.stored@),
    {
        self.last_sequence = Some(commit.sequence);
        self.last_slot = commit.slot;
        self.last_body = Some(commit.stored);
    }

    /// Forgets the stored record, once both sectors at [`SLOT_OFFSETS`] are erased.
    pub fn erase_all(&mut self)
        ensures
            final(self).wf(),
            final(self).knows_nothing(),
    {
        self.last_sequence = None;
        self.last_slot = 1;
        self.last_body = None;
    }
}

impl Default for NorConfigStore {
    fn default() -> (r: Self)
        ensures
            r.wf(),
            r.knows_nothing(),
    {
        Self::new()
    }
}

fn same_bytes(a: &[u8], b: &[u8]) -> (r: bool)
    ensures
        r == (a@ == b@),
{
    if a.len() != b.len() {
        return false;
    }
    let mut i: usize = 0;
    while i < a.len()
        invariant
            i <= a@.len() == b@.len(),
            forall|k: int| 0 <= k < i ==> a@[k] == b@[k],
        decreases a@.len() - i,
    {
        if a[i] != b[i] {
            return false;
        }
        i += 1;
    }
    assert(a@ =~= b@);
    true
}

/// A power loss during a save costs at most the older record: whatever ends up in the slot that is
/// not the newest, as long as it is no usable record, the newest one is still found.
pub proof fn a_torn_save_keeps_the_newest_record(
    before: [Option<[u8; 398]>; 2],
    after: [Option<[u8; 398]>; 2],
    slot: int,
)
    requires
        newest_of(before) == Some(slot),
        after@[slot] == before@[slot],
        !slot_is_valid(after@[1 - slot]),
    ensures
        newest_of(after) == Some(slot),
{
}

/// A completed save is what the next load finds: with the new record and its supplement in the other
/// slot, under the sequence number after the newest one's, that slot is the newest and describes
/// exactly what was saved. The sequence number must not have wrapped.
pub proof fn a_saved_config_is_found_again(
    before: [Option<[u8; 398]>; 2],
    after: [Option<[u8; 398]>; 2],
    slot: int,
    cfg: Config,
    gap: Seq<u8>,
    back: Config,
)
    requires
        newest_of(before) == Some(slot),
        record_sequence(before@[slot]->0@) < u32::MAX,
        after@[slot] == before@[slot],
        after@[1 - slot] is Some,
        gap.len() == 13,
        after@[1 - slot]->0@ == stored_config(
            cfg,
            (record_sequence(before@[slot]->0@) + 1) as u32,
            gap,
        ),
    ensures
        newest_of(after) == Some(1 - slot),
        slot_describes(after@[1 - slot]->0@, back) <==> back == cfg,
{
    super::supplement::a_stored_config_reads_back(
        cfg,
        (record_sequence(before@[slot]->0@) + 1) as u32,
        gap,
        back,
    );
}

/// The first save of a virgin board is found again, too.
pub proof fn a_first_save_is_found_again(
    after: [Option<[u8; 398]>; 2],
    cfg: Config,
    sequence: u32,
    gap: Seq<u8>,
    slot: int,
    back: Config,
)
    requires
        slot == 0 || slot == 1,
        after@[slot] is Some,
        gap.len() == 13,
        after@[slot]->0@ == stored_config(cfg, sequence, gap),
        !slot_is_valid(after@[1 - slot]),
    ensures
        newest_of(after) == Some(slot),
        slot_describes(after@[slot]->0@, back) <==> back == cfg,
{
    super::supplement::a_stored_config_reads_back(cfg, sequence, gap, back);
}

/// What a save compares by is the configuration itself: only a changed one is stored differently.
pub proof fn only_a_changed_config_is_stored_differently(cfg: Config, stored: Config)
    ensures
        stored_of(cfg) == stored_of(stored) <==> cfg == stored,
{
    if stored_of(cfg) == stored_of(stored) {
        body_length(cfg);
        body_length(stored);
        content_length(cfg);
        content_length(stored);
        assert(body_of(cfg) =~= stored_of(cfg).take(291));
        assert(body_of(stored) =~= stored_of(stored).take(291));
        assert(supplement_content(cfg) =~= stored_of(cfg).skip(291));
        assert(supplement_content(stored) =~= stored_of(stored).skip(291));
        a_written_body_says_its_config(cfg);
        a_written_body_says_its_config(stored);
        super::supplement::a_written_content_says_its_config(cfg);
        super::supplement::a_written_content_says_its_config(stored);
        super::supplement::body_and_content_say_one_config(
            body_of(cfg),
            supplement_content(cfg),
            cfg,
            stored,
        );
    }
}

/// The settings of a body stand at its front: the master, the fallback's switch, four times in
/// milliseconds, the low byte first, and the two intervals; the broadcast periods stand from byte 244
/// on, two bytes each.
pub proof fn the_settings_are_laid_out(b: Seq<u8>, cfg: Config, kind: int)
    requires
        body_describes(b, cfg),
        0 <= kind < 18,
    ensures
        cfg.master_node_id == b[0],
        cfg.fallback_enabled <==> b[1] != 0,
        cfg.heartbeat_period_ms == b[2] + 256 * b[3],
        cfg.fallback_a_ms == b[4] + 256 * b[5] + 65536 * b[6] + 16777216 * b[7],
        cfg.fallback_b_ms == b[8] + 256 * b[9] + 65536 * b[10] + 16777216 * b[11],
        cfg.sensor_interval_ms == b[12] + 256 * b[13],
        cfg.scan_interval_ms == b[14] + 256 * b[15],
        cfg.tpdo_interval_ms@[kind] == b[244 + 2 * kind] + 256 * b[245 + 2 * kind],
{
}

/// A valve takes 25 bytes: its kind, its power and its signal output with 255 for none, eight words
/// and its two fallback actions, a word and a flag each.
pub proof fn a_valve_is_laid_out(b: Seq<u8>, at: int, v: ValveConfig)
    requires
        valve_at(b, at) == Some(v),
    ensures
        v.kind as int == b[at],
        v.power_hco is None <==> b[at + 1] == 255,
        v.power_hco matches Some(hco) ==> hco.position() == b[at + 1],
        v.signal_hco is None <==> b[at + 2] == 255,
        v.signal_hco matches Some(hco) ==> hco.position() == b[at + 2],
        v.closed_us == b[at + 3] + 256 * b[at + 4],
        v.open_us == b[at + 5] + 256 * b[at + 6],
        v.travel_ms == b[at + 7] + 256 * b[at + 8],
        v.stall_ma == b[at + 9] + 256 * b[at + 10],
        v.stall_ms == b[at + 11] + 256 * b[at + 12],
        v.settle_ms == b[at + 13] + 256 * b[at + 14],
        v.min_promille == b[at + 15] + 256 * b[at + 16],
        v.max_promille == b[at + 17] + 256 * b[at + 18],
        v.fallback_a.position == b[at + 19] + 256 * b[at + 20],
        v.fallback_a.unpower <==> b[at + 21] != 0,
        v.fallback_b.position == b[at + 22] + 256 * b[at + 23],
        v.fallback_b.unpower <==> b[at + 24] != 0,
        v.position_sensor is None,
{
    if b[at + 1] != 255 {
        HcoId::position_inverts_nth(b[at + 1] as int);
    }
    if b[at + 2] != 255 {
        HcoId::position_inverts_nth(b[at + 2] as int);
    }
}

/// A sensor slot takes 16 bytes: its kind, its bus with 255 for none, its strap, its unit, and the
/// three numbers of its calibration in two's complement.
pub proof fn a_sensor_is_laid_out(b: Seq<u8>, at: int, s: SensorSlotConfig)
    requires
        sensor_at(b, at) == Some(s),
    ensures
        s.kind as int == b[at],
        s.bus is None <==> b[at + 1] == 255,
        s.bus matches Some(bus) ==> bus.position() == b[at + 1],
        s.amplifier.position() == b[at + 2],
        s.unit as int == b[at + 3],
        (s.calib.offset_milli - (b[at + 4] + 256 * b[at + 5] + 65536 * b[at + 6] + 16777216 * b[at
            + 7])) % 0x1_0000_0000 == 0,
        (s.calib.slope_nano - (b[at + 8] + 256 * b[at + 9] + 65536 * b[at + 10] + 16777216 * b[at
            + 11])) % 0x1_0000_0000 == 0,
        (s.calib.constant_milli - (b[at + 12] + 256 * b[at + 13] + 65536 * b[at + 14] + 16777216
            * b[at + 15])) % 0x1_0000_0000 == 0,
{
    AmplifierId::position_inverts_nth(b[at + 2] as int);
    if b[at + 1] != 255 {
        I2cBus::position_inverts_nth(b[at + 1] as int);
    }
}

/// The relief loop takes 11 bytes: its switch, its valve with 255 for none, its slot, its threshold in
/// two's complement and three words.
pub proof fn a_relief_loop_is_laid_out(b: Seq<u8>, at: int, r: ReliefConfig)
    requires
        relief_at(b, at) == Some(r),
    ensures
        r.enabled <==> b[at] != 0,
        r.valve is None <==> b[at + 1] == 255,
        r.valve matches Some(valve) ==> valve.position() == b[at + 1],
        r.sensor.position() == b[at + 2],
        (r.threshold - (b[at + 3] + 256 * b[at + 4])) % 65536 == 0,
        r.position == b[at + 5] + 256 * b[at + 6],
        r.pulse_ms == b[at + 7] + 256 * b[at + 8],
        r.cooldown_ms == b[at + 9] + 256 * b[at + 10],
{
    SensorSlot::position_inverts_nth(b[at + 2] as int);
    if b[at + 1] != 255 {
        ValveId::position_inverts_nth(b[at + 1] as int);
    }
}

/// The blocks stand behind one another: a valve every 25 bytes from 16 on, a sensor slot every 16 from
/// 116 on, and the relief loop at 280.
pub proof fn the_blocks_are_laid_out(b: Seq<u8>, cfg: Config, valve: ValveId, slot: SensorSlot)
    requires
        body_describes(b, cfg),
    ensures
        valve_at(b, 16 + 25 * valve.position()) == Some(cfg.valves.at(valve)),
        sensor_at(b, 116 + 16 * slot.position()) == Some(cfg.sensors.at(slot)),
        relief_at(b, 280) == Some(cfg.relief),
{
    valve.position_in_range();
    slot.position_in_range();
}

/// A usable record begins with its four letters, the version 3 and the length of its body, and ends
/// behind the body with the checksum of everything before. The sequence number stands in between.
pub proof fn a_record_is_laid_out(buf: Seq<u8>)
    requires
        record_is_valid(buf),
    ensures
        buf[0] == 0x43 && buf[1] == 0x4f && buf[2] == 0x49 && buf[3] == 0x42,
        buf[4] == 3 && buf[5] == 0,
        record_sequence(buf) == buf[8] + 256 * buf[9] + 65536 * buf[10] + 16777216 * buf[11],
        ({
            let end = 12 + buf[6] + 256 * buf[7];
            &&& 303 <= end <= buf.len() - 4
            &&& record_body(buf) == buf.subrange(12, end)
            &&& buf[end] + 256 * buf[end + 1] + 65536 * buf[end + 2] + 16777216 * buf[end + 3]
                == crc32_iso_hdlc(buf.take(end))
        }),
{
}

/// The record that wins is usable, and no other usable one has a higher sequence number; there is none
/// exactly if no slot holds a usable one.
pub proof fn the_newest_record_wins(slots: [Option<[u8; 398]>; 2])
    ensures
        newest_of(slots) is None <==> !slot_is_valid(slots@[0]) && !slot_is_valid(slots@[1]),
        newest_of(slots) matches Some(slot) ==> {
            &&& slot == 0 || slot == 1
            &&& slot_is_valid(slots@[slot])
            &&& slot_is_valid(slots@[1 - slot]) ==> record_sequence(slots@[1 - slot]->0@)
                <= record_sequence(slots@[slot]->0@)
        },
        forall|slot: Option<[u8; 398]>|
            slot is None ==> !#[trigger] slot_is_valid(slot),
{
}

/// Saves take turns: the one after a commit goes to the other slot, under the next sequence number, and
/// what was just committed is not written again. The first save of all is number 1, in the first slot.
pub proof fn saves_take_turns(
    before: NorConfigStore,
    after: NorConfigStore,
    cfg: Config,
    other: Config,
    commit: Commit,
    next: Commit,
)
    requires
        before.wf(),
        before.commits(cfg, commit),
        after.newest_slot() == commit.slot,
        after.newest_sequence() == Some(commit.sequence),
        after.newest_body() == Some(commit.stored@),
        after.commits(other, next),
    ensures
        other != cfg,
        next.slot + commit.slot == 1,
        next.offset + commit.offset == 4096,
        next.supplement_offset == next.offset + 320,
        commit.sequence < u32::MAX ==> next.sequence == commit.sequence + 1,
        before.knows_nothing() ==> commit.sequence == 1 && commit.slot == 0 && commit.offset == 0,
{
}

} // verus!
