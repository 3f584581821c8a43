//! What a stored configuration carries besides its record.
//!
//! The supplement stands behind the record, in the same sector, and belongs to the record with its
//! sequence number. It is written first, so a record that is complete has its supplement.
//!
//! ```text
//! 320   magic      u32         0   four position sensors    1 byte each    (offsets into the
//! 324   sequence   u32         4   eight pins and channels  2 bytes each    content)
//! 328   content    66 bytes   20   four heating pads       11 bytes each
//! 394   checksum   u32       64   heater setpoint         i16
//! ```
use super::persist::{a_body_describes_one_config, a_written_body_says_its_config, a_written_record_reads_back, body_describes, bytes16, bytes32, checksum, crc32_iso_hdlc, flag_byte, i16_at, id_reads_back, long_reads_back, opt_id_byte, opt_id_of, opt_id_ok, read_record, record_body, record_is_valid, record_of, record_says, record_sequence, recorded_sensor, recorded_valve, stands_at, stands_in_the_whole, u16_at, u32_at, word_reads_back, Reader, Writer};
use super::{Config, HcoSet, SensorSlotConfig, ValveConfig, ValveHeatingConfig};
use crate::bytes::{bits16, i16_from_bits, i16_to_bits, u32_from_le};
use crate::index::{AnalogInput, HcoId, Id, PdoSensorChannel, Per, PerSensorSlot, PerValve, SensorSlot, ValveId};
use core::ops::IndexMut;
use vstd::prelude::*;

verus! {

/// "COIS", as it stands in the flash.
pub const SUPPLEMENT_MAGIC: u32 = 0x5349_4F43;

/// Where the supplement stands in a sector.
pub const SUPPLEMENT_OFFSET: usize = 320;

pub const CONTENT_LEN: usize = 66;

pub const SUPPLEMENT_LEN: usize = 78;

/// How much of a sector is read back: the record's part, and the supplement.
pub const SLOT_LEN: usize = 398;

// What the bytes say.

/// Whether a block of 11 bytes describes a heating pad: its output and slot exist.
pub open spec fn heating_is_valid(b: Seq<u8>, at: int) -> bool {
    opt_id_ok::<HcoId>(b[at + 1]) && opt_id_ok::<SensorSlot>(b[at + 6])
}

/// Whether a heating pad is the one that a block of 11 bytes describes.
pub open spec fn heating_describes(b: Seq<u8>, at: int, h: ValveHeatingConfig) -> bool {
    &&& heating_is_valid(b, at)
    &&& h.enabled == (b[at] != 0)
    &&& h.hco == opt_id_of::<HcoId>(b[at + 1])
    &&& forall|hco: HcoId| #[trigger] h.also.has(hco) == (b[at + 2 + hco.position()] != 0)
    &&& h.sensor == opt_id_of::<SensorSlot>(b[at + 6])
    &&& h.setpoint == i16_at(b, at + 7)
    &&& h.hysteresis == u16_at(b, at + 9)
}

/// Whether some content describes anything at all: long enough, with every id existing.
pub open spec fn content_is_valid(c: Seq<u8>) -> bool {
    &&& c.len() >= CONTENT_LEN
    &&& forall|i: int| 0 <= i < 4 ==> #[trigger] position_is_valid(c, i)
    &&& forall|i: int| 0 <= i < 8 ==> #[trigger] input_is_valid(c, i)
    &&& forall|i: int| 0 <= i < 4 ==> #[trigger] heating_is_valid(c, 20 + 11 * i)
}

/// Whether the slot exists that a valve's position comes from.
pub open spec fn position_is_valid(c: Seq<u8>, i: int) -> bool {
    opt_id_ok::<SensorSlot>(c[i])
}

/// Whether a sensor's pin and broadcast channel exist.
pub open spec fn input_is_valid(c: Seq<u8>, i: int) -> bool {
    c[4 + 2 * i] < 4 && opt_id_ok::<PdoSensorChannel>(c[5 + 2 * i])
}

/// Whether a configuration agrees with some content on everything that the content carries.
pub open spec fn content_says(c: Seq<u8>, cfg: Config) -> bool {
    &&& forall|i: int|
        0 <= i < 4 ==> (#[trigger] cfg.valves@[i]).position_sensor == opt_id_of::<SensorSlot>(c[i])
    &&& forall|i: int|
        0 <= i < 8 ==> {
            &&& (#[trigger] cfg.sensors@[i]).analog == AnalogInput::nth(c[4 + 2 * i] as int)
            &&& cfg.sensors@[i].pdo_channel == opt_id_of::<PdoSensorChannel>(c[5 + 2 * i])
        }
    &&& forall|i: int| 0 <= i < 4 ==> heating_describes(c, 20 + 11 * i, #[trigger] cfg.heating@[i])
    &&& cfg.heater_setpoint_centi_c == i16_at(c, 64)
}

/// Whether one configuration is another one with what some content carries put in.
pub open spec fn completes(c: Seq<u8>, base: Config, cfg: Config) -> bool {
    &&& content_says(c, cfg)
    &&& cfg == (Config {
        valves: cfg.valves,
        sensors: cfg.sensors,
        heating: cfg.heating,
        heater_setpoint_centi_c: cfg.heater_setpoint_centi_c,
        ..base
    })
    &&& forall|i: int|
        0 <= i < 4 ==> recorded_valve(#[trigger] cfg.valves@[i]) == recorded_valve(base.valves@[i])
    &&& forall|i: int|
        0 <= i < 8 ==> recorded_sensor(#[trigger] cfg.sensors@[i]) == recorded_sensor(
            base.sensors@[i],
        )
}

/// Whether a slot has a supplement.
pub open spec fn has_supplement(slot: Seq<u8>) -> bool {
    slot.len() >= SLOT_LEN && u32_at(slot, 320) == SUPPLEMENT_MAGIC
}

/// The content of a slot's supplement.
pub open spec fn slot_content(slot: Seq<u8>) -> Seq<u8> {
    slot.subrange(328, 394)
}

/// Whether a supplement with this computed checksum is to be believed: it belongs to the record
/// before it, is all there, and describes something.
pub open spec fn supplement_passes(slot: Seq<u8>, computed: u32) -> bool {
    &&& u32_at(slot, 324) == record_sequence(slot)
    &&& u32_at(slot, 394) == computed
    &&& content_is_valid(slot_content(slot))
}

/// Whether a slot holds a record that can be used: a valid one, with no supplement or a good one. A
/// garbled supplement fails the whole slot rather than being half applied.
pub open spec fn slot_is_usable(slot: Seq<u8>) -> bool {
    &&& record_is_valid(slot.take(320))
    &&& has_supplement(slot) ==> supplement_passes(slot, crc32_iso_hdlc(slot.subrange(320, 394)))
}

/// Whether a configuration is the one that a slot describes. Without a supplement it is the one that
/// the record describes, with defaults for what the record does not carry.
pub open spec fn slot_describes(slot: Seq<u8>, cfg: Config) -> bool {
    let body = record_body(slot.take(320));
    if has_supplement(slot) {
        record_says(body, cfg) && content_says(slot_content(slot), cfg)
    } else {
        body_describes(body, cfg)
    }
}

// What the writer puts down.

pub open spec fn position_bytes(cfg: Config) -> Seq<u8> {
    Seq::new(4, |i: int| opt_id_byte(cfg.valves@[i].position_sensor))
}

/// A sensor's pin and broadcast channel.
pub open spec fn input_bytes(cfg: Config) -> Seq<u8> {
    Seq::new(
        16,
        |k: int|
            if k % 2 == 0 {
                cfg.sensors@[k / 2].analog as u8
            } else {
                opt_id_byte(cfg.sensors@[k / 2].pdo_channel)
            },
    )
}

/// A heating pad: 11 bytes.
#[verifier::opaque]
pub open spec fn heating_block(h: ValveHeatingConfig) -> Seq<u8> {
    seq![
        flag_byte(h.enabled),
        opt_id_byte(h.hco),
        flag_byte(h.also.has(HcoId::Hco0)),
        flag_byte(h.also.has(HcoId::Hco1)),
        flag_byte(h.also.has(HcoId::Hco2)),
        flag_byte(h.also.has(HcoId::Hco3)),
        opt_id_byte(h.sensor),
    ] + bytes16(bits16(h.setpoint)) + bytes16(h.hysteresis as int)
}

/// The first `n` heating pads.
pub open spec fn heating_blocks(cfg: Config, n: nat) -> Seq<u8>
    decreases n,
{
    if n == 0 {
        seq![]
    } else {
        heating_blocks(cfg, (n - 1) as nat) + heating_block(cfg.heating@[n - 1])
    }
}

/// The content of a configuration's supplement.
pub open spec fn content_of(cfg: Config) -> Seq<u8> {
    position_bytes(cfg) + input_bytes(cfg) + heating_blocks(cfg, 4) + bytes16(
        bits16(cfg.heater_setpoint_centi_c),
    )
}

/// What a supplement's checksum is taken over.
pub open spec fn supplement_head(cfg: Config, sequence: u32) -> Seq<u8> {
    bytes32(SUPPLEMENT_MAGIC as int) + bytes32(sequence as int) + content_of(cfg)
}

/// A whole supplement.
pub open spec fn supplement_of(cfg: Config, sequence: u32) -> Seq<u8> {
    supplement_head(cfg, sequence) + bytes32(
        crc32_iso_hdlc(supplement_head(cfg, sequence)) as int,
    )
}

/// What is read back of a sector that a configuration was stored in. Nothing is written to the gap
/// between the record and its supplement.
pub open spec fn stored_config(cfg: Config, sequence: u32, gap: Seq<u8>) -> Seq<u8> {
    record_of(cfg, sequence) + gap + supplement_of(cfg, sequence)
}

fn write_heating(w: &mut Writer, h: &ValveHeatingConfig)
    ensures
        final(w).buf@ == old(w).buf@ + heating_block(*h),
{
    w.flag(h.enabled);
    w.opt_id(h.hco);
    w.flag(h.also.contains(HcoId::Hco0));
    w.flag(h.also.contains(HcoId::Hco1));
    w.flag(h.also.contains(HcoId::Hco2));
    w.flag(h.also.contains(HcoId::Hco3));
    w.opt_id(h.sensor);
    w.u16(i16_to_bits(h.setpoint));
    w.u16(h.hysteresis);
    reveal(heating_block);
    assert(w.buf@ =~= old(w).buf@ + heating_block(*h));
}

/// Serializes the content of a supplement.
pub(crate) fn append_content(cfg: &Config, w: &mut Writer)
    ensures
        final(w).buf@ == old(w).buf@ + content_of(*cfg),
{
    let ghost start = w.buf@;
    let mut i: usize = 0;
    assert(w.buf@ =~= start + position_bytes(*cfg).take(0));
    while i < 4
        invariant
            i <= 4,
            w.buf@ == start + position_bytes(*cfg).take(i as int),
        decreases 4 - i,
    {
        w.opt_id(cfg.valves.as_array()[i].position_sensor);
        assert(w.buf@ =~= start + position_bytes(*cfg).take(i + 1));
        i += 1;
    }
    assert(w.buf@ =~= start + position_bytes(*cfg));
    let ghost head = position_bytes(*cfg);
    let mut i: usize = 0;
    assert(w.buf@ =~= start + head + input_bytes(*cfg).take(0));
    while i < 8
        invariant
            i <= 8,
            w.buf@ == start + head + input_bytes(*cfg).take(2 * i),
        decreases 8 - i,
    {
        w.u8(cfg.sensors.as_array()[i].analog.as_u8());
        w.opt_id(cfg.sensors.as_array()[i].pdo_channel);
        assert((2 * i + 1) / 2 == i && (2 * i) / 2 == i);
        assert(w.buf@ =~= start + head + input_bytes(*cfg).take(2 * (i + 1)));
        i += 1;
    }
    let ghost head = head + input_bytes(*cfg);
    let mut i: usize = 0;
    assert(w.buf@ =~= start + head + heating_blocks(*cfg, 0));
    while i < 4
        invariant
            i <= 4,
            w.buf@ == start + head + heating_blocks(*cfg, i as nat),
        decreases 4 - i,
    {
        write_heating(w, &cfg.heating.as_array()[i]);
        assert(w.buf@ =~= start + head + heating_blocks(*cfg, (i + 1) as nat));
        i += 1;
    }
    w.u16(i16_to_bits(cfg.heater_setpoint_centi_c));
    assert(w.buf@ =~= start + content_of(*cfg));
}

/// Header, content and checksum of a supplement.
pub fn build_supplement(cfg: &Config, sequence: u32) -> (r: Vec<u8>)
    ensures
        r@ == supplement_of(*cfg, sequence),
        r@.len() == SUPPLEMENT_LEN,
{
    let mut w = Writer::new();
    w.u32(SUPPLEMENT_MAGIC);
    w.u32(sequence);
    append_content(cfg, &mut w);
    assert(w.buf@ =~= supplement_head(*cfg, sequence));
    let crc: u32 = checksum(w.buf.as_slice());
    w.u32(crc);
    proof {
        content_length(*cfg);
    }
    w.buf
}

/// Every configuration's content fills the supplement's room for it.
pub proof fn content_length(cfg: Config)
    ensures
        content_of(cfg).len() == CONTENT_LEN,
        heating_blocks(cfg, 4).len() == 44,
{
    heating_blocks_length(cfg, 4);
}

proof fn heating_block_length(h: ValveHeatingConfig)
    ensures
        heating_block(h).len() == 11,
{
    reveal(heating_block);
}

proof fn heating_blocks_length(cfg: Config, n: nat)
    ensures
        heating_blocks(cfg, n).len() == 11 * n,
    decreases n,
{
    if n > 0 {
        heating_blocks_length(cfg, (n - 1) as nat);
        reveal(heating_block);
    }
}

/// A set of outputs, as one flag each.
fn read_outputs(r: &mut Reader) -> (out: HcoSet)
    requires
        old(r).has(4),
    ensures
        final(r).moved(*old(r), 4),
        forall|hco: HcoId| #[trigger]
            out.has(hco) == (old(r).buf@[old(r).pos + hco.position()] != 0),
{
    let mut set = HcoSet::empty();
    let mut i: usize = 0;
    while i < 4
        invariant
            i <= 4,
            old(r).has(4),
            r.moved(*old(r), i as int),
            forall|hco: HcoId| #[trigger]
                set.has(hco) == (hco.position() < i && old(r).buf@[old(r).pos
                    + hco.position()] != 0),
        decreases 4 - i,
    {
        let ghost before = set;
        let on = r.flag();
        let hco = HcoId::ALL[i];
        if on {
            set = set.with(hco);
        }
        proof {
            assert(hco.position() == i);
            assert forall|other: HcoId| #[trigger]
                set.has(other) == (other.position() < i + 1 && old(r).buf@[old(r).pos
                    + other.position()] != 0) by {
                assert(before.has(other) == (other.position() < i && old(r).buf@[old(r).pos + other.position()] != 0));
                if other.position() == i {
                    other.nth_inverts_position();
                }
            }
        }
        i += 1;
    }
    proof {
        assert forall|hco: HcoId| #[trigger]
            set.has(hco) == (old(r).buf@[old(r).pos + hco.position()] != 0) by {
            hco.position_in_range();
        }
    }
    set
}

fn read_pad(r: &mut Reader) -> (out: Option<ValveHeatingConfig>)
    requires
        old(r).has(11),
    ensures
        out is Some <==> heating_is_valid(old(r).buf@, old(r).pos as int),
        out matches Some(h) ==> heating_describes(old(r).buf@, old(r).pos as int, h)
            && final(r).moved(*old(r), 11),
{
    let ghost start = *r;
    let enabled = r.flag();
    let hco: Option<HcoId> = match r.opt_id() {
        Ok(id) => id,
        Err(_) => return None,
    };
    let also = read_outputs(r);
    let sensor: Option<SensorSlot> = match r.opt_id() {
        Ok(id) => id,
        Err(_) => return None,
    };
    let setpoint: i16 = i16_from_bits(r.u16());
    let hysteresis: u16 = r.u16();
    proof {
        assert forall|out: HcoId| #[trigger]
            also.has(out) == (start.buf@[start.pos + 2 + out.position()] != 0) by {}
    }
    Some(ValveHeatingConfig { enabled, hco, also, sensor, setpoint, hysteresis })
}

/// Reads the four heating pads.
fn read_heating(r: &mut Reader) -> (out: Option<PerValve<ValveHeatingConfig>>)
    requires
        old(r).has(44),
    ensures
        out is Some <==> forall|i: int|
            0 <= i < 4 ==> #[trigger] heating_is_valid(old(r).buf@, old(r).pos + 11 * i),
        out matches Some(heating) ==> final(r).moved(*old(r), 44) && forall|i: int|
            0 <= i < 4 ==> heating_describes(
                old(r).buf@,
                old(r).pos + 11 * i,
                #[trigger] heating@[i],
            ),
{
    broadcast use crate::index::per_len;

    let mut heating: PerValve<ValveHeatingConfig> = Per::splat(ValveHeatingConfig::none());
    let mut i: usize = 0;
    while i < 4
        invariant
            i <= 4,
            heating@.len() == 4,
            old(r).has(44),
            r.buf == old(r).buf,
            r.pos == old(r).pos + 11 * i,
            forall|k: int|
                0 <= k < i ==> heating_describes(
                    r.buf@,
                    old(r).pos + 11 * k,
                    #[trigger] heating@[k],
                ),
        decreases 4 - i,
    {
        let pad = match read_pad(r) {
            Some(pad) => pad,
            None => {
                assert(!heating_is_valid(old(r).buf@, old(r).pos + 11 * i));
                return None;
            },
        };
        let ghost before = heating;
        *heating.index_mut(ValveId::ALL[i]) = pad;
        assert(heating@ == before@.update(i as int, pad));
        i += 1;
    }
    assert forall|k: int| 0 <= k < 4 implies #[trigger] heating_is_valid(
        old(r).buf@,
        old(r).pos + 11 * k,
    ) by {
        assert(heating_describes(r.buf@, old(r).pos + 11 * k, heating@[k]));
    }
    Some(heating)
}

/// Reads where the valves' positions come from.
fn read_positions(r: &mut Reader, base: &PerValve<ValveConfig>) -> (out: Option<PerValve<ValveConfig>>)
    requires
        old(r).has(4),
    ensures
        out is Some <==> forall|i: int|
            0 <= i < 4 ==> opt_id_ok::<SensorSlot>(#[trigger] old(r).buf@[old(r).pos + i]),
        out matches Some(valves) ==> final(r).moved(*old(r), 4) && forall|i: int|
            0 <= i < 4 ==> #[trigger] valves@[i] == (ValveConfig {
                position_sensor: opt_id_of(old(r).buf@[old(r).pos + i]),
                ..base@[i]
            }),
{
    broadcast use crate::index::per_len;

    let mut valves = *base;
    let mut i: usize = 0;
    while i < 4
        invariant
            i <= 4,
            valves@.len() == 4,
            base@.len() == 4,
            old(r).has(4),
            r.moved(*old(r), i as int),
            forall|k: int|
                0 <= k < i ==> opt_id_ok::<SensorSlot>(#[trigger] old(r).buf@[old(r).pos + k]),
            forall|k: int|
                0 <= k < 4 ==> #[trigger] valves@[k] == if k < i {
                    ValveConfig {
                        position_sensor: opt_id_of(old(r).buf@[old(r).pos + k]),
                        ..base@[k]
                    }
                } else {
                    base@[k]
                },
        decreases 4 - i,
    {
        let position_sensor: Option<SensorSlot> = match r.opt_id() {
            Ok(id) => id,
            Err(_) => {
                assert(!opt_id_ok::<SensorSlot>(old(r).buf@[old(r).pos + i]));
                return None;
            },
        };
        let ghost before = valves;
        let valve = ValveConfig { position_sensor, ..valves[ValveId::ALL[i]] };
        *valves.index_mut(ValveId::ALL[i]) = valve;
        assert(valves@ == before@.update(i as int, valve));
        i += 1;
    }
    Some(valves)
}

/// Reads the sensors' pins and broadcast channels.
fn read_inputs(r: &mut Reader, base: &PerSensorSlot<SensorSlotConfig>) -> (out: Option<
    PerSensorSlot<SensorSlotConfig>,
>)
    requires
        old(r).has(16),
        old(r).pos == 4,
    ensures
        out is Some <==> forall|i: int| 0 <= i < 8 ==> #[trigger] input_is_valid(old(r).buf@, i),
        out matches Some(sensors) ==> final(r).moved(*old(r), 16) && forall|i: int|
            0 <= i < 8 ==> #[trigger] sensors@[i] == (SensorSlotConfig {
                analog: AnalogInput::nth(old(r).buf@[4 + 2 * i] as int),
                pdo_channel: opt_id_of(old(r).buf@[5 + 2 * i]),
                ..base@[i]
            }),
{
    broadcast use crate::index::per_len;

    let mut sensors = *base;
    let mut i: usize = 0;
    while i < 8
        invariant
            i <= 8,
            sensors@.len() == 8,
            base@.len() == 8,
            old(r).has(16),
            old(r).pos == 4,
            r.moved(*old(r), 2 * i),
            forall|k: int| 0 <= k < i ==> #[trigger] input_is_valid(old(r).buf@, k),
            forall|k: int|
                0 <= k < 8 ==> #[trigger] sensors@[k] == if k < i {
                    SensorSlotConfig {
                        analog: AnalogInput::nth(old(r).buf@[4 + 2 * k] as int),
                        pdo_channel: opt_id_of(old(r).buf@[5 + 2 * k]),
                        ..base@[k]
                    }
                } else {
                    base@[k]
                },
        decreases 8 - i,
    {
        let analog: AnalogInput = match r.id() {
            Ok(id) => id,
            Err(_) => {
                assert(!input_is_valid(old(r).buf@, i as int));
                return None;
            },
        };
        let pdo_channel: Option<PdoSensorChannel> = match r.opt_id() {
            Ok(id) => id,
            Err(_) => {
                assert(!input_is_valid(old(r).buf@, i as int));
                return None;
            },
        };
        let ghost before = sensors;
        let sensor = SensorSlotConfig { analog, pdo_channel, ..sensors[SensorSlot::ALL[i]] };
        *sensors.index_mut(SensorSlot::ALL[i]) = sensor;
        assert(sensors@ == before@.update(i as int, sensor));
        i += 1;
    }
    Some(sensors)
}

/// Puts what some content carries into a configuration. Any id that does not exist fails the whole
/// of it.
pub fn complete(base: &Config, content: &[u8]) -> (r: Option<Config>)
    ensures
        r is Some <==> content_is_valid(content@),
        r matches Some(cfg) ==> completes(content@, *base, cfg),
{
    if content.len() < CONTENT_LEN {
        return None;
    }
    let mut r = Reader::new(content);
    let mut cfg = *base;
    match read_positions(&mut r, &base.valves) {
        Some(valves) => {
            assert forall|i: int| 0 <= i < 4 implies #[trigger] position_is_valid(content@, i) by {
                assert(opt_id_ok::<SensorSlot>(content@[0 + i]));
            }
            cfg.valves = valves;
        },
        None => {
            assert(exists|i: int| 0 <= i < 4 && !position_is_valid(content@, i)) by {
                let i = choose|i: int|
                    0 <= i < 4 && !opt_id_ok::<SensorSlot>(#[trigger] content@[0 + i]);
                assert(!position_is_valid(content@, i));
            }
            return None;
        },
    }
    match read_inputs(&mut r, &base.sensors) {
        Some(sensors) => cfg.sensors = sensors,
        None => return None,
    }
    match read_heating(&mut r) {
        Some(heating) => cfg.heating = heating,
        None => return None,
    }
    cfg.heater_setpoint_centi_c = i16_from_bits(r.u16());
    Some(cfg)
}

/// Accepts or rejects the supplement of a slot, given the checksum computed over it, and puts what it
/// carries into the configuration that the record describes.
pub fn accept_supplement(slot: &[u8; 398], base: &Config, computed: u32) -> (r: Option<Config>)
    ensures
        r is Some <==> supplement_passes(slot@, computed),
        r matches Some(cfg) ==> completes(slot_content(slot@), *base, cfg),
{
    if u32_from_le(slot[324], slot[325], slot[326], slot[327]) != u32_from_le(
        slot[8],
        slot[9],
        slot[10],
        slot[11],
    ) {
        return None;
    }
    if u32_from_le(slot[394], slot[395], slot[396], slot[397]) != computed {
        return None;
    }
    let bytes = slot.as_slice();
    let content = &bytes[328..394];
    assert(content@ == slot_content(slot@));
    complete(base, content)
}

/// Validates what was read of a slot and returns its sequence number and parsed config.
pub fn read_slot(slot: &[u8; 398]) -> (r: Option<(u32, Config)>)
    ensures
        r is Some <==> slot_is_usable(slot@),
        r matches Some((sequence, cfg)) ==> sequence == record_sequence(slot@) && slot_describes(
            slot@,
            cfg,
        ),
{
    let bytes = slot.as_slice();
    let record = &bytes[0..SUPPLEMENT_OFFSET];
    assert(record@ =~= slot@.take(320));
    let (sequence, base): (u32, Config) = match read_record(record) {
        Some((sequence, base)) => (sequence, base),
        None => return None,
    };
    if u32_from_le(slot[320], slot[321], slot[322], slot[323]) != SUPPLEMENT_MAGIC {
        return Some((sequence, base));
    }
    let covered = &bytes[SUPPLEMENT_OFFSET..394];
    assert(covered@ =~= slot@.subrange(320, 394));
    match accept_supplement(slot, &base, checksum(covered)) {
        Some(cfg) => {
            proof {
                a_completed_config_says_both(
                    record_body(slot@.take(320)),
                    slot_content(slot@),
                    base,
                    cfg,
                );
            }
            Some((sequence, cfg))
        },
        None => None,
    }
}

/// A configuration with the content put in still agrees with the record that it came from.
pub proof fn a_completed_config_says_both(body: Seq<u8>, c: Seq<u8>, base: Config, cfg: Config)
    requires
        body_describes(body, base),
        completes(c, base, cfg),
    ensures
        record_says(body, cfg),
        content_says(c, cfg),
{
    assert forall|i: int| 0 <= i < 4 implies super::persist::valve_at(body, 16 + 25 * i) == Some(
        recorded_valve(#[trigger] cfg.valves@[i]),
    ) by {
        assert(super::persist::valve_at(body, 16 + 25 * i) == Some(base.valves@[i]));
        assert(base.valves@[i] == recorded_valve(base.valves@[i]));
    }
    assert forall|i: int| 0 <= i < 8 implies super::persist::sensor_at(body, 116 + 16 * i) == Some(
        recorded_sensor(#[trigger] cfg.sensors@[i]),
    ) by {
        assert(super::persist::sensor_at(body, 116 + 16 * i) == Some(base.sensors@[i]));
        assert(base.sensors@[i] == recorded_sensor(base.sensors@[i]));
    }
    assert(cfg.tpdo_interval_ms == base.tpdo_interval_ms);
}

// What was written is what is read.

/// A heating pad reads back from wherever its block stands.
proof fn heating_reads_back(b: Seq<u8>, at: int, h: ValveHeatingConfig)
    requires
        stands_at(b, at, heating_block(h)),
    ensures
        heating_describes(b, at, h),
{
    reveal(heating_block);
    let blk = heating_block(h);
    assert(blk.len() == 11);
    assert(b[at + 0] == blk[0] && b[at + 1] == blk[1] && b[at + 6] == blk[6]);
    id_reads_back(h.hco);
    id_reads_back(h.sensor);
    assert forall|hco: HcoId| #[trigger]
        h.also.has(hco) == (b[at + 2 + hco.position()] != 0) by {
        hco.position_in_range();
        assert(b[at + (2 + hco.position())] == blk[2 + hco.position()]);
    }
    assert(b[at + 7] == blk[7] && b[at + 8] == blk[8]);
    word_reads_back(b, at + 7, bits16(h.setpoint) as u16);
    assert(b[at + 9] == blk[9] && b[at + 10] == blk[10]);
    word_reads_back(b, at + 9, h.hysteresis);
}

proof fn heating_block_stands(cfg: Config, n: nat, i: int)
    requires
        0 <= i < n,
    ensures
        stands_at(heating_blocks(cfg, n), 11 * i, heating_block(cfg.heating@[i])),
    decreases n,
{
    heating_blocks_length(cfg, (n - 1) as nat);
    heating_block_length(cfg.heating@[i]);
    if i < n - 1 {
        heating_block_stands(cfg, (n - 1) as nat, i);
        let shorter = heating_blocks(cfg, (n - 1) as nat);
        let block = heating_block(cfg.heating@[i]);
        assert forall|k: int| 0 <= k < block.len() implies #[trigger] heating_blocks(cfg, n)[11 * i
            + k] == block[k] by {
            assert(shorter[11 * i + k] == block[k]);
        }
    }
}

/// Written content agrees with the configuration that it was written for.
pub proof fn a_written_content_says_its_config(cfg: Config)
    ensures
        content_of(cfg).len() == CONTENT_LEN,
        content_is_valid(content_of(cfg)),
        content_says(content_of(cfg), cfg),
{
    let c = content_of(cfg);
    content_length(cfg);
    assert forall|i: int| 0 <= i < 4 implies #[trigger] position_is_valid(c, i)
        && cfg.valves@[i].position_sensor == opt_id_of::<SensorSlot>(c[i]) by {
        assert(c[i] == position_bytes(cfg)[i]);
        id_reads_back(cfg.valves@[i].position_sensor);
    }
    assert forall|i: int| 0 <= i < 4 implies (#[trigger] cfg.valves@[i]).position_sensor
        == opt_id_of::<SensorSlot>(c[i]) by {
        assert(position_is_valid(c, i));
    }
    assert forall|i: int| 0 <= i < 8 implies #[trigger] input_is_valid(c, i)
        && cfg.sensors@[i].analog == AnalogInput::nth(c[4 + 2 * i] as int)
        && cfg.sensors@[i].pdo_channel == opt_id_of::<PdoSensorChannel>(c[5 + 2 * i]) by {
        assert(c[4 + 2 * i] == input_bytes(cfg)[2 * i]);
        assert(c[5 + 2 * i] == input_bytes(cfg)[2 * i + 1]);
        assert((2 * i) / 2 == i && (2 * i + 1) / 2 == i && (2 * i + 1) % 2 == 1);
        id_reads_back(cfg.sensors@[i].pdo_channel);
        cfg.sensors@[i].analog.nth_inverts_position();
    }
    assert forall|i: int| 0 <= i < 8 implies (#[trigger] cfg.sensors@[i]).analog
        == AnalogInput::nth(c[4 + 2 * i] as int) && cfg.sensors@[i].pdo_channel == opt_id_of::<
        PdoSensorChannel,
    >(c[5 + 2 * i]) by {
        assert(input_is_valid(c, i));
    }
    let setpoint = bytes16(bits16(cfg.heater_setpoint_centi_c));
    assert(c[64] == setpoint[0] && c[65] == setpoint[1]);
    word_reads_back(c, 64, bits16(cfg.heater_setpoint_centi_c) as u16);
    assert forall|i: int| 0 <= i < 4 implies #[trigger] heating_is_valid(c, 20 + 11 * i)
        && heating_describes(c, 20 + 11 * i, cfg.heating@[i]) by {
        written_heating_reads_back(cfg, i);
    }
    assert forall|i: int| 0 <= i < 4 implies heating_describes(
        c,
        20 + 11 * i,
        #[trigger] cfg.heating@[i],
    ) by {
        assert(heating_is_valid(c, 20 + 11 * i));
    }
}

proof fn written_heating_reads_back(cfg: Config, i: int)
    requires
        0 <= i < 4,
    ensures
        heating_describes(content_of(cfg), 20 + 11 * i, cfg.heating@[i]),
{
    let c = content_of(cfg);
    content_length(cfg);
    assert(stands_at(c, 20, heating_blocks(cfg, 4)));
    heating_block_length(cfg.heating@[i]);
    heating_block_stands(cfg, 4, i);
    stands_in_the_whole(c, 20, heating_blocks(cfg, 4), 11 * i, heating_block(cfg.heating@[i]));
    heating_reads_back(c, 20 + 11 * i, cfg.heating@[i]);
}

/// A body and some content agree with at most one configuration.
pub proof fn body_and_content_say_one_config(b: Seq<u8>, c: Seq<u8>, x: Config, y: Config)
    requires
        record_says(b, x),
        record_says(b, y),
        content_says(c, x),
        content_says(c, y),
    ensures
        x == y,
{
    broadcast use crate::index::per_len;

    assert forall|i: int| 0 <= i < 4 implies x.valves@[i] == y.valves@[i] by {
        let (v, w) = (x.valves@[i], y.valves@[i]);
        assert(Some(recorded_valve(v)) == Some(recorded_valve(w)));
        assert(v == (ValveConfig { position_sensor: v.position_sensor, ..recorded_valve(v) }));
        assert(w == (ValveConfig { position_sensor: w.position_sensor, ..recorded_valve(w) }));
    }
    assert forall|i: int| 0 <= i < 8 implies x.sensors@[i] == y.sensors@[i] by {
        let (s, t) = (x.sensors@[i], y.sensors@[i]);
        assert(Some(recorded_sensor(s)) == Some(recorded_sensor(t)));
        assert(s == (SensorSlotConfig {
            analog: s.analog,
            pdo_channel: s.pdo_channel,
            ..recorded_sensor(s)
        }));
        assert(t == (SensorSlotConfig {
            analog: t.analog,
            pdo_channel: t.pdo_channel,
            ..recorded_sensor(t)
        }));
    }
    assert forall|i: int| 0 <= i < 18 implies x.tpdo_interval_ms@[i] == y.tpdo_interval_ms@[i] by {
        assert(x.tpdo_interval_ms@[i] == u16_at(b, 244 + 2 * i));
    }
    assert forall|i: int| 0 <= i < 4 implies x.heating@[i] == y.heating@[i] by {
        let (h, g) = (x.heating@[i], y.heating@[i]);
        assert(heating_describes(c, 20 + 11 * i, h) && heating_describes(c, 20 + 11 * i, g));
        assert forall|hco: HcoId| #[trigger] h.also.has(hco) == g.also.has(hco) by {
            assert(h.also.has(hco) == (c[20 + 11 * i + 2 + hco.position()] != 0));
            assert(g.also.has(hco) == (c[20 + 11 * i + 2 + hco.position()] != 0));
        }
        super::heating::a_set_is_its_members(h.also, g.also);
    }
    crate::index::per_is_its_entries(x.valves, y.valves);
    crate::index::per_is_its_entries(x.sensors, y.sensors);
    crate::index::per_is_its_entries(x.tpdo_interval_ms, y.tpdo_interval_ms);
    crate::index::per_is_its_entries(x.heating, y.heating);
}

/// A slot describes at most one configuration.
pub proof fn a_slot_describes_one_config(slot: Seq<u8>, x: Config, y: Config)
    requires
        slot_describes(slot, x),
        slot_describes(slot, y),
    ensures
        x == y,
{
    let body = record_body(slot.take(320));
    if has_supplement(slot) {
        body_and_content_say_one_config(body, slot_content(slot), x, y);
    } else {
        a_body_describes_one_config(body, x, y);
    }
}

/// A supplement stands behind whatever fills the record's part of a slot.
proof fn supplement_stands(front: Seq<u8>, cfg: Config, sequence: u32)
    requires
        front.len() == 320,
    ensures
        ({
            let slot = front + supplement_of(cfg, sequence);
            &&& slot.len() == SLOT_LEN
            &&& slot.take(320) == front
            &&& u32_at(slot, 320) == SUPPLEMENT_MAGIC
            &&& u32_at(slot, 324) == sequence
            &&& slot.subrange(320, 394) == supplement_head(cfg, sequence)
            &&& slot_content(slot) == content_of(cfg)
            &&& u32_at(slot, 394) == crc32_iso_hdlc(supplement_head(cfg, sequence))
        }),
{
    let content = content_of(cfg);
    let head = supplement_head(cfg, sequence);
    let crc = crc32_iso_hdlc(head);
    let slot = front + supplement_of(cfg, sequence);
    content_length(cfg);
    assert(head.len() == 74);
    assert(slot.take(320) =~= front);
    assert(slot.subrange(320, 394) =~= head);
    assert(slot_content(slot) =~= content);
    let tag = bytes32(SUPPLEMENT_MAGIC as int);
    let number = bytes32(sequence as int);
    let sum = bytes32(crc as int);
    assert(slot.subrange(320, 324) =~= tag);
    assert(slot[320] == tag[0] && slot[321] == tag[1] && slot[322] == tag[2] && slot[323] == tag[3]);
    long_reads_back(slot, 320, SUPPLEMENT_MAGIC as int);
    assert(slot[324] == number[0] && slot[325] == number[1] && slot[326] == number[2] && slot[327]
        == number[3]);
    long_reads_back(slot, 324, sequence as int);
    assert(slot[394] == sum[0] && slot[395] == sum[1] && slot[396] == sum[2] && slot[397] == sum[3]);
    long_reads_back(slot, 394, crc as int);
}

/// The sequence number of a slot is that of the record in its front part.
proof fn sequence_is_in_the_front(slot: Seq<u8>)
    requires
        slot.len() >= 320,
    ensures
        record_sequence(slot) == record_sequence(slot.take(320)),
{
    let front = slot.take(320);
    assert(front[8] == slot[8] && front[9] == slot[9] && front[10] == slot[10] && front[11]
        == slot[11]);
}

/// A slot whose record and supplement agree with a configuration describes that one alone.
proof fn a_described_slot(slot: Seq<u8>, cfg: Config, back: Config)
    requires
        has_supplement(slot),
        record_says(record_body(slot.take(320)), cfg),
        content_says(slot_content(slot), cfg),
    ensures
        slot_describes(slot, back) <==> back == cfg,
{
    if slot_describes(slot, back) {
        a_slot_describes_one_config(slot, back, cfg);
    }
}

/// A sector that a configuration was stored in is usable, and describes exactly that configuration.
pub proof fn a_stored_config_reads_back(cfg: Config, sequence: u32, gap: Seq<u8>, back: Config)
    requires
        gap.len() == 13,
    ensures
        stored_config(cfg, sequence, gap).len() == SLOT_LEN,
        slot_is_usable(stored_config(cfg, sequence, gap)),
        record_sequence(stored_config(cfg, sequence, gap)) == sequence,
        slot_describes(stored_config(cfg, sequence, gap), back) <==> back == cfg,
{
    let slot = stored_config(cfg, sequence, gap);
    let front = record_of(cfg, sequence) + gap;
    a_written_record_reads_back(cfg, sequence, gap, back);
    supplement_stands(front, cfg, sequence);
    sequence_is_in_the_front(slot);
    a_written_content_says_its_config(cfg);
    a_written_body_says_its_config(cfg);
    a_described_slot(slot, cfg, back);
}

/// A record that nothing follows is read as it stands, with defaults for what it does not carry.
pub proof fn a_record_alone_is_read_as_it_stands(slot: Seq<u8>, cfg: Config)
    requires
        u32_at(slot, 320) != SUPPLEMENT_MAGIC,
    ensures
        slot_is_usable(slot) <==> record_is_valid(slot.take(320)),
        slot_describes(slot, cfg) <==> body_describes(record_body(slot.take(320)), cfg),
{
}

/// A save that is cut short before its record is begun leaves nothing that could be taken for one,
/// whatever has been written behind it.
pub proof fn a_supplement_alone_is_no_record(slot: Seq<u8>)
    requires
        slot.len() >= 320,
        u32_at(slot, 0) != super::persist::MAGIC,
    ensures
        !slot_is_usable(slot),
{
    let record = slot.take(320);
    assert(record[0] == slot[0] && record[1] == slot[1] && record[2] == slot[2] && record[3]
        == slot[3]);
}

/// A pad takes 11 bytes: its switch, its output with 255 for none, a flag for every output switched with
/// it, its sensor slot with 255 for none, its setpoint in two's complement and its hysteresis.
pub proof fn a_pad_is_laid_out(b: Seq<u8>, at: int, h: ValveHeatingConfig, hco: HcoId)
    requires
        heating_describes(b, at, h),
    ensures
        h.enabled <==> b[at] != 0,
        h.hco is None <==> b[at + 1] == 255,
        h.hco matches Some(out) ==> out.position() == b[at + 1],
        h.also.has(hco) <==> b[at + 2 + hco.position()] != 0,
        h.sensor is None <==> b[at + 6] == 255,
        h.sensor matches Some(slot) ==> slot.position() == b[at + 6],
        (h.setpoint - (b[at + 7] + 256 * b[at + 8])) % 65536 == 0,
        h.hysteresis == b[at + 9] + 256 * b[at + 10],
{
    if b[at + 1] != 255 {
        HcoId::position_inverts_nth(b[at + 1] as int);
    }
    if b[at + 6] != 255 {
        SensorSlot::position_inverts_nth(b[at + 6] as int);
    }
}

/// The content of a supplement: the position sensor of every valve, the pin and the channel of every
/// slot, the pads from byte 20 on and the heater's setpoint behind them.
pub proof fn the_content_is_laid_out(c: Seq<u8>, cfg: Config, valve: ValveId, slot: SensorSlot)
    requires
        content_is_valid(c),
        content_says(c, cfg),
    ensures
        ({
            let at = valve.position();
            &&& cfg.valves.at(valve).position_sensor is None <==> c[at] == 255
            &&& cfg.valves.at(valve).position_sensor matches Some(read) ==> read.position() == c[at]
            &&& heating_describes(c, 20 + 11 * at, cfg.heating.at(valve))
        }),
        ({
            let at = 4 + 2 * slot.position();
            &&& cfg.sensors.at(slot).analog.position() == c[at]
            &&& cfg.sensors.at(slot).pdo_channel is None <==> c[at + 1] == 255
            &&& cfg.sensors.at(slot).pdo_channel matches Some(channel) ==> channel.position()
                == c[at + 1]
        }),
        (cfg.heater_setpoint_centi_c - (c[64] + 256 * c[65])) % 65536 == 0,
{
    valve.position_in_range();
    slot.position_in_range();
    let (v, s) = (valve.position(), slot.position());
    assert(position_is_valid(c, v));
    assert(input_is_valid(c, s));
    assert(cfg.valves@[v].position_sensor == opt_id_of::<SensorSlot>(c[v]));
    assert(cfg.sensors@[s].analog == AnalogInput::nth(c[4 + 2 * s] as int));
    assert(heating_describes(c, 20 + 11 * v, cfg.heating@[v]));
    AnalogInput::position_inverts_nth(c[4 + 2 * s] as int);
    if c[v] != 255 {
        SensorSlot::position_inverts_nth(c[v] as int);
    }
    if c[5 + 2 * s] != 255 {
        PdoSensorChannel::position_inverts_nth(c[5 + 2 * s] as int);
    }
}

/// A supplement that is there has to be good: the slot cannot be used unless its sequence number is the
/// record's and its checksum, which covers everything before it, is right.
pub proof fn a_garbled_supplement_fails_the_slot(slot: Seq<u8>)
    requires
        slot.len() == 398,
        slot_is_usable(slot),
        slot[320] == 0x43 && slot[321] == 0x4f && slot[322] == 0x49 && slot[323] == 0x53,
    ensures
        slot[324] + 256 * slot[325] + 65536 * slot[326] + 16777216 * slot[327] == slot[8] + 256
            * slot[9] + 65536 * slot[10] + 16777216 * slot[11],
        slot[394] + 256 * slot[395] + 65536 * slot[396] + 16777216 * slot[397] == crc32_iso_hdlc(
            slot.subrange(320, 394),
        ),
        slot_content(slot) == slot.subrange(328, 394),
{
}

} // verus!
