//! The data plane: fixed-layout process data broadcast on a per-kind period.
//!
//! Every kind has a period in milliseconds, 0 to disable. A frame that is byte-identical to the
//! last one sent for its kind is skipped at its due time, unless the kind has been silent for
//! [`UNCHANGED_DATA_BROADCAST_DURATION`].
use crate::can::{frame_bytes, CanFrame, FrameBody};
use crate::index::{Id, Per, ValveId};
use crate::leds::bit;
use crate::proto::ids::{pdo_cob_id, PerTpdoKind, TpdoKind};
use crate::proto::tpdo::{HcoOutput, TpdoFrame};
use crate::store::{LinkState, Store, RAW_INVALID, SENSOR_INVALID};
use crate::valves::ValveStatus;
use core::ops::IndexMut;
use vstd::prelude::*;

verus! {

/// Deadline resolution, in milliseconds.
pub const BASE_TICK: u64 = 10;

/// How long an unchanged kind may go without a frame before it is resent anyway, in milliseconds.
pub const UNCHANGED_DATA_BROADCAST_DURATION: u64 = 5_000;

/// When a kind was last sent, and with what.
pub type LastSent = Option<(u64, [u8; 8])>;

/// Wire scheduling for the fixed broadcast table.
pub struct Tpdo {
    node_id: u8,
    /// Milliseconds since boot at which each kind is next due.
    next_due: PerTpdoKind<u64>,
    /// Timestamp and payload of the last frame sent per kind. `None` until the first, which is
    /// always sent.
    last_sent: PerTpdoKind<LastSent>,
}

/// Whether a due frame is worth putting on the bus.
pub open spec fn worth_sending(last_sent: LastSent, now: u64, payload: Seq<u8>) -> bool {
    match last_sent {
        None => true,
        Some((time, sent)) => payload != sent@ || now - time >= UNCHANGED_DATA_BROADCAST_DURATION,
    }
}

impl Tpdo {
    pub closed spec fn node(self) -> u8 {
        self.node_id
    }

    /// When each kind is next due.
    pub closed spec fn due(self) -> Seq<u64> {
        self.next_due@
    }

    /// What was last sent of each kind.
    pub closed spec fn sent(self) -> Seq<LastSent> {
        self.last_sent@
    }

    /// Whether a kind is to be looked at now.
    pub open spec fn is_due(self, kind: TpdoKind, interval_ms: u16, now: u64) -> bool {
        interval_ms != 0 && now >= self.due()[kind.position()]
    }

    pub fn new(node_id: u8) -> (r: Self)
        ensures
            r.node() == node_id,
            r.due() == Seq::new(18, |i: int| 0u64),
            r.sent() == Seq::new(18, |i: int| None::<(u64, [u8; 8])>),
    {
        Self { node_id, next_due: Per::splat(0), last_sent: Per::splat(None) }
    }

    /// One kind's turn in a pass over the table: `None` if it is switched off, not due yet, or has
    /// nothing new to say; else the frame to send.
    ///
    /// A due kind is next due one period from `now`, whether or not it is sent, so that a long
    /// stall is not followed by a burst catching up.
    pub fn poll(&mut self, store: &Store, kind: TpdoKind, interval_ms: u16, now: u64) -> (r: Option<CanFrame>)
        requires
            now + interval_ms <= u64::MAX,
        ensures
            final(self).node() == old(self).node(),
            ({
                let i = kind.position();
                let due = old(self).is_due(kind, interval_ms, now);
                let payload = shown_payload(*store, kind);
                &&& r is Some <==> due && worth_sending(old(self).sent()[i], now, payload)
                &&& r matches Some((cob_id, body)) ==> {
                    &&& cob_id == pdo_cob_id(kind, old(self).node() as int)
                    &&& frame_bytes(body) == payload
                    &&& final(self).sent()[i] matches Some((time, sent)) && time == now && sent@
                        == payload
                }
                &&& r is None ==> final(self).sent() == old(self).sent()
                &&& final(self).sent() == old(self).sent().update(i, final(self).sent()[i])
                &&& final(self).due() == if due {
                    old(self).due().update(i, (now + interval_ms) as u64)
                } else {
                    old(self).due()
                }
            }),
            polled(*old(self), *store, kind, interval_ms, now, r, *final(self)),
    {
        broadcast use crate::index::per_len;

        proof {
            kind.position_in_range();
        }
        let interval: u64 = interval_ms as u64;
        if interval == 0 || now < self.next_due[kind] {
            assert(self.sent() =~= self.sent().update(kind.position(), self.sent()[kind.position()]));
            return None;
        }
        *self.next_due.index_mut(kind) = now + interval;
        let payload = build(store, kind);
        if !should_send(self.last_sent[kind], now, payload) {
            assert(self.sent() =~= self.sent().update(kind.position(), self.sent()[kind.position()]));
            return None;
        }
        match FrameBody::from_slice(payload.as_slice()) {
            Some(body) => {
                *self.last_sent.index_mut(kind) = Some((now, payload));
                assert(self.sent()[kind.position()] == Some((now, payload)));
                Some((kind.cob_id(self.node_id), body))
            },
            None => None,
        }
    }
}

/// What one kind's turn does to the schedule, and what comes of it.
pub open spec fn polled(
    before: Tpdo,
    store: Store,
    kind: TpdoKind,
    interval_ms: u16,
    now: u64,
    frame: Option<CanFrame>,
    after: Tpdo,
) -> bool {
    let i = kind.position();
    let due = before.is_due(kind, interval_ms, now);
    let payload = shown_payload(store, kind);
    &&& after.node() == before.node()
    &&& frame is Some <==> due && worth_sending(before.sent()[i], now, payload)
    &&& frame matches Some((cob_id, body)) ==> {
        &&& cob_id == pdo_cob_id(kind, before.node() as int)
        &&& frame_bytes(body) == payload
        &&& after.sent()[i] matches Some((time, sent)) && time == now && sent@ == payload
    }
    &&& frame is None ==> after.sent() == before.sent()
    &&& after.sent() == before.sent().update(i, after.sent()[i])
    &&& after.due() == if due {
        before.due().update(i, (now + interval_ms) as u64)
    } else {
        before.due()
    }
}

/// Whether a due frame is worth putting on the bus: the first time a kind is ever sent, when the
/// payload has changed, and when the kind has been silent for long enough.
pub fn should_send(last_sent: LastSent, now: u64, payload: [u8; 8]) -> (r: bool)
    ensures
        r == worth_sending(last_sent, now, payload@),
{
    match last_sent {
        None => true,
        Some((last_time, last_payload)) => !same_payload(&payload, &last_payload) || (now
            >= last_time && now - last_time >= UNCHANGED_DATA_BROADCAST_DURATION),
    }
}

fn same_payload(a: &[u8; 8], b: &[u8; 8]) -> (r: bool)
    ensures
        r == (a@ == b@),
{
    let mut i: usize = 0;
    while i < 8
        invariant
            i <= 8,
            forall|j: int| 0 <= j < i ==> a@[j] == b@[j],
        decreases 8 - i,
    {
        if a[i] != b[i] {
            return false;
        }
        i += 1;
    }
    assert(a@ =~= b@);
    true
}

/// Entries from an offset on, with a fill value where the source runs out.
pub open spec fn windowed<T>(source: Seq<T>, offset: int, n: nat, fill: T) -> Seq<T> {
    Seq::new(
        n,
        |i: int|
            if offset + i < source.len() {
                source[offset + i]
            } else {
                fill
            },
    )
}

/// Takes `N` entries starting at `offset`, padding with `fill` if the source runs out. Keeps a
/// frame's layout fixed regardless of how many slots there are.
fn window<T: Copy, const N: usize>(source: &[T], offset: usize, fill: T) -> (r: [T; N])
    ensures
        r@ == windowed(source@, offset as int, N as nat, fill),
{
    let mut out = [fill;N];
    let mut i: usize = 0;
    while i < N
        invariant
            i <= N,
            forall|j: int|
                0 <= j < i ==> out@[j] == windowed(source@, offset as int, N as nat, fill)[j],
            forall|j: int| i <= j < N ==> out@[j] == fill,
        decreases N - i,
    {
        if offset < source.len() && i < source.len() - offset {
            out[i] = source[offset + i];
        }
        i += 1;
    }
    assert(out@ =~= windowed(source@, offset as int, N as nat, fill));
    out
}

/// What one output is reported as: a pulse width if one is set, else its level.
pub open spec fn reported_output(pwm_us: u16, digital: u8) -> HcoOutput {
    if pwm_us != 0 {
        HcoOutput::Pwm(pwm_us)
    } else if digital != 0 {
        HcoOutput::DigitalOn
    } else {
        HcoOutput::DigitalOff
    }
}

/// One bit per valve, set for a stalled one.
pub open spec fn stalled_bits(status: Seq<u8>) -> int {
    let stalled = ValveStatus::Stalled as u8;
    bit(status[0] == stalled) + 2 * bit(status[1] == stalled) + 4 * bit(status[2] == stalled) + 8
        * bit(status[3] == stalled)
}

/// Whether a frame shows what the store holds for its kind.
pub open spec fn shows(frame: TpdoFrame, store: Store) -> bool {
    match frame {
        TpdoFrame::ValveCommanded(v) => v@ == store.valve_commanded@,
        TpdoFrame::ValveTarget(v) => v@ == store.valve_target@,
        TpdoFrame::ValveMeasured(v) => v@ == store.valve_measured@,
        TpdoFrame::ValveCurrent(v) => v@ == store.valve_current_ma@,
        TpdoFrame::ValveStatus { status, hco_owner, relief_state } => {
            &&& status@ == store.valve_status@
            &&& hco_owner@ == store.hco_owner@
            &&& relief_state == store.relief_state
        },
        TpdoFrame::HcoState(v) => v@ == Seq::new(
            4,
            |i: int| reported_output(store.hco_pwm_us@[i], store.hco_digital@[i]),
        ),
        TpdoFrame::RawBus0A(v) => v@ == windowed(store.raw_adc@.subrange(0, 9), 0, 4, RAW_INVALID),
        TpdoFrame::RawBus0B(v) => v@ == windowed(store.raw_adc@.subrange(0, 9), 4, 4, RAW_INVALID),
        TpdoFrame::RawBus1A(v) => v@ == windowed(store.raw_adc@.subrange(9, 18), 0, 4, RAW_INVALID),
        TpdoFrame::RawBus1B(v) => v@ == windowed(store.raw_adc@.subrange(9, 18), 4, 4, RAW_INVALID),
        TpdoFrame::Sensor0(v) => v@ == windowed(store.sensor_value@, 0, 4, SENSOR_INVALID),
        TpdoFrame::Sensor1(v) => v@ == windowed(store.sensor_value@, 4, 4, SENSOR_INVALID),
        TpdoFrame::Sensor3(v) => v@ == windowed(store.sensor_value@, 8, 4, SENSOR_INVALID),
        TpdoFrame::SensorUnits(v) => v@ == windowed(store.sensor_unit@, 0, 12, 0),
        TpdoFrame::I2cScan { present, sweeps } => {
            &&& present@ == store.i2c_present@
            &&& sweeps == store.i2c_sweeps % 65536
        },
        TpdoFrame::RailVoltage(v) => v@ == store.rail_voltage_mv@,
        TpdoFrame::RailCurrent(v) => v@ == store.rail_current_ma@,
        TpdoFrame::Status { link_state, raw_debug, stalled_mask, ms_since_heartbeat } => {
            &&& link_state == store.link_state as u8
            &&& raw_debug == store.raw_debug
            &&& stalled_mask == stalled_bits(store.valve_status@)
            &&& ms_since_heartbeat == store.ms_since_heartbeat
        },
    }
}

/// The frame of a kind that shows what the store holds.
pub open spec fn shown_frame(store: Store, kind: TpdoKind) -> TpdoFrame {
    choose|frame: TpdoFrame| frame.spec_kind() == kind && shows(frame, store)
}

/// The bytes of the frame of a kind that shows what the store holds.
pub open spec fn shown_payload(store: Store, kind: TpdoKind) -> Seq<u8> {
    shown_frame(store, kind).layout()
}

/// Only one frame of a kind shows what the store holds.
pub proof fn one_frame_shows_the_store(store: Store, a: TpdoFrame, b: TpdoFrame)
    requires
        a.spec_kind() == b.spec_kind(),
        shows(a, store),
        shows(b, store),
    ensures
        a == b,
{
    match a {
        TpdoFrame::ValveCommanded(v) => assert(v =~= b->ValveCommanded_0),
        TpdoFrame::ValveTarget(v) => assert(v =~= b->ValveTarget_0),
        TpdoFrame::ValveMeasured(v) => assert(v =~= b->ValveMeasured_0),
        TpdoFrame::ValveCurrent(v) => assert(v =~= b->ValveCurrent_0),
        TpdoFrame::ValveStatus { status, hco_owner, .. } => {
            assert(status =~= b->status);
            assert(hco_owner =~= b->hco_owner);
        },
        TpdoFrame::HcoState(v) => assert(v =~= b->HcoState_0),
        TpdoFrame::RawBus0A(v) => assert(v =~= b->RawBus0A_0),
        TpdoFrame::RawBus0B(v) => assert(v =~= b->RawBus0B_0),
        TpdoFrame::RawBus1A(v) => assert(v =~= b->RawBus1A_0),
        TpdoFrame::RawBus1B(v) => assert(v =~= b->RawBus1B_0),
        TpdoFrame::Sensor0(v) => assert(v =~= b->Sensor0_0),
        TpdoFrame::Sensor1(v) => assert(v =~= b->Sensor1_0),
        TpdoFrame::Sensor3(v) => assert(v =~= b->Sensor3_0),
        TpdoFrame::SensorUnits(v) => assert(v =~= b->SensorUnits_0),
        TpdoFrame::I2cScan { present, .. } => assert(present =~= b->present),
        TpdoFrame::RailVoltage(v) => assert(v =~= b->RailVoltage_0),
        TpdoFrame::RailCurrent(v) => assert(v =~= b->RailCurrent_0),
        TpdoFrame::Status { .. } => {},
    }
}

fn hco_output(store: &Store, i: usize) -> (r: HcoOutput)
    requires
        i < 4,
    ensures
        r == reported_output(store.hco_pwm_us@[i as int], store.hco_digital@[i as int]),
{
    let us: u16 = store.hco_pwm_us.as_array()[i];
    if us != 0 {
        HcoOutput::Pwm(us)
    } else if store.hco_digital.as_array()[i] != 0 {
        HcoOutput::DigitalOn
    } else {
        HcoOutput::DigitalOff
    }
}

fn stalled_mask(store: &Store) -> (r: u8)
    ensures
        r == stalled_bits(store.valve_status@),
{
    let stalled: u8 = ValveStatus::Stalled as u8;
    let status = store.valve_status.as_array();
    let mut mask: u8 = 0;
    if status[0] == stalled {
        mask += 1;
    }
    if status[1] == stalled {
        mask += 2;
    }
    if status[2] == stalled {
        mask += 4;
    }
    if status[3] == stalled {
        mask += 8;
    }
    mask
}

/// Gathers a kind's payload out of the store.
pub fn frame_for(store: &Store, kind: TpdoKind) -> (r: TpdoFrame)
    ensures
        r.spec_kind() == kind,
        shows(r, *store),
{
    match kind {
        TpdoKind::ValveCommanded => TpdoFrame::ValveCommanded(*store.valve_commanded.as_array()),
        TpdoKind::ValveTarget => TpdoFrame::ValveTarget(*store.valve_target.as_array()),
        TpdoKind::ValveMeasured => TpdoFrame::ValveMeasured(*store.valve_measured.as_array()),
        TpdoKind::ValveCurrent => TpdoFrame::ValveCurrent(*store.valve_current_ma.as_array()),
        TpdoKind::ValveStatus => TpdoFrame::ValveStatus {
            status: *store.valve_status.as_array(),
            hco_owner: *store.hco_owner.as_array(),
            relief_state: store.relief_state,
        },
        TpdoKind::HcoState => {
            let outputs = [
                hco_output(store, 0),
                hco_output(store, 1),
                hco_output(store, 2),
                hco_output(store, 3),
            ];
            assert(outputs@ =~= Seq::new(
                4,
                |i: int| reported_output(store.hco_pwm_us@[i], store.hco_digital@[i]),
            ));
            TpdoFrame::HcoState(outputs)
        },
        TpdoKind::RawBus0A => TpdoFrame::RawBus0A(window(raw_bus(store, 0, 9), 0, RAW_INVALID)),
        TpdoKind::RawBus0B => TpdoFrame::RawBus0B(window(raw_bus(store, 0, 9), 4, RAW_INVALID)),
        TpdoKind::RawBus1A => TpdoFrame::RawBus1A(window(raw_bus(store, 9, 18), 0, RAW_INVALID)),
        TpdoKind::RawBus1B => TpdoFrame::RawBus1B(window(raw_bus(store, 9, 18), 4, RAW_INVALID)),
        TpdoKind::Sensor0 => TpdoFrame::Sensor0(
            window(store.sensor_value.as_slice(), 0, SENSOR_INVALID),
        ),
        TpdoKind::Sensor1 => TpdoFrame::Sensor1(
            window(store.sensor_value.as_slice(), 4, SENSOR_INVALID),
        ),
        TpdoKind::Sensor3 => TpdoFrame::Sensor3(
            window(store.sensor_value.as_slice(), 8, SENSOR_INVALID),
        ),
        TpdoKind::SensorUnits => TpdoFrame::SensorUnits(
            window(store.sensor_unit.as_slice(), 0, 0),
        ),
        TpdoKind::I2cScan => TpdoFrame::I2cScan {
            present: *store.i2c_present.as_array(),
            sweeps: (store.i2c_sweeps % 65536) as u16,
        },
        TpdoKind::RailVoltage => TpdoFrame::RailVoltage(*store.rail_voltage_mv.as_array()),
        TpdoKind::RailCurrent => TpdoFrame::RailCurrent(*store.rail_current_ma.as_array()),
        TpdoKind::Status => TpdoFrame::Status {
            link_state: store.link_state as u8,
            raw_debug: store.raw_debug,
            stalled_mask: stalled_mask(store),
            ms_since_heartbeat: store.ms_since_heartbeat,
        },
    }
}

fn raw_bus(store: &Store, from: usize, to: usize) -> (r: &[u16])
    requires
        from <= to <= 18,
    ensures
        r@ == store.raw_adc@.subrange(from as int, to as int),
{
    broadcast use crate::index::per_len;

    let all = store.raw_adc.as_slice();
    &all[from..to]
}

/// The eight bytes of a kind's frame.
pub fn build(store: &Store, kind: TpdoKind) -> (r: [u8; 8])
    ensures
        r@ == shown_payload(*store, kind),
{
    let frame = frame_for(store, kind);
    proof {
        let chosen = shown_frame(*store, kind);
        one_frame_shows_the_store(*store, frame, chosen);
    }
    frame.encode()
}

/// A kind that is due and has something new to say is sent at once; one that repeats itself is sent
/// again once it has been silent for the keepalive time, and not before.
pub proof fn an_unchanged_kind_is_kept_alive(sent: [u8; 8], time: u64, now: u64)
    requires
        time <= now,
    ensures
        worth_sending(Some((time, sent)), now, sent@) <==> now - time
            >= UNCHANGED_DATA_BROADCAST_DURATION,
        forall|payload: Seq<u8>|
            payload != sent@ ==> worth_sending(Some((time, sent)), now, payload),
        forall|payload: Seq<u8>| worth_sending(None, now, payload),
{
}

/// No slot is shown in two sensor windows: channel `k` of each window is slot `k` past its offset.
pub proof fn sensor_windows_do_not_overlap(store: Store, k: int)
    requires
        0 <= k < 4,
    ensures
        windowed(store.sensor_value@, 0, 4, SENSOR_INVALID)[k] == store.sensor_value@[k],
        windowed(store.sensor_value@, 4, 4, SENSOR_INVALID)[k] == store.sensor_value@[4 + k],
        windowed(store.sensor_value@, 8, 4, SENSOR_INVALID)[k] == SENSOR_INVALID,
{
    broadcast use crate::index::per_len;

}

/// A broadcast frame reads back as what the store held, wherever each entry fits its room.
pub proof fn a_broadcast_reads_back(store: Store, kind: TpdoKind, frame: TpdoFrame, decoded: TpdoFrame)
    requires
        frame.spec_kind() == kind,
        shows(frame, store),
        frame.fits_the_layout(),
        decoded.spec_kind() == kind,
        decoded.reads_as(shown_payload(store, kind)),
    ensures
        shows(decoded, store),
{
    let chosen = shown_frame(store, kind);
    assert(chosen.spec_kind() == kind && shows(chosen, store));
    one_frame_shows_the_store(store, frame, chosen);
    crate::proto::tpdo::every_frame_round_trips(frame, decoded);
}

/// The store can be shown as a frame of every kind.
proof fn some_frame_shows_the_store(store: Store, kind: TpdoKind)
    ensures
        shown_frame(store, kind).spec_kind() == kind,
        shows(shown_frame(store, kind), store),
{
    broadcast use crate::index::per_len;

    let frame = match kind {
        TpdoKind::ValveCommanded => TpdoFrame::ValveCommanded(four(store.valve_commanded@)),
        TpdoKind::ValveTarget => TpdoFrame::ValveTarget(four(store.valve_target@)),
        TpdoKind::ValveMeasured => TpdoFrame::ValveMeasured(four(store.valve_measured@)),
        TpdoKind::ValveCurrent => TpdoFrame::ValveCurrent(four(store.valve_current_ma@)),
        TpdoKind::ValveStatus => TpdoFrame::ValveStatus {
            status: four(store.valve_status@),
            hco_owner: four(store.hco_owner@),
            relief_state: store.relief_state,
        },
        TpdoKind::HcoState => TpdoFrame::HcoState(
            four(
                Seq::new(
                    4,
                    |i: int| reported_output(store.hco_pwm_us@[i], store.hco_digital@[i]),
                ),
            ),
        ),
        TpdoKind::RawBus0A => TpdoFrame::RawBus0A(
            four(windowed(store.raw_adc@.subrange(0, 9), 0, 4, RAW_INVALID)),
        ),
        TpdoKind::RawBus0B => TpdoFrame::RawBus0B(
            four(windowed(store.raw_adc@.subrange(0, 9), 4, 4, RAW_INVALID)),
        ),
        TpdoKind::RawBus1A => TpdoFrame::RawBus1A(
            four(windowed(store.raw_adc@.subrange(9, 18), 0, 4, RAW_INVALID)),
        ),
        TpdoKind::RawBus1B => TpdoFrame::RawBus1B(
            four(windowed(store.raw_adc@.subrange(9, 18), 4, 4, RAW_INVALID)),
        ),
        TpdoKind::Sensor0 => TpdoFrame::Sensor0(
            four(windowed(store.sensor_value@, 0, 4, SENSOR_INVALID)),
        ),
        TpdoKind::Sensor1 => TpdoFrame::Sensor1(
            four(windowed(store.sensor_value@, 4, 4, SENSOR_INVALID)),
        ),
        TpdoKind::Sensor3 => TpdoFrame::Sensor3(
            four(windowed(store.sensor_value@, 8, 4, SENSOR_INVALID)),
        ),
        TpdoKind::SensorUnits => {
            let u = windowed(store.sensor_unit@, 0, 12, 0);
            let units = [u[0], u[1], u[2], u[3], u[4], u[5], u[6], u[7], u[8], u[9], u[10], u[11]];
            assert(units@ =~= u);
            TpdoFrame::SensorUnits(units)
        },
        TpdoKind::I2cScan => {
            let present = [store.i2c_present@[0], store.i2c_present@[1]];
            assert(present@ =~= store.i2c_present@);
            TpdoFrame::I2cScan { present, sweeps: (store.i2c_sweeps % 65536) as u16 }
        },
        TpdoKind::RailVoltage => TpdoFrame::RailVoltage(three(store.rail_voltage_mv@)),
        TpdoKind::RailCurrent => TpdoFrame::RailCurrent(three(store.rail_current_ma@)),
        TpdoKind::Status => TpdoFrame::Status {
            link_state: store.link_state as u8,
            raw_debug: store.raw_debug,
            stalled_mask: stalled_bits(store.valve_status@) as u8,
            ms_since_heartbeat: store.ms_since_heartbeat,
        },
    };
    assert(frame.spec_kind() == kind && shows(frame, store));
}

proof fn four<T>(s: Seq<T>) -> (r: [T; 4])
    requires
        s.len() == 4,
    ensures
        r@ == s,
{
    let r = [s[0], s[1], s[2], s[3]];
    assert(r@ =~= s);
    r
}

proof fn three<T>(s: Seq<T>) -> (r: [T; 3])
    requires
        s.len() == 3,
    ensures
        r@ == s,
{
    let r = [s[0], s[1], s[2]];
    assert(r@ =~= s);
    r
}

/// The payload of each of the four valve kinds is the store's own field of that name, valve by valve
/// in words of two bytes, the low byte first.
pub proof fn a_valve_frame_carries_its_field(store: Store, k: int)
    requires
        0 <= k < 4,
    ensures
        ({
            let bytes = shown_payload(store, TpdoKind::ValveCommanded);
            bytes.len() == 8 && bytes[2 * k] + 256 * bytes[2 * k + 1] == store.valve_commanded@[k]
        }),
        ({
            let bytes = shown_payload(store, TpdoKind::ValveTarget);
            bytes.len() == 8 && bytes[2 * k] + 256 * bytes[2 * k + 1] == store.valve_target@[k]
        }),
        ({
            let bytes = shown_payload(store, TpdoKind::ValveMeasured);
            bytes.len() == 8 && bytes[2 * k] + 256 * bytes[2 * k + 1] == store.valve_measured@[k]
        }),
        ({
            let bytes = shown_payload(store, TpdoKind::ValveCurrent);
            bytes.len() == 8 && bytes[2 * k] + 256 * bytes[2 * k + 1] == store.valve_current_ma@[k]
        }),
{
    some_frame_shows_the_store(store, TpdoKind::ValveCommanded);
    some_frame_shows_the_store(store, TpdoKind::ValveTarget);
    some_frame_shows_the_store(store, TpdoKind::ValveMeasured);
    some_frame_shows_the_store(store, TpdoKind::ValveCurrent);
}

/// The valve kinds depend on their own fields and on nothing else in the store: two stores are
/// broadcast alike exactly if they agree on the field.
pub proof fn a_valve_frame_depends_on_its_field_alone(a: Store, b: Store)
    ensures
        shown_payload(a, TpdoKind::ValveCommanded) == shown_payload(b, TpdoKind::ValveCommanded)
            <==> a.valve_commanded@ == b.valve_commanded@,
        shown_payload(a, TpdoKind::ValveTarget) == shown_payload(b, TpdoKind::ValveTarget)
            <==> a.valve_target@ == b.valve_target@,
        shown_payload(a, TpdoKind::ValveMeasured) == shown_payload(b, TpdoKind::ValveMeasured)
            <==> a.valve_measured@ == b.valve_measured@,
        shown_payload(a, TpdoKind::ValveCurrent) == shown_payload(b, TpdoKind::ValveCurrent)
            <==> a.valve_current_ma@ == b.valve_current_ma@,
{
    broadcast use crate::index::per_len;

    reveal(carries);
    assert forall|store: Store, k: int| 0 <= k < 4 implies carries(
        shown_payload(store, TpdoKind::ValveCommanded),
        store.valve_commanded@,
        k,
    ) && carries(shown_payload(store, TpdoKind::ValveTarget), store.valve_target@, k) && carries(
        shown_payload(store, TpdoKind::ValveMeasured),
        store.valve_measured@,
        k,
    ) && carries(shown_payload(store, TpdoKind::ValveCurrent), store.valve_current_ma@, k) by {
        a_valve_frame_carries_its_field(store, k);
    }
    words_tell_payloads_apart(
        shown_payload(a, TpdoKind::ValveCommanded),
        shown_payload(b, TpdoKind::ValveCommanded),
        a.valve_commanded@,
        b.valve_commanded@,
    );
    words_tell_payloads_apart(
        shown_payload(a, TpdoKind::ValveTarget),
        shown_payload(b, TpdoKind::ValveTarget),
        a.valve_target@,
        b.valve_target@,
    );
    words_tell_payloads_apart(
        shown_payload(a, TpdoKind::ValveMeasured),
        shown_payload(b, TpdoKind::ValveMeasured),
        a.valve_measured@,
        b.valve_measured@,
    );
    words_tell_payloads_apart(
        shown_payload(a, TpdoKind::ValveCurrent),
        shown_payload(b, TpdoKind::ValveCurrent),
        a.valve_current_ma@,
        b.valve_current_ma@,
    );
}

/// Whether a payload carries an entry as its word.
#[verifier::opaque]
spec fn carries(bytes: Seq<u8>, entries: Seq<u16>, k: int) -> bool {
    bytes.len() == 8 && bytes[2 * k] + 256 * bytes[2 * k + 1] == entries[k]
}

/// Payloads that carry four entries each are equal exactly if the entries are.
proof fn words_tell_payloads_apart(x: Seq<u8>, y: Seq<u8>, f: Seq<u16>, g: Seq<u16>)
    requires
        f.len() == 4,
        g.len() == 4,
        forall|k: int| 0 <= k < 4 ==> carries(x, f, k),
        forall|k: int| 0 <= k < 4 ==> carries(y, g, k),
    ensures
        x == y <==> f == g,
{
    reveal(carries);
    assert(carries(x, f, 0) && carries(x, f, 1) && carries(x, f, 2) && carries(x, f, 3));
    assert(carries(y, g, 0) && carries(y, g, 1) && carries(y, g, 2) && carries(y, g, 3));
    if x == y {
        assert(f =~= g);
    }
    if f == g {
        assert forall|i: int| 0 <= i < 8 implies x[i] == y[i] by {
            assert(i == 2 * (i / 2) || i == 2 * (i / 2) + 1);
        }
        assert(x =~= y);
    }
}

/// The raw kinds carry the first eight converters of each bus, four to a frame: those of the first
/// bus begin at slot 0 and those of the second at slot 9.
pub proof fn a_raw_frame_carries_its_converters(store: Store, k: int)
    requires
        0 <= k < 4,
    ensures
        ({
            let bytes = shown_payload(store, TpdoKind::RawBus0A);
            bytes.len() == 8 && bytes[2 * k] + 256 * bytes[2 * k + 1] == store.raw_adc@[k]
        }),
        ({
            let bytes = shown_payload(store, TpdoKind::RawBus0B);
            bytes.len() == 8 && bytes[2 * k] + 256 * bytes[2 * k + 1] == store.raw_adc@[4 + k]
        }),
        ({
            let bytes = shown_payload(store, TpdoKind::RawBus1A);
            bytes.len() == 8 && bytes[2 * k] + 256 * bytes[2 * k + 1] == store.raw_adc@[9 + k]
        }),
        ({
            let bytes = shown_payload(store, TpdoKind::RawBus1B);
            bytes.len() == 8 && bytes[2 * k] + 256 * bytes[2 * k + 1] == store.raw_adc@[13 + k]
        }),
{
    broadcast use crate::index::per_len;

    some_frame_shows_the_store(store, TpdoKind::RawBus0A);
    some_frame_shows_the_store(store, TpdoKind::RawBus0B);
    some_frame_shows_the_store(store, TpdoKind::RawBus1A);
    some_frame_shows_the_store(store, TpdoKind::RawBus1B);
}

/// The sensor kinds carry the values of the slots, four to a frame, in two's complement; the third
/// one has no slots to show and says so in every word.
pub proof fn a_sensor_frame_carries_its_values(store: Store, k: int)
    requires
        0 <= k < 4,
    ensures
        ({
            let bytes = shown_payload(store, TpdoKind::Sensor0);
            let word = bytes[2 * k] + 256 * bytes[2 * k + 1];
            &&& bytes.len() == 8
            &&& store.sensor_value@[k] == if word >= 32768 {
                word - 65536
            } else {
                word
            }
        }),
        ({
            let bytes = shown_payload(store, TpdoKind::Sensor1);
            let word = bytes[2 * k] + 256 * bytes[2 * k + 1];
            &&& bytes.len() == 8
            &&& store.sensor_value@[4 + k] == if word >= 32768 {
                word - 65536
            } else {
                word
            }
        }),
        ({
            let bytes = shown_payload(store, TpdoKind::Sensor3);
            bytes.len() == 8 && bytes[2 * k] + 256 * bytes[2 * k + 1] == 32767
        }),
{
    broadcast use crate::index::per_len;

    some_frame_shows_the_store(store, TpdoKind::Sensor0);
    some_frame_shows_the_store(store, TpdoKind::Sensor1);
    some_frame_shows_the_store(store, TpdoKind::Sensor3);
    sensor_windows_do_not_overlap(store, k);
}

/// The unit of each slot takes two bits of the third sensor kind: four slots to a byte, the first in
/// the lowest bits, and nothing behind them.
pub proof fn a_unit_frame_carries_the_units(store: Store, k: int)
    requires
        0 <= k < 2,
    ensures
        ({
            let bytes = shown_payload(store, TpdoKind::SensorUnits);
            let u = store.sensor_unit@;
            &&& bytes.len() == 8
            &&& bytes[k] == u[4 * k] % 4 + 4 * (u[4 * k + 1] % 4) + 16 * (u[4 * k + 2] % 4) + 64 * (
            u[4 * k + 3] % 4)
            &&& bytes.skip(2) == seq![0u8, 0, 0, 0, 0, 0]
        }),
{
    broadcast use crate::index::per_len;

    some_frame_shows_the_store(store, TpdoKind::SensorUnits);
    let v = shown_frame(store, TpdoKind::SensorUnits)->SensorUnits_0@;
    assert(v[4 * k] == store.sensor_unit@[4 * k] && v[4 * k + 1] == store.sensor_unit@[4 * k + 1]
        && v[4 * k + 2] == store.sensor_unit@[4 * k + 2] && v[4 * k + 3] == store.sensor_unit@[4 * k
        + 3]);
    assert(v[8] == 0 && v[9] == 0 && v[10] == 0 && v[11] == 0);
    assert(shown_payload(store, TpdoKind::SensorUnits).skip(2) =~= seq![0u8, 0, 0, 0, 0, 0]);
}

/// An output is broadcast as the width of its pulse if it has one, else as 0x8000 while it is on and
/// as zero while it is off.
pub proof fn an_output_frame_carries_its_outputs(store: Store, k: int)
    requires
        0 <= k < 4,
    ensures
        ({
            let bytes = shown_payload(store, TpdoKind::HcoState);
            let word = bytes[2 * k] + 256 * bytes[2 * k + 1];
            &&& bytes.len() == 8
            &&& store.hco_pwm_us@[k] != 0 ==> word == store.hco_pwm_us@[k]
            &&& store.hco_pwm_us@[k] == 0 && store.hco_digital@[k] != 0 ==> word == 0x8000
            &&& store.hco_pwm_us@[k] == 0 && store.hco_digital@[k] == 0 ==> word == 0
        }),
{
    some_frame_shows_the_store(store, TpdoKind::HcoState);
    let v = shown_frame(store, TpdoKind::HcoState)->HcoState_0@;
    assert(v[k] == reported_output(store.hco_pwm_us@[k], store.hco_digital@[k]));
    assert(v.map_values(|o: HcoOutput| o.word())[k] == v[k].word());
}

/// The rail kinds carry the three rails of the store, voltages and currents each in their own frame,
/// with nothing behind them.
pub proof fn a_rail_frame_carries_its_rails(store: Store, k: int)
    requires
        0 <= k < 3,
    ensures
        ({
            let bytes = shown_payload(store, TpdoKind::RailVoltage);
            &&& bytes.len() == 8
            &&& bytes[2 * k] + 256 * bytes[2 * k + 1] == store.rail_voltage_mv@[k]
            &&& bytes[6] == 0 && bytes[7] == 0
        }),
        ({
            let bytes = shown_payload(store, TpdoKind::RailCurrent);
            &&& bytes.len() == 8
            &&& bytes[2 * k] + 256 * bytes[2 * k + 1] == store.rail_current_ma@[k]
            &&& bytes[6] == 0 && bytes[7] == 0
        }),
{
    broadcast use crate::index::per_len;

    some_frame_shows_the_store(store, TpdoKind::RailVoltage);
    some_frame_shows_the_store(store, TpdoKind::RailCurrent);
}

/// The scan kind carries which converters answered on each bus and the low half of the number of
/// sweeps.
pub proof fn a_scan_frame_carries_the_scan(store: Store)
    ensures
        ({
            let bytes = shown_payload(store, TpdoKind::I2cScan);
            &&& bytes.len() == 8
            &&& bytes[0] + 256 * bytes[1] == store.i2c_present@[0]
            &&& bytes[2] + 256 * bytes[3] == store.i2c_present@[1]
            &&& bytes[4] + 256 * bytes[5] == store.i2c_sweeps % 65536
            &&& bytes[6] == 0 && bytes[7] == 0
        }),
{
    broadcast use crate::index::per_len;

    some_frame_shows_the_store(store, TpdoKind::I2cScan);
}

/// The valve status kind carries a status for every valve and an owner for every output, two to a
/// byte with the first in the low half, and the state of the relief loop.
pub proof fn a_status_frame_carries_each_valve(store: Store, k: int)
    requires
        0 <= k < 2,
        store.valve_status@[2 * k] < 16,
        store.valve_status@[2 * k + 1] < 16,
        store.hco_owner@[2 * k] < 16,
        store.hco_owner@[2 * k + 1] < 16,
    ensures
        ({
            let bytes = shown_payload(store, TpdoKind::ValveStatus);
            &&& bytes.len() == 8
            &&& bytes[k] == store.valve_status@[2 * k] + 16 * store.valve_status@[2 * k + 1]
            &&& bytes[2 + k] == store.hco_owner@[2 * k] + 16 * store.hco_owner@[2 * k + 1]
            &&& bytes[4] == store.relief_state
            &&& bytes[5] == 0 && bytes[6] == 0 && bytes[7] == 0
        }),
{
    some_frame_shows_the_store(store, TpdoKind::ValveStatus);
    nibbles_add_up(store.valve_status@[2 * k], store.valve_status@[2 * k + 1]);
    nibbles_add_up(store.hco_owner@[2 * k], store.hco_owner@[2 * k + 1]);
}

proof fn nibbles_add_up(lo: u8, hi: u8)
    requires
        lo < 16,
        hi < 16,
    ensures
        crate::proto::tpdo::nibble_pair(lo, hi) == lo + 16 * hi,
{
    assert(lo | (hi << 4) == lo + 16 * hi) by (bit_vector)
        requires
            lo < 16,
            hi < 16,
    ;
}

/// The status kind carries the state of the link, whether raw debug mode is on, a bit for every
/// valve that is stalled and how long the master has been silent.
pub proof fn a_status_frame_carries_the_link(store: Store, valve: ValveId)
    ensures
        ({
            let bytes = shown_payload(store, TpdoKind::Status);
            &&& bytes.len() == 8
            &&& bytes[0] == match store.link_state {
                LinkState::NeverSeen => 0,
                LinkState::Alive => 1,
                LinkState::FallbackA => 2,
                LinkState::FallbackB => 3,
                LinkState::Suspended => 4int,
            }
            &&& store.raw_debug ==> bytes[1] == 1
            &&& !store.raw_debug ==> bytes[1] == 0
            &&& bytes[2] < 16
            &&& bytes[2] as int / match valve {
                ValveId::Valve0 => 1,
                ValveId::Valve1 => 2,
                ValveId::Valve2 => 4,
                ValveId::Valve3 => 8int,
            } % 2 == if store.valve_status.at(valve) == ValveStatus::Stalled as u8 {
                1int
            } else {
                0
            }
            &&& bytes[3] == 0
            &&& bytes[4] + 256 * bytes[5] + 65536 * bytes[6] + 16777216 * bytes[7]
                == store.ms_since_heartbeat
        }),
{
    some_frame_shows_the_store(store, TpdoKind::Status);
}

/// A kind is looked at from its time on, if it has a period at all.
pub proof fn a_kind_is_due_from_its_time_on(tpdo: Tpdo, kind: TpdoKind, interval_ms: u16, now: u64)
    ensures
        !tpdo.is_due(kind, 0, now),
        interval_ms > 0 ==> (tpdo.is_due(kind, interval_ms, now) <==> now
            >= tpdo.due()[kind.position()]),
{
}

/// A payload that has changed is sent when its time comes, and one that has not is sent again once
/// five seconds have passed since it was last sent. The first one is always sent.
pub proof fn a_change_is_sent_when_due(
    before: Tpdo,
    store: Store,
    kind: TpdoKind,
    interval_ms: u16,
    now: u64,
    frame: Option<CanFrame>,
    after: Tpdo,
)
    requires
        polled(before, store, kind, interval_ms, now, frame, after),
    ensures
        interval_ms == 0 || now < before.due()[kind.position()] ==> frame is None,
        interval_ms > 0 && now >= before.due()[kind.position()] ==> match before.sent()[kind.position()] {
            None => frame is Some,
            Some((time, sent)) => {
                &&& shown_payload(store, kind) != sent@ ==> frame is Some
                &&& shown_payload(store, kind) == sent@ ==> (frame is Some <==> now >= time + 5000)
            },
        },
        frame matches Some((cob_id, body)) ==> cob_id == 0x200 + 16 * kind.position() + before.node()
            % 16 && frame_bytes(body) == shown_payload(store, kind),
{
}

/// A kind has one turn per period: after the turn in which it was due, it is not sent before a period
/// has passed, whatever the store shows by then.
pub proof fn a_kind_has_one_turn_per_period(
    first: Tpdo,
    second: Tpdo,
    third: Tpdo,
    store: Store,
    later_store: Store,
    kind: TpdoKind,
    interval_ms: u16,
    now: u64,
    later: u64,
    frame: Option<CanFrame>,
    next: Option<CanFrame>,
)
    requires
        first.due().len() == 18,
        now + interval_ms <= u64::MAX,
        polled(first, store, kind, interval_ms, now, frame, second),
        polled(second, later_store, kind, interval_ms, later, next, third),
        now >= first.due()[kind.position()],
        now <= later < now + interval_ms,
    ensures
        next is None,
        third.due()[kind.position()] == now + interval_ms,
{
    kind.position_in_range();
}

/// What is sent is remembered: right after a kind was sent, the same payload is not sent again until
/// five seconds later, however often its time comes.
pub proof fn an_unchanged_payload_is_held_back(
    first: Tpdo,
    second: Tpdo,
    third: Tpdo,
    store: Store,
    later_store: Store,
    kind: TpdoKind,
    interval_ms: u16,
    now: u64,
    later: u64,
    frame: Option<CanFrame>,
    next: Option<CanFrame>,
)
    requires
        polled(first, store, kind, interval_ms, now, frame, second),
        polled(second, later_store, kind, interval_ms, later, next, third),
        frame is Some,
        shown_payload(store, kind) == shown_payload(later_store, kind),
        now <= later < now + 5000,
    ensures
        next is None,
{
}

/// One kind's turn leaves the schedule of every other kind alone.
pub proof fn a_turn_concerns_one_kind(
    before: Tpdo,
    store: Store,
    kind: TpdoKind,
    other: TpdoKind,
    interval_ms: u16,
    now: u64,
    frame: Option<CanFrame>,
    after: Tpdo,
)
    requires
        before.due().len() == 18,
        before.sent().len() == 18,
        polled(before, store, kind, interval_ms, now, frame, after),
        other != kind,
    ensures
        after.due()[other.position()] == before.due()[other.position()],
        after.sent()[other.position()] == before.sent()[other.position()],
{
    kind.position_in_range();
    other.position_in_range();
    kind.nth_inverts_position();
    other.nth_inverts_position();
}

} // verus!
