//! Writes to the first generation's object store, and what they do to the outputs.
use crate::bytes::{le16, u16_from_le};
use crate::can::sdo::{asks, is_request, SdoRequest};
use crate::can::{frame_bytes, FrameBody};
use crate::command_listener::{output_at, output_of};
use crate::hco::{servo_safe, Level, PwmMicros, State};
use crate::high_current_out::{plan_of, DrivePlan, HcoController, HcoState, HighCurrentOutput as Hco};
use vstd::prelude::*;
use zencan_common::messages::{CanId, CanMessage, ZencanMessage};
use zencan_common::sdo::SdoRequest as Request;

verus! {

/// How many valves the store has room for.
pub const NUM_SUPPORTED_VALVES: usize = 4;

pub const STORE_IDX_RAW_EXT_ADC_BUS0: u16 = 0x2000;

pub const STORE_IDX_RAW_EXT_ADC_BUS1: u16 = 0x2001;

pub const STORE_IDX_TEMP_SENS: u16 = 0x2002;

pub const STORE_IDX_PRESSURE_SENS: u16 = 0x2003;

pub const STORE_IDX_VALVES: u16 = 0x2010;

pub const STORE_IDX_HCO_BINARY: u16 = 0x2020;

pub const STORE_IDX_HCO_PWM_US: u16 = 0x2021;

/// The objects that can be written.
#[derive(Clone, Copy, PartialEq, Eq, Debug)]
pub struct CanInterfaceStore {
    pub valves: [u16; 4],
    pub hco_binary: [u8; 4],
    pub hco_pwm_us: [u16; 4],
}

/// Why a write is refused.
#[derive(Clone, Copy, PartialEq, Eq, Debug, Structural)]
pub enum StoreWriteError {
    ReadOnly,
    SubIndexOutOfRange,
    DataWrongSize,
    IndexNotMapped,
}

/// What a write that was taken asks of the outputs.
#[derive(Clone, Copy, PartialEq, Eq, Debug, Structural)]
pub enum StoreEffect {
    /// A valve is to go to a position, in promille.
    SetValve { valve: usize, promille: u16 },
    SetLevel { output: Hco, level: Level },
    SetPwm { output: Hco, micros: u16 },
}

/// The objects that are only read.
pub open spec fn is_read_only(index: u16) -> bool {
    index == STORE_IDX_RAW_EXT_ADC_BUS0 || index == STORE_IDX_RAW_EXT_ADC_BUS1 || index
        == STORE_IDX_TEMP_SENS || index == STORE_IDX_PRESSURE_SENS
}

/// The objects that can be written, and with how many bytes.
pub open spec fn width_of(index: u16) -> Option<int> {
    if index == STORE_IDX_VALVES || index == STORE_IDX_HCO_PWM_US {
        Some(2)
    } else if index == STORE_IDX_HCO_BINARY {
        Some(1)
    } else {
        None
    }
}

/// Why a write is refused, if it is: the object is only read, or does not exist; it has no such
/// entry; or the data is not as wide as the entry.
pub open spec fn refusal(index: u16, sub: u8, data: Seq<u8>) -> Option<StoreWriteError> {
    if is_read_only(index) {
        Some(StoreWriteError::ReadOnly)
    } else if width_of(index) is None {
        Some(StoreWriteError::IndexNotMapped)
    } else if sub >= 4 {
        Some(StoreWriteError::SubIndexOutOfRange)
    } else if data.len() != width_of(index)->0 {
        Some(StoreWriteError::DataWrongSize)
    } else {
        None
    }
}

/// A written position, held to fully open.
pub open spec fn held_open(promille: int) -> u16 {
    if promille > 1000 {
        1000
    } else {
        promille as u16
    }
}

/// What a write that is taken asks of the outputs.
pub open spec fn effect_of(index: u16, sub: u8, data: Seq<u8>) -> StoreEffect {
    if index == STORE_IDX_VALVES {
        StoreEffect::SetValve { valve: sub as usize, promille: held_open(le16(data[0], data[1])) }
    } else if index == STORE_IDX_HCO_BINARY {
        StoreEffect::SetLevel {
            output: output_at(sub)->0,
            level: if data[0] == 0 {
                Level::Low
            } else {
                Level::High
            },
        }
    } else {
        StoreEffect::SetPwm {
            output: output_at(sub)->0,
            micros: servo_safe(le16(data[0], data[1]) as u16),
        }
    }
}

/// Whether a store is another one after a write that was taken: the entry that was written holds what
/// was written, a position no further than fully open, and every other stays.
pub open spec fn written(
    before: CanInterfaceStore,
    index: u16,
    sub: u8,
    data: Seq<u8>,
    after: CanInterfaceStore,
) -> bool {
    &&& after.valves@ == if index == STORE_IDX_VALVES {
        before.valves@.update(sub as int, held_open(le16(data[0], data[1])))
    } else {
        before.valves@
    }
    &&& after.hco_binary@ == if index == STORE_IDX_HCO_BINARY {
        before.hco_binary@.update(sub as int, data[0])
    } else {
        before.hco_binary@
    }
    &&& after.hco_pwm_us@ == if index == STORE_IDX_HCO_PWM_US {
        before.hco_pwm_us@.update(sub as int, le16(data[0], data[1]) as u16)
    } else {
        before.hco_pwm_us@
    }
}

/// Writes an object of the store, and says what the write asks of the outputs. Once that is done,
/// [`update_store_hco_state`] brings the store in step with them.
pub fn try_write_to_store(store: &mut CanInterfaceStore, index: u16, sub: u8, data: &[u8]) -> (r: Result<
    StoreEffect,
    StoreWriteError,
>)
    ensures
        r == match refusal(index, sub, data@) {
            Some(error) => Err::<StoreEffect, StoreWriteError>(error),
            None => Ok(effect_of(index, sub, data@)),
        },
        r is Err ==> *final(store) == *old(store),
        r is Ok ==> written(*old(store), index, sub, data@, *final(store)),
        r is Ok ==> {
            &&& final(store).valves@ == if index == STORE_IDX_VALVES {
                old(store).valves@.update(sub as int, held_open(le16(data@[0], data@[1])))
            } else {
                old(store).valves@
            }
            &&& final(store).hco_binary@ == if index == STORE_IDX_HCO_BINARY {
                old(store).hco_binary@.update(sub as int, data@[0])
            } else {
                old(store).hco_binary@
            }
            &&& final(store).hco_pwm_us@ == if index == STORE_IDX_HCO_PWM_US {
                old(store).hco_pwm_us@.update(sub as int, le16(data@[0], data@[1]) as u16)
            } else {
                old(store).hco_pwm_us@
            }
        },
{
    let at: usize = sub as usize;
    match index {
        STORE_IDX_RAW_EXT_ADC_BUS0
        | STORE_IDX_RAW_EXT_ADC_BUS1
        | STORE_IDX_TEMP_SENS
        | STORE_IDX_PRESSURE_SENS => Err(StoreWriteError::ReadOnly),
        STORE_IDX_VALVES => {
            if at >= NUM_SUPPORTED_VALVES {
                return Err(StoreWriteError::SubIndexOutOfRange);
            }
            if data.len() != 2 {
                return Err(StoreWriteError::DataWrongSize);
            }
            let written: u16 = u16_from_le(data[0], data[1]);
            let promille: u16 = if written > 1000 {
                1000
            } else {
                written
            };
            store.valves[at] = promille;
            Ok(StoreEffect::SetValve { valve: at, promille })
        },
        STORE_IDX_HCO_BINARY => {
            let output = match output_of(sub) {
                Some(output) => output,
                None => return Err(StoreWriteError::SubIndexOutOfRange),
            };
            if data.len() != 1 {
                return Err(StoreWriteError::DataWrongSize);
            }
            store.hco_binary[at] = data[0];
            let level = match data[0] {
                0 => Level::Low,
                _ => Level::High,
            };
            Ok(StoreEffect::SetLevel { output, level })
        },
        STORE_IDX_HCO_PWM_US => {
            let output = match output_of(sub) {
                Some(output) => output,
                None => return Err(StoreWriteError::SubIndexOutOfRange),
            };
            if data.len() != 2 {
                return Err(StoreWriteError::DataWrongSize);
            }
            let written: u16 = u16_from_le(data[0], data[1]);
            store.hco_pwm_us[at] = written;
            let micros: u16 = PwmMicros::from_u16_clamped(written).into();
            Ok(StoreEffect::SetPwm { output, micros })
        },
        _ => Err(StoreWriteError::IndexNotMapped),
    }
}

/// The output at an index, counted from zero.
pub open spec fn state_at(state: HcoState, i: int) -> State {
    state.of(output_at(i as u8)->0)
}

/// What the store shows of an output's level: a pulsed one counts as on.
pub open spec fn binary_of(state: State) -> u8 {
    match state {
        State::Digital(Level::High) => 1,
        State::Digital(Level::Low) => 0,
        State::Pwm(width) => if width.micros() == 0 {
            0
        } else {
            1
        },
    }
}

/// What the store shows of an output's pulse.
pub open spec fn micros_of(state: State) -> u16 {
    match state {
        State::Digital(_) => 0,
        State::Pwm(width) => width.micros(),
    }
}

/// Brings the store in step with the state that the outputs are really in.
pub fn update_store_hco_state(store: &mut CanInterfaceStore, state: &HcoState)
    ensures
        final(store).valves@ == old(store).valves@,
        final(store).hco_binary@ == Seq::new(4, |i: int| binary_of(state_at(*state, i))),
        final(store).hco_pwm_us@ == Seq::new(4, |i: int| micros_of(state_at(*state, i))),
{
    let mut i: usize = 0;
    while i < 4
        invariant
            i <= 4,
            store.valves@ == old(store).valves@,
            forall|j: int|
                0 <= j < i ==> #[trigger] store.hco_binary@[j] == binary_of(state_at(*state, j)),
            forall|j: int|
                0 <= j < i ==> #[trigger] store.hco_pwm_us@[j] == micros_of(state_at(*state, j)),
        decreases 4 - i,
    {
        let (binary, micros): (u8, u16) = match state.get_state_0_indexed(i) {
            None => (0, 0),
            Some(State::Digital(level)) => (level.as_u8(), 0),
            Some(State::Pwm(width)) => (
                if width.as_u16() == 0 {
                    0
                } else {
                    1
                },
                width.as_u16(),
            ),
        };
        store.hco_binary[i] = binary;
        store.hco_pwm_us[i] = micros;
        i += 1;
    }
    assert(store.hco_binary@ =~= Seq::new(4, |i: int| binary_of(state_at(*state, i))));
    assert(store.hco_pwm_us@ =~= Seq::new(4, |i: int| micros_of(state_at(*state, i))));
}

/// Whether a frame is a request to an object server: the identifier is in the range for requests,
/// and the body is a request.
pub open spec fn is_bus_request(cob_id: u16, bytes: Seq<u8>) -> bool {
    0x600 <= cob_id <= 0x680 && is_request(bytes)
}

/// Calls `CanMessage::new` and `ZencanMessage::try_from` of [`zencan_common::messages`], and gives
/// the request that the message is, if it is one. The contract claims which identifiers and bodies
/// are requests, and what they ask. `CanMessage::new` panics on more than eight bytes, which are
/// left out.
#[verifier::external_body]
fn request_on_bus(cob_id: u16, bytes: &[u8]) -> (r: Option<SdoRequest>)
    requires
        bytes@.len() <= 8,
    ensures
        r is Some <==> is_bus_request(cob_id, bytes@),
        r matches Some(request) ==> asks(bytes@, request),
{
    match ZencanMessage::try_from(CanMessage::new(CanId::Std(cob_id), bytes)) {
        Ok(ZencanMessage::SdoRequest(Request::InitiateUpload { index, sub })) => Some(
            SdoRequest::InitiateUpload { index, sub },
        ),
        Ok(ZencanMessage::SdoRequest(Request::InitiateDownload { n, e, s, index, sub, data })) =>
            Some(SdoRequest::InitiateDownload { n, e, s, index, sub, data }),
        Ok(ZencanMessage::SdoRequest(_)) => Some(SdoRequest::Other),
        _ => None,
    }
}

/// A write to the store that a frame asks for: the first `len` bytes of `data`.
#[derive(Clone, Copy, PartialEq, Eq, Debug)]
pub struct StoreWrite {
    pub index: u16,
    pub sub: u8,
    pub data: [u8; 4],
    pub len: usize,
}

pub struct CanOpenInterface {
    node_id: u8,
}

impl CanOpenInterface {
    pub closed spec fn node(self) -> u8 {
        self.node_id
    }

    pub fn new(node_id: u8) -> (r: Self)
        ensures
            r.node() == node_id,
    {
        Self { node_id }
    }

    /// Decides which write a received frame asks of this node's store, if any: only expedited
    /// downloads of a stated size are supported.
    pub fn listen(&self, cob_id: u16, body: &FrameBody) -> (r: Option<StoreWrite>)
        ensures
            r is Some <==> is_store_write(self.node(), cob_id, frame_bytes(*body)),
            r matches Some(write) ==> write_of(frame_bytes(*body), write),
    {
        let bytes = body.as_slice();
        match request_on_bus(cob_id, bytes) {
            Some(SdoRequest::InitiateDownload { n, e, s, index, sub, data }) => {
                if cob_id != 0x600 + self.node_id as u16 {
                    return None;
                }
                if !e || !s || n > 4 {
                    return None;
                }
                Some(StoreWrite { index, sub, data, len: 4 - n as usize })
            },
            _ => None,
        }
    }
}

/// Whether a frame asks a node's store for a write: a request to that node, with the command for
/// an expedited download of a stated size.
pub open spec fn is_store_write(node_id: u8, cob_id: u16, bytes: Seq<u8>) -> bool {
    &&& is_bus_request(cob_id, bytes)
    &&& cob_id == 0x600 + node_id
    &&& bytes[0] / 32 == 1
    &&& bytes[0] % 4 == 3
}

/// Whether a write is the one that some bytes ask for.
pub open spec fn write_of(bytes: Seq<u8>, write: StoreWrite) -> bool {
    &&& write.index == le16(bytes[1], bytes[2])
    &&& write.sub == bytes[3]
    &&& write.data@ == bytes.subrange(4, 8)
    &&& write.len == 4 - bytes[0] / 4 % 4
}

/// The state of the outputs after an effect on them; a valve's outputs are its driver's to set.
pub open spec fn state_after(state: HcoState, effect: StoreEffect) -> HcoState {
    match effect {
        StoreEffect::SetValve { .. } => state,
        StoreEffect::SetLevel { output, level } => state.with(output, State::Digital(level)),
        StoreEffect::SetPwm { output, micros } => state.with(
            output,
            State::Pwm(PwmMicros::of(servo_safe(micros))),
        ),
    }
}

/// Puts a direct effect into a state.
pub fn apply_effect(state: &mut HcoState, effect: StoreEffect)
    ensures
        *final(state) == state_after(*old(state), effect),
{
    match effect {
        StoreEffect::SetValve { .. } => {},
        StoreEffect::SetLevel { output, level } => state.set_level(output, level),
        StoreEffect::SetPwm { output, micros } => state.set_pwm_micros(output, micros),
    }
}

/// What a write that was taken leads to.
#[derive(Clone, Copy, PartialEq, Eq, Debug, Structural)]
pub enum Applied {
    /// The outputs are in their new state, and the store shows it; their driver has this to do.
    Outputs(DrivePlan),
    /// The valve's driver moves it; the store is brought in step with the outputs after that.
    Valve { valve: usize, promille: u16 },
}

/// Writes an object of the store and puts a direct write to an output into effect, after which the
/// store shows the state that the outputs are really in.
pub fn write_and_apply(
    store: &mut CanInterfaceStore,
    controller: &mut HcoController,
    index: u16,
    sub: u8,
    data: &[u8],
) -> (r: Result<Applied, StoreWriteError>)
    ensures
        match refusal(index, sub, data@) {
            Some(error) => {
                &&& r == Err::<Applied, StoreWriteError>(error)
                &&& *final(store) == *old(store)
                &&& final(controller).shown() == old(controller).shown()
            },
            None => {
                let effect = effect_of(index, sub, data@);
                &&& final(controller).shown() == state_after(old(controller).shown(), effect)
                &&& r == Ok::<Applied, StoreWriteError>(
                    match effect {
                        StoreEffect::SetValve { valve, promille } => Applied::Valve {
                            valve,
                            promille,
                        },
                        _ => Applied::Outputs(plan_of(final(controller).shown())),
                    },
                )
                &&& final(store).valves@ == if index == STORE_IDX_VALVES {
                    old(store).valves@.update(sub as int, held_open(le16(data@[0], data@[1])))
                } else {
                    old(store).valves@
                }
                &&& index != STORE_IDX_VALVES ==> {
                    let shown = final(controller).shown();
                    &&& final(store).hco_binary@ == Seq::new(4, |i: int| binary_of(state_at(shown, i)))
                    &&& final(store).hco_pwm_us@ == Seq::new(4, |i: int| micros_of(state_at(shown, i)))
                }
                &&& index == STORE_IDX_VALVES ==> final(store).hco_binary@ == old(store).hco_binary@
                    && final(store).hco_pwm_us@ == old(store).hco_pwm_us@
            },
        },
{
    let effect = match try_write_to_store(store, index, sub, data) {
        Ok(effect) => effect,
        Err(error) => return Err(error),
    };
    if let StoreEffect::SetValve { valve, promille } = effect {
        return Ok(Applied::Valve { valve, promille });
    }
    let mut state = controller.get_state();
    apply_effect(&mut state, effect);
    let plan = controller.set_state(state);
    update_store_hco_state(store, &state);
    Ok(Applied::Outputs(plan))
}

/// A pulse width that was written and put into effect is what the store shows afterwards, held to
/// the servo-safe range; a level likewise. Every other output is shown as it was.
pub proof fn a_direct_write_is_shown(state: HcoState, index: u16, sub: u8, data: Seq<u8>, other: u8)
    requires
        refusal(index, sub, data) is None,
        index != STORE_IDX_VALVES,
        other < 4,
    ensures
        ({
            let after = state_after(state, effect_of(index, sub, data));
            let shown = state_at(after, sub as int);
            &&& index == STORE_IDX_HCO_PWM_US ==> micros_of(shown) == servo_safe(
                le16(data[0], data[1]) as u16,
            ) && binary_of(shown) == 1
            &&& index == STORE_IDX_HCO_BINARY ==> micros_of(shown) == 0 && binary_of(shown) == (
            if data[0] == 0 {
                0int
            } else {
                1
            })
            &&& other != sub ==> state_at(after, other as int) == state_at(state, other as int)
        }),
{
    crate::hco::a_pulse_width_is_its_micros(
        PwmMicros::of(servo_safe(servo_safe(le16(data[0], data[1]) as u16))),
        servo_safe(servo_safe(le16(data[0], data[1]) as u16)),
    );
}

/// A write is refused for its own reason: four objects are only read, and any but three more are not
/// there; then the entry has to be one of four, and the data as wide as the entry, two bytes for a
/// valve or a pulse and one for a level.
pub proof fn a_write_is_refused_for_its_reason(index: u16, sub: u8, data: Seq<u8>)
    ensures
        ({
            let written = index == 0x2010 || index == 0x2020 || index == 0x2021;
            let width: int = if index == 0x2020 {
                1
            } else {
                2
            };
            &&& refusal(index, sub, data) == Some(StoreWriteError::ReadOnly) <==> 0x2000 <= index
                <= 0x2003
            &&& refusal(index, sub, data) == Some(StoreWriteError::IndexNotMapped) <==> !written && !(
            0x2000 <= index <= 0x2003)
            &&& refusal(index, sub, data) == Some(StoreWriteError::SubIndexOutOfRange) <==> written
                && sub > 3
            &&& refusal(index, sub, data) == Some(StoreWriteError::DataWrongSize) <==> written && sub
                <= 3 && data.len() != width
            &&& refusal(index, sub, data) is None <==> written && sub <= 3 && data.len() == width
        }),
{
}

/// A write to a valve asks for the position that was written, the low byte first, and for fully open
/// where it was written further.
pub proof fn a_valve_write_asks_for_its_position(sub: u8, data: Seq<u8>)
    requires
        sub < 4,
        data.len() == 2,
    ensures
        effect_of(0x2010, sub, data) matches StoreEffect::SetValve { valve, promille } && valve == sub
            && promille == if data[0] + 256 * data[1] > 1000 {
            1000
        } else {
            data[0] + 256 * data[1]
        },
{
}

/// A write of a level asks for low if it is zero and for high otherwise, of the output that the entry
/// counts from zero.
pub proof fn a_level_write_asks_for_its_level(sub: u8, data: Seq<u8>)
    requires
        sub < 4,
        data.len() == 1,
    ensures
        effect_of(0x2020, sub, data) matches StoreEffect::SetLevel { output, level } && (level
            == Level::Low <==> data[0] == 0) && output == match sub {
            0 => Hco::_1,
            1 => Hco::_2,
            2 => Hco::_3,
            _ => Hco::_4,
        },
{
}

/// A write of a pulse asks for the width that was written, the low byte first, brought between 500 and
/// 2500 microseconds.
pub proof fn a_pulse_write_asks_for_its_width(sub: u8, data: Seq<u8>)
    requires
        sub < 4,
        data.len() == 2,
    ensures
        effect_of(0x2021, sub, data) matches StoreEffect::SetPwm { output, micros } && micros == ({
            let written = data[0] + 256 * data[1];
            if written < 500 {
                500
            } else if written > 2500 {
                2500
            } else {
                written
            }
        }) && output == match sub {
            0 => Hco::_1,
            1 => Hco::_2,
            2 => Hco::_3,
            _ => Hco::_4,
        },
{
}

/// An effect changes the output that it names to the state that it names, and no other; one on a valve
/// changes none.
pub proof fn an_effect_changes_its_own_output(state: HcoState, output: Hco, other: Hco, level: Level, micros: u16)
    ensures
        state_after(state, StoreEffect::SetLevel { output, level }).of(output) == State::Digital(
            level,
        ),
        state_after(state, StoreEffect::SetPwm { output, micros }).of(output) matches State::Pwm(
            width,
        ) && (500 <= micros <= 2500 ==> width.micros() == micros) && (micros < 500 ==> width.micros()
            == 500) && (micros > 2500 ==> width.micros() == 2500),
        other != output ==> state_after(state, StoreEffect::SetLevel { output, level }).of(other)
            == state.of(other) && state_after(state, StoreEffect::SetPwm { output, micros }).of(other)
            == state.of(other),
        state_after(state, StoreEffect::SetValve { valve: 0, promille: micros }) == state,
{
    crate::hco::a_pulse_width_is_its_micros(PwmMicros::of(micros), servo_safe(micros));
}

/// The store shows each output in its own entry: one for high or for any pulse but an empty one, zero
/// for low, and the width of the pulse, which a level does not have.
pub proof fn the_store_shows_each_output(state: HcoState)
    ensures
        state_at(state, 0) == state._1,
        state_at(state, 1) == state._2,
        state_at(state, 2) == state._3,
        state_at(state, 3) == state._4,
        binary_of(State::Digital(Level::High)) == 1,
        binary_of(State::Digital(Level::Low)) == 0,
        micros_of(State::Digital(Level::High)) == 0,
        micros_of(State::Digital(Level::Low)) == 0,
        forall|width: PwmMicros| #[trigger] micros_of(State::Pwm(width)) == width.micros(),
        forall|width: PwmMicros|
            width.micros() > 0 ==> #[trigger] binary_of(State::Pwm(width)) == 1,
        forall|width: PwmMicros|
            width.micros() == 0 ==> #[trigger] binary_of(State::Pwm(width)) == 0,
{
}

/// A frame writes to a node's store exactly if it is eight bytes or more, its identifier is the node's
/// own among the requests, and its command is an expedited download of a stated size.
pub proof fn a_frame_writes_to_one_store(node_id: u8, cob_id: u16, bytes: Seq<u8>)
    ensures
        is_store_write(node_id, cob_id, bytes) <==> bytes.len() >= 8 && cob_id == 0x600 + node_id
            && node_id <= 0x80 && bytes[0] / 32 == 1 && bytes[0] / 2 % 2 == 1 && bytes[0] % 2 == 1,
{
}

/// A write takes its object, its entry and its data from their places in the frame, and as many bytes
/// of the data as the command leaves.
pub proof fn a_write_is_taken_from_its_frame(bytes: Seq<u8>, write: StoreWrite)
    requires
        bytes.len() >= 8,
        write_of(bytes, write),
    ensures
        write.index == bytes[1] + 256 * bytes[2],
        write.sub == bytes[3],
        forall|i: int| 0 <= i < 4 ==> #[trigger] write.data@[i] == bytes[4 + i],
        1 <= write.len <= 4,
        4 * (4 - write.len) == bytes[0] % 16 - bytes[0] % 4,
{
    assert forall|i: int| 0 <= i < 4 implies #[trigger] write.data@[i] == bytes[4 + i] by {
        assert(bytes.subrange(4, 8)[i] == bytes[4 + i]);
    }
}

/// What is written to an entry is what it holds, the low byte first, a valve's position no further than
/// fully open; every other entry, and every other object, holds what it held.
pub proof fn an_entry_holds_what_was_written(
    before: CanInterfaceStore,
    index: u16,
    sub: u8,
    data: Seq<u8>,
    after: CanInterfaceStore,
    other: int,
)
    requires
        refusal(index, sub, data) is None,
        written(before, index, sub, data, after),
        0 <= other < 4,
    ensures
        index == 0x2010 ==> after.valves@[sub as int] == if data[0] + 256 * data[1] > 1000 {
            1000
        } else {
            data[0] + 256 * data[1]
        },
        index == 0x2020 ==> after.hco_binary@[sub as int] == data[0],
        index == 0x2021 ==> after.hco_pwm_us@[sub as int] == data[0] + 256 * data[1],
        index != 0x2010 || other != sub ==> after.valves@[other] == before.valves@[other],
        index != 0x2020 || other != sub ==> after.hco_binary@[other] == before.hco_binary@[other],
        index != 0x2021 || other != sub ==> after.hco_pwm_us@[other] == before.hco_pwm_us@[other],
{
}

} // verus!
