//! The control task's decisions: the only thing in this firmware that drives outputs.
//!
//! One tick turns the store's intent (commanded positions, direct writes, the link state) into
//! output states, and says what to write back. It runs in two halves, with the valve models ticked
//! between them: [`Control::arbitrate`] resolves a target per valve, the models turn targets into
//! drives, and [`Control::conclude`] puts the drives on the outputs.
//!
//! What outranks what, from the top: an override made by hand in raw debug mode, the heater on its
//! own pair, the valves' heating pads on theirs, overpressure relief, the fallback stages, the master's command held to the valve's
//! range, and direct writes to outputs that nobody owns.
use crate::board::stepper::{StepCommand, StepperPort};
use crate::config::{Config, ValveConfig, ValveHeatingConfig};
use crate::hco::{servo_safe, HcoControl, HcoState, Level, PwmMicros, State};
use crate::heater::{line_due, pad_on, uncalibrated_milli_c, Heater, HeaterConfig, HeaterLog, HeaterMode, HeaterState};
use crate::heating::{heating_after, Heating, HeatingState};
use crate::index::{HcoId, Id, Per, PerHco, PerSensorSlot, PerStepper, PerValve, StepperId, ValveId};
use crate::leds::LedsState;
use crate::outputs::{all_low, digital, overlaid, pwm, Outputs};
use crate::proto::od::{RAW_INVALID, SENSOR_INVALID, TEMPERATURE_INVALID};
use crate::proto::valve::{is_unpowered, position, position_of, released, released_at, unpowered_at, PROMILLE_MAX};
use crate::rail_sense::Rails;
use crate::relief::{Relief, ReliefState};
use crate::safety::{action_for, evaluate, fallback_action, link_after, FallbackLatch};
use crate::store::{LinkState, Pending, Store};
use crate::time::Instant;
use crate::valves::{ValveDrive, ValveStatus};
use core::ops::IndexMut;
use vstd::prelude::*;

verus! {

/// Tick period, in milliseconds.
pub const TICK_MS: u64 = 20;

/// The direct writes of a tick.
#[derive(Clone, Copy)]
pub struct DirectWrites {
    pub digital: PerHco<u8>,
    pub pwm_us: PerHco<u16>,
    /// Which outputs were written since the last tick; the other fields hold the last value
    /// written to every output.
    pub dirty: PerHco<bool>,
    pub is_pwm: PerHco<bool>,
}

impl DirectWrites {
    /// The state that was written to an output.
    pub open spec fn state(self, i: int) -> State {
        if self.is_pwm@[i] {
            State::Pwm(PwmMicros::of(servo_safe(self.pwm_us@[i])))
        } else {
            State::Digital(
                if self.digital@[i] != 0 {
                    Level::High
                } else {
                    Level::Low
                },
            )
        }
    }
}

/// Everything a tick's decisions are made from.
#[derive(Clone, Copy)]
pub struct TickInputs {
    pub config: Config,
    pub commanded: PerValve<u16>,
    pub sensor_value: PerSensorSlot<i16>,
    pub raw_debug: bool,
    pub pending: Pending,
    pub direct_writes: Option<DirectWrites>,
    pub rails: Option<Rails>,
    /// Raw heater reading, `None` if there is no heater or it cannot be read.
    pub heater_ntc: Option<u16>,
    pub heater_mode: HeaterMode,
    pub now: Instant,
    pub since_heartbeat: u32,
    pub seen: bool,
    /// The position that each valve has held for its settle time, if its model says so of the one
    /// that it was asked about. See [`settling_positions`]: an answer about another position does
    /// not count.
    pub settled_at: PerValve<Option<u16>>,
}

impl TickInputs {
    pub open spec fn link(self) -> LinkState {
        link_after(self.config, self.raw_debug, self.seen, self.since_heartbeat)
    }

    /// Whether a valve does what the master commands, as far as relief does not take it: no fallback
    /// stage acts on it.
    pub open spec fn follows_the_master(self, valve: ValveId) -> bool {
        fallback_action(self.link(), self.config.valves.at(valve)) is None
    }

    /// Every valve whose target comes from its command has a range that a command can be held to.
    pub open spec fn ranges_are_orderly(self, relief: Relief) -> bool {
        forall|valve: ValveId|
            self.follows_the_master(valve) && !relieving(relief, self, valve) ==> (
            #[trigger] self.config.valves.at(valve)).min_promille <= self.config.valves.at(
                valve,
            ).upper_limit()
    }

    /// Whether a valve has settled at a position.
    pub open spec fn has_settled(self, valve: ValveId, position: u16) -> bool {
        self.settled_at.at(valve) == Some(position)
    }

    /// What the heater holds, in thousandths of a degree.
    pub open spec fn setpoint_milli_c(self) -> i32 {
        (self.config.heater_setpoint_centi_c * 10) as i32
    }
}

/// What the first half of a tick decided, for the valve models.
pub struct Arbitration {
    pub link: LinkState,
    pub targets: PerValve<u16>,
    /// The rail current that each valve's model judges a stall by.
    pub currents: PerValve<Option<u16>>,
    /// Where a fitted sensor says that each valve is.
    pub sensed: PerValve<Option<u16>>,
}

/// What the second half of a tick decided, for the store.
pub struct TickOutcome {
    pub relief_state: u8,
    pub heater_milli_c: i32,
    pub heater_raw: u16,
    pub heater_state: u8,
    /// What the heater stays commanded to.
    pub heater_mode: HeaterMode,
    /// What to log of the heater, when a line is due.
    pub heater_log: Option<HeaterLog>,
    /// What each valve's heating pad does.
    pub heating_states: PerValve<u8>,
    /// The LED state, if it changed.
    pub leds: Option<LedsState>,
}

/// Where a valve's position sensor says it is, in promille; none without a sensor, or with one
/// that has no reading or a negative one.
pub open spec fn sensed(cfg: ValveConfig, values: Seq<i16>) -> Option<u16> {
    match cfg.position_sensor {
        Some(slot) => {
            let reading = values[slot.position()];
            if reading == SENSOR_INVALID || reading < 0 {
                None
            } else if reading > 1000 {
                Some(1000)
            } else {
                Some(reading as u16)
            }
        },
        None => None,
    }
}

/// Where a valve's position sensor says it is, or `None` to fall back to an estimate: a valve that
/// has lost its sensor should coast on the estimate rather than freeze at the last good reading.
pub fn sensed_position(cfg: &ValveConfig, values: &PerSensorSlot<i16>) -> (r: Option<u16>)
    ensures
        r == sensed(*cfg, values@),
{
    let slot = match cfg.position_sensor {
        Some(slot) => slot,
        None => return None,
    };
    let reading: i16 = values[slot];
    if reading == SENSOR_INVALID || reading < 0 {
        return None;
    }
    let promille: u16 = reading as u16;
    if promille > PROMILLE_MAX {
        Some(PROMILLE_MAX)
    } else {
        Some(promille)
    }
}

/// The current through the shunt that a valve's signal output runs through.
pub open spec fn rail_current(cfg: ValveConfig, rails: Option<Rails>) -> Option<u16> {
    match (rails, cfg.signal_hco) {
        (Some(rails), Some(hco)) => Some(rails.current_ma.at(hco.spec_pair().spec_rail())),
        _ => None,
    }
}

/// Attributes a rail current to a valve. One shunt covers a pair of outputs, so a valve that owns a
/// whole pair gets an unambiguous reading.
pub fn valve_current(cfg: &ValveConfig, rails: Option<Rails>) -> (r: Option<u16>)
    ensures
        r == rail_current(*cfg, rails),
{
    match (rails, cfg.signal_hco) {
        (Some(rails), Some(hco)) => Some(rails.current_ma[hco.pair().rail()]),
        _ => None,
    }
}

/// A set of output states with one of them replaced, if there is one to replace.
pub open spec fn put(states: Seq<State>, hco: Option<HcoId>, state: State) -> Seq<State> {
    match hco {
        Some(hco) => states.update(hco.position(), state),
        None => states,
    }
}

pub open spec fn level_state(on: bool) -> State {
    State::Digital(
        if on {
            Level::High
        } else {
            Level::Low
        },
    )
}

/// Output states with one valve's demand folded in.
pub open spec fn driven(states: Seq<State>, cfg: ValveConfig, drive: ValveDrive) -> Seq<State> {
    match drive {
        ValveDrive::Released => put(
            put(states, cfg.signal_hco, level_state(false)),
            cfg.power_hco,
            level_state(false),
        ),
        ValveDrive::Solenoid(on) => put(
            put(states, cfg.signal_hco, level_state(on)),
            cfg.power_hco,
            level_state(on),
        ),
        ValveDrive::Servo { pulse_us } => put(
            put(states, cfg.power_hco, level_state(true)),
            cfg.signal_hco,
            State::Pwm(PwmMicros::of(servo_safe(pulse_us))),
        ),
        ValveDrive::Stepper { .. } => states,
    }
}

fn set_output(desired: &mut HcoState, hco: Option<HcoId>, state: State)
    ensures
        final(desired)@ == put(old(desired)@, hco, state),
{
    if let Some(hco) = hco {
        *desired.index_mut(hco) = state;
    }
}

/// Folds one valve's demand into the desired output states.
pub fn apply_drive(desired: &mut HcoState, cfg: &ValveConfig, drive: ValveDrive)
    ensures
        final(desired)@ == driven(old(desired)@, *cfg, drive),
{
    match drive {
        ValveDrive::Released => {
            set_output(desired, cfg.signal_hco, digital(false));
            set_output(desired, cfg.power_hco, digital(false));
        },
        ValveDrive::Solenoid(on) => {
            set_output(desired, cfg.signal_hco, digital(on));
            set_output(desired, cfg.power_hco, digital(on));
        },
        ValveDrive::Servo { pulse_us } => {
            set_output(desired, cfg.power_hco, digital(true));
            set_output(desired, cfg.signal_hco, pwm(pulse_us));
        },
        ValveDrive::Stepper { .. } => {},
    }
}

/// Output states with the demands of the first `n` valves folded in.
pub open spec fn all_driven(
    states: Seq<State>,
    valves: Seq<ValveConfig>,
    drives: Seq<ValveDrive>,
    n: nat,
) -> Seq<State>
    decreases n,
{
    if n == 0 {
        states
    } else {
        driven(all_driven(states, valves, drives, (n - 1) as nat), valves[n - 1], drives[n - 1])
    }
}

/// A command held to the valve's range; the release flag rides through.
pub open spec fn held_command(cfg: ValveConfig, commanded: u16) -> u16 {
    let held = cfg.clamped(position(commanded));
    if released(commanded) {
        released_at(held)
    } else {
        held
    }
}

/// Holds a command to the valve's range.
fn hold_command(cfg: &ValveConfig, commanded: u16) -> (r: u16)
    requires
        cfg.min_promille <= cfg.upper_limit(),
    ensures
        r == held_command(*cfg, commanded),
{
    let clamped: u16 = cfg.clamp(position_of(commanded));
    if is_unpowered(commanded) {
        unpowered_at(clamped)
    } else {
        clamped
    }
}

/// The direct states after a tick's writes: everything off first if the configuration changed, then
/// the outputs that were written.
pub open spec fn direct_after(direct: Seq<State>, inputs: TickInputs) -> Seq<State> {
    Seq::new(
        4,
        |i: int|
            if inputs.direct_writes is Some && inputs.direct_writes->0.dirty@[i] {
                inputs.direct_writes->0.state(i)
            } else if inputs.pending.config {
                State::Digital(Level::Low)
            } else {
                direct[i]
            },
    )
}

/// Whether a fresh command to a valve takes an output back from any override.
pub open spec fn reclaimed(inputs: TickInputs, i: int) -> bool {
    exists|v: int|
        0 <= v < 4 && #[trigger] inputs.pending.valves@[v] && inputs.config.valves@[v].drives(
            HcoId::nth(i),
        )
}

/// The override of an output after a tick's writes: none outside raw debug mode; in it, a direct
/// write to an output that a valve owns installs one, and a fresh command to a valve takes its
/// outputs back.
pub open spec fn overrides_after(overrides: Seq<Option<State>>, inputs: TickInputs) -> Seq<
    Option<State>,
> {
    Seq::new(
        4,
        |i: int|
            if !inputs.raw_debug || reclaimed(inputs, i) {
                None
            } else if inputs.direct_writes is Some && inputs.direct_writes->0.dirty@[i]
                && inputs.config.owner_of(HcoId::nth(i)) is Some {
                Some(inputs.direct_writes->0.state(i))
            } else {
                overrides[i]
            },
    )
}

/// Whether a valve counts as released by the current stage, before this tick's targets: a new stage
/// and a fresh command both start over.
pub open spec fn still_released(latch: FallbackLatch, inputs: TickInputs, valve: ValveId) -> bool {
    &&& latch.has_released(valve)
    &&& latch.current() == inputs.link()
    &&& !inputs.pending.valves.at(valve)
}

/// Whether relief forces a valve open this tick.
pub open spec fn relieving(relief: Relief, inputs: TickInputs, valve: ValveId) -> bool {
    &&& inputs.config.relief.valve == Some(valve)
    &&& relief.phase_after(
        inputs.config.relief,
        inputs.sensor_value.at(inputs.config.relief.sensor),
        inputs.now,
    ) == ReliefState::Relieving
}

/// Whether a valve counts as released after this tick's targets.
pub open spec fn released_after(
    latch: FallbackLatch,
    relief: Relief,
    inputs: TickInputs,
    valve: ValveId,
) -> bool {
    if relieving(relief, inputs, valve) {
        false
    } else {
        match fallback_action(inputs.link(), inputs.config.valves.at(valve)) {
            Some(action) => still_released(latch, inputs, valve) || (action.unpower
                && inputs.has_settled(valve, action.position)),
            None => still_released(latch, inputs, valve),
        }
    }
}

/// A valve's target: what relief forces, else what the fallback stage asks for, else the command
/// held to the valve's range.
pub open spec fn target_for(
    latch: FallbackLatch,
    relief: Relief,
    inputs: TickInputs,
    valve: ValveId,
) -> u16 {
    let cfg = inputs.config.valves.at(valve);
    if relieving(relief, inputs, valve) {
        inputs.config.relief.position
    } else {
        match fallback_action(inputs.link(), cfg) {
            Some(action) => if released_after(latch, relief, inputs, valve) {
                released_at(action.position)
            } else {
                action.position
            },
            None => held_command(cfg, inputs.commanded.at(valve)),
        }
    }
}

pub struct Control<C: HcoControl> {
    outputs: Outputs<C>,
    latch: FallbackLatch,
    relief: Relief,
    heater: Heater,
    heater_cfg: Option<HeaterConfig>,
    /// The thermostat of each valve's pad.
    heating: PerValve<Heating>,
    /// Desired state of each output from the direct-control path.
    direct: HcoState,
    last_leds: LedsState,
    /// Toggled twice a second so that the white LED shows that the executor is still running.
    blink: bool,
    last_blink: Instant,
}

impl<C: HcoControl> Control<C> {
    pub closed spec fn pushes(self) -> Outputs<C> {
        self.outputs
    }

    pub closed spec fn latched(self) -> FallbackLatch {
        self.latch
    }

    pub closed spec fn relieves(self) -> Relief {
        self.relief
    }

    pub closed spec fn heats(self) -> Heater {
        self.heater
    }

    pub closed spec fn pad(self) -> Option<HeaterConfig> {
        self.heater_cfg
    }

    pub closed spec fn warms(self) -> Seq<Heating> {
        self.heating@
    }

    pub closed spec fn directed(self) -> Seq<State> {
        self.direct@
    }

    pub closed spec fn lit(self) -> LedsState {
        self.last_leds
    }

    pub closed spec fn blinks(self) -> bool {
        self.blink
    }

    pub closed spec fn blinked_at(self) -> Instant {
        self.last_blink
    }

    pub open spec fn wf(self) -> bool {
        self.pushes().wf() && self.directed().len() == 4
    }

    pub fn new(outputs: Outputs<C>, now: Instant) -> (r: Self)
        requires
            outputs.wf(),
        ensures
            r.wf(),
            r.pushes() == outputs,
            r.latched().current() == LinkState::NeverSeen,
            forall|valve: ValveId| !#[trigger] r.latched().has_released(valve),
            r.relieves().phase() == ReliefState::Disabled,
            r.relieves().ends() == 0,
            r.heats().phase() == HeaterState::Disabled,
            r.heats().temperature() == TEMPERATURE_INVALID,
            r.heats().counts() == RAW_INVALID,
            r.heats().logged() is None,
            forall|i: int|
                0 <= i < 4 ==> (#[trigger] r.warms()[i]).phase() == HeatingState::Disabled,
            r.pad() is None,
            r.directed() == all_low(),
            r.lit() == (LedsState { red: false, yellow: false, white: false }),
            !r.blinks(),
            r.blinked_at() == now,
    {
        Self {
            outputs,
            latch: FallbackLatch::new(),
            relief: Relief::new(),
            heater: Heater::new(),
            heater_cfg: None,
            heating: Per::splat(Heating::new()),
            direct: Per::splat(State::Digital(Level::Low)),
            last_leds: LedsState::default(),
            blink: false,
            last_blink: now,
        }
    }

    /// Attaches a heating pad.
    pub fn with_heater(self, cfg: HeaterConfig) -> (r: Self)
        ensures
            r.pad() == Some(cfg),
            r.pushes() == self.pushes(),
            r.latched() == self.latched(),
            r.relieves() == self.relieves(),
            r.heats() == self.heats(),
            r.warms() == self.warms(),
            r.directed() == self.directed(),
            r.lit() == self.lit(),
            r.blinks() == self.blinks(),
            r.blinked_at() == self.blinked_at(),
    {
        Self { heater_cfg: Some(cfg), ..self }
    }

    /// The state currently on the outputs.
    pub fn current(&self) -> (r: HcoState)
        ensures
            r@ == self.pushes().pushed(),
    {
        self.outputs.current()
    }

    /// Acts on the direct writes of a tick.
    fn apply_writes(&mut self, inputs: &TickInputs)
        requires
            old(self).wf(),
        ensures
            final(self).wf(),
            final(self).directed() == direct_after(old(self).directed(), *inputs),
            final(self).pushes().pushed() == if inputs.pending.config {
                overlaid(all_low(), old(self).pushes().overrides())
            } else {
                old(self).pushes().pushed()
            },
            forall|i: int| 0 <= i < 4 ==> #[trigger] final(self).pushes().overrides()[i]
                == if inputs.direct_writes is Some && inputs.direct_writes->0.dirty@[i]
                && inputs.raw_debug && inputs.config.owner_of(HcoId::nth(i)) is Some {
                Some(inputs.direct_writes->0.state(i))
            } else {
                old(self).pushes().overrides()[i]
            },
            final(self).latched() == old(self).latched(),
            final(self).keeps_the_rest(*old(self)),
    {
        broadcast use crate::index::per_len;

        let ghost start = self.directed();
        let ghost overrides = self.pushes().overrides();
        if inputs.pending.config {
            self.direct = Per::splat(State::Digital(Level::Low));
            self.outputs.all_off();
        }
        let ghost pushed = self.pushes().pushed();
        let ghost before = self.directed();
        let ghost latch = self.latched();
        if let Some(writes) = inputs.direct_writes {
            let mut i: usize = 0;
            while i < 4
                invariant
                    i <= 4,
                    inputs.direct_writes == Some(writes),
                    self.wf(),
                    before.len() == 4,
                    overrides.len() == 4,
                    self.pushes().pushed() == pushed,
                    self.latched() == latch,
                    self.keeps_the_rest(*old(self)),
                    forall|j: int|
                        0 <= j < 4 ==> #[trigger] self.directed()[j] == if j < i
                            && writes.dirty@[j] {
                            writes.state(j)
                        } else {
                            before[j]
                        },
                    forall|j: int|
                        0 <= j < 4 ==> #[trigger] self.pushes().overrides()[j] == if j < i
                            && writes.dirty@[j] && inputs.raw_debug && inputs.config.owner_of(
                            HcoId::nth(j),
                        ) is Some {
                            Some(writes.state(j))
                        } else {
                            overrides[j]
                        },
                decreases 4 - i,
            {
                let hco = HcoId::ALL[i];
                assert(hco == HcoId::nth(i as int) && hco.position() == i);
                if writes.dirty[hco] {
                    let state = if writes.is_pwm[hco] {
                        pwm(writes.pwm_us[hco])
                    } else {
                        digital(writes.digital[hco] != 0)
                    };
                    assert(state == writes.state(i as int));
                    *self.direct.index_mut(hco) = state;
                    if inputs.raw_debug && inputs.config.hco_owner(hco).is_some() {
                        self.outputs.install_override(hco, state);
                    }
                }
                i += 1;
            }
        }
        assert(self.directed() =~= direct_after(start, *inputs));
    }

    /// What applying a tick's writes has no part in.
    pub closed spec fn keeps_the_rest(self, before: Self) -> bool {
        &&& self.relief == before.relief
        &&& self.heater == before.heater
        &&& self.heater_cfg == before.heater_cfg
        &&& self.heating == before.heating
        &&& self.last_leds == before.last_leds
        &&& self.blink == before.blink
        &&& self.last_blink == before.last_blink
    }

    /// Takes the outputs of one freshly commanded valve back.
    fn reclaim(&mut self, cfg: &ValveConfig, valve: ValveId)
        requires
            old(self).wf(),
        ensures
            final(self).wf(),
            final(self).directed() == old(self).directed(),
            final(self).pushes().pushed() == old(self).pushes().pushed(),
            forall|i: int| 0 <= i < 4 ==> #[trigger] final(self).pushes().overrides()[i]
                == if cfg.drives(HcoId::nth(i)) {
                None
            } else {
                old(self).pushes().overrides()[i]
            },
            final(self).latched().current() == old(self).latched().current(),
            forall|other: ValveId| #[trigger]
                final(self).latched().has_released(other) == (other != valve && old(
                    self,
                ).latched().has_released(other)),
            final(self).keeps_the_rest(*old(self)),
    {
        self.latch.rearm(valve);
        if let Some(hco) = cfg.signal_hco {
            self.outputs.release_override(hco);
        }
        if let Some(hco) = cfg.power_hco {
            self.outputs.release_override(hco);
        }
        proof {
            assert forall|i: int| 0 <= i < 4 implies #[trigger] self.pushes().overrides()[i]
                == if cfg.drives(HcoId::nth(i)) {
                None
            } else {
                old(self).pushes().overrides()[i]
            } by {
                HcoId::position_inverts_nth(i);
                if let Some(hco) = cfg.signal_hco {
                    hco.position_in_range();
                    hco.nth_inverts_position();
                }
                if let Some(hco) = cfg.power_hco {
                    hco.position_in_range();
                    hco.nth_inverts_position();
                }
            }
        }
    }

    /// Acts on everything that was written since the last tick: direct writes, leaving raw debug
    /// mode, and fresh commands.
    fn apply_pending(&mut self, inputs: &TickInputs)
        requires
            old(self).wf(),
        ensures
            final(self).wf(),
            final(self).directed() == direct_after(old(self).directed(), *inputs),
            final(self).pushes().pushed() == if inputs.pending.config {
                overlaid(all_low(), old(self).pushes().overrides())
            } else {
                old(self).pushes().pushed()
            },
            final(self).pushes().overrides() == overrides_after(
                old(self).pushes().overrides(),
                *inputs,
            ),
            final(self).latched().current() == old(self).latched().current(),
            forall|valve: ValveId| #[trigger]
                final(self).latched().has_released(valve) == (old(self).latched().has_released(
                    valve,
                ) && !inputs.pending.valves.at(valve)),
            final(self).keeps_the_rest(*old(self)),
    {
        let ghost start = self.pushes().overrides();
        self.apply_writes(inputs);
        if !inputs.raw_debug && self.outputs.has_overrides() {
            self.outputs.clear_overrides();
        }
        let ghost written = *self;
        proof {
            assert forall|j: int| 0 <= j < 4 implies #[trigger] written.pushes().overrides()[j]
                == if !inputs.raw_debug {
                None
            } else if inputs.direct_writes is Some && inputs.direct_writes->0.dirty@[j]
                && inputs.config.owner_of(HcoId::nth(j)) is Some {
                Some(inputs.direct_writes->0.state(j))
            } else {
                start[j]
            } by {
                if !inputs.raw_debug {
                    assert(written.pushes().overrides()[j]
                        == crate::outputs::no_overrides()[j]);
                }
            }
        }
        let mut v: usize = 0;
        while v < 4
            invariant
                v <= 4,
                self.wf(),
                written.wf(),
                self.directed() == written.directed(),
                self.pushes().pushed() == written.pushes().pushed(),
                self.latched().current() == written.latched().current(),
                self.keeps_the_rest(*old(self)),
                written.keeps_the_rest(*old(self)),
                forall|i: int|
                    0 <= i < 4 ==> #[trigger] self.pushes().overrides()[i] == if exists|u: int|
                        0 <= u < v && #[trigger] inputs.pending.valves@[u]
                            && inputs.config.valves@[u].drives(HcoId::nth(i)) {
                        None
                    } else {
                        written.pushes().overrides()[i]
                    },
                forall|valve: ValveId| #[trigger]
                    self.latched().has_released(valve) == (written.latched().has_released(valve)
                        && !(valve.position() < v && inputs.pending.valves.at(valve))),
            decreases 4 - v,
        {
            let ghost before = *self;
            let valve = ValveId::ALL[v];
            assert(valve == ValveId::nth(v as int) && valve.position() == v);
            if inputs.pending.valves[valve] {
                self.reclaim(&inputs.config.valves.as_array()[v], valve);
            }
            proof {
                assert forall|i: int| 0 <= i < 4 implies #[trigger] self.pushes().overrides()[i]
                    == if exists|u: int|
                    0 <= u < v + 1 && #[trigger] inputs.pending.valves@[u]
                        && inputs.config.valves@[u].drives(HcoId::nth(i)) {
                    None
                } else {
                    written.pushes().overrides()[i]
                } by {
                    if exists|u: int|
                        0 <= u < v && #[trigger] inputs.pending.valves@[u]
                            && inputs.config.valves@[u].drives(HcoId::nth(i)) {
                        let u = choose|u: int|
                            0 <= u < v && #[trigger] inputs.pending.valves@[u]
                                && inputs.config.valves@[u].drives(HcoId::nth(i));
                        assert(inputs.pending.valves@[u] && inputs.config.valves@[u].drives(
                            HcoId::nth(i),
                        ));
                        assert(before.pushes().overrides()[i] is None);
                    }
                    if inputs.pending.valves@[v as int] && inputs.config.valves@[v as int].drives(
                        HcoId::nth(i),
                    ) {
                        assert(self.pushes().overrides()[i] is None);
                    }
                }
                assert forall|other: ValveId| #[trigger]
                    self.latched().has_released(other) == (written.latched().has_released(other)
                        && !(other.position() < v + 1 && inputs.pending.valves.at(other))) by {
                    assert(before.latched().has_released(other) == (
                    written.latched().has_released(other) && !(other.position() < v
                        && inputs.pending.valves.at(other))));
                    if other.position() == v {
                        other.nth_inverts_position();
                    }
                }
            }
            v += 1;
        }
        proof {
            assert forall|i: int| 0 <= i < 4 implies self.pushes().overrides()[i]
                == overrides_after(start, *inputs)[i] by {
                assert(reclaimed(*inputs, i) == exists|u: int|
                    0 <= u < 4 && #[trigger] inputs.pending.valves@[u]
                        && inputs.config.valves@[u].drives(HcoId::nth(i)));
            }
            assert(self.pushes().overrides() =~= overrides_after(start, *inputs));
            assert forall|valve: ValveId| #[trigger]
                self.latched().has_released(valve) == (written.latched().has_released(valve)
                    && !inputs.pending.valves.at(valve)) by {
                valve.position_in_range();
            }
        }
    }

    /// Resolves commanded to target for one valve: the fallback action when a stage is active, the
    /// valve's range in normal operation.
    fn resolve_target(&mut self, valve: ValveId, inputs: &TickInputs, link: LinkState) -> (r: u16)
        requires
            fallback_action(link, inputs.config.valves.at(valve)) is None
                ==> inputs.config.valves.at(valve).min_promille <= inputs.config.valves.at(
                valve,
            ).upper_limit(),
        ensures
            ({
                let cfg = inputs.config.valves.at(valve);
                let released_before = old(self).latched().has_released(valve);
                match fallback_action(link, cfg) {
                    Some(action) => {
                        let rel = released_before || (action.unpower && inputs.has_settled(
                            valve,
                            action.position,
                        ));
                        &&& final(self).latched().has_released(valve) == rel
                        &&& r == if rel {
                            released_at(action.position)
                        } else {
                            action.position
                        }
                    },
                    None => {
                        &&& final(self).latched().has_released(valve) == released_before
                        &&& r == held_command(cfg, inputs.commanded.at(valve))
                    },
                }
            }),
            final(self).latched().current() == old(self).latched().current(),
            forall|other: ValveId| other != valve ==> #[trigger]
                final(self).latched().has_released(other) == old(self).latched().has_released(
                    other,
                ),
            final(self).pushes() == old(self).pushes(),
            final(self).directed() == old(self).directed(),
            final(self).keeps_the_rest(*old(self)),
    {
        proof {
            valve.position_in_range();
        }
        let cfg = inputs.config.valves[valve];
        match action_for(link, &cfg) {
            Some(action) => {
                let settled = match inputs.settled_at[valve] {
                    Some(position) => position == action.position,
                    None => false,
                };
                self.latch.target(valve, action, settled)
            },
            None => hold_command(&cfg, inputs.commanded[valve]),
        }
    }

    /// The first half of a tick: acts on what was written, classifies the link, evaluates relief,
    /// and resolves a target for every valve.
    pub fn arbitrate(&mut self, inputs: &TickInputs) -> (r: Arbitration)
        requires
            old(self).wf(),
            inputs.ranges_are_orderly(old(self).relieves()),
            old(self).relieves().ends_after(
                inputs.config.relief,
                inputs.sensor_value.at(inputs.config.relief.sensor),
                inputs.now,
            ) <= u64::MAX,
        ensures
            final(self).wf(),
            r.link == inputs.link(),
            forall|valve: ValveId| #[trigger]
                r.targets.at(valve) == target_for(
                    old(self).latched(),
                    old(self).relieves(),
                    *inputs,
                    valve,
                ),
            forall|valve: ValveId| #[trigger]
                r.currents.at(valve) == rail_current(inputs.config.valves.at(valve), inputs.rails),
            forall|valve: ValveId| #[trigger]
                r.sensed.at(valve) == sensed(
                    inputs.config.valves.at(valve),
                    inputs.sensor_value@,
                ),
            final(self).latched().current() == inputs.link(),
            forall|valve: ValveId| #[trigger]
                final(self).latched().has_released(valve) == released_after(
                    old(self).latched(),
                    old(self).relieves(),
                    *inputs,
                    valve,
                ),
            final(self).relieves().phase() == old(self).relieves().phase_after(
                inputs.config.relief,
                inputs.sensor_value.at(inputs.config.relief.sensor),
                inputs.now,
            ),
            final(self).relieves().ends() == old(self).relieves().ends_after(
                inputs.config.relief,
                inputs.sensor_value.at(inputs.config.relief.sensor),
                inputs.now,
            ),
            final(self).directed() == direct_after(old(self).directed(), *inputs),
            final(self).pushes().overrides() == overrides_after(
                old(self).pushes().overrides(),
                *inputs,
            ),
            final(self).pushes().pushed() == if inputs.pending.config {
                overlaid(all_low(), old(self).pushes().overrides())
            } else {
                old(self).pushes().pushed()
            },
            final(self).heats() == old(self).heats(),
            final(self).warms() == old(self).warms(),
            final(self).pad() == old(self).pad(),
            final(self).lit() == old(self).lit(),
            final(self).blinks() == old(self).blinks(),
            final(self).blinked_at() == old(self).blinked_at(),
    {
        broadcast use crate::index::per_len;

        let ghost latch0 = self.latched();
        let ghost relief0 = self.relieves();
        self.apply_pending(inputs);
        let link = evaluate(&inputs.config, inputs.raw_debug, inputs.seen, inputs.since_heartbeat);
        let _ = self.latch.enter(link);
        let reading: i16 = inputs.sensor_value[inputs.config.relief.sensor];
        let relief_position = self.relief.update(&inputs.config.relief, reading, inputs.now);
        let ghost entered = *self;
        proof {
            assert forall|valve: ValveId| #[trigger]
                entered.latched().has_released(valve) == still_released(
                    latch0,
                    *inputs,
                    valve,
                ) by {}
        }
        let mut targets: PerValve<u16> = Per::splat(0);
        let mut currents: PerValve<Option<u16>> = Per::splat(None);
        let mut sensed_at: PerValve<Option<u16>> = Per::splat(None);
        let mut v: usize = 0;
        while v < 4
            invariant
                v <= 4,
                targets@.len() == 4,
                currents@.len() == 4,
                sensed_at@.len() == 4,
                inputs.ranges_are_orderly(relief0),
                link == inputs.link(),
                relief_position is Some <==> relief0.phase_after(
                    inputs.config.relief,
                    inputs.sensor_value.at(inputs.config.relief.sensor),
                    inputs.now,
                ) == ReliefState::Relieving,
                relief_position matches Some(at) ==> at == inputs.config.relief.position,
                self.keeps_the_rest(entered),
                self.pushes() == entered.pushes(),
                self.directed() == entered.directed(),
                self.latched().current() == link,
                forall|valve: ValveId| #[trigger]
                    entered.latched().has_released(valve) == still_released(
                        latch0,
                        *inputs,
                        valve,
                    ),
                forall|valve: ValveId| #[trigger]
                    self.latched().has_released(valve) == if valve.position() < v {
                        released_after(latch0, relief0, *inputs, valve)
                    } else {
                        still_released(latch0, *inputs, valve)
                    },
                forall|k: int|
                    0 <= k < v ==> #[trigger] targets@[k] == target_for(
                        latch0,
                        relief0,
                        *inputs,
                        ValveId::nth(k),
                    ),
                forall|k: int|
                    0 <= k < v ==> #[trigger] currents@[k] == rail_current(
                        inputs.config.valves@[k],
                        inputs.rails,
                    ),
                forall|k: int|
                    0 <= k < v ==> #[trigger] sensed_at@[k] == sensed(
                        inputs.config.valves@[k],
                        inputs.sensor_value@,
                    ),
            decreases 4 - v,
        {
            let ghost before = *self;
            let valve = ValveId::ALL[v];
            assert(valve == ValveId::nth(v as int) && valve.position() == v);
            let cfg = inputs.config.valves[valve];
            let relieved = match (relief_position, inputs.config.relief.valve) {
                (Some(at), Some(watched)) => if watched == valve {
                    Some(at)
                } else {
                    None
                },
                _ => None,
            };
            assert(relieved is Some <==> relieving(relief0, *inputs, valve));
            let target: u16 = match relieved {
                Some(at) => {
                    self.latch.rearm(valve);
                    at
                },
                None => self.resolve_target(valve, inputs, link),
            };
            assert(self.latched().has_released(valve) == released_after(
                latch0,
                relief0,
                *inputs,
                valve,
            ));
            *targets.index_mut(valve) = target;
            *currents.index_mut(valve) = valve_current(&cfg, inputs.rails);
            *sensed_at.index_mut(valve) = sensed_position(&cfg, &inputs.sensor_value);
            proof {
                assert forall|other: ValveId| #[trigger]
                    self.latched().has_released(other) == if other.position() < v + 1 {
                        released_after(latch0, relief0, *inputs, other)
                    } else {
                        still_released(latch0, *inputs, other)
                    } by {
                    if other.position() == v {
                        other.nth_inverts_position();
                    } else {
                        assert(other != valve);
                        assert(self.latched().has_released(other)
                            == before.latched().has_released(other));
                    }
                }
            }
            v += 1;
        }
        proof {
            assert forall|valve: ValveId| #[trigger]
                targets.at(valve) == target_for(latch0, relief0, *inputs, valve) by {
                valve.position_in_range();
                valve.nth_inverts_position();
            }
            assert forall|valve: ValveId| #[trigger]
                currents.at(valve) == rail_current(
                    inputs.config.valves.at(valve),
                    inputs.rails,
                ) by {
                valve.position_in_range();
            }
            assert forall|valve: ValveId| #[trigger]
                sensed_at.at(valve) == sensed(
                    inputs.config.valves.at(valve),
                    inputs.sensor_value@,
                ) by {
                valve.position_in_range();
            }
            assert forall|valve: ValveId| #[trigger]
                self.latched().has_released(valve) == released_after(
                    latch0,
                    relief0,
                    *inputs,
                    valve,
                ) by {
                valve.position_in_range();
            }
        }
        Arbitration { link, targets, currents, sensed: sensed_at }
    }

    /// Decides the LED state; `Some` only when it changed.
    fn decide_leds(&mut self, link: LinkState, raw_debug: bool, statuses: &PerValve<u8>, now: Instant) -> (r: Option<
        LedsState,
    >)
        requires
            old(self).blinked_at().ticks <= now.ticks,
        ensures
            final(self).lit() == leds_for(
                link,
                raw_debug,
                statuses@,
                old(self).relieves(),
                old(self).heats(),
                blink_after(old(self).blinks(), old(self).blinked_at(), now),
            ),
            r == if final(self).lit() == old(self).lit() {
                None
            } else {
                Some(final(self).lit())
            },
            final(self).blinks() == blink_after(old(self).blinks(), old(self).blinked_at(), now),
            final(self).blinked_at() == if blink_due(old(self).blinked_at(), now) {
                now
            } else {
                old(self).blinked_at()
            },
            final(self).pushes() == old(self).pushes(),
            final(self).latched() == old(self).latched(),
            final(self).relieves() == old(self).relieves(),
            final(self).heats() == old(self).heats(),
            final(self).warms() == old(self).warms(),
            final(self).pad() == old(self).pad(),
            final(self).directed() == old(self).directed(),
    {
        if now.saturating_duration_since(self.last_blink).as_millis() >= 500 {
            self.blink = !self.blink;
            self.last_blink = now;
        }
        let stalled = any_stalled(statuses);
        let state = LedsState {
            red: raw_debug || stalled || self.relief.is_active() || self.heater.state()
                == HeaterState::SensorFault,
            yellow: link != LinkState::Alive,
            white: self.blink,
        };
        if state != self.last_leds {
            self.last_leds = state;
            Some(state)
        } else {
            None
        }
    }

    /// Ticks the valves' thermostats and folds their pads into the desired output states.
    fn heat_valves(&mut self, inputs: &TickInputs, desired: &mut HcoState)
        ensures
            forall|i: int|
                0 <= i < 4 ==> (#[trigger] final(self).warms()[i]).phase() == heating_after(
                    old(self).warms()[i].phase(),
                    inputs.config.heating@[i],
                    pad_reading(inputs.config.heating@[i], inputs.sensor_value@),
                ),
            final(desired)@ == if inputs.raw_debug {
                old(desired)@
            } else {
                all_padded(old(desired)@, inputs.config.heating@, final(self).warms(), 4)
            },
            final(self).pushes() == old(self).pushes(),
            final(self).latched() == old(self).latched(),
            final(self).relieves() == old(self).relieves(),
            final(self).heats() == old(self).heats(),
            final(self).pad() == old(self).pad(),
            final(self).directed() == old(self).directed(),
            final(self).lit() == old(self).lit(),
            final(self).blinks() == old(self).blinks(),
            final(self).blinked_at() == old(self).blinked_at(),
    {
        broadcast use crate::index::per_len;

        let ghost start = self.warms();
        let ghost states = desired@;
        let mut v: usize = 0;
        while v < 4
            invariant
                v <= 4,
                start == old(self).warms(),
                start.len() == 4,
                self.warms().len() == 4,
                states.len() == 4,
                states == old(desired)@,
                self.pushes() == old(self).pushes(),
                self.latched() == old(self).latched(),
                self.relieves() == old(self).relieves(),
                self.heats() == old(self).heats(),
                self.pad() == old(self).pad(),
                self.directed() == old(self).directed(),
                self.lit() == old(self).lit(),
                self.blinks() == old(self).blinks(),
                self.blinked_at() == old(self).blinked_at(),
                forall|i: int|
                    0 <= i < v ==> (#[trigger] self.warms()[i]).phase() == heating_after(
                        start[i].phase(),
                        inputs.config.heating@[i],
                        pad_reading(inputs.config.heating@[i], inputs.sensor_value@),
                    ),
                forall|i: int| v <= i < 4 ==> #[trigger] self.warms()[i] == start[i],
                desired@ == if inputs.raw_debug {
                    states
                } else {
                    all_padded(states, inputs.config.heating@, self.warms(), v as nat)
                },
            decreases 4 - v,
        {
            let ghost before = self.warms();
            let valve = ValveId::ALL[v];
            assert(valve == ValveId::nth(v as int) && valve.position() == v);
            let pad = inputs.config.heating[valve];
            let reading: i16 = match pad.sensor {
                Some(slot) => inputs.sensor_value[slot],
                None => SENSOR_INVALID,
            };
            let mut thermostat = self.heating[valve];
            let on = thermostat.update(&pad, reading);
            *self.heating.index_mut(valve) = thermostat;
            assert(self.warms() == before.update(v as int, thermostat));
            proof {
                padding_looks_at_its_pads(
                    states,
                    inputs.config.heating@,
                    before,
                    self.warms(),
                    v as nat,
                );
            }
            if !inputs.raw_debug {
                apply_pad(desired, &pad, on);
            }
            v += 1;
        }
    }

    /// The second half of a tick: folds the valves' drives, their heating pads and the heater into the
    /// outputs, pushes them, and decides the LEDs.
    pub fn conclude(
        &mut self,
        inputs: &TickInputs,
        drives: &PerValve<ValveDrive>,
        statuses: &PerValve<u8>,
    ) -> (r: TickOutcome)
        requires
            old(self).wf(),
            old(self).blinked_at().ticks <= inputs.now.ticks,
            old(self).pad() is Some ==> old(self).heats().logged_before(inputs.now),
        ensures
            final(self).wf(),
            forall|i: int|
                0 <= i < 4 ==> (#[trigger] final(self).warms()[i]).phase() == heating_after(
                    old(self).warms()[i].phase(),
                    inputs.config.heating@[i],
                    pad_reading(inputs.config.heating@[i], inputs.sensor_value@),
                ),
            final(self).pushes().pushed() == overlaid(
                heated(
                    padded(
                        all_driven(old(self).directed(), inputs.config.valves@, drives@, 4),
                        inputs.config.heating@,
                        final(self).warms(),
                        inputs.raw_debug,
                    ),
                    old(self).pad(),
                    inputs.raw_debug,
                    pad_on(final(self).heats().phase()),
                ),
                old(self).pushes().overrides(),
            ),
            final(self).pushes().pushed() == pushed_after(
                old(self).directed(),
                old(self).pushes().overrides(),
                *inputs,
                drives@,
                final(self).warms(),
                old(self).pad(),
                pad_on(final(self).heats().phase()),
            ),
            final(self).pushes().overrides() == old(self).pushes().overrides(),
            final(self).latched() == old(self).latched(),
            final(self).relieves() == old(self).relieves(),
            final(self).directed() == old(self).directed(),
            final(self).pad() == old(self).pad(),
            match old(self).pad() {
                None => {
                    &&& final(self).heats().phase() == HeaterState::Disabled
                    &&& final(self).heats().temperature() == old(self).heats().temperature()
                    &&& final(self).heats().counts() == old(self).heats().counts()
                    &&& final(self).heats().logged() == old(self).heats().logged()
                    &&& r.heater_log is None
                },
                Some(pad) => {
                    let milli_c = crate::heater::calibrated(pad, inputs.heater_ntc);
                    &&& final(self).heats().phase() == crate::heater::heater_after(
                        old(self).heats().phase(),
                        pad,
                        heater_mode_in(inputs.link(), inputs.heater_mode),
                        inputs.setpoint_milli_c(),
                        milli_c,
                    )
                    &&& final(self).heats().temperature() == milli_c
                    &&& final(self).heats().counts() == match inputs.heater_ntc {
                        Some(counts) => counts,
                        None => RAW_INVALID,
                    }
                    &&& final(self).heats().logged() == if line_due(
                        old(self).heats().logged(),
                        inputs.now,
                    ) {
                        Some(inputs.now)
                    } else {
                        old(self).heats().logged()
                    }
                    &&& r.heater_log == if line_due(old(self).heats().logged(), inputs.now) {
                        Some(
                            HeaterLog {
                                raw: final(self).heats().counts(),
                                uncalibrated_milli_c: crate::heater::uncalibrated(
                                    pad,
                                    inputs.heater_ntc,
                                ),
                                offset_milli_c: pad.offset_milli_c,
                                milli_c,
                                state: final(self).heats().phase(),
                            },
                        )
                    } else {
                        None
                    }
                },
            },
            final(self).lit() == leds_for(
                inputs.link(),
                inputs.raw_debug,
                statuses@,
                final(self).relieves(),
                final(self).heats(),
                blink_after(old(self).blinks(), old(self).blinked_at(), inputs.now),
            ),
            final(self).blinks() == blink_after(
                old(self).blinks(),
                old(self).blinked_at(),
                inputs.now,
            ),
            final(self).blinked_at() == if blink_due(old(self).blinked_at(), inputs.now) {
                inputs.now
            } else {
                old(self).blinked_at()
            },
            r.relief_state == final(self).relieves().phase() as u8,
            r.heater_milli_c == final(self).heats().temperature(),
            r.heater_raw == final(self).heats().counts(),
            r.heater_state == final(self).heats().phase() as u8,
            r.heater_mode == heater_mode_in(inputs.link(), inputs.heater_mode),
            forall|i: int|
                0 <= i < 4 ==> #[trigger] r.heating_states@[i] == final(self).warms()[i].phase() as u8,
            r.leds == if final(self).lit() == old(self).lit() {
                None
            } else {
                Some(final(self).lit())
            },
            tells(
                r,
                final(self).relieves(),
                final(self).heats(),
                final(self).warms(),
                inputs.link(),
                inputs.heater_mode,
                final(self).lit(),
                old(self).lit(),
            ),
    {
        broadcast use crate::index::per_len;

        let link = evaluate(&inputs.config, inputs.raw_debug, inputs.seen, inputs.since_heartbeat);
        let mut desired = self.direct;
        let mut v: usize = 0;
        while v < 4
            invariant
                v <= 4,
                desired@ == all_driven(
                    self.directed(),
                    inputs.config.valves@,
                    drives@,
                    v as nat,
                ),
            decreases 4 - v,
        {
            apply_drive(
                &mut desired,
                &inputs.config.valves.as_array()[v],
                drives.as_array()[v],
            );
            v += 1;
        }
        let mode = match link {
            LinkState::FallbackB => HeaterMode::Off,
            _ => inputs.heater_mode,
        };
        self.heat_valves(inputs, &mut desired);
        let setpoint: i32 = inputs.config.heater_setpoint_centi_c as i32 * 10;
        let (heating, due) = match &self.heater_cfg {
            Some(pad) => {
                let due = self.heater.log_is_due(inputs.now);
                let heating = self.heater.update(
                    Some(pad),
                    mode,
                    setpoint,
                    inputs.heater_ntc,
                    inputs.now,
                );
                (heating, due)
            },
            None => (
                self.heater.update(None, mode, setpoint, inputs.heater_ntc, inputs.now),
                false,
            ),
        };
        let heater_log = match (&self.heater_cfg, due) {
            (Some(pad), true) => Some(
                HeaterLog {
                    raw: self.heater.raw(),
                    uncalibrated_milli_c: uncalibrated_milli_c(pad, inputs.heater_ntc),
                    offset_milli_c: pad.offset_milli_c,
                    milli_c: self.heater.milli_c(),
                    state: self.heater.state(),
                },
            ),
            _ => None,
        };
        if let Some(pad) = self.heater_cfg {
            if !inputs.raw_debug {
                *desired.index_mut(pad.pair.power()) = digital(heating);
                *desired.index_mut(pad.pair.signal()) = digital(heating);
            }
        }
        self.outputs.drive(desired);
        let leds = self.decide_leds(link, inputs.raw_debug, statuses, inputs.now);
        TickOutcome {
            relief_state: self.relief.state() as u8,
            heater_milli_c: self.heater.milli_c(),
            heater_raw: self.heater.raw(),
            heater_state: self.heater.state() as u8,
            heater_mode: mode,
            heater_log,
            heating_states: Per::new(
                [
                    self.heating.as_array()[0].state() as u8,
                    self.heating.as_array()[1].state() as u8,
                    self.heating.as_array()[2].state() as u8,
                    self.heating.as_array()[3].state() as u8,
                ],
            ),
            leds,
        }
    }
}

/// Whether an outcome is what the store is to be told of a tick.
pub open spec fn tells(
    outcome: TickOutcome,
    relief: Relief,
    heater: Heater,
    thermostats: Seq<Heating>,
    link: LinkState,
    mode: HeaterMode,
    lit: LedsState,
    lit_before: LedsState,
) -> bool {
    &&& outcome.relief_state == relief.phase() as u8
    &&& outcome.heater_milli_c == heater.temperature()
    &&& outcome.heater_raw == heater.counts()
    &&& outcome.heater_state == heater.phase() as u8
    &&& outcome.heater_mode == heater_mode_in(link, mode)
    &&& forall|i: int|
        0 <= i < 4 ==> #[trigger] outcome.heating_states@[i] == thermostats[i].phase() as u8
    &&& outcome.leds == if lit == lit_before {
        None
    } else {
        Some(lit)
    }
}

/// What the heater stays commanded to: the second fallback stage switches it off, for the master to
/// switch on again.
pub open spec fn heater_mode_in(link: LinkState, mode: HeaterMode) -> HeaterMode {
    if link == LinkState::FallbackB {
        HeaterMode::Off
    } else {
        mode
    }
}

/// What a pad's thermostat reads: the slot that it watches.
pub open spec fn pad_reading(pad: ValveHeatingConfig, values: Seq<i16>) -> i16 {
    match pad.sensor {
        Some(slot) => values[slot.position()],
        None => SENSOR_INVALID,
    }
}

/// Output states with one valve's heating pad switched. A pad that is not fitted has no outputs.
pub open spec fn with_pad(states: Seq<State>, pad: ValveHeatingConfig, on: bool) -> Seq<State> {
    Seq::new(
        states.len(),
        |i: int|
            if pad.fitted() && pad.heats_through(HcoId::nth(i)) {
                level_state(on)
            } else {
                states[i]
            },
    )
}

/// Output states with the first `n` valves' pads switched.
pub open spec fn all_padded(
    states: Seq<State>,
    pads: Seq<ValveHeatingConfig>,
    thermostats: Seq<Heating>,
    n: nat,
) -> Seq<State>
    decreases n,
{
    if n == 0 {
        states
    } else {
        with_pad(
            all_padded(states, pads, thermostats, (n - 1) as nat),
            pads[n - 1],
            thermostats[n - 1].phase() == HeatingState::Heating,
        )
    }
}

/// Output states with the valves' pads switched. Raw debug mode hands them back to direct control.
pub open spec fn padded(
    states: Seq<State>,
    pads: Seq<ValveHeatingConfig>,
    thermostats: Seq<Heating>,
    raw_debug: bool,
) -> Seq<State> {
    if raw_debug {
        states
    } else {
        all_padded(states, pads, thermostats, 4)
    }
}

/// What the first pads do does not depend on the thermostats behind theirs.
proof fn padding_looks_at_its_pads(
    states: Seq<State>,
    pads: Seq<ValveHeatingConfig>,
    a: Seq<Heating>,
    b: Seq<Heating>,
    n: nat,
)
    requires
        forall|i: int| 0 <= i < n ==> #[trigger] a[i] == b[i],
    ensures
        all_padded(states, pads, a, n) == all_padded(states, pads, b, n),
    decreases n,
{
    if n > 0 {
        assert(a[n - 1] == b[n - 1]);
        padding_looks_at_its_pads(states, pads, a, b, (n - 1) as nat);
    }
}

/// Folds one valve's heating pad into the desired output states.
pub fn apply_pad(desired: &mut HcoState, pad: &ValveHeatingConfig, on: bool)
    ensures
        final(desired)@ == with_pad(old(desired)@, *pad, on),
{
    broadcast use crate::index::per_len;

    let ghost states = desired@;
    if !pad.is_fitted() {
        assert(desired@ =~= with_pad(states, *pad, on));
        return;
    }
    let mut i: usize = 0;
    while i < 4
        invariant
            i <= 4,
            states.len() == 4,
            desired@.len() == 4,
            pad.fitted(),
            forall|k: int| 0 <= k < i ==> #[trigger] desired@[k] == with_pad(states, *pad, on)[k],
            forall|k: int| i <= k < 4 ==> #[trigger] desired@[k] == states[k],
        decreases 4 - i,
    {
        let hco = HcoId::ALL[i];
        assert(hco == HcoId::nth(i as int) && hco.position() == i);
        if pad.switches(hco) {
            *desired.index_mut(hco) = digital(on);
        }
        i += 1;
    }
    assert(desired@ =~= with_pad(states, *pad, on));
}

/// Output states with the heater's pair switched. The heater owns its pair in every link state; raw
/// debug mode hands it back to direct control.
pub open spec fn heated(states: Seq<State>, pad: Option<HeaterConfig>, raw_debug: bool, on: bool) -> Seq<
    State,
> {
    match pad {
        Some(pad) => if raw_debug {
            states
        } else {
            states.update(pad.pair.spec_power().position(), level_state(on)).update(
                pad.pair.spec_signal().position(),
                level_state(on),
            )
        },
        None => states,
    }
}

/// What a tick pushes: the direct states, with the valves' drives, their pads and the heater folded
/// in, and the overrides laid over everything.
pub open spec fn pushed_after(
    direct: Seq<State>,
    overrides: Seq<Option<State>>,
    inputs: TickInputs,
    drives: Seq<ValveDrive>,
    thermostats: Seq<Heating>,
    pad: Option<HeaterConfig>,
    heating: bool,
) -> Seq<State> {
    overlaid(
        heated(
            padded(
                all_driven(direct, inputs.config.valves@, drives, 4),
                inputs.config.heating@,
                thermostats,
                inputs.raw_debug,
            ),
            pad,
            inputs.raw_debug,
            heating,
        ),
        overrides,
    )
}

/// Whether the white LED toggles.
pub open spec fn blink_due(last: Instant, now: Instant) -> bool {
    (now.ticks - last.ticks) / 1000 >= 500
}

pub open spec fn blink_after(blink: bool, last: Instant, now: Instant) -> bool {
    if blink_due(last, now) {
        !blink
    } else {
        blink
    }
}

/// Whether any valve is stalled.
pub open spec fn stalled_in(statuses: Seq<u8>) -> bool {
    exists|i: int| 0 <= i < 4 && #[trigger] statuses[i] == ValveStatus::Stalled as u8
}

/// The LEDs: red says that the board is not in its normal flight configuration, yellow that the
/// master is not talking to it, and white that the executor is running.
pub open spec fn leds_for(
    link: LinkState,
    raw_debug: bool,
    statuses: Seq<u8>,
    relief: Relief,
    heater: Heater,
    blink: bool,
) -> LedsState {
    LedsState {
        red: raw_debug || stalled_in(statuses) || relief.phase() == ReliefState::Relieving
            || heater.phase() == HeaterState::SensorFault,
        yellow: link != LinkState::Alive,
        white: blink,
    }
}

fn any_stalled(statuses: &PerValve<u8>) -> (r: bool)
    ensures
        r == stalled_in(statuses@),
{
    let stalled: u8 = ValveStatus::Stalled as u8;
    let mut i: usize = 0;
    while i < 4
        invariant
            i <= 4,
            stalled == ValveStatus::Stalled as u8,
            forall|j: int| 0 <= j < i ==> #[trigger] statuses@[j] != stalled,
        decreases 4 - i,
    {
        if statuses.as_array()[i] == stalled {
            assert(statuses@[i as int] == stalled);
            return true;
        }
        i += 1;
    }
    false
}

/// Whether any shaft was declared to be somewhere.
pub open spec fn declares_a_position(pending: Pending) -> bool {
    pending.stepper_zero.at(StepperId::Stepper0) is Some || pending.stepper_zero.at(
        StepperId::Stepper1,
    ) is Some
}

/// Whether a port is another one after declarations of where its shafts are: each declared shaft is
/// there, the other where it was, and a declaration ends whatever was under way.
pub open spec fn re_zeroed(before: StepperPort, pending: Pending, after: StepperPort, id: StepperId) -> bool {
    &&& after.steps().at(id) == match pending.stepper_zero.at(id) {
        Some(steps) => steps,
        None => before.steps().at(id),
    }
    &&& after.steps().owed(id) == if declares_a_position(pending) {
        0
    } else {
        before.steps().owed(id)
    }
    &&& after.steps().heads_up(id) == before.steps().heads_up(id)
    &&& after.is_running() == (before.is_running() && !declares_a_position(pending))
}

/// Whether an actuator's planner has to start over.
pub open spec fn starts_over(pending: Pending, id: StepperId) -> bool {
    pending.config || pending.stepper_zero.at(id) is Some
}

/// The command of a port: what its planner asked for, or to hold where it is.
pub open spec fn planned_or_held(planned: Option<StepCommand>, position: i32) -> StepCommand {
    match planned {
        Some(command) => command,
        None => StepCommand { target_steps: position, step_hz: 0 },
    }
}

/// Acts on declarations of where a shaft is, which end whatever the port was doing, and says which
/// planners have to start over: theirs, and all of them if the configuration changed.
pub fn re_zero(port: &mut StepperPort, pending: &Pending) -> (r: PerStepper<bool>)
    ensures
        forall|id: StepperId| #[trigger]
            final(port).steps().at(id) == match pending.stepper_zero.at(id) {
                Some(steps) => steps,
                None => old(port).steps().at(id),
            },
        forall|id: StepperId| #[trigger]
            final(port).steps().owed(id) == if declares_a_position(*pending) {
                0
            } else {
                old(port).steps().owed(id)
            },
        forall|id: StepperId| #[trigger]
            final(port).steps().heads_up(id) == old(port).steps().heads_up(id),
        final(port).fitting() == old(port).fitting(),
        final(port).is_running() == (old(port).is_running() && !declares_a_position(*pending)),
        final(port).executing() == if declares_a_position(*pending) {
            None
        } else {
            old(port).executing()
        },
        forall|id: StepperId| #[trigger]
            r.at(id) == (pending.config || pending.stepper_zero.at(id) is Some),
        forall|id: StepperId| #[trigger] r.at(id) == starts_over(*pending, id),
        forall|id: StepperId| #[trigger] re_zeroed(*old(port), *pending, *final(port), id),
{
    let zero0 = pending.stepper_zero[StepperId::Stepper0];
    let zero1 = pending.stepper_zero[StepperId::Stepper1];
    if let Some(steps) = zero0 {
        port.set_position_steps(StepperId::Stepper0, steps);
    }
    if let Some(steps) = zero1 {
        port.set_position_steps(StepperId::Stepper1, steps);
    }
    let r: PerStepper<bool> = Per::new(
        [pending.config || zero0.is_some(), pending.config || zero1.is_some()],
    );
    proof {
        assert forall|id: StepperId| #[trigger]
            r.at(id) == (pending.config || pending.stepper_zero.at(id) is Some) by {
            assert(id == StepperId::Stepper0 || id == StepperId::Stepper1);
        }
    }
    r
}

/// Where a valve really is, by the most trusted source that says so: its position sensor, then the
/// step counter of the actuator that drives it.
pub open spec fn trusted_position(
    sensed: Option<u16>,
    driven_by: Option<StepperId>,
    counted: Option<PerStepper<u16>>,
) -> Option<u16> {
    match (sensed, driven_by, counted) {
        (Some(promille), _, _) => Some(promille),
        (None, Some(id), Some(counted)) => Some(counted.at(id)),
        _ => None,
    }
}

/// The position that a valve's model is told. `counted` is what the step counters stand for in
/// promille, on a board that has a step port.
pub fn position_feedback(
    sensed: Option<u16>,
    driven_by: Option<StepperId>,
    counted: Option<PerStepper<u16>>,
) -> (r: Option<u16>)
    ensures
        r == trusted_position(sensed, driven_by, counted),
{
    match (sensed, driven_by, counted) {
        (Some(promille), _, _) => Some(promille),
        (None, Some(id), Some(counted)) => Some(counted[id]),
        _ => None,
    }
}

/// The position asked of an actuator by the first `n` valves: that of the last one which it drives
/// and which wants a stepper.
pub open spec fn stepper_target(
    drives: Seq<ValveDrive>,
    driven_by: Seq<Option<StepperId>>,
    id: StepperId,
    n: nat,
) -> Option<u16>
    decreases n,
{
    if n == 0 {
        None
    } else {
        match drives[n - 1] {
            ValveDrive::Stepper { promille } if driven_by[n - 1] == Some(id) => Some(promille),
            _ => stepper_target(drives, driven_by, id, (n - 1) as nat),
        }
    }
}

/// The position that each actuator is asked for, if any valve asks for one.
pub fn stepper_targets(drives: &PerValve<ValveDrive>, driven_by: &PerValve<Option<StepperId>>) -> (r:
    PerStepper<Option<u16>>)
    ensures
        forall|id: StepperId| #[trigger]
            r.at(id) == stepper_target(drives@, driven_by@, id, 4),
{
    broadcast use crate::index::per_len;

    let mut r: PerStepper<Option<u16>> = Per::splat(None);
    let mut v: usize = 0;
    while v < 4
        invariant
            v <= 4,
            r@.len() == 2,
            forall|id: StepperId| #[trigger]
                r.at(id) == stepper_target(drives@, driven_by@, id, v as nat),
        decreases 4 - v,
    {
        let ghost before = r;
        if let (ValveDrive::Stepper { promille }, Some(id)) = (
            drives.as_array()[v],
            driven_by.as_array()[v],
        ) {
            *r.index_mut(id) = Some(promille);
        }
        proof {
            assert forall|id: StepperId| #[trigger]
                r.at(id) == stepper_target(drives@, driven_by@, id, (v + 1) as nat) by {
                assert(before.at(id) == stepper_target(drives@, driven_by@, id, v as nat));
                assert(id == StepperId::Stepper0 || id == StepperId::Stepper1);
            }
        }
        v += 1;
    }
    r
}

/// The command for each step port: what its planner asked for, or to hold where it is.
pub fn step_commands(planned: &PerStepper<Option<StepCommand>>, positions: &PerStepper<i32>) -> (r: PerStepper<
    StepCommand,
>)
    ensures
        forall|id: StepperId| #[trigger]
            r.at(id) == match planned.at(id) {
                Some(command) => command,
                None => StepCommand { target_steps: positions.at(id), step_hz: 0 },
            },
        forall|id: StepperId| #[trigger]
            r.at(id) == planned_or_held(planned.at(id), positions.at(id)),
{
    let first = match planned[StepperId::Stepper0] {
        Some(command) => command,
        None => StepCommand { target_steps: positions[StepperId::Stepper0], step_hz: 0 },
    };
    let second = match planned[StepperId::Stepper1] {
        Some(command) => command,
        None => StepCommand { target_steps: positions[StepperId::Stepper1], step_hz: 0 },
    };
    let r: PerStepper<StepCommand> = Per::new([first, second]);
    proof {
        assert forall|id: StepperId| #[trigger]
            r.at(id) == match planned.at(id) {
                Some(command) => command,
                None => StepCommand { target_steps: positions.at(id), step_hz: 0 },
            } by {
            assert(id == StepperId::Stepper0 || id == StepperId::Stepper1);
        }
    }
    r
}

/// The position of the fallback stage that acts on a valve, if one does.
pub open spec fn stage_position(inputs: TickInputs, valve: ValveId) -> Option<u16> {
    match fallback_action(inputs.link(), inputs.config.valves.at(valve)) {
        Some(action) => Some(action.position),
        None => None,
    }
}

/// The position that each valve's model is to be asked about before a tick: whether it has settled
/// there. It is the stage's own: a valve still sitting where the master or the previous stage left
/// it has not settled.
pub fn settling_positions(inputs: &TickInputs) -> (r: PerValve<Option<u16>>)
    ensures
        forall|valve: ValveId| #[trigger] r.at(valve) == stage_position(*inputs, valve),
{
    broadcast use crate::index::per_len;

    let link = evaluate(&inputs.config, inputs.raw_debug, inputs.seen, inputs.since_heartbeat);
    let mut r: PerValve<Option<u16>> = Per::splat(None);
    let mut v: usize = 0;
    while v < 4
        invariant
            v <= 4,
            r@.len() == 4,
            link == inputs.link(),
            forall|k: int|
                0 <= k < v ==> #[trigger] r@[k] == stage_position(*inputs, ValveId::nth(k)),
        decreases 4 - v,
    {
        let valve = ValveId::ALL[v];
        assert(valve == ValveId::nth(v as int) && valve.position() == v);
        let position: Option<u16> = match action_for(link, &inputs.config.valves[valve]) {
            Some(action) => Some(action.position),
            None => None,
        };
        *r.index_mut(valve) = position;
        v += 1;
    }
    proof {
        assert forall|valve: ValveId| #[trigger] r.at(valve) == stage_position(*inputs, valve) by {
            valve.position_in_range();
            valve.nth_inverts_position();
        }
    }
    r
}

/// What a tick reads besides the store.
#[derive(Clone, Copy)]
pub struct Sampled {
    pub rails: Option<Rails>,
    pub heater_ntc: Option<u16>,
    pub now: Instant,
    pub since_heartbeat: u32,
    pub seen: bool,
}

/// What gathering a tick's intent does: the inputs are what the store and the sampling hold, and what
/// was pending for the control task is taken out of the store.
pub open spec fn gathered(before: Store, sampled: Sampled, inputs: TickInputs, after: Store) -> bool {
    &&& inputs.config == before.config
    &&& inputs.commanded == before.valve_commanded
    &&& inputs.sensor_value == before.sensor_value
    &&& inputs.raw_debug == before.raw_debug
    &&& inputs.pending == before.pending
    &&& inputs.direct_writes == if before.pending.outputs {
        Some(
            DirectWrites {
                digital: before.hco_digital,
                pwm_us: before.hco_pwm_us,
                dirty: before.hco_direct_dirty,
                is_pwm: before.hco_direct_pwm,
            },
        )
    } else {
        None
    }
    &&& inputs.rails == sampled.rails
    &&& inputs.heater_ntc == sampled.heater_ntc
    &&& inputs.heater_mode == before.heater_mode
    &&& inputs.now == sampled.now
    &&& inputs.since_heartbeat == sampled.since_heartbeat
    &&& inputs.seen == sampled.seen
    &&& inputs.settled_at@ == Seq::new(4, |i: int| None::<u16>)
    &&& after.pending.valves@ == Seq::new(4, |i: int| false)
    &&& !after.pending.outputs
    &&& !after.pending.config
    &&& after.pending.stepper_zero@ == Seq::new(2, |i: int| None::<i32>)
    &&& after.pending.save == before.pending.save
    &&& after.pending.restore == before.pending.restore
    &&& after.hco_direct_dirty@ == if before.pending.outputs {
        Seq::new(4, |i: int| false)
    } else {
        before.hco_direct_dirty@
    }
    &&& after == (Store {
        pending: after.pending,
        hco_direct_dirty: after.hco_direct_dirty,
        ..before
    })
}

/// Pulls a tick's intent out of the store. What is pending for the control task is taken, and the
/// direct writes with it if there were any. No valve counts as settled until its model says so.
pub fn gather(store: &mut Store, sampled: &Sampled) -> (r: TickInputs)
    ensures
        r.config == old(store).config,
        r.commanded == old(store).valve_commanded,
        r.sensor_value == old(store).sensor_value,
        r.raw_debug == old(store).raw_debug,
        r.pending == old(store).pending,
        r.direct_writes == if old(store).pending.outputs {
            Some(
                DirectWrites {
                    digital: old(store).hco_digital,
                    pwm_us: old(store).hco_pwm_us,
                    dirty: old(store).hco_direct_dirty,
                    is_pwm: old(store).hco_direct_pwm,
                },
            )
        } else {
            None
        },
        r.rails == sampled.rails,
        r.heater_ntc == sampled.heater_ntc,
        r.heater_mode == old(store).heater_mode,
        r.now == sampled.now,
        r.since_heartbeat == sampled.since_heartbeat,
        r.seen == sampled.seen,
        r.settled_at@ == Seq::new(4, |i: int| None::<u16>),
        !final(store).pending.concerns_control(),
        final(store).pending.stepper_zero@ == Seq::new(2, |i: int| None::<i32>),
        final(store).pending.save == old(store).pending.save,
        final(store).pending.restore == old(store).pending.restore,
        final(store).hco_direct_dirty@ == if old(store).pending.outputs {
            Seq::new(4, |i: int| false)
        } else {
            old(store).hco_direct_dirty@
        },
        *final(store) == (Store {
            pending: final(store).pending,
            hco_direct_dirty: final(store).hco_direct_dirty,
            ..*old(store)
        }),
        gathered(*old(store), *sampled, r, *final(store)),
{
    let pending = store.pending.take();
    let direct_writes = if pending.outputs {
        let dirty = store.hco_direct_dirty;
        store.hco_direct_dirty = Per::splat(false);
        Some(
            DirectWrites {
                digital: store.hco_digital,
                pwm_us: store.hco_pwm_us,
                dirty,
                is_pwm: store.hco_direct_pwm,
            },
        )
    } else {
        None
    };
    TickInputs {
        config: store.config,
        commanded: store.valve_commanded,
        sensor_value: store.sensor_value,
        raw_debug: store.raw_debug,
        pending,
        direct_writes,
        rails: sampled.rails,
        heater_ntc: sampled.heater_ntc,
        heater_mode: store.heater_mode,
        now: sampled.now,
        since_heartbeat: sampled.since_heartbeat,
        seen: sampled.seen,
        settled_at: Per::splat(None),
    }
}

/// What the store shows of an output's level; a pulsed one counts as on.
pub open spec fn shown_level(state: State) -> u8 {
    match state {
        State::Digital(Level::Low) => 0,
        _ => 1,
    }
}

/// What the store shows of an output's pulse width.
pub open spec fn shown_width(state: State) -> u16 {
    match state {
        State::Digital(_) => 0,
        State::Pwm(width) => width.micros(),
    }
}

/// Mirrors the state on the outputs into the store.
fn show_outputs(store: &mut Store, hco: &HcoState)
    ensures
        final(store).hco_digital@ == Seq::new(4, |i: int| shown_level(hco@[i])),
        final(store).hco_pwm_us@ == Seq::new(4, |i: int| shown_width(hco@[i])),
        *final(store) == (Store {
            hco_digital: final(store).hco_digital,
            hco_pwm_us: final(store).hco_pwm_us,
            ..*old(store)
        }),
{
    broadcast use crate::index::per_len;

    let mut levels = store.hco_digital;
    let mut widths = store.hco_pwm_us;
    let mut i: usize = 0;
    while i < 4
        invariant
            i <= 4,
            levels@.len() == 4,
            widths@.len() == 4,
            forall|j: int| 0 <= j < i ==> #[trigger] levels@[j] == shown_level(hco@[j]),
            forall|j: int| 0 <= j < i ==> #[trigger] widths@[j] == shown_width(hco@[j]),
        decreases 4 - i,
    {
        let (level, width): (u8, u16) = match hco.as_array()[i] {
            State::Digital(level) => (level.as_u8(), 0),
            State::Pwm(us) => (1, us.as_u16()),
        };
        *levels.index_mut(HcoId::ALL[i]) = level;
        *widths.index_mut(HcoId::ALL[i]) = width;
        i += 1;
    }
    store.hco_digital = levels;
    store.hco_pwm_us = widths;
    assert(store.hco_digital@ =~= Seq::new(4, |i: int| shown_level(hco@[i])));
    assert(store.hco_pwm_us@ =~= Seq::new(4, |i: int| shown_width(hco@[i])));
}

/// A valve's current as the store shows it: none counts as zero.
fn shown_currents(currents: &PerValve<Option<u16>>) -> (r: PerValve<u16>)
    ensures
        r@ == Seq::new(
            4,
            |i: int|
                match currents@[i] {
                    Some(ma) => ma,
                    None => 0u16,
                },
        ),
{
    let c = currents.as_array();
    let r: PerValve<u16> = Per::new(
        [
            c[0].unwrap_or(0),
            c[1].unwrap_or(0),
            c[2].unwrap_or(0),
            c[3].unwrap_or(0),
        ],
    );
    assert(r@ =~= Seq::new(
        4,
        |i: int|
            match currents@[i] {
                Some(ma) => ma,
                None => 0u16,
            },
    ));
    r
}

/// What writing a tick back does: the store shows what the tick decided, what the valves and the rails
/// were seen to do, and the state on the outputs; everything else in it stays.
pub open spec fn written_back(
    before: Store,
    inputs: TickInputs,
    arbitration: Arbitration,
    measured: PerValve<u16>,
    statuses: PerValve<u8>,
    outcome: TickOutcome,
    hco: Seq<State>,
    steps: Option<PerStepper<i32>>,
    after: Store,
) -> bool {
    &&& after.hco_digital@ == Seq::new(4, |i: int| shown_level(hco[i]))
    &&& after.hco_pwm_us@ == Seq::new(4, |i: int| shown_width(hco[i]))
    &&& after.valve_current_ma@ == Seq::new(
        4,
        |i: int|
            match arbitration.currents@[i] {
                Some(ma) => ma,
                None => 0u16,
            },
    )
    &&& after.leds == match outcome.leds {
        Some(leds) => leds.encoded() as u8,
        None => before.leds,
    }
    &&& after.rail_current_ma == match inputs.rails {
        Some(rails) => rails.current_ma,
        None => before.rail_current_ma,
    }
    &&& after.rail_voltage_mv == match inputs.rails {
        Some(rails) => rails.voltage_mv,
        None => before.rail_voltage_mv,
    }
    &&& after.stepper_position_steps@ == match steps {
        Some(steps) => steps@,
        None => Seq::new(2, |i: int| 0i32),
    }
    &&& after == (Store {
        valve_target: arbitration.targets,
        valve_measured: measured,
        valve_status: statuses,
        valve_current_ma: after.valve_current_ma,
        relief_state: outcome.relief_state,
        heater_milli_c: outcome.heater_milli_c,
        heater_raw: outcome.heater_raw,
        heater_state: outcome.heater_state,
        heater_mode: outcome.heater_mode,
        heating_state: outcome.heating_states,
        link_state: arbitration.link,
        ms_since_heartbeat: inputs.since_heartbeat,
        hco_digital: after.hco_digital,
        hco_pwm_us: after.hco_pwm_us,
        rail_current_ma: after.rail_current_ma,
        rail_voltage_mv: after.rail_voltage_mv,
        leds: after.leds,
        stepper_position_steps: after.stepper_position_steps,
        ..before
    })
}

/// Writes a tick's observation back to the store. `steps` is where the step counters stand, on a
/// board that has a step port.
pub fn write_back(
    store: &mut Store,
    inputs: &TickInputs,
    arbitration: &Arbitration,
    measured: &PerValve<u16>,
    statuses: &PerValve<u8>,
    outcome: &TickOutcome,
    hco: &HcoState,
    steps: Option<PerStepper<i32>>,
)
    ensures
        final(store).hco_digital@ == Seq::new(4, |i: int| shown_level(hco@[i])),
        final(store).hco_pwm_us@ == Seq::new(4, |i: int| shown_width(hco@[i])),
        final(store).valve_current_ma@ == Seq::new(
            4,
            |i: int|
                match arbitration.currents@[i] {
                    Some(ma) => ma,
                    None => 0u16,
                },
        ),
        final(store).leds == match outcome.leds {
            Some(leds) => (crate::leds::bit(leds.red) + 2 * crate::leds::bit(leds.yellow) + 4
                * crate::leds::bit(leds.white)) as u8,
            None => old(store).leds,
        },
        final(store).rail_current_ma == match inputs.rails {
            Some(rails) => rails.current_ma,
            None => old(store).rail_current_ma,
        },
        final(store).rail_voltage_mv == match inputs.rails {
            Some(rails) => rails.voltage_mv,
            None => old(store).rail_voltage_mv,
        },
        final(store).stepper_position_steps@ == match steps {
            Some(steps) => steps@,
            None => Seq::new(2, |i: int| 0i32),
        },
        *final(store) == (Store {
            valve_target: arbitration.targets,
            valve_measured: *measured,
            valve_status: *statuses,
            valve_current_ma: final(store).valve_current_ma,
            relief_state: outcome.relief_state,
            heater_milli_c: outcome.heater_milli_c,
            heater_raw: outcome.heater_raw,
            heater_state: outcome.heater_state,
            heater_mode: outcome.heater_mode,
            heating_state: outcome.heating_states,
            link_state: arbitration.link,
            ms_since_heartbeat: inputs.since_heartbeat,
            hco_digital: final(store).hco_digital,
            hco_pwm_us: final(store).hco_pwm_us,
            rail_current_ma: final(store).rail_current_ma,
            rail_voltage_mv: final(store).rail_voltage_mv,
            leds: final(store).leds,
            stepper_position_steps: final(store).stepper_position_steps,
            ..*old(store)
        }),
        written_back(
            *old(store),
            *inputs,
            *arbitration,
            *measured,
            *statuses,
            *outcome,
            hco@,
            steps,
            *final(store),
        ),
{
    store.valve_target = arbitration.targets;
    store.valve_measured = *measured;
    store.valve_status = *statuses;
    store.valve_current_ma = shown_currents(&arbitration.currents);
    store.relief_state = outcome.relief_state;
    store.heater_milli_c = outcome.heater_milli_c;
    store.heater_raw = outcome.heater_raw;
    store.heater_state = outcome.heater_state;
    store.heater_mode = outcome.heater_mode;
    store.heating_state = outcome.heating_states;
    store.link_state = arbitration.link;
    store.ms_since_heartbeat = inputs.since_heartbeat;
    store.stepper_position_steps = match steps {
        Some(steps) => steps,
        None => Per::splat(0),
    };
    show_outputs(store, hco);
    if let Some(rails) = inputs.rails {
        store.rail_current_ma = rails.current_ma;
        store.rail_voltage_mv = rails.voltage_mv;
    }
    if let Some(leds) = outcome.leds {
        store.leds = leds.as_byte();
    }
}

/// An actuator is asked for a position only by a valve that it drives: if none of them wants a
/// stepper, it is asked for nothing and told to hold.
pub proof fn an_actuator_serves_only_its_valves(
    drives: Seq<ValveDrive>,
    driven_by: Seq<Option<StepperId>>,
    id: StepperId,
    n: nat,
)
    requires
        forall|v: int|
            0 <= v < n && (#[trigger] driven_by[v]) == Some(id) ==> !(drives[v] is Stepper),
    ensures
        stepper_target(drives, driven_by, id, n) is None,
    decreases n,
{
    if n > 0 {
        assert(driven_by[n - 1] == Some(id) ==> !(drives[n - 1] is Stepper));
        an_actuator_serves_only_its_valves(drives, driven_by, id, (n - 1) as nat);
    }
}

/// A position sensor outranks the step counter, which would not notice a lost step.
pub proof fn a_sensor_outranks_the_step_counter(
    promille: u16,
    driven_by: Option<StepperId>,
    counted: Option<PerStepper<u16>>,
)
    ensures
        trusted_position(Some(promille), driven_by, counted) == Some(promille),
{
}

/// Relief outranks the master's command, the valve's range and both fallback stages.
pub proof fn relief_outranks_everything(
    latch: FallbackLatch,
    relief: Relief,
    inputs: TickInputs,
    valve: ValveId,
)
    requires
        relieving(relief, inputs, valve),
    ensures
        target_for(latch, relief, inputs, valve) == inputs.config.relief.position,
        !released_after(latch, relief, inputs, valve),
{
}

/// While a fallback stage is active, what the master last commanded does not matter.
pub proof fn a_fallback_stage_outranks_the_command(
    latch: FallbackLatch,
    relief: Relief,
    a: TickInputs,
    b: TickInputs,
    valve: ValveId,
)
    requires
        b == (TickInputs { commanded: b.commanded, ..a }),
        a.link() == LinkState::FallbackA || a.link() == LinkState::FallbackB,
    ensures
        target_for(latch, relief, a, valve) == target_for(latch, relief, b, valve),
{
}

/// A stage drives a valve to its position before it releases it: without having settled there,
/// wherever else it may have settled, a valve that the stage has not released is driven to the stage's position.
pub proof fn a_stage_drives_before_it_releases(
    latch: FallbackLatch,
    relief: Relief,
    inputs: TickInputs,
    valve: ValveId,
)
    requires
        !relieving(relief, inputs, valve),
        fallback_action(inputs.link(), inputs.config.valves.at(valve)) is Some,
        !inputs.has_settled(
            valve,
            fallback_action(inputs.link(), inputs.config.valves.at(valve))->0.position,
        ),
        latch.current() != inputs.link() || !latch.has_released(valve),
    ensures
        target_for(latch, relief, inputs, valve) == fallback_action(
            inputs.link(),
            inputs.config.valves.at(valve),
        )->0.position,
{
}

/// In normal operation a valve's target lies in its configured range, and asks for a release
/// exactly when the command does.
pub proof fn a_command_is_held_to_the_range(
    latch: FallbackLatch,
    relief: Relief,
    inputs: TickInputs,
    valve: ValveId,
)
    requires
        inputs.ranges_are_orderly(relief),
        !relieving(relief, inputs, valve),
        fallback_action(inputs.link(), inputs.config.valves.at(valve)) is None,
    ensures
        ({
            let target = target_for(latch, relief, inputs, valve);
            let cfg = inputs.config.valves.at(valve);
            &&& cfg.min_promille <= position(target) <= cfg.upper_limit()
            &&& released(target) == released(inputs.commanded.at(valve))
        }),
{
    let cfg = inputs.config.valves.at(valve);
    let command = inputs.commanded.at(valve);
    assert(inputs.follows_the_master(valve));
    assert(cfg.min_promille <= cfg.upper_limit());
    assert(target_for(latch, relief, inputs, valve) == held_command(cfg, command));
    a_held_command_lies_in_the_range(cfg, command);
}

/// A command that is held to a range lies in it, and keeps its release flag.
proof fn a_held_command_lies_in_the_range(cfg: ValveConfig, command: u16)
    requires
        cfg.min_promille <= cfg.upper_limit(),
    ensures
        cfg.min_promille <= position(held_command(cfg, command)) <= cfg.upper_limit(),
        released(held_command(cfg, command)) == released(command),
{
    let held = cfg.clamped(position(command));
    assert(held <= 1000);
    crate::proto::valve::flag_and_position_are_independent(held);
}

/// Outside raw debug mode nothing is overridden.
pub proof fn leaving_raw_debug_releases_every_override(
    overrides: Seq<Option<State>>,
    inputs: TickInputs,
)
    requires
        !inputs.raw_debug,
    ensures
        overrides_after(overrides, inputs) == crate::outputs::no_overrides(),
{
    assert(overrides_after(overrides, inputs) =~= crate::outputs::no_overrides());
}

/// The heater owns its pair over any valve and any direct write, outside raw debug mode.
pub proof fn the_heater_owns_its_pair(states: Seq<State>, pad: HeaterConfig, on: bool)
    requires
        states.len() == 4,
    ensures
        heated(states, Some(pad), false, on)[pad.pair.spec_power().position()] == level_state(on),
        heated(states, Some(pad), false, on)[pad.pair.spec_signal().position()] == level_state(on),
        heated(states, Some(pad), true, on) == states,
{
}

/// A pad reaches only its own outputs, and switches all of them alike.
pub proof fn a_pad_switches_only_its_outputs(
    states: Seq<State>,
    pad: ValveHeatingConfig,
    on: bool,
    hco: HcoId,
)
    requires
        states.len() == 4,
    ensures
        with_pad(states, pad, on)[hco.position()] == if pad.fitted() && pad.heats_through(hco) {
            level_state(on)
        } else {
            states[hco.position()]
        },
{
    hco.position_in_range();
    hco.nth_inverts_position();
}

/// A pad without a reading is off, and so is one that is switched off: none of its outputs is on,
/// whatever a direct write or another demand had asked of them.
pub proof fn a_pad_without_a_reading_is_off(
    states: Seq<State>,
    pad: ValveHeatingConfig,
    before: HeatingState,
    reading: i16,
    hco: HcoId,
)
    requires
        states.len() == 4,
        pad.fitted(),
        pad.heats_through(hco),
        reading == SENSOR_INVALID || !pad.enabled,
    ensures
        with_pad(states, pad, heating_after(before, pad, reading) == HeatingState::Heating)[hco.position()]
            == level_state(false),
{
    a_pad_switches_only_its_outputs(
        states,
        pad,
        heating_after(before, pad, reading) == HeatingState::Heating,
        hco,
    );
}

/// In a sane configuration the pads leave the outputs of every fitted valve to the valve.
pub proof fn the_pads_leave_the_valves_alone(
    cfg: Config,
    states: Seq<State>,
    thermostats: Seq<Heating>,
    valve: ValveId,
    hco: HcoId,
    n: nat,
)
    requires
        cfg.is_sane(),
        states.len() == 4,
        cfg.valves.at(valve).mapped(),
        cfg.valves.at(valve).drives(hco),
        n <= 4,
    ensures
        all_padded(states, cfg.heating@, thermostats, n).len() == 4,
        all_padded(states, cfg.heating@, thermostats, n)[hco.position()] == states[hco.position()],
    decreases n,
{
    if n > 0 {
        the_pads_leave_the_valves_alone(cfg, states, thermostats, valve, hco, (n - 1) as nat);
        let id = ValveId::nth(n - 1);
        ValveId::position_inverts_nth(n - 1);
        crate::config::a_sane_output_has_one_owner(cfg, hco, valve);
        assert(cfg.heating.at(id) == cfg.heating@[n - 1]);
        a_pad_switches_only_its_outputs(
            all_padded(states, cfg.heating@, thermostats, (n - 1) as nat),
            cfg.heating@[n - 1],
            thermostats[n - 1].phase() == HeatingState::Heating,
            hco,
        );
    }
}

/// A valve's demand reaches only its own outputs.
pub proof fn a_valve_drives_only_its_outputs(
    states: Seq<State>,
    cfg: ValveConfig,
    drive: ValveDrive,
    hco: HcoId,
)
    requires
        states.len() == 4,
        !cfg.drives(hco),
    ensures
        driven(states, cfg, drive)[hco.position()] == states[hco.position()],
        driven(states, cfg, drive).len() == 4,
{
    hco.position_in_range();
    if let Some(other) = cfg.signal_hco {
        other.position_in_range();
        other.nth_inverts_position();
    }
    if let Some(other) = cfg.power_hco {
        other.position_in_range();
        other.nth_inverts_position();
    }
    hco.nth_inverts_position();
}

/// A released valve has no output on.
pub proof fn a_released_valve_is_off(states: Seq<State>, cfg: ValveConfig, hco: HcoId)
    requires
        states.len() == 4,
        cfg.drives(hco),
    ensures
        driven(states, cfg, ValveDrive::Released)[hco.position()] == level_state(false),
{
    hco.position_in_range();
    if let Some(other) = cfg.signal_hco {
        other.position_in_range();
        other.nth_inverts_position();
    }
    if let Some(other) = cfg.power_hco {
        other.position_in_range();
        other.nth_inverts_position();
    }
    hco.nth_inverts_position();
}

} // verus!
