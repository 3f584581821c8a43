//! The node's shared state: the runtime half of the object dictionary.
use crate::config::{Config, Unit, ValveKind};
use crate::cpu::{load_word, peak_tick_us, CpuLoad, CPU_LOAD_UNKNOWN};
use crate::errors::{take_if_changed, Counters, ErrorCounter};
use crate::heater::{HeaterMode, HeaterState};
use crate::heating::HeatingState;
use crate::index::{HcoId, Id, Per, PerAdcSlot, PerHco, PerI2cBus, PerRail, PerSensorSlot, PerStepper, PerValve, SensorSlot, ValveId};
use crate::proto::od::PerErrorCounter;
use crate::relief::ReliefState;
use core::ops::IndexMut;
use vstd::prelude::*;

pub use crate::proto::od::{RAW_INVALID, SENSOR_INVALID, TEMPERATURE_INVALID};

verus! {

/// Object 0x2032: what is known of the master. The order of the variants is the wire encoding.
#[derive(Clone, Copy, PartialEq, Eq, Debug, Structural)]
pub enum LinkState {
    /// No heartbeat yet, and still inside the grace period.
    NeverSeen,
    /// The master is heard.
    Alive,
    /// The first fallback stage: make the vehicle safe.
    FallbackA,
    /// The second fallback stage: the master is not coming back.
    FallbackB,
    /// The fallback is switched off.
    Suspended,
}

/// Writes that somebody still has to act on.
#[derive(Clone, Copy)]
pub struct Pending {
    /// Valves that were commanded.
    pub valves: PerValve<bool>,
    /// Outputs were written directly.
    pub outputs: bool,
    /// The configuration changed.
    pub config: bool,
    /// Where a shaft was declared to be, per actuator.
    pub stepper_zero: PerStepper<Option<i32>>,
    /// The configuration is to be committed.
    pub save: bool,
    /// The configuration is to be reset.
    pub restore: bool,
}

impl Pending {
    /// Nothing to act on.
    pub open spec fn is_clear(self) -> bool {
        &&& self.valves@ == Seq::new(4, |i: int| false)
        &&& !self.outputs
        &&& !self.config
        &&& self.stepper_zero@ == Seq::new(2, |i: int| None::<i32>)
        &&& !self.save
        &&& !self.restore
    }

    /// Takes what concerns the control task; commits and resets stay for the task that does them.
    pub fn take(&mut self) -> (r: Self)
        ensures
            r == *old(self),
            final(self).valves@ == Seq::new(4, |i: int| false),
            !final(self).outputs,
            !final(self).config,
            final(self).stepper_zero@ == Seq::new(2, |i: int| None::<i32>),
            final(self).save == old(self).save,
            final(self).restore == old(self).restore,
    {
        let taken = *self;
        self.valves = Per::splat(false);
        self.outputs = false;
        self.config = false;
        self.stepper_zero = Per::splat(None);
        taken
    }

    /// Takes what concerns persistence: whether to commit, and whether to reset.
    pub fn take_persistence(&mut self) -> (r: (bool, bool))
        ensures
            r == (old(self).save, old(self).restore),
            *final(self) == (Pending { save: false, restore: false, ..*old(self) }),
    {
        let taken = (self.save, self.restore);
        self.save = false;
        self.restore = false;
        taken
    }

    /// Whether the control task has something to act on at once.
    pub open spec fn concerns_control(self) -> bool {
        self.outputs || self.config || exists|i: int| 0 <= i < 4 && #[trigger] self.valves@[i]
    }

    pub fn wakes_control(&self) -> (r: bool)
        ensures
            r == self.concerns_control(),
    {
        self.valves.any() || self.outputs || self.config
    }

    pub fn wakes_persistence(&self) -> (r: bool)
        ensures
            r == (self.save || self.restore),
    {
        self.save || self.restore
    }
}

impl Default for Pending {
    fn default() -> (r: Self)
        ensures
            r.is_clear(),
    {
        Self {
            valves: Per::splat(false),
            outputs: false,
            config: false,
            stepper_zero: Per::splat(None),
            save: false,
            restore: false,
        }
    }
}

pub struct Store {
    pub config: Config,
    pub pending: Pending,
    /// 0x2010..0x2014, one entry per valve.
    pub valve_commanded: PerValve<u16>,
    pub valve_target: PerValve<u16>,
    pub valve_measured: PerValve<u16>,
    pub valve_status: PerValve<u8>,
    pub valve_current_ma: PerValve<u16>,
    /// 0x2015.
    pub relief_state: u8,
    /// 0x2016.
    pub stepper_position_steps: PerStepper<i32>,
    /// 0x2017, 0x2018.
    pub heater_milli_c: i32,
    pub heater_raw: u16,
    pub heater_state: u8,
    pub heater_mode: HeaterMode,
    /// 0x2019.
    pub heating_state: PerValve<u8>,
    /// 0x2020, 0x2021: the state on the hardware, or the last direct write.
    pub hco_digital: PerHco<u8>,
    pub hco_pwm_us: PerHco<u16>,
    /// Which outputs were written directly since the last control tick, and which of them as PWM.
    pub hco_direct_dirty: PerHco<bool>,
    pub hco_direct_pwm: PerHco<bool>,
    /// 0x2022: 0 for an output without an owner, else the valve's number counted from one.
    pub hco_owner: PerHco<u8>,
    /// 0x2000, 0x2001.
    pub raw_adc: PerAdcSlot<u16>,
    /// 0x2002, 0x2003.
    pub i2c_present: PerI2cBus<u16>,
    pub i2c_sweeps: u32,
    /// 0x2004, 0x2005.
    pub sensor_value: PerSensorSlot<i16>,
    pub sensor_unit: PerSensorSlot<u8>,
    /// 0x2030..0x2033.
    pub leds: u8,
    pub raw_debug: bool,
    pub link_state: LinkState,
    pub ms_since_heartbeat: u32,
    /// 0x2034, 0x2035.
    pub cpu_load: u16,
    pub cpu_peak_tick_us: u16,
    /// 0x2040, 0x2041.
    pub rail_current_ma: PerRail<u16>,
    pub rail_voltage_mv: PerRail<u16>,
    pub error_counters: PerErrorCounter<u32>,
}

impl Store {
    /// What a node shows before anything has run: nothing measured, nothing driven, nothing heard.
    pub open spec fn is_new(self) -> bool {
        &&& self.config.is_new()
        &&& self.pending.is_clear()
        &&& self.valve_commanded@ == Seq::new(4, |i: int| 0u16)
        &&& self.valve_target@ == Seq::new(4, |i: int| 0u16)
        &&& self.valve_measured@ == Seq::new(4, |i: int| 0u16)
        &&& self.valve_status@ == Seq::new(4, |i: int| 0u8)
        &&& self.valve_current_ma@ == Seq::new(4, |i: int| 0u16)
        &&& self.relief_state == ReliefState::Disabled as u8
        &&& self.stepper_position_steps@ == Seq::new(2, |i: int| 0i32)
        &&& self.heater_milli_c == TEMPERATURE_INVALID
        &&& self.heater_raw == RAW_INVALID
        &&& self.heater_state == HeaterState::Disabled as u8
        &&& self.heater_mode == HeaterMode::Off
        &&& forall|i: int|
            0 <= i < 4 ==> #[trigger] self.heating_state@[i] == HeatingState::Disabled as u8
        &&& self.hco_digital@ == Seq::new(4, |i: int| 0u8)
        &&& self.hco_pwm_us@ == Seq::new(4, |i: int| 0u16)
        &&& self.hco_direct_dirty@ == Seq::new(4, |i: int| false)
        &&& self.hco_direct_pwm@ == Seq::new(4, |i: int| false)
        &&& self.hco_owner@ == Seq::new(4, |i: int| 0u8)
        &&& self.raw_adc@ == Seq::new(18, |i: int| RAW_INVALID)
        &&& self.i2c_present@ == Seq::new(2, |i: int| 0u16)
        &&& self.i2c_sweeps == 0
        &&& self.sensor_value@ == Seq::new(8, |i: int| SENSOR_INVALID)
        &&& self.sensor_unit@ == Seq::new(8, |i: int| 0u8)
        &&& self.leds == 0
        &&& !self.raw_debug
        &&& self.link_state == LinkState::NeverSeen
        &&& self.ms_since_heartbeat == 0
        &&& self.cpu_load == CPU_LOAD_UNKNOWN
        &&& self.cpu_peak_tick_us == 0
        &&& self.rail_current_ma@ == Seq::new(3, |i: int| 0u16)
        &&& self.rail_voltage_mv@ == Seq::new(3, |i: int| 0u16)
        &&& self.error_counters@ == Seq::new(6, |i: int| 0u32)
    }

    pub fn new() -> (r: Self)
        ensures
            r.is_new(),
    {
        Self {
            config: Config::new(),
            pending: Pending::default(),
            valve_commanded: Per::splat(0),
            valve_target: Per::splat(0),
            valve_measured: Per::splat(0),
            valve_status: Per::splat(0),
            valve_current_ma: Per::splat(0),
            relief_state: ReliefState::Disabled as u8,
            stepper_position_steps: Per::splat(0),
            heater_milli_c: TEMPERATURE_INVALID,
            heater_raw: RAW_INVALID,
            heater_state: HeaterState::Disabled as u8,
            heater_mode: HeaterMode::Off,
            heating_state: Per::splat(HeatingState::Disabled as u8),
            hco_digital: Per::splat(0),
            hco_pwm_us: Per::splat(0),
            hco_direct_dirty: Per::splat(false),
            hco_direct_pwm: Per::splat(false),
            hco_owner: Per::splat(0),
            raw_adc: Per::splat(RAW_INVALID),
            i2c_present: Per::splat(0),
            i2c_sweeps: 0,
            sensor_value: Per::splat(SENSOR_INVALID),
            sensor_unit: Per::splat(0),
            leds: 0,
            raw_debug: false,
            link_state: LinkState::NeverSeen,
            ms_since_heartbeat: 0,
            cpu_load: CPU_LOAD_UNKNOWN,
            cpu_peak_tick_us: 0,
            rail_current_ma: Per::splat(0),
            rail_voltage_mv: Per::splat(0),
            error_counters: Per::splat(0),
        }
    }

    /// The byte that says who owns an output.
    pub open spec fn owner_byte(cfg: Config, hco: HcoId) -> u8 {
        match cfg.owner_of(hco) {
            Some(valve) => (valve.position() + 1) as u8,
            None => 0,
        }
    }

    /// Brings what is derived from the configuration, output ownership and the unit codes, in step
    /// with it.
    pub fn refresh_derived(&mut self)
        ensures
            forall|hco: HcoId| #[trigger]
                final(self).hco_owner.at(hco) == Self::owner_byte(old(self).config, hco),
            forall|slot: SensorSlot| #[trigger]
                final(self).sensor_unit.at(slot) == old(self).config.sensors.at(slot).unit as u8,
            forall|slot: SensorSlot| #[trigger]
                final(self).sensor_unit.at(slot) == Self::unit_byte(old(self).config, slot),
            *final(self) == (Store {
                hco_owner: final(self).hco_owner,
                sensor_unit: final(self).sensor_unit,
                ..*old(self)
            }),
    {
        broadcast use crate::index::per_len;

        let ghost cfg = self.config;
        let mut owners = self.hco_owner;
        let mut i: usize = 0;
        while i < 4
            invariant
                i <= 4,
                owners@.len() == 4,
                self.config == cfg,
                forall|k: int|
                    0 <= k < i ==> #[trigger] owners@[k] == Self::owner_byte(cfg, HcoId::nth(k)),
            decreases 4 - i,
        {
            let hco = HcoId::ALL[i];
            let byte: u8 = match self.config.hco_owner(hco) {
                Some(valve) => valve.as_u8() + 1,
                None => 0,
            };
            *owners.index_mut(hco) = byte;
            i += 1;
        }
        let mut units = self.sensor_unit;
        let mut i: usize = 0;
        while i < 8
            invariant
                i <= 8,
                units@.len() == 8,
                self.config == cfg,
                forall|k: int|
                    0 <= k < i ==> #[trigger] units@[k] == cfg.sensors@[k].unit as u8,
            decreases 8 - i,
        {
            let unit: u8 = self.config.sensors.as_array()[i].unit as u8;
            *units.index_mut(SensorSlot::ALL[i]) = unit;
            i += 1;
        }
        self.hco_owner = owners;
        self.sensor_unit = units;
        proof {
            assert forall|hco: HcoId| #[trigger]
                self.hco_owner.at(hco) == Self::owner_byte(cfg, hco) by {
                hco.position_in_range();
                hco.nth_inverts_position();
            }
            assert forall|slot: SensorSlot| #[trigger]
                self.sensor_unit.at(slot) == cfg.sensors.at(slot).unit as u8 by {
                slot.position_in_range();
            }
        }
    }

    /// The byte that says what unit a slot reports in.
    pub open spec fn unit_byte(cfg: Config, slot: SensorSlot) -> u8 {
        cfg.sensors.at(slot).unit as u8
    }

    /// The store after the debug button.
    pub open spec fn after_button(self, still_pressed: bool) -> Self {
        if still_pressed {
            Store {
                raw_debug: !self.raw_debug,
                pending: Pending { outputs: true, ..self.pending },
                ..self
            }
        } else {
            self
        }
    }

    /// Mirrors the error counters, if any has moved.
    pub fn refresh_error_counters(&mut self, counters: &mut Counters)
        ensures
            forall|which: ErrorCounter| #[trigger]
                final(self).error_counters.at(which) == if old(counters).moved() {
                    old(counters).reading(which)
                } else {
                    old(self).error_counters.at(which)
                },
            !final(counters).moved(),
            forall|which: ErrorCounter| #[trigger]
                final(counters).reading(which) == old(counters).reading(which),
            *final(self) == (Store {
                error_counters: final(self).error_counters,
                ..*old(self)
            }),
    {
        if let Some(taken) = take_if_changed(counters) {
            self.error_counters = taken;
        }
    }

    /// The store with the published processor load.
    pub open spec fn with_load(self, load: CpuLoad) -> Self {
        Store { cpu_load: load.load(), cpu_peak_tick_us: load.peak(), ..self }
    }

    /// Mirrors the published processor load.
    pub fn refresh_cpu(&mut self, load: &CpuLoad)
        ensures
            *final(self) == (Store {
                cpu_load: load.load(),
                cpu_peak_tick_us: load.peak(),
                ..*old(self)
            }),
            *final(self) == old(self).with_load(*load),
    {
        self.cpu_load = load_word(load);
        self.cpu_peak_tick_us = peak_tick_us(load);
    }

    /// Goes back to another configuration, and has the control task act on it.
    pub fn restore(&mut self, defaults: &Config)
        ensures
            final(self).config == *defaults,
            final(self).pending == (Pending { config: true, ..old(self).pending }),
            forall|hco: HcoId| #[trigger]
                final(self).hco_owner.at(hco) == Self::owner_byte(*defaults, hco),
            forall|slot: SensorSlot| #[trigger]
                final(self).sensor_unit.at(slot) == defaults.sensors.at(slot).unit as u8,
            forall|slot: SensorSlot| #[trigger]
                final(self).sensor_unit.at(slot) == Self::unit_byte(*defaults, slot),
            *final(self) == (Store {
                config: *defaults,
                pending: final(self).pending,
                hco_owner: final(self).hco_owner,
                sensor_unit: final(self).sensor_unit,
                ..*old(self)
            }),
    {
        self.config = *defaults;
        self.refresh_derived();
        self.pending.config = true;
    }

    /// The debug button, some milliseconds after its edge: a button that is no longer pressed was
    /// bounce or noise; a press toggles raw debug mode and has the control task look at the
    /// outputs. Returns whether it was a press.
    pub fn debug_button(&mut self, still_pressed: bool) -> (r: bool)
        ensures
            r == still_pressed,
            *final(self) == if still_pressed {
                Store {
                    raw_debug: !old(self).raw_debug,
                    pending: Pending { outputs: true, ..old(self).pending },
                    ..*old(self)
                }
            } else {
                *old(self)
            },
            *final(self) == old(self).after_button(still_pressed),
    {
        if !still_pressed {
            return false;
        }
        self.raw_debug = !self.raw_debug;
        self.pending.outputs = true;
        true
    }
}

impl Default for Store {
    fn default() -> (r: Self)
        ensures
            r.is_new(),
    {
        Self::new()
    }
}

/// The byte of an output names the first valve that is fitted, has a signal output and uses this one,
/// counted from one; zero says that there is none.
pub proof fn an_owner_byte_names_the_owner(cfg: Config, hco: HcoId)
    ensures
        ({
            let byte = Store::owner_byte(cfg, hco);
            &&& byte <= 4
            &&& byte > 0 ==> {
                let valve = cfg.valves@[byte - 1];
                &&& valve.kind != ValveKind::Unfitted
                &&& valve.signal_hco is Some
                &&& valve.signal_hco == Some(hco) || valve.power_hco == Some(hco)
            }
            &&& forall|v: int|
                0 <= v < (if byte > 0 {
                    byte - 1
                } else {
                    4
                }) ==> {
                    let valve = #[trigger] cfg.valves@[v];
                    ||| valve.kind == ValveKind::Unfitted
                    ||| valve.signal_hco is None
                    ||| valve.signal_hco != Some(hco) && valve.power_hco != Some(hco)
                }
        }),
{
    crate::config::the_owner_is_the_first(cfg, hco);
}

/// A new node claims to know nothing and to do nothing: every sensor and converter is without a
/// reading, every output off, every valve closed and unmapped, and nothing waits to be acted on.
pub proof fn a_new_store_claims_nothing(store: Store, i: int)
    requires
        store.is_new(),
    ensures
        0 <= i < 4 ==> store.valve_commanded@[i] == 0 && store.valve_target@[i] == 0
            && store.valve_measured@[i] == 0 && store.valve_current_ma@[i] == 0
            && store.valve_status@[i] == 0 && store.heating_state@[i] == 3 && store.hco_digital@[i]
            == 0 && store.hco_pwm_us@[i] == 0 && !store.hco_direct_dirty@[i]
            && store.hco_owner@[i] == 0 && !store.pending.valves@[i],
        0 <= i < 8 ==> store.sensor_value@[i] == 32767,
        0 <= i < 18 ==> store.raw_adc@[i] == 65535,
        0 <= i < 6 ==> store.error_counters@[i] == 0,
        store.relief_state == 4,
        store.heater_state == 3,
        store.heater_mode == HeaterMode::Off,
        store.heater_milli_c == i32::MIN,
        store.heater_raw == 65535,
        store.leds == 0,
        !store.raw_debug,
        store.link_state == LinkState::NeverSeen,
        store.ms_since_heartbeat == 0,
        store.cpu_load == 65535,
        !store.pending.outputs && !store.pending.config && !store.pending.save
            && !store.pending.restore,
{
}

/// The control task is woken by a commanded valve, a written output or a changed configuration, and
/// by nothing else.
pub proof fn a_command_or_a_write_wakes_control(pending: Pending, valve: ValveId)
    ensures
        pending.valves.at(valve) ==> pending.concerns_control(),
        pending.outputs ==> pending.concerns_control(),
        pending.config ==> pending.concerns_control(),
        pending.concerns_control() && !pending.outputs && !pending.config ==> exists|i: int|
            0 <= i < 4 && #[trigger] pending.valves@[i],
        pending.is_clear() ==> !pending.concerns_control(),
{
    valve.position_in_range();
    if pending.valves.at(valve) {
        assert(pending.valves@[valve.position()]);
    }
}

/// The units are numbered in the order of the wire.
pub proof fn a_unit_byte_is_the_wires_number(cfg: Config, slot: SensorSlot)
    ensures
        Store::unit_byte(cfg, slot) == match cfg.sensors.at(slot).unit {
            Unit::CentiBar => 0,
            Unit::DeciBar => 1,
            Unit::CentiCelsius => 2,
            Unit::RawCounts => 3,
            Unit::Promille => 4int,
        },
{
}

/// A press toggles raw debug mode and has the control task look at the outputs, and a second one takes
/// the mode back; bounce changes nothing. What is commanded and what is measured is left alone.
pub proof fn a_press_toggles_raw_debug(store: Store)
    ensures
        store.after_button(true).raw_debug != store.raw_debug,
        store.after_button(true).pending.outputs,
        store.after_button(true).pending.concerns_control(),
        store.after_button(true).after_button(true).raw_debug == store.raw_debug,
        store.after_button(true).config == store.config,
        store.after_button(true).valve_commanded == store.valve_commanded,
        store.after_button(true).hco_direct_dirty == store.hco_direct_dirty,
        store.after_button(true).pending.valves == store.pending.valves,
        store.after_button(true).pending.config == store.pending.config,
        store.after_button(false) == store,
{
}

/// The load and the longest iteration are shown each in its own place, and nothing else changes.
pub proof fn the_load_is_shown_in_its_place(store: Store, load: CpuLoad)
    ensures
        store.with_load(load).cpu_load == load.load(),
        store.with_load(load).cpu_peak_tick_us == load.peak(),
        store.with_load(load).config == store.config,
        store.with_load(load).pending == store.pending,
        store.with_load(load).error_counters == store.error_counters,
{
}

} // verus!
