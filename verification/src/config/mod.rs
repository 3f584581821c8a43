//! Runtime configuration: everything in the 0x3000 block of the object dictionary.
//!
//! A [`Config`] is what makes one physical node different from another: which valve hangs off
//! which output, how a servo's pulse widths map to open and closed, which amplifier on which bus
//! feeds which sensor slot, and what to do when the master stops talking.
use crate::index::{AnalogInput, HcoId, Id, PdoSensorChannel, Per, PerAnalogInput, PerSensorSlot, PerValve, SensorSlot, ValveId};
use crate::proto::ids::PerTpdoKind;
use core::ops::IndexMut;
use vstd::prelude::*;

pub mod heating;
pub mod laws;
pub mod persist;
pub mod relief;
pub mod sensors;
pub mod supplement;
pub mod valves;

pub use crate::proto::ids::NUM_TPDO_KINDS;
pub use heating::{HcoSet, ValveHeatingConfig};
pub use relief::ReliefConfig;
pub use sensors::{Quantity, SensorCalib, SensorKind, SensorSlotConfig, SensorSource, Unit, UnitPrefix};
pub use valves::{FallbackAction, ValveConfig, ValveKind, PROMILLE_MAX};

use valves::shares_output;

verus! {

/// Number of buses that amplifiers and encoders sit on.
pub const NUM_I2C_BUSES: usize = 2;

/// Default broadcast periods in milliseconds, indexed by kind. 0 disables a kind.
///
/// The master gets what it needs to fly quickly, the raw channels slowly enough to leave room on
/// the bus, and the assembly-verification channels rarely.
pub const DEFAULT_TPDO_MS: [u16; 18] = [
    500,
    500,
    200,
    500,
    500,
    100,
    0,
    100,
    0,
    50,
    50,
    0,
    5000,
    1000,
    200,
    200,
    200,
    0,
];

/// The lowest setpoint there is, so that a heater which is switched on before it is configured asks
/// for no heat at all.
pub const HEATER_SETPOINT_UNSET: i16 = -32768;

#[derive(Clone, Copy, Debug)]
pub struct Config {
    pub master_node_id: u8,
    /// Time without a master heartbeat before stage A fires.
    pub fallback_a_ms: u32,
    /// Time without a master heartbeat before stage B fires. Must exceed `fallback_a_ms`.
    pub fallback_b_ms: u32,
    pub fallback_enabled: bool,
    /// Period of our own outgoing heartbeat. 0 disables it.
    pub heartbeat_period_ms: u16,
    pub valves: PerValve<ValveConfig>,
    pub heating: PerValve<ValveHeatingConfig>,
    /// 0x3070: what the node's own heater holds in thermostat mode, in hundredths of a degree
    /// Celsius.
    pub heater_setpoint_centi_c: i16,
    pub sensors: PerSensorSlot<SensorSlotConfig>,
    pub sensor_interval_ms: u16,
    pub scan_interval_ms: u16,
    pub tpdo_interval_ms: PerTpdoKind<u16>,
    pub relief: ReliefConfig,
}

/// Why a configuration is refused.
#[derive(Clone, Copy, PartialEq, Eq, Debug, Structural)]
pub enum ConfigError {
    NodeIdOutOfRange,
    FallbackOrder,
    ClampInverted(ValveId),
    ZeroTravelTime(ValveId),
    OutputShared(ValveId, ValveId),
    /// A valve's position sensor points at a slot with nothing configured on it.
    PositionSensorUnmapped(ValveId, SensorSlot),
    /// A valve's position sensor reports something other than promille.
    PositionSensorUnit(ValveId, SensorSlot),
    /// A configured sensor slot has no bus to read from.
    SensorBusUnset(SensorSlot),
    /// Two sensor slots claim the same broadcast channel.
    PdoChannelShared(SensorSlot, SensorSlot),
    /// Relief is armed against a valve that is not fitted.
    ReliefValveUnmapped(ValveId),
    /// Relief is armed against a sensor slot that is not configured.
    ReliefSensorUnmapped(SensorSlot),
    ReliefPulseZero,
    /// A valve's heating is switched on but has no output, or no sensor slot, or neither.
    HeatingUnfitted(ValveId),
    /// A valve's heating watches a slot with nothing configured on it.
    HeatingSensorUnmapped(ValveId, SensorSlot),
    /// A valve's heating watches a slot that reports something other than a temperature.
    HeatingSensorUnit(ValveId, SensorSlot),
    /// A heating pad and a valve share an output.
    HeatingOutputShared(ValveId, ValveId),
    /// Two heating pads share an output.
    HeatingOutputSharedWithHeater(ValveId, ValveId),
}

/// Configuration that is legal but probably not what was meant.
#[derive(Clone, Copy, PartialEq, Eq, Debug, Structural)]
pub enum ConfigWarning {
    /// The relief pulse is shorter than the servo needs to travel: it opens only partway.
    ReliefPulseShorterThanTravel { pulse_ms: u16, travel_ms: u16 },
    /// Relief is enabled, but no reading can exceed its threshold.
    ReliefThresholdUnreachable,
}

/// The first number in a range with a property.
pub open spec fn first_index(p: spec_fn(int) -> bool, from: int, to: int) -> Option<int>
    decreases to - from,
{
    if from >= to {
        None
    } else if p(from) {
        Some(from)
    } else {
        first_index(p, from + 1, to)
    }
}

/// The fault of the first number in a range that has one.
pub open spec fn first_fault(
    f: spec_fn(int) -> Option<ConfigError>,
    from: int,
    to: int,
) -> Option<ConfigError>
    decreases to - from,
{
    if from >= to {
        None
    } else if f(from) is Some {
        f(from)
    } else {
        first_fault(f, from + 1, to)
    }
}

/// Whether two valves would drive one output.
pub open spec fn valves_collide(a: ValveConfig, b: ValveConfig) -> bool {
    a.mapped() && b.mapped() && exists|hco: HcoId| a.drives(hco) && b.drives(hco)
}

/// Whether a pad and a valve would drive one output.
pub open spec fn pad_hits_valve(h: ValveHeatingConfig, v: ValveConfig) -> bool {
    v.mapped() && exists|hco: HcoId| v.drives(hco) && h.heats_through(hco)
}

/// Whether two pads would drive one output.
pub open spec fn pads_collide(h: ValveHeatingConfig, g: ValveHeatingConfig) -> bool {
    g.fitted() && exists|hco: HcoId| g.heats_through(hco) && h.heats_through(hco)
}

/// Whether a slot claims the channel that another one claims.
pub open spec fn channels_collide(s: SensorSlotConfig, t: SensorSlotConfig) -> bool {
    s.pdo_channel is Some && s.pdo_channel == t.pdo_channel
}

impl Config {
    /// What is wrong with one valve slot, if anything.
    pub open spec fn valve_fault(self, i: int) -> Option<ConfigError> {
        let v = self.valves@[i];
        let id = ValveId::nth(i);
        let collides = first_index(|j: int| valves_collide(v, self.valves@[j]), i + 1, 4);
        if !v.mapped() {
            None
        } else if v.min_promille > v.max_promille {
            Some(ConfigError::ClampInverted(id))
        } else if v.kind == ValveKind::Servo && v.travel_ms == 0 {
            Some(ConfigError::ZeroTravelTime(id))
        } else if v.position_sensor is Some && self.sensors.at(v.position_sensor->0).kind
            == SensorKind::Unused {
            Some(ConfigError::PositionSensorUnmapped(id, v.position_sensor->0))
        } else if v.position_sensor is Some && self.sensors.at(v.position_sensor->0).unit
            != Unit::Promille {
            Some(ConfigError::PositionSensorUnit(id, v.position_sensor->0))
        } else if collides is Some {
            Some(ConfigError::OutputShared(id, ValveId::nth(collides->0)))
        } else {
            None
        }
    }

    /// What is wrong with one heating pad, if anything.
    pub open spec fn heating_fault(self, i: int) -> Option<ConfigError> {
        let h = self.heating@[i];
        let id = ValveId::nth(i);
        let valve = first_index(|j: int| pad_hits_valve(h, self.valves@[j]), 0, 4);
        let pad = first_index(|j: int| pads_collide(h, self.heating@[j]), i + 1, 4);
        if h.enabled && !h.fitted() {
            Some(ConfigError::HeatingUnfitted(id))
        } else if !h.fitted() {
            None
        } else if self.sensors.at(h.sensor->0).kind == SensorKind::Unused {
            Some(ConfigError::HeatingSensorUnmapped(id, h.sensor->0))
        } else if self.sensors.at(h.sensor->0).unit.spec_quantity() != Quantity::Temperature {
            Some(ConfigError::HeatingSensorUnit(id, h.sensor->0))
        } else if valve is Some {
            Some(ConfigError::HeatingOutputShared(id, ValveId::nth(valve->0)))
        } else if pad is Some {
            Some(ConfigError::HeatingOutputSharedWithHeater(id, ValveId::nth(pad->0)))
        } else {
            None
        }
    }

    /// What is wrong with one sensor slot, if anything.
    pub open spec fn sensor_fault(self, i: int) -> Option<ConfigError> {
        let s = self.sensors@[i];
        let id = SensorSlot::nth(i);
        let other = first_index(|j: int| channels_collide(s, self.sensors@[j]), i + 1, 8);
        if s.kind == SensorKind::Unused {
            None
        } else if s.kind.on_i2c() && s.bus is None {
            Some(ConfigError::SensorBusUnset(id))
        } else if other is Some {
            Some(ConfigError::PdoChannelShared(id, SensorSlot::nth(other->0)))
        } else {
            None
        }
    }

    /// What is wrong with the relief loop, if anything.
    pub open spec fn relief_fault(self) -> Option<ConfigError> {
        if !self.relief.armed() {
            None
        } else if !self.valves.at(self.relief.valve->0).mapped() {
            Some(ConfigError::ReliefValveUnmapped(self.relief.valve->0))
        } else if self.sensors.at(self.relief.sensor).kind == SensorKind::Unused {
            Some(ConfigError::ReliefSensorUnmapped(self.relief.sensor))
        } else if self.relief.pulse_ms == 0 {
            Some(ConfigError::ReliefPulseZero)
        } else {
            None
        }
    }

    /// The first thing that is wrong: the two node-wide settings, then the valves, the pads, the
    /// sensor slots and the relief loop, each in index order.
    pub open spec fn fault(self) -> Option<ConfigError> {
        let valves = first_fault(|i: int| self.valve_fault(i), 0, 4);
        let heating = first_fault(|i: int| self.heating_fault(i), 0, 4);
        let sensors = first_fault(|i: int| self.sensor_fault(i), 0, 8);
        if self.master_node_id > 15 {
            Some(ConfigError::NodeIdOutOfRange)
        } else if self.fallback_b_ms <= self.fallback_a_ms {
            Some(ConfigError::FallbackOrder)
        } else if valves is Some {
            valves
        } else if heating is Some {
            heating
        } else if sensors is Some {
            sensors
        } else {
            self.relief_fault()
        }
    }

    /// What a factory-fresh node runs with.
    pub open spec fn is_new(self) -> bool {
        &&& self.master_node_id == 1
        &&& self.fallback_a_ms == 3_000
        &&& self.fallback_b_ms == 300_000
        &&& self.fallback_enabled
        &&& self.heartbeat_period_ms == 1000
        &&& self.valves@ == Seq::new(4, |i: int| ValveConfig::spec_unmapped())
        &&& forall|i: int| 0 <= i < 4 ==> (#[trigger] self.heating@[i]).is_none()
        &&& self.heater_setpoint_centi_c == HEATER_SETPOINT_UNSET
        &&& self.sensors@ == Seq::new(8, |i: int| SensorSlotConfig::spec_unused())
        &&& self.sensor_interval_ms == 10
        &&& self.scan_interval_ms == 500
        &&& self.tpdo_interval_ms@ == DEFAULT_TPDO_MS@
        &&& self.relief == ReliefConfig::spec_disabled()
    }

    /// Nothing fitted, fallback armed, and the default broadcast periods.
    pub fn new() -> (r: Self)
        ensures
            r.is_new(),
    {
        Self {
            master_node_id: 1,
            fallback_a_ms: 3_000,
            fallback_b_ms: 300_000,
            fallback_enabled: true,
            heartbeat_period_ms: 1000,
            valves: Per::splat(ValveConfig::unmapped()),
            heating: Per::splat(ValveHeatingConfig::none()),
            heater_setpoint_centi_c: HEATER_SETPOINT_UNSET,
            sensors: Per::splat(SensorSlotConfig::unused()),
            sensor_interval_ms: 10,
            scan_interval_ms: 500,
            tpdo_interval_ms: Per::new(DEFAULT_TPDO_MS),
            relief: ReliefConfig::disabled(),
        }
    }

    pub fn with_relief(self, relief: ReliefConfig) -> (r: Self)
        ensures
            r == (Config { relief, ..self }),
    {
        Self { relief, ..self }
    }

    pub fn with_valve(self, valve: ValveId, config: ValveConfig) -> (r: Self)
        ensures
            r == (Config { valves: r.valves, ..self }),
            r.valves@ == self.valves@.update(valve.position(), config),
    {
        Self { valves: self.valves.with_at(valve.index(), config), ..self }
    }

    /// Configures a heater for a valve.
    pub fn with_valve_heating(self, valve: ValveId, config: ValveHeatingConfig) -> (r: Self)
        ensures
            r == (Config { heating: r.heating, ..self }),
            r.heating@ == self.heating@.update(valve.position(), config),
    {
        Self { heating: self.heating.with_at(valve.index(), config), ..self }
    }

    /// A sensor as it is fitted to a slot: on the channel that it claims, or else on the slot's own.
    pub open spec fn fitted_to(slot: SensorSlot, config: SensorSlotConfig) -> SensorSlotConfig {
        if config.pdo_channel is Some {
            config
        } else {
            SensorSlotConfig {
                pdo_channel: Some(PdoSensorChannel::nth(slot.position())),
                ..config
            }
        }
    }

    /// Fits a sensor and, unless it already claims one, broadcasts it on the channel matching its
    /// own slot number.
    pub fn with_sensor(self, slot: SensorSlot, config: SensorSlotConfig) -> (r: Self)
        ensures
            r == (Config { sensors: r.sensors, ..self }),
            r.sensors@ == self.sensors@.update(
                slot.position(),
                if config.pdo_channel is Some {
                    config
                } else {
                    SensorSlotConfig {
                        pdo_channel: Some(PdoSensorChannel::nth(slot.position())),
                        ..config
                    }
                },
            ),
            r.sensors@ == self.sensors@.update(slot.position(), Self::fitted_to(slot, config)),
    {
        let mut config = config;
        if config.pdo_channel.is_none() {
            config.pdo_channel = PdoSensorChannel::from_index(slot.index());
            proof {
                config.pdo_channel->0.nth_inverts_position();
            }
        }
        Self { sensors: self.sensors.with_at(slot.index(), config), ..self }
    }

    /// Fits a sensor that is never broadcast: sampled, calibrated and readable, but off the
    /// process data plane.
    pub fn with_quiet_sensor(self, slot: SensorSlot, config: SensorSlotConfig) -> (r: Self)
        ensures
            r == (Config { sensors: r.sensors, ..self }),
            r.sensors@ == self.sensors@.update(
                slot.position(),
                SensorSlotConfig { pdo_channel: None, ..config },
            ),
    {
        let config = SensorSlotConfig { pdo_channel: None, ..config };
        Self { sensors: self.sensors.with_at(slot.index(), config), ..self }
    }

    /// Which pins any thermistor slot is configured onto.
    pub fn analog_inputs_used(&self) -> (r: PerAnalogInput<bool>)
        ensures
            forall|input: AnalogInput|
                #[trigger] r.at(input) <==> exists|i: int|
                    0 <= i < 8 && (#[trigger] self.sensors@[i]).spec_analog_input() == Some(input),
    {
        broadcast use crate::index::per_len;

        let mut used: PerAnalogInput<bool> = Per::splat(false);
        let mut i: usize = 0;
        while i < 8
            invariant
                i <= 8,
                forall|input: AnalogInput|
                    #[trigger] used.at(input) <==> exists|j: int|
                        0 <= j < i && (#[trigger] self.sensors@[j]).spec_analog_input() == Some(
                            input,
                        ),
            decreases 8 - i,
        {
            let ghost before = used;
            if let Some(input) = self.sensors.as_array()[i].analog_input() {
                *used.index_mut(input) = true;
                proof {
                    assert forall|other: AnalogInput| #[trigger]
                        used.at(other) == (other == input || before.at(other)) by {
                        crate::index::writing_one_entry_keeps_the_others(
                            before,
                            used,
                            input,
                            true,
                            other,
                        );
                    }
                }
            }
            proof {
                assert forall|input: AnalogInput| #[trigger]
                    used.at(input) <==> exists|j: int|
                        0 <= j < i + 1 && (#[trigger] self.sensors@[j]).spec_analog_input() == Some(
                            input,
                        ) by {
                    if used.at(input) {
                        if before.at(input) {
                            let j = choose|j: int|
                                0 <= j < i && (#[trigger] self.sensors@[j]).spec_analog_input()
                                    == Some(input);
                            assert(self.sensors@[j].spec_analog_input() == Some(input));
                        } else {
                            assert(self.sensors@[i as int].spec_analog_input() == Some(input));
                        }
                    }
                }
            }
            i += 1;
        }
        used
    }

    /// Which valve, if any, drives a given output: the first mapped one whose signal or power
    /// output it is.
    #[verifier::loop_isolation(false)]
    pub fn hco_owner(&self, hco: HcoId) -> (r: Option<ValveId>)
        ensures
            r == self.owner_of(hco),
    {
        let mut i: usize = 0;
        while i < 4
            invariant
                i <= 4,
                first_index(|j: int| self.owns(j, hco), 0, 4) == first_index(
                    |j: int| self.owns(j, hco),
                    i as int,
                    4,
                ),
            decreases 4 - i,
        {
            let v = &self.valves.as_array()[i];
            if v.is_mapped() && v.uses(hco) {
                return Some(ValveId::ALL[i]);
            }
            i += 1;
        }
        None
    }

    /// Rejects configurations that would misbehave, rather than silently running with them.
    #[verifier::loop_isolation(false)]
    pub fn sanity_check(&self) -> (r: Result<(), ConfigError>)
        ensures
            r == match self.fault() {
                Some(error) => Err::<(), ConfigError>(error),
                None => Ok(()),
            },
            r is Ok <==> self.is_sane(),
    {
        proof {
            self.a_config_without_fault_is_sane();
        }
        if self.master_node_id > 0x0F {
            return Err(ConfigError::NodeIdOutOfRange);
        }
        if self.fallback_b_ms <= self.fallback_a_ms {
            return Err(ConfigError::FallbackOrder);
        }
        let mut i: usize = 0;
        while i < 4
            invariant
                i <= 4,
                first_fault(|k: int| self.valve_fault(k), 0, 4) == first_fault(
                    |k: int| self.valve_fault(k),
                    i as int,
                    4,
                ),
            decreases 4 - i,
        {
            if let Some(error) = self.check_valve(i) {
                return Err(error);
            }
            i += 1;
        }
        let mut i: usize = 0;
        while i < 4
            invariant
                i <= 4,
                first_fault(|k: int| self.heating_fault(k), 0, 4) == first_fault(
                    |k: int| self.heating_fault(k),
                    i as int,
                    4,
                ),
            decreases 4 - i,
        {
            if let Some(error) = self.check_heating(i) {
                return Err(error);
            }
            i += 1;
        }
        let mut i: usize = 0;
        while i < 8
            invariant
                i <= 8,
                first_fault(|k: int| self.sensor_fault(k), 0, 8) == first_fault(
                    |k: int| self.sensor_fault(k),
                    i as int,
                    8,
                ),
            decreases 8 - i,
        {
            if let Some(error) = self.check_sensor(i) {
                return Err(error);
            }
            i += 1;
        }
        match self.check_relief() {
            Some(error) => Err(error),
            None => Ok(()),
        }
    }

    #[verifier::loop_isolation(false)]
    fn check_valve(&self, i: usize) -> (r: Option<ConfigError>)
        requires
            i < 4,
        ensures
            r == self.valve_fault(i as int),
    {
        let id = ValveId::ALL[i];
        let v = &self.valves.as_array()[i];
        if !v.is_mapped() {
            return None;
        }
        if v.min_promille > v.max_promille {
            return Some(ConfigError::ClampInverted(id));
        }
        if v.kind == ValveKind::Servo && v.travel_ms == 0 {
            return Some(ConfigError::ZeroTravelTime(id));
        }
        if let Some(slot) = v.position_sensor {
            let sensor = &self.sensors[slot];
            if sensor.kind == SensorKind::Unused {
                return Some(ConfigError::PositionSensorUnmapped(id, slot));
            }
            if sensor.unit != Unit::Promille {
                return Some(ConfigError::PositionSensorUnit(id, slot));
            }
        }
        let ghost p = |j: int| valves_collide(*v, self.valves@[j]);
        let mut k: usize = i + 1;
        while k < 4
            invariant
                i < k <= 4,
                v.mapped(),
                p == (|j: int| valves_collide(*v, self.valves@[j])),
                first_index(p, i + 1, 4) == first_index(p, k as int, 4),
            decreases 4 - k,
        {
            let w = &self.valves.as_array()[k];
            if w.is_mapped() && shares_output(v, w) {
                return Some(ConfigError::OutputShared(id, ValveId::ALL[k]));
            }
            k += 1;
        }
        None
    }

    #[verifier::loop_isolation(false)]
    fn check_heating(&self, i: usize) -> (r: Option<ConfigError>)
        requires
            i < 4,
        ensures
            r == self.heating_fault(i as int),
    {
        let id = ValveId::ALL[i];
        let h = &self.heating.as_array()[i];
        if h.enabled && !h.is_fitted() {
            return Some(ConfigError::HeatingUnfitted(id));
        }
        if !h.is_fitted() {
            return None;
        }
        if let Some(slot) = h.sensor {
            let sensor = &self.sensors[slot];
            if sensor.kind == SensorKind::Unused {
                return Some(ConfigError::HeatingSensorUnmapped(id, slot));
            }
            if sensor.unit.quantity() != Quantity::Temperature {
                return Some(ConfigError::HeatingSensorUnit(id, slot));
            }
        }
        let ghost hits = |j: int| pad_hits_valve(*h, self.valves@[j]);
        let mut k: usize = 0;
        while k < 4
            invariant
                k <= 4,
                hits == (|j: int| pad_hits_valve(*h, self.valves@[j])),
                first_index(hits, 0, 4) == first_index(hits, k as int, 4),
            decreases 4 - k,
        {
            let v = &self.valves.as_array()[k];
            if v.is_mapped() && heats_an_output_of(h, v) {
                return Some(ConfigError::HeatingOutputShared(id, ValveId::ALL[k]));
            }
            k += 1;
        }
        let ghost meets = |j: int| pads_collide(*h, self.heating@[j]);
        let mut k: usize = i + 1;
        while k < 4
            invariant
                i < k <= 4,
                meets == (|j: int| pads_collide(*h, self.heating@[j])),
                first_index(meets, i + 1, 4) == first_index(meets, k as int, 4),
            decreases 4 - k,
        {
            let g = &self.heating.as_array()[k];
            if g.is_fitted() && pads_share_an_output(h, g) {
                return Some(ConfigError::HeatingOutputSharedWithHeater(id, ValveId::ALL[k]));
            }
            k += 1;
        }
        None
    }

    #[verifier::loop_isolation(false)]
    fn check_sensor(&self, i: usize) -> (r: Option<ConfigError>)
        requires
            i < 8,
        ensures
            r == self.sensor_fault(i as int),
    {
        let id = SensorSlot::ALL[i];
        let s = &self.sensors.as_array()[i];
        if s.kind == SensorKind::Unused {
            return None;
        }
        if s.kind.is_on_i2c() && s.bus.is_none() {
            return Some(ConfigError::SensorBusUnset(id));
        }
        let ghost p = |j: int| channels_collide(*s, self.sensors@[j]);
        let mut k: usize = i + 1;
        while k < 8
            invariant
                i < k <= 8,
                p == (|j: int| channels_collide(*s, self.sensors@[j])),
                first_index(p, i + 1, 8) == first_index(p, k as int, 8),
            decreases 8 - k,
        {
            if let (Some(a), Some(b)) = (s.pdo_channel, self.sensors.as_array()[k].pdo_channel) {
                if a == b {
                    return Some(ConfigError::PdoChannelShared(id, SensorSlot::ALL[k]));
                }
            }
            k += 1;
        }
        None
    }

    fn check_relief(&self) -> (r: Option<ConfigError>)
        ensures
            r == self.relief_fault(),
    {
        if !self.relief.enabled {
            return None;
        }
        if let Some(valve) = self.relief.valve {
            if !self.valves[valve].is_mapped() {
                return Some(ConfigError::ReliefValveUnmapped(valve));
            }
            if self.sensors[self.relief.sensor].kind == SensorKind::Unused {
                return Some(ConfigError::ReliefSensorUnmapped(self.relief.sensor));
            }
            if self.relief.pulse_ms == 0 {
                return Some(ConfigError::ReliefPulseZero);
            }
        }
        None
    }

    /// Configuration that is legal but probably not what was meant, for the caller to report once
    /// at boot.
    pub fn log_warnings(&self) -> (r: Vec<ConfigWarning>)
        ensures
            r@ == self.warnings(),
    {
        let mut found: Vec<ConfigWarning> = Vec::new();
        if self.relief.enabled {
            if let Some(id) = self.relief.valve {
                let valve = &self.valves[id];
                if valve.kind == ValveKind::Servo && self.relief.pulse_ms < valve.travel_ms {
                    found.push(
                        ConfigWarning::ReliefPulseShorterThanTravel {
                            pulse_ms: self.relief.pulse_ms,
                            travel_ms: valve.travel_ms,
                        },
                    );
                }
                if self.relief.threshold == i16::MAX {
                    found.push(ConfigWarning::ReliefThresholdUnreachable);
                }
            }
        }
        assert(found@ =~= self.warnings());
        found
    }

    /// Whether the valve at an index is mapped and drives an output.
    pub open spec fn owns(self, i: int, hco: HcoId) -> bool {
        self.valves@[i].mapped() && self.valves@[i].drives(hco)
    }

    /// The first valve that drives an output.
    pub open spec fn owner_of(self, hco: HcoId) -> Option<ValveId> {
        match first_index(|j: int| self.owns(j, hco), 0, 4) {
            Some(i) => Some(ValveId::nth(i)),
            None => None,
        }
    }

    /// What an armed relief loop is warned about.
    pub open spec fn warnings(self) -> Seq<ConfigWarning> {
        if !self.relief.armed() {
            seq![]
        } else {
            let valve = self.valves.at(self.relief.valve->0);
            let pulse = if valve.kind == ValveKind::Servo && self.relief.pulse_ms
                < valve.travel_ms {
                seq![
                    ConfigWarning::ReliefPulseShorterThanTravel {
                        pulse_ms: self.relief.pulse_ms,
                        travel_ms: valve.travel_ms,
                    },
                ]
            } else {
                seq![]
            };
            let threshold = if self.relief.threshold == i16::MAX {
                seq![ConfigWarning::ReliefThresholdUnreachable]
            } else {
                seq![]
            };
            pulse + threshold
        }
    }

    /// The invariants that a configuration has to keep for nothing to fight or fail silently.
    pub open spec fn is_sane(self) -> bool {
        &&& self.master_node_id <= 15
        &&& self.fallback_a_ms < self.fallback_b_ms
        &&& forall|i: int| 0 <= i < 4 ==> self.valve_is_sane(#[trigger] self.valves@[i])
        &&& forall|i: int, j: int|
            0 <= i < j < 4 ==> !valves_collide(#[trigger] self.valves@[i], #[trigger] self.valves@[j])
        &&& forall|i: int| 0 <= i < 4 ==> self.pad_is_sane(#[trigger] self.heating@[i])
        &&& forall|i: int, j: int|
            0 <= i < 4 && 0 <= j < 4 && (#[trigger] self.heating@[i]).fitted() ==> !pad_hits_valve(
                self.heating@[i],
                #[trigger] self.valves@[j],
            )
        &&& forall|i: int, j: int|
            0 <= i < j < 4 && (#[trigger] self.heating@[i]).fitted() ==> !pads_collide(
                self.heating@[i],
                #[trigger] self.heating@[j],
            )
        &&& forall|i: int|
            0 <= i < 8 ==> ((#[trigger] self.sensors@[i]).kind.on_i2c() ==> self.sensors@[i].bus is Some)
        &&& forall|i: int, j: int|
            0 <= i < j < 8 && (#[trigger] self.sensors@[i]).kind != SensorKind::Unused
                ==> !channels_collide(self.sensors@[i], #[trigger] self.sensors@[j])
        &&& self.relief.armed() ==> {
            &&& self.valves.at(self.relief.valve->0).mapped()
            &&& self.sensors.at(self.relief.sensor).kind != SensorKind::Unused
            &&& self.relief.pulse_ms > 0
        }
    }

    /// A fitted valve has an orderly clamp range, can travel, and trusts only a position sensor
    /// that reports a position.
    pub open spec fn valve_is_sane(self, v: ValveConfig) -> bool {
        v.mapped() ==> {
            &&& v.min_promille <= v.max_promille
            &&& v.kind == ValveKind::Servo ==> v.travel_ms > 0
            &&& v.position_sensor is Some ==> {
                &&& self.sensors.at(v.position_sensor->0).kind != SensorKind::Unused
                &&& self.sensors.at(v.position_sensor->0).unit == Unit::Promille
            }
        }
    }

    /// A pad that is switched on is fitted, and a fitted pad watches a temperature.
    pub open spec fn pad_is_sane(self, h: ValveHeatingConfig) -> bool {
        &&& h.enabled ==> h.fitted()
        &&& h.fitted() ==> {
            &&& self.sensors.at(h.sensor->0).kind != SensorKind::Unused
            &&& self.sensors.at(h.sensor->0).unit.spec_quantity() == Quantity::Temperature
        }
    }

    proof fn valve_without_fault(&self, i: int)
        requires
            0 <= i < 4,
        ensures
            self.valve_fault(i) is None <==> {
                &&& self.valve_is_sane(self.valves@[i])
                &&& forall|j: int|
                    i < j < 4 ==> !valves_collide(self.valves@[i], #[trigger] self.valves@[j])
            },
    {
        let v = self.valves@[i];
        let p = |j: int| valves_collide(v, self.valves@[j]);
        first_index_is_first(p, i + 1, 4);
        assert forall|j: int| p(j) == valves_collide(v, #[trigger] self.valves@[j]) by {}
        if self.valve_fault(i) is None && v.mapped() {
            assert(first_index(p, i + 1, 4) is None);
            assert forall|j: int| i < j < 4 implies !valves_collide(
                v,
                #[trigger] self.valves@[j],
            ) by {
                assert(!p(j));
            }
        }
    }

    proof fn heating_without_fault(&self, i: int)
        requires
            0 <= i < 4,
        ensures
            self.heating_fault(i) is None <==> {
                &&& self.pad_is_sane(self.heating@[i])
                &&& self.heating@[i].fitted() ==> {
                    &&& forall|j: int|
                        0 <= j < 4 ==> !pad_hits_valve(self.heating@[i], #[trigger] self.valves@[j])
                    &&& forall|j: int|
                        i < j < 4 ==> !pads_collide(self.heating@[i], #[trigger] self.heating@[j])
                }
            },
    {
        let h = self.heating@[i];
        let hits = |j: int| pad_hits_valve(h, self.valves@[j]);
        let meets = |j: int| pads_collide(h, self.heating@[j]);
        first_index_is_first(hits, 0, 4);
        first_index_is_first(meets, i + 1, 4);
        if self.heating_fault(i) is None && h.fitted() {
            assert forall|j: int| 0 <= j < 4 implies !pad_hits_valve(
                h,
                #[trigger] self.valves@[j],
            ) by {
                assert(!hits(j));
            }
            assert forall|j: int| i < j < 4 implies !pads_collide(
                h,
                #[trigger] self.heating@[j],
            ) by {
                assert(!meets(j));
            }
        }
    }

    proof fn sensor_without_fault(&self, i: int)
        requires
            0 <= i < 8,
        ensures
            self.sensor_fault(i) is None <==> {
                &&& self.sensors@[i].kind.on_i2c() ==> self.sensors@[i].bus is Some
                &&& self.sensors@[i].kind != SensorKind::Unused ==> forall|j: int|
                    i < j < 8 ==> !channels_collide(self.sensors@[i], #[trigger] self.sensors@[j])
            },
    {
        let s = self.sensors@[i];
        let p = |j: int| channels_collide(s, self.sensors@[j]);
        first_index_is_first(p, i + 1, 8);
        if self.sensor_fault(i) is None && s.kind != SensorKind::Unused {
            assert forall|j: int| i < j < 8 implies !channels_collide(
                s,
                #[trigger] self.sensors@[j],
            ) by {
                assert(!p(j));
            }
        }
    }

    /// A configuration is accepted exactly when every invariant holds.
    #[verifier::spinoff_prover]
    pub proof fn a_config_without_fault_is_sane(&self)
        ensures
            self.fault() is None <==> self.is_sane(),
    {
        let valve = |i: int| self.valve_fault(i);
        let heating = |i: int| self.heating_fault(i);
        let sensor = |i: int| self.sensor_fault(i);
        first_fault_is_a_fault(valve, 0, 4);
        first_fault_is_a_fault(heating, 0, 4);
        first_fault_is_a_fault(sensor, 0, 8);
        if self.fault() is None {
            assert forall|i: int| 0 <= i < 4 implies {
                &&& self.valve_is_sane(#[trigger] self.valves@[i])
                &&& forall|j: int|
                    i < j < 4 ==> !valves_collide(self.valves@[i], #[trigger] self.valves@[j])
            } by {
                assert(valve(i) is None);
                self.valve_without_fault(i);
            }
            assert forall|i: int| 0 <= i < 4 implies {
                &&& self.pad_is_sane(#[trigger] self.heating@[i])
                &&& self.heating@[i].fitted() ==> {
                    &&& forall|j: int|
                        0 <= j < 4 ==> !pad_hits_valve(self.heating@[i], #[trigger] self.valves@[j])
                    &&& forall|j: int|
                        i < j < 4 ==> !pads_collide(self.heating@[i], #[trigger] self.heating@[j])
                }
            } by {
                assert(heating(i) is None);
                self.heating_without_fault(i);
            }
            assert forall|i: int| 0 <= i < 8 implies {
                &&& (#[trigger] self.sensors@[i]).kind.on_i2c() ==> self.sensors@[i].bus is Some
                &&& self.sensors@[i].kind != SensorKind::Unused ==> forall|j: int|
                    i < j < 8 ==> !channels_collide(self.sensors@[i], #[trigger] self.sensors@[j])
            } by {
                assert(sensor(i) is None);
                self.sensor_without_fault(i);
            }
        }
        if self.is_sane() {
            assert forall|i: int| 0 <= i < 4 implies (#[trigger] valve(i)) is None by {
                assert(self.valve_is_sane(self.valves@[i]));
                self.valve_without_fault(i);
            }
            assert forall|i: int| 0 <= i < 4 implies (#[trigger] heating(i)) is None by {
                assert(self.pad_is_sane(self.heating@[i]));
                self.heating_without_fault(i);
            }
            assert forall|i: int| 0 <= i < 8 implies (#[trigger] sensor(i)) is None by {
                assert(self.sensors@[i].kind.on_i2c() ==> self.sensors@[i].bus is Some);
                self.sensor_without_fault(i);
            }
        }
    }
}

impl Default for Config {
    fn default() -> (r: Self)
        ensures
            r.is_new(),
    {
        Self::new()
    }
}

/// What distinguishes one physical node from another at build time.
pub struct NodeSettings {
    /// Also the node's address on the bus. Four bits: at most 16 nodes.
    pub node_id: u8,
    /// Factory defaults, used when the flash holds no valid configuration.
    pub config: Config,
}

impl NodeSettings {
    pub fn new(node_id: u8, config: Config) -> (r: Self)
        ensures
            r.node_id == node_id,
            r.config == config,
    {
        Self { node_id, config }
    }
}

fn heats_an_output_of(h: &ValveHeatingConfig, v: &ValveConfig) -> (r: bool)
    ensures
        r == exists|hco: HcoId| v.drives(hco) && h.heats_through(hco),
{
    let power = match v.power_hco {
        Some(hco) => h.switches(hco),
        None => false,
    };
    let signal = match v.signal_hco {
        Some(hco) => h.switches(hco),
        None => false,
    };
    proof {
        if power {
            assert(v.drives(v.power_hco->0) && h.heats_through(v.power_hco->0));
        }
        if signal {
            assert(v.drives(v.signal_hco->0) && h.heats_through(v.signal_hco->0));
        }
    }
    power || signal
}

fn pads_share_an_output(h: &ValveHeatingConfig, g: &ValveHeatingConfig) -> (r: bool)
    ensures
        r == exists|hco: HcoId| g.heats_through(hco) && h.heats_through(hco),
{
    let a = g.outputs();
    let b = h.outputs();
    let r = a.intersects(b);
    proof {
        if r {
            let hco = choose|hco: HcoId| #[trigger] a.has(hco) && b.has(hco);
            assert(g.heats_through(hco) && h.heats_through(hco));
        }
        if exists|hco: HcoId| g.heats_through(hco) && h.heats_through(hco) {
            let hco = choose|hco: HcoId| g.heats_through(hco) && h.heats_through(hco);
            assert(a.has(hco) && b.has(hco));
        }
    }
    r
}

proof fn first_index_is_first(p: spec_fn(int) -> bool, from: int, to: int)
    ensures
        first_index(p, from, to) is None <==> forall|j: int| from <= j < to ==> !#[trigger] p(j),
        first_index(p, from, to) matches Some(i) ==> from <= i < to && p(i) && forall|j: int|
            from <= j < i ==> !#[trigger] p(j),
    decreases to - from,
{
    if from < to && !p(from) {
        first_index_is_first(p, from + 1, to);
    }
}

proof fn first_fault_is_a_fault(f: spec_fn(int) -> Option<ConfigError>, from: int, to: int)
    ensures
        first_fault(f, from, to) is None <==> forall|j: int| from <= j < to ==> (#[trigger] f(j)) is None,
    decreases to - from,
{
    if from < to && f(from) is None {
        first_fault_is_a_fault(f, from + 1, to);
    }
}

/// An output's owner is a mapped valve that drives it, and an output without one is driven by no
/// mapped valve.
pub proof fn the_owner_drives_its_output(cfg: Config, hco: HcoId)
    ensures
        cfg.owner_of(hco) matches Some(id) ==> cfg.valves.at(id).mapped() && cfg.valves.at(
            id,
        ).drives(hco),
        cfg.owner_of(hco) is None ==> forall|id: ValveId|
            !((#[trigger] cfg.valves.at(id)).mapped() && cfg.valves.at(id).drives(hco)),
{
    let p = |j: int| cfg.owns(j, hco);
    first_index_is_first(p, 0, 4);
    if cfg.owner_of(hco) is None {
        assert forall|id: ValveId|
            !((#[trigger] cfg.valves.at(id)).mapped() && cfg.valves.at(id).drives(hco)) by {
            id.position_in_range();
            assert(!p(id.position()));
        }
    } else {
        let i = first_index(p, 0, 4)->0;
        ValveId::position_inverts_nth(i);
        assert(p(i));
    }
}

/// An output's owner is the first valve that is fitted, has a signal output and uses the output for
/// its signal or its power; an output without one has no such valve.
pub proof fn the_owner_is_the_first(cfg: Config, hco: HcoId)
    ensures
        cfg.owner_of(hco) matches Some(id) ==> {
            let valve = cfg.valves@[id.position()];
            &&& 0 <= id.position() < 4
            &&& valve.kind != ValveKind::Unfitted
            &&& valve.signal_hco is Some
            &&& valve.signal_hco == Some(hco) || valve.power_hco == Some(hco)
        },
        forall|v: int|
            0 <= v < (match cfg.owner_of(hco) {
                Some(id) => id.position(),
                None => 4,
            }) ==> {
                let valve = #[trigger] cfg.valves@[v];
                ||| valve.kind == ValveKind::Unfitted
                ||| valve.signal_hco is None
                ||| valve.signal_hco != Some(hco) && valve.power_hco != Some(hco)
            },
{
    let p = |j: int| cfg.owns(j, hco);
    first_index_is_first(p, 0, 4);
    if let Some(i) = first_index(p, 0, 4) {
        ValveId::position_inverts_nth(i);
        assert(p(i));
    }
    assert forall|v: int|
        0 <= v < (match cfg.owner_of(hco) {
            Some(id) => id.position(),
            None => 4,
        }) implies {
        let valve = #[trigger] cfg.valves@[v];
        ||| valve.kind == ValveKind::Unfitted
        ||| valve.signal_hco is None
        ||| valve.signal_hco != Some(hco) && valve.power_hco != Some(hco)
    } by {
        assert(!p(v));
    }
}

/// In an accepted configuration an output has one owner: no other mapped valve drives it, and no
/// fitted pad switches it.
pub proof fn a_sane_output_has_one_owner(cfg: Config, hco: HcoId, valve: ValveId)
    requires
        cfg.is_sane(),
        cfg.valves.at(valve).mapped(),
        cfg.valves.at(valve).drives(hco),
    ensures
        cfg.owner_of(hco) == Some(valve),
        forall|id: ValveId|
            (#[trigger] cfg.heating.at(id)).fitted() ==> !cfg.heating.at(id).heats_through(hco),
{
    let p = |j: int| cfg.owns(j, hco);
    first_index_is_first(p, 0, 4);
    valve.position_in_range();
    assert(p(valve.position()));
    let i = first_index(p, 0, 4)->0;
    assert(p(i));
    let v = cfg.valves@[i];
    if i < valve.position() {
        assert(valves_collide(v, cfg.valves.at(valve))) by {
            assert(v.drives(hco) && cfg.valves.at(valve).drives(hco));
        }
    }
    valve.nth_inverts_position();
    assert forall|id: ValveId| (#[trigger] cfg.heating.at(id)).fitted() implies !cfg.heating.at(
        id,
    ).heats_through(hco) by {
        id.position_in_range();
        if cfg.heating.at(id).heats_through(hco) {
            assert(cfg.valves.at(valve).drives(hco) && cfg.heating.at(id).heats_through(hco));
            assert(pad_hits_valve(cfg.heating.at(id), cfg.valves.at(valve)));
        }
    }
}

/// The configuration a fresh node starts with is accepted.
pub proof fn a_new_config_is_sane(cfg: Config)
    requires
        cfg.is_new(),
    ensures
        cfg.is_sane(),
{
}

} // verus!
