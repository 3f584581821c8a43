//! What a fault of a configuration says, and what a configuration without one rules out.
use crate::config::{
    first_fault, first_index, first_index_is_first, pad_hits_valve,
    pads_collide, valves_collide, Config, ConfigError, ConfigWarning, SensorKind, SensorSlotConfig,
    Unit,
    ValveConfig, ValveHeatingConfig, ValveKind,
};
use crate::index::{HcoId, Id, PdoSensorChannel, SensorSlot, ValveId};
use vstd::prelude::*;

verus! {

/// Two fitted valves collide exactly if an output of the one is an output of the other.
pub proof fn valves_collide_on_a_common_output(a: ValveConfig, b: ValveConfig)
    ensures
        valves_collide(a, b) <==> {
            &&& a.kind != ValveKind::Unfitted && a.signal_hco is Some
            &&& b.kind != ValveKind::Unfitted && b.signal_hco is Some
            &&& {
                ||| a.signal_hco == b.signal_hco
                ||| a.signal_hco == b.power_hco
                ||| a.power_hco == b.signal_hco
                ||| a.power_hco is Some && a.power_hco == b.power_hco
            }
        },
{
    if a.mapped() && b.mapped() {
        let hco = a.signal_hco->0;
        if b.signal_hco == Some(hco) || b.power_hco == Some(hco) {
            assert(a.drives(hco) && b.drives(hco));
        }
        if let Some(power) = a.power_hco {
            if b.signal_hco == Some(power) || b.power_hco == Some(power) {
                assert(a.drives(power) && b.drives(power));
            }
        }
    }
}

/// A pad collides with a fitted valve exactly if it switches the valve's signal or its power.
pub proof fn a_pad_collides_with_a_valve_on_its_outputs(h: ValveHeatingConfig, v: ValveConfig)
    ensures
        pad_hits_valve(h, v) <==> {
            &&& v.kind != ValveKind::Unfitted
            &&& v.signal_hco matches Some(signal) && {
                ||| h.hco == Some(signal)
                ||| h.also.has(signal)
                ||| v.power_hco matches Some(power) && (h.hco == Some(power) || h.also.has(power))
            }
        },
{
    if v.mapped() {
        let signal = v.signal_hco->0;
        if h.hco == Some(signal) || h.also.has(signal) {
            assert(v.drives(signal) && h.heats_through(signal));
        }
        if let Some(power) = v.power_hco {
            if h.hco == Some(power) || h.also.has(power) {
                assert(v.drives(power) && h.heats_through(power));
            }
        }
    }
}

/// A pad collides with another fitted one exactly if both switch one output.
pub proof fn pads_collide_on_a_common_output(h: ValveHeatingConfig, g: ValveHeatingConfig, hco: HcoId)
    ensures
        g.hco is Some && g.sensor is Some && (g.hco == Some(hco) || g.also.has(hco)) && (h.hco
            == Some(hco) || h.also.has(hco)) ==> pads_collide(h, g),
        pads_collide(h, g) ==> g.hco is Some && g.sensor is Some && exists|common: HcoId|
            #[trigger] common.position() < 4 && (g.hco == Some(common) || g.also.has(common)) && (h.hco
                == Some(common) || h.also.has(common)),
{
    if g.fitted() && g.heats_through(hco) && h.heats_through(hco) {
        assert(pads_collide(h, g));
    }
    if pads_collide(h, g) {
        let common = choose|hco: HcoId| g.heats_through(hco) && h.heats_through(hco);
        common.position_in_range();
        assert(common.position() < 4 && (g.hco == Some(common) || g.also.has(common)) && (h.hco == Some(common)
            || h.also.has(common)));
    }
}

/// A fault names what is wrong: what it says of the configuration is so.
#[verifier::spinoff_prover]
pub proof fn a_fault_names_what_is_wrong(cfg: Config)
    ensures
        match cfg.fault() {
            None => true,
            Some(ConfigError::NodeIdOutOfRange) => cfg.master_node_id > 15,
            Some(ConfigError::FallbackOrder) => cfg.fallback_b_ms <= cfg.fallback_a_ms,
            Some(ConfigError::ClampInverted(id)) => {
                let v = cfg.valves.at(id);
                v.kind != ValveKind::Unfitted && v.signal_hco is Some && v.min_promille
                    > v.max_promille
            },
            Some(ConfigError::ZeroTravelTime(id)) => {
                let v = cfg.valves.at(id);
                v.kind == ValveKind::Servo && v.signal_hco is Some && v.travel_ms == 0
            },
            Some(ConfigError::PositionSensorUnmapped(id, slot)) => {
                let v = cfg.valves.at(id);
                v.kind != ValveKind::Unfitted && v.signal_hco is Some && v.position_sensor == Some(
                    slot,
                ) && cfg.sensors.at(slot).kind == SensorKind::Unused
            },
            Some(ConfigError::PositionSensorUnit(id, slot)) => {
                let v = cfg.valves.at(id);
                v.kind != ValveKind::Unfitted && v.signal_hco is Some && v.position_sensor == Some(
                    slot,
                ) && cfg.sensors.at(slot).unit != Unit::Promille
            },
            Some(ConfigError::OutputShared(a, b)) => a.position() < b.position() && {
                let (v, w) = (cfg.valves.at(a), cfg.valves.at(b));
                &&& v.kind != ValveKind::Unfitted && v.signal_hco is Some
                &&& w.kind != ValveKind::Unfitted && w.signal_hco is Some
                &&& {
                    ||| v.signal_hco == w.signal_hco
                    ||| v.signal_hco == w.power_hco
                    ||| v.power_hco == w.signal_hco
                    ||| v.power_hco is Some && v.power_hco == w.power_hco
                }
            },
            Some(ConfigError::HeatingUnfitted(id)) => {
                let h = cfg.heating.at(id);
                h.enabled && (h.hco is None || h.sensor is None)
            },
            Some(ConfigError::HeatingSensorUnmapped(id, slot)) => {
                let h = cfg.heating.at(id);
                h.hco is Some && h.sensor == Some(slot) && cfg.sensors.at(slot).kind
                    == SensorKind::Unused
            },
            Some(ConfigError::HeatingSensorUnit(id, slot)) => {
                let h = cfg.heating.at(id);
                h.hco is Some && h.sensor == Some(slot) && cfg.sensors.at(slot).unit
                    != Unit::CentiCelsius
            },
            Some(ConfigError::HeatingOutputShared(pad, valve)) => {
                let (h, v) = (cfg.heating.at(pad), cfg.valves.at(valve));
                &&& h.hco is Some && h.sensor is Some && v.kind != ValveKind::Unfitted
                &&& v.signal_hco matches Some(signal) && {
                    ||| h.hco == Some(signal)
                    ||| h.also.has(signal)
                    ||| v.power_hco matches Some(power) && (h.hco == Some(power) || h.also.has(power))
                }
            },
            Some(ConfigError::HeatingOutputSharedWithHeater(a, b)) => a.position() < b.position()
                && {
                let (h, g) = (cfg.heating.at(a), cfg.heating.at(b));
                &&& h.hco is Some && h.sensor is Some && g.hco is Some && g.sensor is Some
                &&& exists|common: HcoId|
                    #[trigger] common.position() < 4 && (g.hco == Some(common) || g.also.has(common)) && (
                    h.hco == Some(common) || h.also.has(common))
            },
            Some(ConfigError::SensorBusUnset(slot)) => {
                let s = cfg.sensors.at(slot);
                &&& s.bus is None
                &&& s.kind == SensorKind::Pressure || s.kind == SensorKind::Pt1000 || s.kind
                    == SensorKind::Mcp9700 || s.kind == SensorKind::Angle
            },
            Some(ConfigError::PdoChannelShared(a, b)) => a.position() < b.position() && cfg.sensors.at(
                a,
            ).kind != SensorKind::Unused && cfg.sensors.at(a).pdo_channel is Some && cfg.sensors.at(
                a,
            ).pdo_channel == cfg.sensors.at(b).pdo_channel,
            Some(ConfigError::ReliefValveUnmapped(id)) => cfg.relief.enabled && cfg.relief.valve
                == Some(id) && (cfg.valves.at(id).kind == ValveKind::Unfitted || cfg.valves.at(
                id,
            ).signal_hco is None),
            Some(ConfigError::ReliefSensorUnmapped(slot)) => cfg.relief.enabled
                && cfg.relief.valve is Some && cfg.relief.sensor == slot && cfg.sensors.at(slot).kind
                == SensorKind::Unused,
            Some(ConfigError::ReliefPulseZero) => cfg.relief.enabled && cfg.relief.valve is Some
                && cfg.relief.pulse_ms == 0,
        },
{
    let valve = |i: int| cfg.valve_fault(i);
    let heating = |i: int| cfg.heating_fault(i);
    let sensor = |i: int| cfg.sensor_fault(i);
    the_first_fault_is_someones(valve, 0, 4);
    the_first_fault_is_someones(heating, 0, 4);
    the_first_fault_is_someones(sensor, 0, 8);
    if cfg.master_node_id <= 15 && cfg.fallback_b_ms > cfg.fallback_a_ms {
        if first_fault(valve, 0, 4) is Some {
            let i = choose|i: int| 0 <= i < 4 && #[trigger] valve(i) == first_fault(valve, 0, 4);
            a_valve_fault_is_so(cfg, i);
        } else if first_fault(heating, 0, 4) is Some {
            let i = choose|i: int|
                0 <= i < 4 && #[trigger] heating(i) == first_fault(heating, 0, 4);
            a_heating_fault_is_so(cfg, i);
        } else if first_fault(sensor, 0, 8) is Some {
            let i = choose|i: int| 0 <= i < 8 && #[trigger] sensor(i) == first_fault(sensor, 0, 8);
            a_sensor_fault_is_so(cfg, i);
        }
    }
}

proof fn the_first_fault_is_someones(f: spec_fn(int) -> Option<ConfigError>, from: int, to: int)
    ensures
        first_fault(f, from, to) is Some ==> exists|i: int|
            from <= i < to && #[trigger] f(i) == first_fault(f, from, to),
    decreases to - from,
{
    if from < to {
        if f(from) is Some {
            assert(f(from) == first_fault(f, from, to));
        } else {
            the_first_fault_is_someones(f, from + 1, to);
        }
    }
}

proof fn a_valve_fault_is_so(cfg: Config, i: int)
    requires
        0 <= i < 4,
        cfg.valve_fault(i) is Some,
    ensures
        ({
            let id = ValveId::nth(i);
            let v = cfg.valves@[i];
            &&& id.position() == i
            &&& v.kind != ValveKind::Unfitted && v.signal_hco is Some
            &&& match cfg.valve_fault(i)->0 {
                ConfigError::ClampInverted(at) => at == id && v.min_promille > v.max_promille,
                ConfigError::ZeroTravelTime(at) => at == id && v.kind == ValveKind::Servo
                    && v.travel_ms == 0,
                ConfigError::PositionSensorUnmapped(at, slot) => at == id && v.position_sensor
                    == Some(slot) && cfg.sensors.at(slot).kind == SensorKind::Unused,
                ConfigError::PositionSensorUnit(at, slot) => at == id && v.position_sensor == Some(
                    slot,
                ) && cfg.sensors.at(slot).unit != Unit::Promille,
                ConfigError::OutputShared(at, other) => at == id && i < other.position() && {
                    let w = cfg.valves.at(other);
                    &&& w.kind != ValveKind::Unfitted && w.signal_hco is Some
                    &&& {
                        ||| v.signal_hco == w.signal_hco
                        ||| v.signal_hco == w.power_hco
                        ||| v.power_hco == w.signal_hco
                        ||| v.power_hco is Some && v.power_hco == w.power_hco
                    }
                },
                _ => false,
            }
        }),
{
    ValveId::position_inverts_nth(i);
    let v = cfg.valves@[i];
    let p = |j: int| valves_collide(v, cfg.valves@[j]);
    first_index_is_first(p, i + 1, 4);
    if let Some(j) = first_index(p, i + 1, 4) {
        assert(p(j));
        ValveId::position_inverts_nth(j);
        valves_collide_on_a_common_output(v, cfg.valves@[j]);
    }
}

proof fn a_heating_fault_is_so(cfg: Config, i: int)
    requires
        0 <= i < 4,
        cfg.heating_fault(i) is Some,
    ensures
        ({
            let id = ValveId::nth(i);
            let h = cfg.heating@[i];
            &&& id.position() == i
            &&& match cfg.heating_fault(i)->0 {
                ConfigError::HeatingUnfitted(at) => at == id && h.enabled && (h.hco is None
                    || h.sensor is None),
                ConfigError::HeatingSensorUnmapped(at, slot) => at == id && h.hco is Some && h.sensor
                    == Some(slot) && cfg.sensors.at(slot).kind == SensorKind::Unused,
                ConfigError::HeatingSensorUnit(at, slot) => at == id && h.hco is Some && h.sensor
                    == Some(slot) && cfg.sensors.at(slot).unit != Unit::CentiCelsius,
                ConfigError::HeatingOutputShared(at, other) => at == id && {
                    let v = cfg.valves.at(other);
                    &&& h.hco is Some && h.sensor is Some && v.kind != ValveKind::Unfitted
                    &&& v.signal_hco matches Some(signal) && {
                        ||| h.hco == Some(signal)
                        ||| h.also.has(signal)
                        ||| v.power_hco matches Some(power) && (h.hco == Some(power)
                            || h.also.has(power))
                    }
                },
                ConfigError::HeatingOutputSharedWithHeater(at, other) => at == id && i
                    < other.position() && {
                    let g = cfg.heating.at(other);
                    &&& h.hco is Some && h.sensor is Some && g.hco is Some && g.sensor is Some
                    &&& exists|common: HcoId|
                        #[trigger] common.position() < 4 && (g.hco == Some(common) || g.also.has(common)) && (
                        h.hco == Some(common) || h.also.has(common))
                },
                _ => false,
            }
        }),
{
    ValveId::position_inverts_nth(i);
    let h = cfg.heating@[i];
    let hits = |j: int| pad_hits_valve(h, cfg.valves@[j]);
    let meets = |j: int| pads_collide(h, cfg.heating@[j]);
    first_index_is_first(hits, 0, 4);
    first_index_is_first(meets, i + 1, 4);
    if let Some(j) = first_index(hits, 0, 4) {
        assert(hits(j));
        ValveId::position_inverts_nth(j);
        a_pad_collides_with_a_valve_on_its_outputs(h, cfg.valves@[j]);
    }
    if let Some(j) = first_index(meets, i + 1, 4) {
        assert(meets(j));
        ValveId::position_inverts_nth(j);
        pads_collide_on_a_common_output(h, cfg.heating@[j], HcoId::Hco0);
    }
}

proof fn a_sensor_fault_is_so(cfg: Config, i: int)
    requires
        0 <= i < 8,
        cfg.sensor_fault(i) is Some,
    ensures
        ({
            let id = SensorSlot::nth(i);
            let s = cfg.sensors@[i];
            &&& id.position() == i
            &&& match cfg.sensor_fault(i)->0 {
                ConfigError::SensorBusUnset(at) => at == id && s.bus is None && (s.kind
                    == SensorKind::Pressure || s.kind == SensorKind::Pt1000 || s.kind
                    == SensorKind::Mcp9700 || s.kind == SensorKind::Angle),
                ConfigError::PdoChannelShared(at, other) => at == id && i < other.position()
                    && s.kind != SensorKind::Unused && s.pdo_channel is Some && s.pdo_channel
                    == cfg.sensors.at(other).pdo_channel,
                _ => false,
            }
        }),
{
    SensorSlot::position_inverts_nth(i);
    let s = cfg.sensors@[i];
    let p = |j: int| crate::config::channels_collide(s, cfg.sensors@[j]);
    first_index_is_first(p, i + 1, 8);
    if let Some(j) = first_index(p, i + 1, 8) {
        assert(p(j));
        SensorSlot::position_inverts_nth(j);
    }
}

/// The node-wide settings are looked at first: the master's address, then the order of the timeouts.
pub proof fn node_wide_faults_come_first(cfg: Config)
    ensures
        cfg.master_node_id > 15 ==> cfg.fault() == Some(ConfigError::NodeIdOutOfRange),
        cfg.master_node_id <= 15 && cfg.fallback_b_ms <= cfg.fallback_a_ms ==> cfg.fault() == Some(
            ConfigError::FallbackOrder,
        ),
{
}

/// A configuration without a fault lets no valve be driven out of order: every fitted valve has a
/// range, a servo can travel, a position sensor is fitted and reports promille, and no two fitted
/// valves share an output.
pub proof fn accepted_valves_are_in_order(cfg: Config, a: ValveId, b: ValveId)
    requires
        cfg.fault() is None,
        cfg.valves.at(a).kind != ValveKind::Unfitted,
        cfg.valves.at(a).signal_hco is Some,
    ensures
        cfg.master_node_id <= 15,
        cfg.fallback_a_ms < cfg.fallback_b_ms,
        ({
            let (v, w) = (cfg.valves.at(a), cfg.valves.at(b));
            &&& v.min_promille <= v.max_promille
            &&& v.kind == ValveKind::Servo ==> v.travel_ms > 0
            &&& v.position_sensor matches Some(slot) ==> cfg.sensors.at(slot).kind
                != SensorKind::Unused && cfg.sensors.at(slot).unit == Unit::Promille
            &&& a != b && w.kind != ValveKind::Unfitted && w.signal_hco is Some ==> {
                &&& v.signal_hco != w.signal_hco
                &&& v.signal_hco != w.power_hco
                &&& v.power_hco != w.signal_hco
                &&& v.power_hco is Some ==> v.power_hco != w.power_hco
            }
        }),
{
    cfg.a_config_without_fault_is_sane();
    a.position_in_range();
    b.position_in_range();
    a.nth_inverts_position();
    b.nth_inverts_position();
    let (i, j) = (a.position(), b.position());
    assert(cfg.valve_is_sane(cfg.valves@[i]));
    valves_collide_on_a_common_output(cfg.valves@[i], cfg.valves@[j]);
    valves_collide_on_a_common_output(cfg.valves@[j], cfg.valves@[i]);
    if i < j {
        assert(!valves_collide(cfg.valves@[i], cfg.valves@[j]));
    } else if j < i {
        assert(!valves_collide(cfg.valves@[j], cfg.valves@[i]));
    }
}

/// A configuration without a fault lets no pad heat blindly or against anything else: a pad that is
/// switched on has an output and a sensor, its sensor reports a temperature, and neither a fitted
/// valve nor another fitted pad is on any of its outputs.
pub proof fn accepted_pads_are_in_order(cfg: Config, a: ValveId, b: ValveId, hco: HcoId)
    requires
        cfg.fault() is None,
    ensures
        ({
            let (h, g, w) = (cfg.heating.at(a), cfg.heating.at(b), cfg.valves.at(b));
            let fitted = h.hco is Some && h.sensor is Some;
            &&& h.enabled ==> fitted
            &&& fitted ==> cfg.sensors.at(h.sensor->0).kind != SensorKind::Unused && cfg.sensors.at(
                h.sensor->0,
            ).unit == Unit::CentiCelsius
            &&& fitted && (h.hco == Some(hco) || h.also.has(hco)) && w.kind != ValveKind::Unfitted
                && w.signal_hco is Some ==> w.signal_hco != Some(hco) && w.power_hco != Some(hco)
            &&& a != b && fitted && (h.hco == Some(hco) || h.also.has(hco)) && g.hco is Some
                && g.sensor is Some ==> g.hco != Some(hco) && !g.also.has(hco)
        }),
{
    cfg.a_config_without_fault_is_sane();
    a.position_in_range();
    b.position_in_range();
    a.nth_inverts_position();
    b.nth_inverts_position();
    let (i, j) = (a.position(), b.position());
    let (h, g, w) = (cfg.heating@[i], cfg.heating@[j], cfg.valves@[j]);
    assert(cfg.pad_is_sane(h));
    a_pad_collides_with_a_valve_on_its_outputs(h, w);
    if h.fitted() {
        assert(!pad_hits_valve(h, cfg.valves@[j]));
    }
    pads_collide_on_a_common_output(h, g, hco);
    pads_collide_on_a_common_output(g, h, hco);
    if i < j && h.fitted() {
        assert(!pads_collide(cfg.heating@[i], cfg.heating@[j]));
    } else if j < i && g.fitted() {
        assert(!pads_collide(cfg.heating@[j], cfg.heating@[i]));
    }
}

/// A configuration without a fault can be read and watched: every sensor on a bus has one, no two
/// slots claim a channel of which the first is in use, and an armed relief loop has a fitted valve, a
/// sensor in use and a pulse.
pub proof fn accepted_sensors_are_in_order(cfg: Config, a: SensorSlot, b: SensorSlot)
    requires
        cfg.fault() is None,
    ensures
        ({
            let (s, t) = (cfg.sensors.at(a), cfg.sensors.at(b));
            &&& s.kind == SensorKind::Pressure || s.kind == SensorKind::Pt1000 || s.kind
                == SensorKind::Mcp9700 || s.kind == SensorKind::Angle ==> s.bus is Some
            &&& a.position() < b.position() && s.kind != SensorKind::Unused
                && s.pdo_channel is Some ==> s.pdo_channel != t.pdo_channel
        }),
        cfg.relief.enabled ==> (cfg.relief.valve matches Some(valve) ==> {
            &&& cfg.valves.at(valve).kind != ValveKind::Unfitted
            &&& cfg.valves.at(valve).signal_hco is Some
            &&& cfg.sensors.at(cfg.relief.sensor).kind != SensorKind::Unused
            &&& cfg.relief.pulse_ms > 0
        }),
{
    cfg.a_config_without_fault_is_sane();
    a.position_in_range();
    b.position_in_range();
    let s = cfg.sensors@[a.position()];
    let t = cfg.sensors@[b.position()];
    assert(s.kind.on_i2c() ==> s.bus is Some);
    if a.position() < b.position() && s.kind != SensorKind::Unused {
        assert(!crate::config::channels_collide(s, t));
    }
}

/// An armed relief loop is warned about when its pulse is over before its servo can have travelled,
/// and when no reading can exceed its threshold; a loop that is not armed is warned about nothing.
pub proof fn a_relief_loop_is_warned_about(cfg: Config)
    ensures
        !(cfg.relief.enabled && cfg.relief.valve is Some) ==> cfg.warnings().len() == 0,
        cfg.relief.enabled ==> (cfg.relief.valve matches Some(valve) ==> {
            let v = cfg.valves.at(valve);
            let short = v.kind == ValveKind::Servo && cfg.relief.pulse_ms < v.travel_ms;
            let deaf = cfg.relief.threshold == 32767;
            &&& cfg.warnings().len() == (if short {
                1int
            } else {
                0
            }) + (if deaf {
                1int
            } else {
                0
            })
            &&& short ==> cfg.warnings()[0]
                == (ConfigWarning::ReliefPulseShorterThanTravel {
                pulse_ms: cfg.relief.pulse_ms,
                travel_ms: v.travel_ms,
            })
            &&& deaf ==> cfg.warnings().last() == ConfigWarning::ReliefThresholdUnreachable
        }),
{
}

/// A factory-fresh node listens to master 1, falls back after three seconds and again after five
/// minutes, drives nothing, heats nothing, reads nothing and vents nothing.
pub proof fn a_fresh_node_does_nothing(cfg: Config, valve: ValveId, slot: SensorSlot)
    requires
        cfg.is_new(),
    ensures
        cfg.master_node_id == 1,
        cfg.fallback_enabled,
        cfg.fallback_a_ms == 3_000,
        cfg.fallback_b_ms == 300_000,
        cfg.heartbeat_period_ms == 1_000,
        cfg.valves.at(valve).kind == ValveKind::Unfitted,
        cfg.valves.at(valve).signal_hco is None && cfg.valves.at(valve).power_hco is None,
        cfg.valves.at(valve).min_promille == 0 && cfg.valves.at(valve).max_promille == 1000,
        cfg.valves.at(valve).fallback_a.position == 0 && cfg.valves.at(valve).fallback_a.unpower,
        cfg.valves.at(valve).fallback_b.position == 1000 && cfg.valves.at(valve).fallback_b.unpower,
        !cfg.heating.at(valve).enabled,
        cfg.heating.at(valve).hco is None && cfg.heating.at(valve).sensor is None,
        cfg.heater_setpoint_centi_c == -32768,
        cfg.sensors.at(slot).kind == SensorKind::Unused,
        cfg.sensors.at(slot).bus is None && cfg.sensors.at(slot).pdo_channel is None,
        cfg.sensors.at(slot).calib.slope_nano == 0,
        cfg.sensor_interval_ms == 10,
        cfg.scan_interval_ms == 500,
        !cfg.relief.enabled && cfg.relief.valve is None && cfg.relief.threshold == 32767,
        cfg.relief.position == 1000 && cfg.relief.pulse_ms == 500 && cfg.relief.cooldown_ms == 500,
{
    valve.position_in_range();
    slot.position_in_range();
}

/// A valve is looked at in the order of its settings, and the valves in the order of their numbers: once
/// the node-wide settings and the valves before are in order, the first thing wrong with a valve is
/// what is told, its range before its travel, then its position sensor, then its outputs.
pub proof fn a_valves_first_fault_is_told(cfg: Config, id: ValveId, slot: SensorSlot)
    requires
        cfg.master_node_id <= 15,
        cfg.fallback_a_ms < cfg.fallback_b_ms,
        forall|i: int| 0 <= i < id.position() ==> (#[trigger] cfg.valve_fault(i)) is None,
        cfg.valves.at(id).kind != ValveKind::Unfitted,
        cfg.valves.at(id).signal_hco is Some,
    ensures
        ({
            let v = cfg.valves.at(id);
            let ranged = v.min_promille <= v.max_promille;
            let travels = v.kind != ValveKind::Servo || v.travel_ms > 0;
            let kind = cfg.sensors.at(slot).kind;
            let unit = cfg.sensors.at(slot).unit;
            &&& !ranged ==> cfg.fault() == Some(ConfigError::ClampInverted(id))
            &&& ranged && !travels ==> cfg.fault() == Some(ConfigError::ZeroTravelTime(id))
            &&& ranged && travels && v.position_sensor == Some(slot) && kind == SensorKind::Unused
                ==> cfg.fault() == Some(ConfigError::PositionSensorUnmapped(id, slot))
            &&& ranged && travels && v.position_sensor == Some(slot) && kind != SensorKind::Unused
                && unit != Unit::Promille ==> cfg.fault() == Some(
                ConfigError::PositionSensorUnit(id, slot),
            )
        }),
{
    id.position_in_range();
    id.nth_inverts_position();
    let f = |i: int| cfg.valve_fault(i);
    the_first_fault_is_the_first(f, 0, 4, id.position());
}

/// The pads are looked at once every valve is in order, the sensor slots once every pad is, and the
/// relief loop last.
pub proof fn faults_are_told_in_order(cfg: Config, id: ValveId, slot: SensorSlot)
    requires
        cfg.master_node_id <= 15,
        cfg.fallback_a_ms < cfg.fallback_b_ms,
        forall|i: int| 0 <= i < 4 ==> (#[trigger] cfg.valve_fault(i)) is None,
    ensures
        (forall|i: int| 0 <= i < id.position() ==> (#[trigger] cfg.heating_fault(i)) is None) ==> {
            let h = cfg.heating.at(id);
            let fitted = h.hco is Some && h.sensor is Some;
            &&& h.enabled && !fitted ==> cfg.fault() == Some(ConfigError::HeatingUnfitted(id))
            &&& h.hco is Some && h.sensor == Some(slot) && cfg.sensors.at(slot).kind
                == SensorKind::Unused ==> cfg.fault() == Some(
                ConfigError::HeatingSensorUnmapped(id, slot),
            )
            &&& h.hco is Some && h.sensor == Some(slot) && cfg.sensors.at(slot).kind
                != SensorKind::Unused && cfg.sensors.at(slot).unit != Unit::CentiCelsius
                ==> cfg.fault() == Some(ConfigError::HeatingSensorUnit(id, slot))
        },
        (forall|i: int| 0 <= i < 4 ==> (#[trigger] cfg.heating_fault(i)) is None) && (forall|i: int|
            0 <= i < slot.position() ==> (#[trigger] cfg.sensor_fault(i)) is None) ==> {
            let s = cfg.sensors.at(slot);
            (s.kind == SensorKind::Pressure || s.kind == SensorKind::Pt1000 || s.kind
                == SensorKind::Mcp9700 || s.kind == SensorKind::Angle) && s.bus is None
                ==> cfg.fault() == Some(ConfigError::SensorBusUnset(slot))
        },
        (forall|i: int| 0 <= i < 4 ==> (#[trigger] cfg.heating_fault(i)) is None) && (forall|i: int|
            0 <= i < 8 ==> (#[trigger] cfg.sensor_fault(i)) is None) && cfg.relief.enabled
            && cfg.relief.valve == Some(id) ==> {
            let fitted = cfg.valves.at(id).kind != ValveKind::Unfitted && cfg.valves.at(
                id,
            ).signal_hco is Some;
            let read = cfg.sensors.at(cfg.relief.sensor).kind != SensorKind::Unused;
            &&& !fitted ==> cfg.fault() == Some(ConfigError::ReliefValveUnmapped(id))
            &&& fitted && !read ==> cfg.fault() == Some(
                ConfigError::ReliefSensorUnmapped(cfg.relief.sensor),
            )
            &&& fitted && read && cfg.relief.pulse_ms == 0 ==> cfg.fault() == Some(
                ConfigError::ReliefPulseZero,
            )
        },
{
    id.position_in_range();
    id.nth_inverts_position();
    slot.position_in_range();
    slot.nth_inverts_position();
    let v = |i: int| cfg.valve_fault(i);
    let h = |i: int| cfg.heating_fault(i);
    let s = |i: int| cfg.sensor_fault(i);
    no_fault_means_none(v, 0, 4);
    if forall|i: int| 0 <= i < id.position() ==> (#[trigger] cfg.heating_fault(i)) is None {
        the_first_fault_is_the_first(h, 0, 4, id.position());
    }
    if forall|i: int| 0 <= i < 4 ==> (#[trigger] cfg.heating_fault(i)) is None {
        no_fault_means_none(h, 0, 4);
        if forall|i: int| 0 <= i < slot.position() ==> (#[trigger] cfg.sensor_fault(i)) is None {
            the_first_fault_is_the_first(s, 0, 8, slot.position());
        }
        if forall|i: int| 0 <= i < 8 ==> (#[trigger] cfg.sensor_fault(i)) is None {
            no_fault_means_none(s, 0, 8);
        }
    }
}

proof fn no_fault_means_none(f: spec_fn(int) -> Option<ConfigError>, from: int, to: int)
    requires
        forall|i: int| from <= i < to ==> (#[trigger] f(i)) is None,
    ensures
        first_fault(f, from, to) is None,
    decreases to - from,
{
    if from < to {
        no_fault_means_none(f, from + 1, to);
    }
}

proof fn the_first_fault_is_the_first(
    f: spec_fn(int) -> Option<ConfigError>,
    from: int,
    to: int,
    at: int,
)
    requires
        from <= at < to,
        forall|i: int| from <= i < at ==> (#[trigger] f(i)) is None,
    ensures
        f(at) is Some ==> first_fault(f, from, to) == f(at),
    decreases to - from,
{
    if from < at {
        the_first_fault_is_the_first(f, from + 1, to, at);
    }
}

/// A sensor that claims no channel is broadcast on that of its own slot, so that no two slots share one
/// by default; one that claims a channel keeps it. Nothing else of it changes.
pub proof fn a_slot_is_broadcast_on_its_own_channel(
    slot: SensorSlot,
    other: SensorSlot,
    config: SensorSlotConfig,
)
    ensures
        ({
            let fitted = Config::fitted_to(slot, config);
            &&& config.pdo_channel is None ==> (fitted.pdo_channel matches Some(channel)
                && channel.position() == slot.position())
            &&& config.pdo_channel is Some ==> fitted.pdo_channel == config.pdo_channel
            &&& fitted.kind == config.kind && fitted.bus == config.bus && fitted.amplifier
                == config.amplifier && fitted.analog == config.analog && fitted.unit == config.unit
                && fitted.calib == config.calib
            &&& config.pdo_channel is None && other != slot ==> fitted.pdo_channel
                != Config::fitted_to(other, config).pdo_channel
        }),
{
    slot.position_in_range();
    other.position_in_range();
    slot.nth_inverts_position();
    other.nth_inverts_position();
    PdoSensorChannel::position_inverts_nth(slot.position());
    PdoSensorChannel::position_inverts_nth(other.position());
}

} // verus!
