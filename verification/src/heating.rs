//! Valve heating: a bang-bang thermostat per valve, regulating on a sensor slot.
//!
//! A slot with no valid reading switches the pad off.
use crate::config::ValveHeatingConfig;
use crate::proto::od::SENSOR_INVALID;
use vstd::prelude::*;

verus! {

/// Object 0x2019. The order of the variants is the wire encoding.
#[derive(Clone, Copy, PartialEq, Eq, Debug, Structural)]
pub enum HeatingState {
    /// At or above the dead band: pad off, and nothing wrong.
    Idle,
    /// Below the dead band, or still climbing through it: pad on.
    Heating,
    /// Armed, but the watched slot has no valid reading. Pad off.
    SensorFault,
    /// No pad on this valve, or it is switched off.
    Disabled,
}

#[derive(Clone, Copy, PartialEq, Eq, Debug, Structural)]
pub struct Heating {
    state: HeatingState,
}

/// Where one reading leads: below the dead band the pad is on, above it the pad is off, inside it
/// the pad keeps doing what it was doing.
pub open spec fn heating_after(
    state: HeatingState,
    cfg: ValveHeatingConfig,
    reading: i16,
) -> HeatingState {
    if !cfg.armed() {
        HeatingState::Disabled
    } else if reading == SENSOR_INVALID {
        HeatingState::SensorFault
    } else if reading < cfg.setpoint - cfg.hysteresis {
        HeatingState::Heating
    } else if reading <= cfg.setpoint + cfg.hysteresis && state == HeatingState::Heating {
        HeatingState::Heating
    } else {
        HeatingState::Idle
    }
}

impl Heating {
    pub closed spec fn phase(self) -> HeatingState {
        self.state
    }

    pub fn new() -> (r: Self)
        ensures
            r.phase() == HeatingState::Disabled,
    {
        Self { state: HeatingState::Disabled }
    }

    pub fn state(&self) -> (r: HeatingState)
        ensures
            r == self.phase(),
    {
        self.state
    }

    /// Advances one tick and returns whether the pad should be on.
    ///
    /// `reading` is the current value of the configured sensor slot, in that slot's own unit.
    pub fn update(&mut self, cfg: &ValveHeatingConfig, reading: i16) -> (r: bool)
        ensures
            final(self).phase() == heating_after(old(self).phase(), *cfg, reading),
            r == (final(self).phase() == HeatingState::Heating),
    {
        let next = self.decide(cfg, reading);
        self.state = next;
        next == HeatingState::Heating
    }

    fn decide(&self, cfg: &ValveHeatingConfig, reading: i16) -> (r: HeatingState)
        ensures
            r == heating_after(self.phase(), *cfg, reading),
    {
        if !cfg.is_armed() {
            return HeatingState::Disabled;
        }
        if reading == SENSOR_INVALID {
            return HeatingState::SensorFault;
        }
        let reading: i32 = reading as i32;
        let setpoint: i32 = cfg.setpoint as i32;
        let band: i32 = cfg.hysteresis as i32;
        if reading < setpoint - band {
            HeatingState::Heating
        } else if reading > setpoint + band {
            HeatingState::Idle
        } else {
            match self.state {
                HeatingState::Heating => HeatingState::Heating,
                _ => HeatingState::Idle,
            }
        }
    }
}

impl Default for Heating {
    fn default() -> (r: Self)
        ensures
            r.phase() == HeatingState::Disabled,
    {
        Self::new()
    }
}

/// No reading means no heat, whatever the pad was doing.
pub proof fn no_reading_means_no_heat(state: HeatingState, cfg: ValveHeatingConfig)
    ensures
        heating_after(state, cfg, SENSOR_INVALID) != HeatingState::Heating,
{
}

/// A pad that is not fitted, or is switched off, never heats.
pub proof fn an_unarmed_pad_never_heats(state: HeatingState, cfg: ValveHeatingConfig, reading: i16)
    requires
        !cfg.armed(),
    ensures
        heating_after(state, cfg, reading) == HeatingState::Disabled,
{
}

/// Inside the dead band the pad keeps doing what it was doing.
pub proof fn the_dead_band_holds(state: HeatingState, cfg: ValveHeatingConfig, reading: i16)
    requires
        cfg.armed(),
        reading != SENSOR_INVALID,
        cfg.setpoint - cfg.hysteresis <= reading <= cfg.setpoint + cfg.hysteresis,
    ensures
        (heating_after(state, cfg, reading) == HeatingState::Heating) == (state
            == HeatingState::Heating),
{
}

/// Above the dead band the pad is off, below it the pad is on, whatever it was doing.
pub proof fn outside_the_dead_band_the_reading_decides(
    state: HeatingState,
    cfg: ValveHeatingConfig,
    reading: i16,
)
    requires
        cfg.armed(),
        reading != SENSOR_INVALID,
    ensures
        reading > cfg.setpoint + cfg.hysteresis ==> heating_after(state, cfg, reading)
            == HeatingState::Idle,
        reading < cfg.setpoint - cfg.hysteresis ==> heating_after(state, cfg, reading)
            == HeatingState::Heating,
{
}

/// A pad that is armed by its switch, its sensor and its outputs heats exactly below the dead band,
/// or inside it if it was heating, and is otherwise idle; without a reading it is at fault.
pub proof fn an_armed_pad_goes_by_the_reading(
    state: HeatingState,
    cfg: ValveHeatingConfig,
    reading: i16,
)
    requires
        cfg.enabled,
        cfg.hco is Some,
        cfg.sensor is Some,
    ensures
        reading == SENSOR_INVALID ==> heating_after(state, cfg, reading)
            == HeatingState::SensorFault,
        reading != SENSOR_INVALID && state == HeatingState::Heating ==> heating_after(
            state,
            cfg,
            reading,
        ) == if reading <= cfg.setpoint + cfg.hysteresis {
            HeatingState::Heating
        } else {
            HeatingState::Idle
        },
        reading != SENSOR_INVALID && state != HeatingState::Heating ==> heating_after(
            state,
            cfg,
            reading,
        ) == if reading < cfg.setpoint - cfg.hysteresis {
            HeatingState::Heating
        } else {
            HeatingState::Idle
        },
{
}

/// A pad is switched off exactly when its switch is off or it lacks an output or a sensor, whatever
/// is read.
pub proof fn only_an_unarmed_pad_is_switched_off(
    state: HeatingState,
    cfg: ValveHeatingConfig,
    reading: i16,
)
    ensures
        heating_after(state, cfg, reading) == HeatingState::Disabled <==> !(cfg.enabled
            && cfg.hco is Some && cfg.sensor is Some),
{
}

} // verus!
