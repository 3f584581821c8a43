//! Configuration for the local overpressure relief loop.
use crate::index::{SensorSlot, ValveId};
use crate::proto::valve::PROMILLE_MAX;
use vstd::prelude::*;

verus! {

/// At most one loop per node. See [`crate::relief`] for the state machine.
#[derive(Clone, Copy, PartialEq, Eq, Debug, Structural)]
pub struct ReliefConfig {
    pub enabled: bool,
    /// Valve to open. `None` disables the loop regardless of `enabled`.
    pub valve: Option<ValveId>,
    /// The sensor slot to watch.
    pub sensor: SensorSlot,
    /// Open when the reading goes strictly above this, in that slot's own unit.
    pub threshold: i16,
    /// How far to open while relieving, promille.
    pub position: u16,
    pub pulse_ms: u16,
    /// Settling time after a pulse before the threshold is looked at again.
    pub cooldown_ms: u16,
}

impl ReliefConfig {
    /// Off, with a threshold that no reading exceeds.
    pub open spec fn spec_disabled() -> Self {
        ReliefConfig {
            enabled: false,
            valve: None,
            sensor: SensorSlot::Slot0,
            threshold: 32767,
            position: PROMILLE_MAX,
            pulse_ms: 500,
            cooldown_ms: 500,
        }
    }

    /// Enabled, with a valve to open.
    pub open spec fn armed(self) -> bool {
        self.enabled && self.valve is Some
    }

    /// Off, and with a threshold that cannot be exceeded, so that an unconfigured node never
    /// vents because some unrelated slot reads high.
    pub fn disabled() -> (r: Self)
        ensures
            r == Self::spec_disabled(),
    {
        Self {
            enabled: false,
            valve: None,
            sensor: SensorSlot::Slot0,
            threshold: i16::MAX,
            position: PROMILLE_MAX,
            pulse_ms: 500,
            cooldown_ms: 500,
        }
    }

    /// Watches `sensor` and pulses `valve` open when it goes above `threshold`.
    pub fn new(valve: ValveId, sensor: SensorSlot, threshold: i16) -> (r: Self)
        ensures
            r == (ReliefConfig {
                enabled: true,
                valve: Some(valve),
                sensor,
                threshold,
                ..Self::spec_disabled()
            }),
    {
        Self { enabled: true, valve: Some(valve), sensor, threshold, ..Self::disabled() }
    }

    pub fn with_pulse_ms(self, pulse_ms: u16) -> (r: Self)
        ensures
            r == (ReliefConfig { pulse_ms, ..self }),
    {
        Self { pulse_ms, ..self }
    }

    pub fn with_cooldown_ms(self, cooldown_ms: u16) -> (r: Self)
        ensures
            r == (ReliefConfig { cooldown_ms, ..self }),
    {
        Self { cooldown_ms, ..self }
    }

    pub fn is_armed(&self) -> (r: bool)
        ensures
            r == self.armed(),
    {
        self.enabled && self.valve.is_some()
    }
}

} // verus!
