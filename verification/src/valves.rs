//! The valve model's vocabulary: what a valve asks of its outputs, and how it reports itself.
use vstd::prelude::*;

verus! {

/// Object 0x2013. The order of the variants is the wire encoding.
#[derive(Clone, Copy, PartialEq, Eq, Debug, Structural)]
pub enum ValveStatus {
    /// Nothing fitted on this slot.
    Unmapped,
    /// Released: nothing is holding the valve.
    Unpowered,
    /// On its way to its target.
    Moving,
    /// At its target, and held there.
    Holding,
    /// Drawing more than its stall current without arriving.
    Stalled,
}

/// What a valve asks of its outputs.
#[derive(Clone, Copy, PartialEq, Eq, Debug, Structural)]
pub enum ValveDrive {
    /// Nothing: both outputs off.
    Released,
    /// The coil on or off.
    Solenoid(bool),
    /// Power, and a pulse of this width.
    Servo { pulse_us: u16 },
    /// A position of the actuator on the step port; no output is involved.
    Stepper { promille: u16 },
}

} // verus!
