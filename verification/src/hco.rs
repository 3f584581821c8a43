//! The states that the high current outputs can be put into.
use crate::index::{Id, Per, PerHco};
use core::ops::IndexMut;
use vstd::prelude::*;

pub use crate::index::HcoId;

verus! {

/// State of all four outputs.
pub type HcoState = PerHco<State>;

#[derive(Clone, Copy, PartialEq, Eq, Hash, Debug, Structural)]
pub enum Level {
    High,
    Low,
}

impl Level {
    pub fn as_u8(&self) -> (r: u8)
        ensures
            r == if *self == Level::High {
                1int
            } else {
                0
            },
    {
        match self {
            Level::High => 1,
            Level::Low => 0,
        }
    }
}

impl Default for Level {
    fn default() -> (r: Self)
        ensures
            r == Level::Low,
    {
        Level::Low
    }
}

impl vstd::std_specs::convert::FromSpecImpl<bool> for Level {
    open spec fn obeys_from_spec() -> bool {
        true
    }

    open spec fn from_spec(value: bool) -> Self {
        if value {
            Level::High
        } else {
            Level::Low
        }
    }
}

impl From<bool> for Level {
    fn from(value: bool) -> Self {
        match value {
            false => Level::Low,
            true => Level::High,
        }
    }
}

/// State of one output.
#[derive(Clone, Copy, PartialEq, Eq, Hash, Debug, Structural)]
pub enum State {
    Digital(Level),
    /// Pulse width in microseconds.
    Pwm(PwmMicros),
}

impl Default for State {
    fn default() -> (r: Self)
        ensures
            r == State::Digital(Level::Low),
    {
        Self::Digital(Level::default())
    }
}

/// A pulse width in microseconds.
#[derive(Clone, Copy, PartialEq, Eq, PartialOrd, Ord, Hash, Debug, Structural)]
pub struct PwmMicros(u16);

/// A pulse width brought into the range that is safe for a servo.
pub open spec fn servo_safe(micros: u16) -> u16 {
    if micros < 500 {
        500
    } else if micros > 2500 {
        2500
    } else {
        micros
    }
}

impl PwmMicros {
    pub closed spec fn micros(self) -> u16 {
        self.0
    }

    pub closed spec fn of(micros: u16) -> Self {
        PwmMicros(micros)
    }

    pub fn as_u16(&self) -> (r: u16)
        ensures
            r == self.micros(),
    {
        self.0
    }

    pub fn from_u16_clamped(value: u16) -> (r: Self)
        ensures
            r == Self::of(servo_safe(value)),
            r.micros() == servo_safe(value),
    {
        Self(
            if value < 500 {
                500
            } else if value > 2500 {
                2500
            } else {
                value
            },
        )
    }
}

impl Default for PwmMicros {
    fn default() -> (r: Self)
        ensures
            r.micros() == 0,
    {
        Self(0)
    }
}

impl vstd::std_specs::convert::FromSpecImpl<PwmMicros> for u16 {
    open spec fn obeys_from_spec() -> bool {
        true
    }

    open spec fn from_spec(value: PwmMicros) -> Self {
        value.micros()
    }
}

impl From<PwmMicros> for u16 {
    fn from(value: PwmMicros) -> Self {
        value.as_u16()
    }
}

impl vstd::std_specs::convert::TryFromSpecImpl<u16> for PwmMicros {
    open spec fn obeys_try_from_spec() -> bool {
        true
    }

    open spec fn try_from_spec(value: u16) -> Result<Self, ()> {
        if 500 <= value <= 2500 {
            Ok(PwmMicros::of(value))
        } else {
            Err(())
        }
    }
}

impl TryFrom<u16> for PwmMicros {
    type Error = ();

    fn try_from(value: u16) -> Result<Self, ()> {
        if 500 <= value && value <= 2500 {
            Ok(Self(value))
        } else {
            Err(())
        }
    }
}

/// A pulse width is its number of microseconds.
pub proof fn a_pulse_width_is_its_micros(width: PwmMicros, micros: u16)
    ensures
        PwmMicros::of(width.micros()) == width,
        PwmMicros::of(micros).micros() == micros,
{
}

/// The single seam that output states are written through. What an implementation shows is the
/// state that it was last given.
pub trait HcoControl {
    spec fn shown(&self) -> Seq<State>;

    fn get_state(&self) -> (r: HcoState)
        ensures
            r@ == self.shown(),
    ;

    fn set_state(&mut self, target_state: HcoState)
        ensures
            final(self).shown() == target_state@,
    ;

    /// Drives one output, leaving the rest as they are.
    fn set_level(&mut self, output: HcoId, level: Level)
        ensures
            final(self).shown() == old(self).shown().update(
                output.position(),
                State::Digital(level),
            ),
    {
        let mut state = self.get_state();
        *state.index_mut(output) = State::Digital(level);
        self.set_state(state);
    }

    /// Drives one output with a pulse, leaving the rest as they are.
    fn set_pwm_micros(&mut self, output: HcoId, micros: u16)
        ensures
            final(self).shown() == old(self).shown().update(
                output.position(),
                State::Pwm(PwmMicros::of(servo_safe(micros))),
            ),
    {
        let mut state = self.get_state();
        *state.index_mut(output) = State::Pwm(PwmMicros::from_u16_clamped(micros));
        self.set_state(state);
    }
}

/// The state last given to the outputs, for a driver to put into effect.
#[derive(Clone, Copy)]
pub struct HcoShadow {
    state: HcoState,
}

impl HcoShadow {
    /// Everything off.
    pub fn new() -> (r: Self)
        ensures
            r.shown() == Seq::new(4, |i: int| State::Digital(Level::Low)),
    {
        Self { state: Per::splat(State::Digital(Level::Low)) }
    }
}

impl HcoControl for HcoShadow {
    closed spec fn shown(&self) -> Seq<State> {
        self.state@
    }

    fn get_state(&self) -> HcoState {
        self.state
    }

    fn set_state(&mut self, target_state: HcoState) {
        self.state = target_state;
    }
}

/// A pulse width is brought into the range of a servo by the nearer end: never outside 500 to 2500
/// microseconds, unchanged inside, and never out of order.
pub proof fn a_servo_is_never_overdriven(a: u16, b: u16)
    ensures
        500 <= servo_safe(a) <= 2500,
        500 <= a <= 2500 ==> servo_safe(a) == a,
        a <= 500 ==> servo_safe(a) == 500,
        a >= 2500 ==> servo_safe(a) == 2500,
        a <= b ==> servo_safe(a) <= servo_safe(b),
        servo_safe(servo_safe(a)) == servo_safe(a),
{
}

/// On is high and off is low.
pub proof fn on_is_high()
    ensures
        <Level as vstd::std_specs::convert::FromSpec<bool>>::from_spec(true) == Level::High,
        <Level as vstd::std_specs::convert::FromSpec<bool>>::from_spec(false) == Level::Low,
{
}

} // verus!
