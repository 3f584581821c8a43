//! The four outputs under their silkscreen numbers, and what their driver has to do for a state.
//!
//! Outputs 1 and 2 are plain pins whose pulses are made by a timer interrupt; outputs 3 and 4 are
//! channels of a PWM timer.
use crate::board::pwm::{channel_drive, drive_of, ChannelDrive};
use crate::hco::{a_pulse_width_is_its_micros, servo_safe, Level, PwmMicros, State};
use vstd::prelude::*;

verus! {

/// Identifies one of the four outputs by its silkscreen number.
#[derive(Clone, Copy, PartialEq, Eq, Hash, Debug, Structural)]
pub enum HighCurrentOutput {
    _1,
    _2,
    _3,
    _4,
}

/// State of all four outputs.
#[derive(Clone, Copy, PartialEq, Eq, Hash, Debug, Structural)]
pub struct HcoState {
    pub _1: State,
    pub _2: State,
    pub _3: State,
    pub _4: State,
}

impl HcoState {
    /// The state of one output.
    pub open spec fn of(self, output: HighCurrentOutput) -> State {
        match output {
            HighCurrentOutput::_1 => self._1,
            HighCurrentOutput::_2 => self._2,
            HighCurrentOutput::_3 => self._3,
            HighCurrentOutput::_4 => self._4,
        }
    }

    /// These states, with one output's replaced.
    pub open spec fn with(self, output: HighCurrentOutput, state: State) -> Self {
        match output {
            HighCurrentOutput::_1 => HcoState { _1: state, ..self },
            HighCurrentOutput::_2 => HcoState { _2: state, ..self },
            HighCurrentOutput::_3 => HcoState { _3: state, ..self },
            HighCurrentOutput::_4 => HcoState { _4: state, ..self },
        }
    }

    fn put(&mut self, output: HighCurrentOutput, state: State)
        ensures
            *final(self) == old(self).with(output, state),
    {
        match output {
            HighCurrentOutput::_1 => self._1 = state,
            HighCurrentOutput::_2 => self._2 = state,
            HighCurrentOutput::_3 => self._3 = state,
            HighCurrentOutput::_4 => self._4 = state,
        }
    }

    pub fn set_high(&mut self, output: HighCurrentOutput)
        ensures
            *final(self) == old(self).with(output, State::Digital(Level::High)),
    {
        self.put(output, State::Digital(Level::High));
    }

    pub fn set_low(&mut self, output: HighCurrentOutput)
        ensures
            *final(self) == old(self).with(output, State::Digital(Level::Low)),
    {
        self.put(output, State::Digital(Level::Low));
    }

    pub fn set_level(&mut self, output: HighCurrentOutput, level: Level)
        ensures
            *final(self) == old(self).with(output, State::Digital(level)),
    {
        self.put(output, State::Digital(level));
    }

    /// Sets a pulse width, brought into the servo-safe range.
    pub fn set_pwm_micros(&mut self, output: HighCurrentOutput, micros: u16)
        ensures
            *final(self) == old(self).with(output, State::Pwm(PwmMicros::of(servo_safe(micros)))),
    {
        self.put(output, State::Pwm(PwmMicros::from_u16_clamped(micros)));
    }

    pub fn get_state_0_indexed(&self, index: usize) -> (r: Option<&State>)
        ensures
            r is Some <==> index < 4,
            index == 0 ==> r == Some(&self._1),
            index == 1 ==> r == Some(&self._2),
            index == 2 ==> r == Some(&self._3),
            index == 3 ==> r == Some(&self._4),
    {
        match index {
            0 => Some(&self._1),
            1 => Some(&self._2),
            2 => Some(&self._3),
            3 => Some(&self._4),
            _ => None,
        }
    }
}

impl Default for HcoState {
    fn default() -> (r: Self)
        ensures
            forall|output: HighCurrentOutput| #[trigger]
                r.of(output) == State::Digital(Level::Low),
    {
        Self {
            _1: State::default(),
            _2: State::default(),
            _3: State::default(),
            _4: State::default(),
        }
    }
}

/// Setting one output leaves the other three as they were.
pub proof fn setting_one_output_keeps_the_others(
    before: HcoState,
    set: HighCurrentOutput,
    state: State,
    other: HighCurrentOutput,
)
    ensures
        before.with(set, state).of(other) == if other == set {
            state
        } else {
            before.of(other)
        },
{
}

/// What a pin whose pulses are made by interrupt is given: a level to hold, or a pulse width to
/// keep making.
#[derive(Clone, Copy, PartialEq, Eq, Debug, Structural)]
pub enum PinDrive {
    Hold(Level),
    Pulse(u16),
}

pub open spec fn pin_drive_of(state: State) -> PinDrive {
    match state {
        State::Digital(level) => PinDrive::Hold(level),
        State::Pwm(width) => PinDrive::Pulse(width.micros()),
    }
}

/// What the driver has to do to bring a state about.
#[derive(Clone, Copy, PartialEq, Eq, Debug, Structural)]
pub struct DrivePlan {
    pub out1: PinDrive,
    pub out2: PinDrive,
    pub out3: ChannelDrive,
    pub out4: ChannelDrive,
    /// Whether the pulse timer interrupts at the start of a period, and at the end of either pin's
    /// pulse.
    pub update_interrupt: bool,
    pub compare1_interrupt: bool,
    pub compare2_interrupt: bool,
}

/// A state with the pulse widths of outputs 3 and 4 brought into the servo-safe range.
pub open spec fn channel_safe(state: State) -> State {
    match state {
        State::Digital(level) => State::Digital(level),
        State::Pwm(width) => State::Pwm(PwmMicros::of(servo_safe(width.micros()))),
    }
}

/// The plan for a state: the timer interrupts for exactly the pins that it makes pulses for.
pub open spec fn plan_of(state: HcoState) -> DrivePlan {
    DrivePlan {
        out1: pin_drive_of(state._1),
        out2: pin_drive_of(state._2),
        out3: drive_of(channel_safe(state._3)),
        out4: drive_of(channel_safe(state._4)),
        update_interrupt: state._1 is Pwm || state._2 is Pwm,
        compare1_interrupt: state._1 is Pwm,
        compare2_interrupt: state._2 is Pwm,
    }
}

fn pin_drive(state: State) -> (r: PinDrive)
    ensures
        r == pin_drive_of(state),
{
    match state {
        State::Digital(level) => PinDrive::Hold(level),
        State::Pwm(width) => PinDrive::Pulse(width.as_u16()),
    }
}

fn safe_channel_drive(state: State) -> (r: ChannelDrive)
    ensures
        r == drive_of(channel_safe(state)),
{
    match state {
        State::Digital(level) => channel_drive(State::Digital(level)),
        State::Pwm(width) => channel_drive(State::Pwm(PwmMicros::from_u16_clamped(width.as_u16()))),
    }
}

/// Keeps the state of the four outputs, and says what the driver has to do when it changes.
pub struct HcoController {
    state: HcoState,
}

impl HcoController {
    pub closed spec fn shown(self) -> HcoState {
        self.state
    }

    pub fn new() -> (r: Self)
        ensures
            forall|output: HighCurrentOutput| #[trigger]
                r.shown().of(output) == State::Digital(Level::Low),
    {
        Self { state: HcoState::default() }
    }

    pub fn set_level(&mut self, output: HighCurrentOutput, level: Level) -> (r: DrivePlan)
        ensures
            final(self).shown() == old(self).shown().with(output, State::Digital(level)),
            r == plan_of(final(self).shown()),
    {
        let mut new_state = self.get_state();
        new_state.set_level(output, level);
        self.set_state(new_state)
    }

    pub fn set_pwm_micros(&mut self, output: HighCurrentOutput, micros: u16) -> (r: DrivePlan)
        ensures
            final(self).shown() == old(self).shown().with(
                output,
                State::Pwm(PwmMicros::of(servo_safe(micros))),
            ),
            r == plan_of(final(self).shown()),
    {
        let mut new_state = self.get_state();
        new_state.set_pwm_micros(output, micros);
        self.set_state(new_state)
    }

    pub fn get_state(&self) -> (r: HcoState)
        ensures
            r == self.shown(),
    {
        self.state
    }

    pub fn set_state(&mut self, target_state: HcoState) -> (r: DrivePlan)
        ensures
            final(self).shown() == target_state,
            r == plan_of(target_state),
    {
        self.state = target_state;
        let pulse1 = matches!(target_state._1, State::Pwm(_));
        let pulse2 = matches!(target_state._2, State::Pwm(_));
        DrivePlan {
            out1: pin_drive(target_state._1),
            out2: pin_drive(target_state._2),
            out3: safe_channel_drive(target_state._3),
            out4: safe_channel_drive(target_state._4),
            update_interrupt: pulse1 || pulse2,
            compare1_interrupt: pulse1,
            compare2_interrupt: pulse2,
        }
    }
}

impl Default for HcoController {
    fn default() -> (r: Self)
        ensures
            forall|output: HighCurrentOutput| #[trigger]
                r.shown().of(output) == State::Digital(Level::Low),
    {
        Self::new()
    }
}

/// The first two outputs are pins that hold their level or pulse at their width; the other two are
/// channels that are fully on, fully off, or on for half as many ten-thousandths as their width has
/// microseconds, once it is brought between 500 and 2500. The timer interrupts for pulsed pins alone.
pub proof fn a_plan_brings_the_state_about(state: HcoState)
    ensures
        ({
            let plan = plan_of(state);
            &&& match state._1 {
                State::Digital(level) => plan.out1 == PinDrive::Hold(level)
                    && !plan.compare1_interrupt,
                State::Pwm(width) => plan.out1 == PinDrive::Pulse(width.micros())
                    && plan.compare1_interrupt,
            }
            &&& match state._2 {
                State::Digital(level) => plan.out2 == PinDrive::Hold(level)
                    && !plan.compare2_interrupt,
                State::Pwm(width) => plan.out2 == PinDrive::Pulse(width.micros())
                    && plan.compare2_interrupt,
            }
            &&& plan.update_interrupt <==> plan.compare1_interrupt || plan.compare2_interrupt
            &&& a_channel_shows(plan.out3, state._3)
            &&& a_channel_shows(plan.out4, state._4)
        }),
{
    if let State::Pwm(width) = state._3 {
        a_pulse_width_is_its_micros(width, servo_safe(width.micros()));
    }
    if let State::Pwm(width) = state._4 {
        a_pulse_width_is_its_micros(width, servo_safe(width.micros()));
    }
}

/// Whether a channel does what a state asks for.
pub open spec fn a_channel_shows(drive: ChannelDrive, state: State) -> bool {
    match state {
        State::Digital(Level::High) => drive == ChannelDrive::FullyOn,
        State::Digital(Level::Low) => drive == ChannelDrive::FullyOff,
        State::Pwm(width) => drive matches ChannelDrive::Fraction { num } && {
            &&& width.micros() <= 500 ==> num == 250
            &&& width.micros() >= 2500 ==> num == 1250
            &&& 500 <= width.micros() <= 2500 ==> num * 2 <= width.micros() <= num * 2 + 1
        },
    }
}

/// Each output is where its number says.
pub proof fn each_output_has_its_own_state(state: HcoState)
    ensures
        state.of(HighCurrentOutput::_1) == state._1,
        state.of(HighCurrentOutput::_2) == state._2,
        state.of(HighCurrentOutput::_3) == state._3,
        state.of(HighCurrentOutput::_4) == state._4,
{
}

} // verus!
