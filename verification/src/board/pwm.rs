//! Output states as duty cycles of a PWM channel, and as pulses made by a timer interrupt.
use crate::hco::{HcoState, Level, PwmMicros, State};
use crate::index::HcoId;
use vstd::prelude::*;

verus! {

/// The denominator of a duty cycle.
pub const DUTY_DENOM: u32 = 10_000;

/// What a PWM channel is set to.
#[derive(Clone, Copy, PartialEq, Eq, Debug, Structural)]
pub enum ChannelDrive {
    FullyOn,
    FullyOff,
    /// On for `num` parts in ten thousand of the period.
    Fraction { num: u32 },
}

/// What a channel is set to for a state. A pulse width counts against a period of 20 ms, so two
/// microseconds are one part in ten thousand.
pub open spec fn drive_of(state: State) -> ChannelDrive {
    match state {
        State::Digital(Level::High) => ChannelDrive::FullyOn,
        State::Digital(Level::Low) => ChannelDrive::FullyOff,
        State::Pwm(width) => ChannelDrive::Fraction { num: (width.micros() / 2) as u32 },
    }
}

/// What one PWM channel is set to for a requested output state.
pub fn channel_drive(state: State) -> (r: ChannelDrive)
    ensures
        r == drive_of(state),
{
    match state {
        State::Digital(Level::High) => ChannelDrive::FullyOn,
        State::Digital(Level::Low) => ChannelDrive::FullyOff,
        State::Pwm(width) => ChannelDrive::Fraction { num: (width.as_u16() as u32 * 5) / 10 },
    }
}

/// What the four channels of a board are set to whose outputs are all PWM channels.
pub fn channel_drives(state: &HcoState) -> (r: [ChannelDrive; 4])
    ensures
        forall|i: int| 0 <= i < 4 ==> #[trigger] r@[i] == drive_of(state@[i]),
{
    [
        channel_drive(state[HcoId::Hco0]),
        channel_drive(state[HcoId::Hco1]),
        channel_drive(state[HcoId::Hco2]),
        channel_drive(state[HcoId::Hco3]),
    ]
}

/// A pulse width that no pulse has: the pin is not pulsed.
pub const PULSE_OFF: u16 = u16::MAX;

/// What a pin whose pulses are made by interrupt is given.
#[derive(Clone, Copy, PartialEq, Eq, Debug, Structural)]
pub struct SoftPin {
    /// The pulse width for the interrupt to make, [`PULSE_OFF`] for none.
    pub pulse_us: u16,
    /// The level to put the pin to at once, if it is not pulsed.
    pub level: Option<Level>,
}

pub open spec fn soft_pin_of(state: State) -> SoftPin {
    match state {
        State::Digital(level) => SoftPin { pulse_us: PULSE_OFF, level: Some(level) },
        State::Pwm(width) => SoftPin { pulse_us: width.micros(), level: None },
    }
}

fn soft_pin(state: State) -> (r: SoftPin)
    ensures
        r == soft_pin_of(state),
{
    match state {
        State::Digital(level) => SoftPin { pulse_us: PULSE_OFF, level: Some(level) },
        State::Pwm(width) => SoftPin { pulse_us: u16::from(width), level: None },
    }
}

/// What the driver of a board has to do whose first two outputs are plain pins and whose last two
/// are PWM channels.
#[derive(Clone, Copy, PartialEq, Eq, Debug, Structural)]
pub struct MixedPlan {
    pub out1: SoftPin,
    pub out2: SoftPin,
    pub out3: ChannelDrive,
    pub out4: ChannelDrive,
    pub update_interrupt: bool,
    pub compare1_interrupt: bool,
    pub compare2_interrupt: bool,
}

/// The plan for a state: the timer interrupts for exactly the pins that it makes pulses for.
pub open spec fn mixed_plan_of(state: Seq<State>) -> MixedPlan {
    MixedPlan {
        out1: soft_pin_of(state[0]),
        out2: soft_pin_of(state[1]),
        out3: drive_of(state[2]),
        out4: drive_of(state[3]),
        update_interrupt: state[0] is Pwm || state[1] is Pwm,
        compare1_interrupt: state[0] is Pwm,
        compare2_interrupt: state[1] is Pwm,
    }
}

pub fn mixed_plan(state: &HcoState) -> (r: MixedPlan)
    ensures
        r == mixed_plan_of(state@),
{
    let pulse1 = matches!(state[HcoId::Hco0], State::Pwm(_));
    let pulse2 = matches!(state[HcoId::Hco1], State::Pwm(_));
    MixedPlan {
        out1: soft_pin(state[HcoId::Hco0]),
        out2: soft_pin(state[HcoId::Hco1]),
        out3: channel_drive(state[HcoId::Hco2]),
        out4: channel_drive(state[HcoId::Hco3]),
        update_interrupt: pulse1 || pulse2,
        compare1_interrupt: pulse1,
        compare2_interrupt: pulse2,
    }
}

/// Which of the pulse timer's flags are set.
#[derive(Clone, Copy, PartialEq, Eq, Debug, Structural)]
pub struct TimerFlags {
    /// A period has begun.
    pub update: bool,
    /// The pulse of the first or second pin is over.
    pub compare1: bool,
    pub compare2: bool,
}

/// What an interrupt does to one pin, in this order.
#[derive(Clone, Copy, PartialEq, Eq, Debug, Structural)]
pub struct PinActions {
    /// When the pulse that now begins is over, in microseconds.
    pub set_compare: Option<u16>,
    pub raise: bool,
    pub lower: bool,
}

/// What an interrupt does to a pin that is pulsed: raised when a period begins, lowered when its
/// pulse is over.
pub open spec fn pulsed(begun: bool, over: bool, pulse_us: u16) -> PinActions {
    PinActions {
        set_compare: if begun {
            Some(pulse_us)
        } else {
            None
        },
        raise: begun,
        lower: over,
    }
}

/// What an interrupt does to a pin that is not pulsed.
pub open spec fn untouched() -> PinActions {
    PinActions { set_compare: None, raise: false, lower: false }
}

fn pulse_actions(begun: bool, over: bool, pulse_us: u16) -> (r: PinActions)
    ensures
        r == pulsed(begun, over, pulse_us),
{
    PinActions {
        set_compare: if begun {
            Some(pulse_us)
        } else {
            None
        },
        raise: begun,
        lower: over,
    }
}

/// What the pulse timer's interrupt does to the two pins. A pin whose pulse width is
/// [`PULSE_OFF`] is left alone.
pub fn soft_pwm_interrupt(flags: TimerFlags, pulse1_us: u16, pulse2_us: u16) -> (r: (
    PinActions,
    PinActions,
))
    ensures
        r.0 == if pulse1_us == PULSE_OFF {
            untouched()
        } else {
            pulsed(flags.update, flags.compare1, pulse1_us)
        },
        r.1 == if pulse2_us == PULSE_OFF {
            untouched()
        } else {
            pulsed(flags.update, flags.compare2, pulse2_us)
        },
        r == interrupted(flags, pulse1_us, pulse2_us),
{
    let first = if pulse1_us != PULSE_OFF {
        pulse_actions(flags.update, flags.compare1, pulse1_us)
    } else {
        pulse_actions(false, false, pulse1_us)
    };
    let second = if pulse2_us != PULSE_OFF {
        pulse_actions(flags.update, flags.compare2, pulse2_us)
    } else {
        pulse_actions(false, false, pulse2_us)
    };
    (first, second)
}

/// What the pulse timer's interrupt does to the two pins where both are always pulsed.
pub fn always_pulsed_interrupt(flags: TimerFlags, pulse1_us: u16, pulse2_us: u16) -> (r: (
    PinActions,
    PinActions,
))
    ensures
        r.0 == pulsed(flags.update, flags.compare1, pulse1_us),
        r.1 == pulsed(flags.update, flags.compare2, pulse2_us),
        pulse1_us != PULSE_OFF && pulse2_us != PULSE_OFF ==> r == interrupted(
            flags,
            pulse1_us,
            pulse2_us,
        ),
{
    (
        pulse_actions(flags.update, flags.compare1, pulse1_us),
        pulse_actions(flags.update, flags.compare2, pulse2_us),
    )
}

/// A pin that holds a level is left alone by the interrupt.
pub proof fn a_held_pin_is_left_alone(level: Level)
    ensures
        soft_pin_of(State::Digital(level)).pulse_us == PULSE_OFF,
        soft_pin_of(State::Digital(level)).level == Some(level),
{
}

/// A servo-safe pulse is on for between a fortieth and an eighth of the period, to the microsecond
/// pair.
pub proof fn a_servo_pulse_is_a_small_duty(width: PwmMicros)
    requires
        500 <= width.micros() <= 2500,
    ensures
        drive_of(State::Pwm(width)) matches ChannelDrive::Fraction { num } && 250 <= num <= 1250
            && num * 2 <= width.micros() < num * 2 + 2,
{
}

/// A channel is fully on for a high output, fully off for a low one, and for a pulse on for the
/// width's share of a period of 20 milliseconds, in ten-thousandths rounded down.
pub proof fn a_channel_does_what_the_state_says(width: PwmMicros)
    ensures
        drive_of(State::Digital(Level::High)) == ChannelDrive::FullyOn,
        drive_of(State::Digital(Level::Low)) == ChannelDrive::FullyOff,
        drive_of(State::Pwm(width)) matches ChannelDrive::Fraction { num } && num * 20_000
            <= width.micros() * 10_000 < (num + 1) * 20_000,
{
}

/// A plain pin is told the width of its pulse or the level that it holds, never both, and no width is
/// mistaken for none.
pub proof fn a_pin_is_pulsed_or_held(width: PwmMicros, level: Level)
    ensures
        soft_pin_of(State::Pwm(width)).pulse_us == width.micros(),
        soft_pin_of(State::Pwm(width)).level is None,
        soft_pin_of(State::Digital(level)).pulse_us == 65535,
        soft_pin_of(State::Digital(level)).level == Some(level),
{
}

/// Each output of the plan belongs to its own state, and the timer interrupts for the pins that are
/// pulsed: at the start of a period if either is, and at the end of each one's own pulse.
pub proof fn a_plan_has_each_output_in_its_place(state: Seq<State>)
    requires
        state.len() == 4,
    ensures
        ({
            let plan = mixed_plan_of(state);
            &&& plan.out1 == soft_pin_of(state[0])
            &&& plan.out2 == soft_pin_of(state[1])
            &&& plan.out3 == drive_of(state[2])
            &&& plan.out4 == drive_of(state[3])
            &&& plan.compare1_interrupt <==> state[0] is Pwm
            &&& plan.compare2_interrupt <==> state[1] is Pwm
            &&& plan.update_interrupt <==> plan.compare1_interrupt || plan.compare2_interrupt
        }),
{
}

/// A pulsed pin goes up when a period begins, with the end of its pulse set for that period, and
/// down when the pulse is over. A pin that is not pulsed is not touched at all.
pub proof fn a_pulse_goes_up_and_comes_down(begun: bool, over: bool, pulse_us: u16)
    ensures
        pulsed(begun, over, pulse_us).raise <==> begun,
        pulsed(begun, over, pulse_us).lower <==> over,
        pulsed(begun, over, pulse_us).set_compare == if begun {
            Some(pulse_us)
        } else {
            None
        },
        !untouched().raise,
        !untouched().lower,
        untouched().set_compare is None,
{
}

/// What the interrupt does to two pins, each by its own pulse width and its own flag.
pub open spec fn interrupted(flags: TimerFlags, pulse1_us: u16, pulse2_us: u16) -> (
    PinActions,
    PinActions,
) {
    (
        if pulse1_us == PULSE_OFF {
            untouched()
        } else {
            pulsed(flags.update, flags.compare1, pulse1_us)
        },
        if pulse2_us == PULSE_OFF {
            untouched()
        } else {
            pulsed(flags.update, flags.compare2, pulse2_us)
        },
    )
}

/// The interrupt serves each pin by its own width and flag: a pulsed pin is raised when a period
/// begins and lowered when its own pulse is over, and neither pin notices the other.
pub proof fn the_interrupt_serves_each_pin_alone(
    flags: TimerFlags,
    pulse1_us: u16,
    pulse2_us: u16,
    other_us: u16,
    other_flag: bool,
)
    ensures
        ({
            let (first, second) = interrupted(flags, pulse1_us, pulse2_us);
            &&& first.raise <==> flags.update && pulse1_us != 65535
            &&& first.lower <==> flags.compare1 && pulse1_us != 65535
            &&& first.set_compare == if flags.update && pulse1_us != 65535 {
                Some(pulse1_us)
            } else {
                None
            }
            &&& second.raise <==> flags.update && pulse2_us != 65535
            &&& second.lower <==> flags.compare2 && pulse2_us != 65535
            &&& second.set_compare == if flags.update && pulse2_us != 65535 {
                Some(pulse2_us)
            } else {
                None
            }
            &&& interrupted(
                TimerFlags { compare2: other_flag, ..flags },
                pulse1_us,
                other_us,
            ).0 == first
            &&& interrupted(
                TimerFlags { compare1: other_flag, ..flags },
                other_us,
                pulse2_us,
            ).1 == second
        }),
{
}

} // verus!
