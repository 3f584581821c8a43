//! What holds of a control tick as a whole: which demand reaches which output, what a valve's target
//! is in every state of the link, and what the LEDs and the store show of it.
use crate::board::stepper::{moves, StepCommand, StepperPort};
use crate::can::tpdo::{
    a_status_frame_carries_the_link, a_valve_frame_carries_its_field,
    an_output_frame_carries_its_outputs, shown_payload,
};
use crate::config::{ValveConfig, ValveHeatingConfig};
use crate::control::{
    all_driven, all_padded, blink_after, blink_due, declares_a_position, direct_after, driven, gathered,
    heated, heater_mode_in, held_command, leds_for, overrides_after, pad_reading, padded, planned_or_held,
    pushed_after,
    rail_current, re_zeroed, released_after, relieving, sensed, shown_level, shown_width, stage_position, starts_over, stepper_target,
    target_for, tells, trusted_position, with_pad, written_back, Arbitration, DirectWrites, Sampled,
    TickInputs, TickOutcome,
};
use crate::hco::{a_pulse_width_is_its_micros, servo_safe, Level, PwmMicros, State};
use crate::heater::{heater_after, Heater, HeaterConfig, HeaterMode, HeaterState};
use crate::heating::{Heating, HeatingState};
use crate::index::{HcoId, HcoPair, Id, PerStepper, PerValve, SensorSlot, StepperId, ValveId};
use crate::leds::LedsState;
use crate::outputs::{all_low, overlaid};
use crate::proto::ids::TpdoKind;
use crate::proto::od::SENSOR_INVALID;
use crate::proto::valve::position;
use crate::rail_sense::Rails;
use crate::relief::{Relief, ReliefState};
use crate::safety::{fallback_action, FallbackLatch};
use crate::store::{LinkState, Pending, Store};
use crate::time::Instant;
use crate::valves::{ValveDrive, ValveStatus};
use vstd::prelude::*;

verus! {

/// A coil follows its demand: every output of the valve is high while the coil is energised and low
/// while it is not, whatever it was before.
pub proof fn a_coil_follows_its_demand(states: Seq<State>, cfg: ValveConfig, on: bool, hco: HcoId)
    requires
        states.len() == 4,
        cfg.signal_hco == Some(hco) || cfg.power_hco == Some(hco),
    ensures
        driven(states, cfg, ValveDrive::Solenoid(on))[hco.position()] == if on {
            State::Digital(Level::High)
        } else {
            State::Digital(Level::Low)
        },
{
    positions_tell_outputs_apart(cfg, hco);
}

/// A servo is powered and pulsed: its power output is high, and its signal output carries the pulse
/// width that is asked for, brought between half a millisecond and two and a half. Where one output
/// is both, it carries the pulse.
pub proof fn a_servo_is_powered_and_pulsed(
    states: Seq<State>,
    cfg: ValveConfig,
    pulse_us: u16,
    hco: HcoId,
)
    requires
        states.len() == 4,
    ensures
        cfg.power_hco == Some(hco) && cfg.signal_hco != Some(hco) ==> driven(
            states,
            cfg,
            ValveDrive::Servo { pulse_us },
        )[hco.position()] == State::Digital(Level::High),
        cfg.signal_hco == Some(hco) ==> (driven(states, cfg, ValveDrive::Servo { pulse_us })[
            hco.position()] matches State::Pwm(width) && width.micros() == if pulse_us < 500 {
            500
        } else if pulse_us > 2500 {
            2500
        } else {
            pulse_us
        }),
{
    a_pulse_width_is_its_micros(PwmMicros::of(pulse_us), servo_safe(pulse_us));
    positions_tell_outputs_apart(cfg, hco);
}

/// A released valve has every output low, and one that a stepper moves takes part in none.
pub proof fn a_valve_at_rest_leaves_nothing_on(states: Seq<State>, cfg: ValveConfig, hco: HcoId, promille: u16)
    requires
        states.len() == 4,
    ensures
        cfg.signal_hco == Some(hco) || cfg.power_hco == Some(hco) ==> driven(
            states,
            cfg,
            ValveDrive::Released,
        )[hco.position()] == State::Digital(Level::Low),
        driven(states, cfg, ValveDrive::Stepper { promille }) == states,
{
    positions_tell_outputs_apart(cfg, hco);
}

/// The outputs of a valve are those at their positions.
proof fn positions_tell_outputs_apart(cfg: ValveConfig, hco: HcoId)
    ensures
        0 <= hco.position() < 4,
        cfg.signal_hco matches Some(other) ==> 0 <= other.position() < 4 && (other.position()
            == hco.position() <==> other == hco),
        cfg.power_hco matches Some(other) ==> 0 <= other.position() < 4 && (other.position()
            == hco.position() <==> other == hco),
{
    hco.position_in_range();
    hco.nth_inverts_position();
    if let Some(other) = cfg.signal_hco {
        other.position_in_range();
        other.nth_inverts_position();
    }
    if let Some(other) = cfg.power_hco {
        other.position_in_range();
        other.nth_inverts_position();
    }
}

/// Valves without this output leave it alone.
proof fn other_valves_leave_it_alone(
    states: Seq<State>,
    valves: Seq<ValveConfig>,
    drives: Seq<ValveDrive>,
    hco: HcoId,
    from: nat,
    to: nat,
)
    requires
        states.len() == 4,
        from <= to,
        forall|v: int|
            from <= v < to ==> (#[trigger] valves[v]).signal_hco != Some(hco) && valves[v].power_hco
                != Some(hco),
    ensures
        all_driven(states, valves, drives, from).len() == 4,
        all_driven(states, valves, drives, to).len() == 4,
        all_driven(states, valves, drives, to)[hco.position()] == all_driven(
            states,
            valves,
            drives,
            from,
        )[hco.position()],
    decreases to,
{
    if to > 0 {
        let v = valves[to - 1];
        if from < to {
            other_valves_leave_it_alone(states, valves, drives, hco, from, (to - 1) as nat);
            positions_tell_outputs_apart(v, hco);
        } else {
            other_valves_leave_it_alone(
                states,
                valves,
                drives,
                hco,
                (from - 1) as nat,
                (to - 1) as nat,
            );
        }
    }
}

/// An output with one valve to it does what that valve asks, whatever the others ask and whatever
/// was written to it directly: low while the valve is released, the coil's level, the servo's power
/// or its pulse. A stepper asks nothing of its outputs.
pub proof fn each_valve_reaches_its_outputs(
    states: Seq<State>,
    valves: Seq<ValveConfig>,
    drives: Seq<ValveDrive>,
    v: int,
    hco: HcoId,
)
    requires
        states.len() == 4,
        0 <= v < 4,
        valves[v].signal_hco == Some(hco) || valves[v].power_hco == Some(hco),
        forall|u: int|
            0 <= u < 4 && u != v ==> (#[trigger] valves[u]).signal_hco != Some(hco)
                && valves[u].power_hco != Some(hco),
    ensures
        ({
            let state = all_driven(states, valves, drives, 4)[hco.position()];
            match drives[v] {
                ValveDrive::Released => state == State::Digital(Level::Low),
                ValveDrive::Solenoid(on) => state == if on {
                    State::Digital(Level::High)
                } else {
                    State::Digital(Level::Low)
                },
                ValveDrive::Servo { pulse_us } => if valves[v].signal_hco == Some(hco) {
                    state matches State::Pwm(width) && width.micros() == if pulse_us < 500 {
                        500
                    } else if pulse_us > 2500 {
                        2500
                    } else {
                        pulse_us
                    }
                } else {
                    state == State::Digital(Level::High)
                },
                ValveDrive::Stepper { .. } => state == states[hco.position()],
            }
        }),
{
    other_valves_leave_it_alone(states, valves, drives, hco, 0, v as nat);
    other_valves_leave_it_alone(states, valves, drives, hco, (v + 1) as nat, 4);
    let before = all_driven(states, valves, drives, v as nat);
    assert(all_driven(states, valves, drives, (v + 1) as nat) == driven(
        before,
        valves[v],
        drives[v],
    ));
    match drives[v] {
        ValveDrive::Released => a_valve_at_rest_leaves_nothing_on(before, valves[v], hco, 0),
        ValveDrive::Solenoid(on) => a_coil_follows_its_demand(before, valves[v], on, hco),
        ValveDrive::Servo { pulse_us } => a_servo_is_powered_and_pulsed(
            before,
            valves[v],
            pulse_us,
            hco,
        ),
        ValveDrive::Stepper { promille } => a_valve_at_rest_leaves_nothing_on(
            before,
            valves[v],
            hco,
            promille,
        ),
    }
    assert(all_driven(states, valves, drives, 0) == states);
}

/// An output without a valve keeps what was asked of it directly.
pub proof fn an_output_without_a_valve_stays_direct(
    states: Seq<State>,
    valves: Seq<ValveConfig>,
    drives: Seq<ValveDrive>,
    hco: HcoId,
)
    requires
        states.len() == 4,
        forall|u: int|
            0 <= u < 4 ==> (#[trigger] valves[u]).signal_hco != Some(hco) && valves[u].power_hco
                != Some(hco),
    ensures
        all_driven(states, valves, drives, 4)[hco.position()] == states[hco.position()],
{
    other_valves_leave_it_alone(states, valves, drives, hco, 0, 4);
    assert(all_driven(states, valves, drives, 0) == states);
}

/// A digital write asks for low exactly when the value written is zero, and for high otherwise.
pub proof fn a_digital_write_of_zero_is_low(writes: DirectWrites, hco: HcoId)
    requires
        !writes.is_pwm.at(hco),
    ensures
        writes.digital.at(hco) == 0 <==> writes.state(hco.position()) == State::Digital(Level::Low),
        writes.digital.at(hco) != 0 <==> writes.state(hco.position()) == State::Digital(Level::High),
{
}

/// A pulsed write asks for the width written, brought between half a millisecond and two and a half,
/// whatever level was last written.
pub proof fn a_pulsed_write_is_its_width(writes: DirectWrites, hco: HcoId)
    requires
        writes.is_pwm.at(hco),
    ensures
        writes.state(hco.position()) matches State::Pwm(width) && width.micros() == if writes.pwm_us.at(
            hco,
        ) < 500 {
            500
        } else if writes.pwm_us.at(hco) > 2500 {
            2500
        } else {
            writes.pwm_us.at(hco)
        },
{
    let written = writes.pwm_us.at(hco);
    a_pulse_width_is_its_micros(PwmMicros::of(written), servo_safe(written));
}

/// What a tick asks of an output directly: the write if there was one, low if the configuration
/// changed, and what was asked before otherwise.
pub proof fn a_direct_state_is_the_last_write(direct: Seq<State>, inputs: TickInputs, hco: HcoId)
    requires
        direct.len() == 4,
    ensures
        ({
            let state = direct_after(direct, inputs)[hco.position()];
            match inputs.direct_writes {
                Some(writes) => if writes.dirty.at(hco) {
                    if writes.is_pwm.at(hco) {
                        state is Pwm
                    } else {
                        state == if writes.digital.at(hco) == 0 {
                            State::Digital(Level::Low)
                        } else {
                            State::Digital(Level::High)
                        }
                    }
                } else if inputs.pending.config {
                    state == State::Digital(Level::Low)
                } else {
                    state == direct[hco.position()]
                },
                None => if inputs.pending.config {
                    state == State::Digital(Level::Low)
                } else {
                    state == direct[hco.position()]
                },
            }
        }),
        direct_after(direct, inputs).len() == 4,
{
    hco.position_in_range();
    if let Some(writes) = inputs.direct_writes {
        if writes.is_pwm.at(hco) {
            a_pulsed_write_is_its_width(writes, hco);
        } else {
            a_digital_write_of_zero_is_low(writes, hco);
        }
    }
}

/// Pads without this output leave it alone.
proof fn other_pads_leave_it_alone(
    states: Seq<State>,
    pads: Seq<ValveHeatingConfig>,
    thermostats: Seq<Heating>,
    hco: HcoId,
    from: nat,
    to: nat,
)
    requires
        states.len() == 4,
        from <= to,
        forall|v: int|
            from <= v < to ==> (#[trigger] pads[v]).hco is None || pads[v].sensor is None || (
            pads[v].hco != Some(hco) && !pads[v].also.has(hco)),
    ensures
        all_padded(states, pads, thermostats, from).len() == 4,
        all_padded(states, pads, thermostats, to).len() == 4,
        all_padded(states, pads, thermostats, to)[hco.position()] == all_padded(
            states,
            pads,
            thermostats,
            from,
        )[hco.position()],
    decreases to,
{
    hco.position_in_range();
    hco.nth_inverts_position();
    if to > 0 {
        if from < to {
            other_pads_leave_it_alone(states, pads, thermostats, hco, from, (to - 1) as nat);
            let pad = pads[to - 1];
            assert(pad.hco is None || pad.sensor is None || (pad.hco != Some(hco)
                && !pad.also.has(hco)));
        } else {
            other_pads_leave_it_alone(
                states,
                pads,
                thermostats,
                hco,
                (from - 1) as nat,
                (to - 1) as nat,
            );
        }
    }
}

/// An output is free when no valve, no pad and no heater is wired to it, and nobody has taken it by
/// hand.
pub open spec fn is_free(
    inputs: TickInputs,
    pad: Option<HeaterConfig>,
    overrides: Seq<Option<State>>,
    hco: HcoId,
) -> bool {
    &&& forall|v: int|
        0 <= v < 4 ==> (#[trigger] inputs.config.valves@[v]).signal_hco != Some(hco)
            && inputs.config.valves@[v].power_hco != Some(hco)
    &&& forall|v: int|
        0 <= v < 4 ==> (#[trigger] inputs.config.heating@[v]).hco is None
            || inputs.config.heating@[v].sensor is None || (inputs.config.heating@[v].hco != Some(
            hco,
        ) && !inputs.config.heating@[v].also.has(hco))
    &&& match pad {
        Some(pad) => match pad.pair {
            HcoPair::A => hco == HcoId::Hco2 || hco == HcoId::Hco3,
            HcoPair::B => hco == HcoId::Hco0 || hco == HcoId::Hco1,
        },
        None => true,
    }
    &&& overrides[hco.position()] is None
}

/// A direct write reaches a free output: after the tick that takes it the output is in the state
/// that was written, low for a zero, high for anything else, or pulsed at the width written. Whether
/// the node is in raw debug mode makes no difference, nor does what the valves do.
pub proof fn a_direct_write_reaches_a_free_output(
    direct: Seq<State>,
    overrides: Seq<Option<State>>,
    inputs: TickInputs,
    writes: DirectWrites,
    drives: Seq<ValveDrive>,
    thermostats: Seq<Heating>,
    pad: Option<HeaterConfig>,
    heating: bool,
    hco: HcoId,
)
    requires
        direct.len() == 4,
        overrides.len() == 4,
        inputs.direct_writes == Some(writes),
        writes.dirty.at(hco),
        is_free(inputs, pad, overrides, hco),
    ensures
        ({
            let state = pushed_after(
                direct_after(direct, inputs),
                overrides_after(overrides, inputs),
                inputs,
                drives,
                thermostats,
                pad,
                heating,
            )[hco.position()];
            if writes.is_pwm.at(hco) {
                state matches State::Pwm(width) && width.micros() == if writes.pwm_us.at(hco) < 500 {
                    500
                } else if writes.pwm_us.at(hco) > 2500 {
                    2500
                } else {
                    writes.pwm_us.at(hco)
                }
            } else {
                state == if writes.digital.at(hco) == 0 {
                    State::Digital(Level::Low)
                } else {
                    State::Digital(Level::High)
                }
            }
        }),
{
    a_free_output_stays_direct(direct, overrides, inputs, drives, thermostats, pad, heating, hco);
    a_direct_state_is_the_last_write(direct, inputs, hco);
    if writes.is_pwm.at(hco) {
        a_pulsed_write_is_its_width(writes, hco);
        hco.position_in_range();
    }
}

/// A free output is in its direct state after every tick: without a write it keeps the state of the
/// tick before, and goes low when the configuration changes.
pub proof fn a_free_output_stays_direct(
    direct: Seq<State>,
    overrides: Seq<Option<State>>,
    inputs: TickInputs,
    drives: Seq<ValveDrive>,
    thermostats: Seq<Heating>,
    pad: Option<HeaterConfig>,
    heating: bool,
    hco: HcoId,
)
    requires
        direct.len() == 4,
        overrides.len() == 4,
        is_free(inputs, pad, overrides, hco),
    ensures
        ({
            let state = pushed_after(
                direct_after(direct, inputs),
                overrides_after(overrides, inputs),
                inputs,
                drives,
                thermostats,
                pad,
                heating,
            )[hco.position()];
            &&& state == direct_after(direct, inputs)[hco.position()]
            &&& inputs.direct_writes is None ==> state == if inputs.pending.config {
                State::Digital(Level::Low)
            } else {
                direct[hco.position()]
            }
        }),
{
    hco.position_in_range();
    hco.nth_inverts_position();
    a_direct_state_is_the_last_write(direct, inputs, hco);
    let directed = direct_after(direct, inputs);
    an_output_without_a_valve_stays_direct(directed, inputs.config.valves@, drives, hco);
    other_valves_leave_it_alone(directed, inputs.config.valves@, drives, hco, 0, 4);
    let valved = all_driven(directed, inputs.config.valves@, drives, 4);
    other_pads_leave_it_alone(valved, inputs.config.heating@, thermostats, hco, 0, 4);
    assert(all_padded(valved, inputs.config.heating@, thermostats, 0) == valved);
    crate::config::the_owner_drives_its_output(inputs.config, hco);
    assert(inputs.config.owner_of(hco) is None) by {
        if let Some(owner) = inputs.config.owner_of(hco) {
            owner.position_in_range();
            assert(inputs.config.valves@[owner.position()].signal_hco != Some(hco));
        }
    }
    assert(overrides_after(overrides, inputs)[hco.position()] is None);
}

/// A valve reaches its outputs through the whole tick: where the configuration gives an output to
/// one valve alone, and no pad, heater or hand has it, what is pushed is what the valve asks.
pub proof fn a_tick_drives_a_valve_through(
    direct: Seq<State>,
    overrides: Seq<Option<State>>,
    inputs: TickInputs,
    drives: Seq<ValveDrive>,
    thermostats: Seq<Heating>,
    pad: Option<HeaterConfig>,
    heating: bool,
    valve: ValveId,
    hco: HcoId,
)
    requires
        direct.len() == 4,
        overrides.len() == 4,
        overrides[hco.position()] is None,
        inputs.config.valves.at(valve).signal_hco == Some(hco) || inputs.config.valves.at(
            valve,
        ).power_hco == Some(hco),
        forall|u: int|
            0 <= u < 4 && u != valve.position() ==> (#[trigger] inputs.config.valves@[u]).signal_hco
                != Some(hco) && inputs.config.valves@[u].power_hco != Some(hco),
        forall|v: int|
            0 <= v < 4 ==> (#[trigger] inputs.config.heating@[v]).hco is None
                || inputs.config.heating@[v].sensor is None || (inputs.config.heating@[v].hco
                != Some(hco) && !inputs.config.heating@[v].also.has(hco)),
        match pad {
            Some(pad) => match pad.pair {
                HcoPair::A => hco == HcoId::Hco2 || hco == HcoId::Hco3,
                HcoPair::B => hco == HcoId::Hco0 || hco == HcoId::Hco1,
            },
            None => true,
        },
    ensures
        ({
            let state = pushed_after(direct, overrides, inputs, drives, thermostats, pad, heating)[
                hco.position()];
            match drives[valve.position()] {
                ValveDrive::Released => state == State::Digital(Level::Low),
                ValveDrive::Solenoid(on) => state == if on {
                    State::Digital(Level::High)
                } else {
                    State::Digital(Level::Low)
                },
                ValveDrive::Servo { pulse_us } => if inputs.config.valves.at(valve).signal_hco
                    == Some(hco) {
                    state matches State::Pwm(width) && width.micros() == if pulse_us < 500 {
                        500
                    } else if pulse_us > 2500 {
                        2500
                    } else {
                        pulse_us
                    }
                } else {
                    state == State::Digital(Level::High)
                },
                ValveDrive::Stepper { .. } => state == direct[hco.position()],
            }
        }),
{
    hco.position_in_range();
    valve.position_in_range();
    each_valve_reaches_its_outputs(
        direct,
        inputs.config.valves@,
        drives,
        valve.position(),
        hco,
    );
    other_valves_leave_it_alone(
        direct,
        inputs.config.valves@,
        drives,
        hco,
        (valve.position() + 1) as nat,
        4,
    );
    let valved = all_driven(direct, inputs.config.valves@, drives, 4);
    other_pads_leave_it_alone(valved, inputs.config.heating@, thermostats, hco, 0, 4);
    assert(all_padded(valved, inputs.config.heating@, thermostats, 0) == valved);
}

/// In raw debug mode a direct write to an output that a valve owns takes the output by hand: it is
/// pushed in the state that was written, whatever the valve asks, unless the master commands a valve
/// on that output in the same tick.
pub proof fn a_write_by_hand_takes_the_output(
    direct: Seq<State>,
    overrides: Seq<Option<State>>,
    inputs: TickInputs,
    writes: DirectWrites,
    drives: Seq<ValveDrive>,
    thermostats: Seq<Heating>,
    pad: Option<HeaterConfig>,
    heating: bool,
    hco: HcoId,
)
    requires
        overrides.len() == 4,
        inputs.raw_debug,
        inputs.direct_writes == Some(writes),
        writes.dirty.at(hco),
        !writes.is_pwm.at(hco),
        inputs.config.owner_of(hco) is Some,
        forall|v: int|
            0 <= v < 4 && #[trigger] inputs.pending.valves@[v] ==> inputs.config.valves@[v].signal_hco
                != Some(hco) && inputs.config.valves@[v].power_hco != Some(hco),
    ensures
        pushed_after(
            direct,
            overrides_after(overrides, inputs),
            inputs,
            drives,
            thermostats,
            pad,
            heating,
        )[hco.position()] == if writes.digital.at(hco) == 0 {
            State::Digital(Level::Low)
        } else {
            State::Digital(Level::High)
        },
{
    hco.position_in_range();
    hco.nth_inverts_position();
    a_digital_write_of_zero_is_low(writes, hco);
    assert(!crate::control::reclaimed(inputs, hco.position()));
}

/// A hand stays on its output in raw debug mode, through every tick that neither writes to it nor
/// commands a valve on it; a fresh command to a valve takes both its outputs back.
pub proof fn a_hand_stays_until_a_command(
    overrides: Seq<Option<State>>,
    inputs: TickInputs,
    hco: HcoId,
)
    requires
        overrides.len() == 4,
        inputs.raw_debug,
        inputs.direct_writes matches Some(writes) ==> !writes.dirty.at(hco),
    ensures
        (forall|v: int|
            0 <= v < 4 && #[trigger] inputs.pending.valves@[v] ==> inputs.config.valves@[v].signal_hco
                != Some(hco) && inputs.config.valves@[v].power_hco != Some(hco)) ==> overrides_after(
            overrides,
            inputs,
        )[hco.position()] == overrides[hco.position()],
        forall|valve: ValveId|
            #[trigger] inputs.pending.valves.at(valve) && (inputs.config.valves.at(valve).signal_hco
                == Some(hco) || inputs.config.valves.at(valve).power_hco == Some(hco))
                ==> overrides_after(overrides, inputs)[hco.position()] is None,
{
    hco.position_in_range();
    hco.nth_inverts_position();
    assert forall|valve: ValveId|
        #[trigger] inputs.pending.valves.at(valve) && (inputs.config.valves.at(valve).signal_hco
            == Some(hco) || inputs.config.valves.at(valve).power_hco == Some(hco)) implies overrides_after(
        overrides,
        inputs,
    )[hco.position()] is None by {
        valve.position_in_range();
        assert(inputs.pending.valves@[valve.position()]);
        assert(crate::control::reclaimed(inputs, hco.position()));
    }
}

/// The heater's pair follows the heater: outside raw debug mode both of its outputs are high while
/// it heats and low while it does not, over everything that is asked of them otherwise, except by
/// hand. The other pair is not touched.
pub proof fn the_heaters_pair_follows_the_heater(
    states: Seq<State>,
    pad: HeaterConfig,
    on: bool,
    hco: HcoId,
)
    requires
        states.len() == 4,
    ensures
        heated(states, Some(pad), false, on)[hco.position()] == if (pad.pair == HcoPair::A) == (hco
            == HcoId::Hco0 || hco == HcoId::Hco1) {
            if on {
                State::Digital(Level::High)
            } else {
                State::Digital(Level::Low)
            }
        } else {
            states[hco.position()]
        },
        heated(states, Some(pad), true, on) == states,
        heated(states, None, false, on) == states,
{
}

/// A pad's outputs follow its thermostat: a pad that has an output and a sensor puts its own output
/// and those switched with it high while it heats and low while it does not, and no other.
pub proof fn a_pads_outputs_follow_its_thermostat(
    states: Seq<State>,
    pad: ValveHeatingConfig,
    on: bool,
    hco: HcoId,
)
    requires
        states.len() == 4,
    ensures
        with_pad(states, pad, on)[hco.position()] == if pad.hco is Some && pad.sensor is Some && (
        pad.hco == Some(hco) || pad.also.has(hco)) {
            if on {
                State::Digital(Level::High)
            } else {
                State::Digital(Level::Low)
            }
        } else {
            states[hco.position()]
        },
{
    hco.position_in_range();
    hco.nth_inverts_position();
}

/// An output of one pad alone follows that pad's thermostat, outside raw debug mode; in it the pads
/// switch nothing.
pub proof fn each_pad_reaches_its_outputs(
    states: Seq<State>,
    pads: Seq<ValveHeatingConfig>,
    thermostats: Seq<Heating>,
    v: int,
    hco: HcoId,
)
    requires
        states.len() == 4,
        0 <= v < 4,
        pads[v].hco is Some,
        pads[v].sensor is Some,
        pads[v].hco == Some(hco) || pads[v].also.has(hco),
        forall|u: int|
            0 <= u < 4 && u != v ==> (#[trigger] pads[u]).hco is None || pads[u].sensor is None || (
            pads[u].hco != Some(hco) && !pads[u].also.has(hco)),
    ensures
        padded(states, pads, thermostats, false)[hco.position()] == if thermostats[v].phase()
            == HeatingState::Heating {
            State::Digital(Level::High)
        } else {
            State::Digital(Level::Low)
        },
        padded(states, pads, thermostats, true) == states,
{
    other_pads_leave_it_alone(states, pads, thermostats, hco, 0, v as nat);
    other_pads_leave_it_alone(states, pads, thermostats, hco, (v + 1) as nat, 4);
    a_pads_outputs_follow_its_thermostat(
        all_padded(states, pads, thermostats, v as nat),
        pads[v],
        thermostats[v].phase() == HeatingState::Heating,
        hco,
    );
}

/// A pad's thermostat reads its own slot, and without one has no reading.
pub proof fn a_pad_reads_its_own_slot(pad: ValveHeatingConfig, values: Seq<i16>, slot: SensorSlot)
    ensures
        pad.sensor == Some(slot) ==> pad_reading(pad, values) == values[slot.position()],
        pad.sensor is None ==> pad_reading(pad, values) == SENSOR_INVALID,
{
}

/// A command is held between the ends of the valve's range, the upper of which is at most 1000: it
/// stays as it is inside and goes to the nearer end otherwise, with its top bit as it was.
pub proof fn a_command_is_held_between_the_ends(cfg: ValveConfig, command: u16)
    requires
        cfg.min_promille <= cfg.max_promille,
        cfg.min_promille <= 1000,
    ensures
        ({
            let flag: int = if command >= 0x8000 {
                0x8000
            } else {
                0
            };
            let upper: int = if cfg.max_promille < 1000 {
                cfg.max_promille as int
            } else {
                1000
            };
            let held = held_command(cfg, command);
            &&& cfg.min_promille <= command - flag <= upper ==> held == command
            &&& command - flag < cfg.min_promille ==> held == cfg.min_promille + flag
            &&& command - flag > upper ==> held == upper + flag
        }),
{
    if command >= 0x8000 {
        assert(position(command) == command - 0x8000);
    } else {
        assert(position(command) == command);
    }
}

/// While no stage acts, because the master is heard or has not been silent for long, in raw debug
/// mode or with the fallback switched off, a valve that relief does not hold is sent where the master
/// commands: exactly there inside its range, which ends at 1000, and to the nearer end of the range
/// otherwise. The top bit of the command, which asks for a release, is passed on as it is.
pub proof fn a_command_inside_the_range_is_obeyed(
    latch: FallbackLatch,
    relief: Relief,
    inputs: TickInputs,
    valve: ValveId,
)
    requires
        (inputs.seen && inputs.since_heartbeat < inputs.config.fallback_a_ms) || inputs.raw_debug
            || !inputs.config.fallback_enabled || (inputs.since_heartbeat
            < inputs.config.fallback_a_ms && inputs.since_heartbeat < inputs.config.fallback_b_ms),
        !relieving(relief, inputs, valve),
        inputs.config.valves.at(valve).min_promille <= inputs.config.valves.at(valve).max_promille,
        inputs.config.valves.at(valve).min_promille <= 1000,
    ensures
        ({
            let cfg = inputs.config.valves.at(valve);
            let command = inputs.commanded.at(valve);
            let flag: int = if command >= 0x8000 {
                0x8000
            } else {
                0
            };
            let target = target_for(latch, relief, inputs, valve);
            let upper: int = if cfg.max_promille < 1000 {
                cfg.max_promille as int
            } else {
                1000
            };
            &&& cfg.min_promille <= command - flag <= upper ==> target == command
            &&& command - flag < cfg.min_promille ==> target == cfg.min_promille + flag
            &&& command - flag > upper ==> target == upper + flag
        }),
{
    let cfg = inputs.config.valves.at(valve);
    assert(fallback_action(inputs.link(), cfg) is None);
    let command = inputs.commanded.at(valve);
    assert(target_for(latch, relief, inputs, valve) == held_command(cfg, command));
    a_command_is_held_between_the_ends(cfg, command);
}

/// The first stage sends a valve to its first fallback position and the second to its second one,
/// from the very millisecond that its timeout is reached, whatever the master commanded last. The
/// word asks for a release, in its top bit, exactly if the stage has released the valve already and
/// neither the stage nor the command has changed since, or if the valve is to be released and has
/// settled there.
pub proof fn each_stage_sends_to_its_own_position(
    latch: FallbackLatch,
    relief: Relief,
    inputs: TickInputs,
    valve: ValveId,
)
    requires
        inputs.config.fallback_enabled,
        inputs.config.fallback_a_ms < inputs.config.fallback_b_ms,
        !inputs.raw_debug,
        inputs.since_heartbeat >= inputs.config.fallback_a_ms,
        !relieving(relief, inputs, valve),
        inputs.config.valves.at(valve).fallback_a.position < 0x8000,
        inputs.config.valves.at(valve).fallback_b.position < 0x8000,
    ensures
        ({
            let second = inputs.since_heartbeat >= inputs.config.fallback_b_ms;
            let action = if second {
                inputs.config.valves.at(valve).fallback_b
            } else {
                inputs.config.valves.at(valve).fallback_a
            };
            let stage = if second {
                LinkState::FallbackB
            } else {
                LinkState::FallbackA
            };
            let lets_go = (latch.current() == stage && latch.has_released(valve)
                && !inputs.pending.valves.at(valve)) || (action.unpower && inputs.settled_at.at(
                valve,
            ) == Some(action.position));
            &&& target_for(latch, relief, inputs, valve) == if lets_go {
                action.position + 0x8000
            } else {
                action.position as int
            }
            &&& released_after(latch, relief, inputs, valve) == lets_go
            &&& stage_position(inputs, valve) == Some(action.position)
            &&& inputs.link() == stage
        }),
{
}

/// Relief holds the valve that it is configured for, and only that one, at its own position for as
/// long as it vents. Everything else of the tick, the link, the command, the range and what has
/// settled, may be anything.
pub proof fn relief_holds_its_own_valve(
    latch: FallbackLatch,
    relief: Relief,
    inputs: TickInputs,
    valve: ValveId,
)
    ensures
        ({
            let venting = relief.phase_after(
                inputs.config.relief,
                inputs.sensor_value.at(inputs.config.relief.sensor),
                inputs.now,
            ) == ReliefState::Relieving;
            &&& venting && inputs.config.relief.valve == Some(valve) ==> target_for(
                latch,
                relief,
                inputs,
                valve,
            ) == inputs.config.relief.position
            &&& relieving(relief, inputs, valve) <==> venting && inputs.config.relief.valve == Some(
                valve,
            )
        }),
{
}

/// No stage acts on a valve while the master is heard, in raw debug mode or with the fallback
/// switched off: there is no position to settle at, and the command stands.
pub proof fn without_a_stage_the_command_stands(
    latch: FallbackLatch,
    relief: Relief,
    a: TickInputs,
    b: TickInputs,
    valve: ValveId,
)
    requires
        b == (TickInputs { settled_at: b.settled_at, ..a }),
        (a.seen && a.since_heartbeat < a.config.fallback_a_ms) || a.raw_debug
            || !a.config.fallback_enabled,
    ensures
        stage_position(a, valve) is None,
        target_for(latch, relief, a, valve) == target_for(latch, relief, b, valve),
{
}

/// A release is forgotten by a change of the link, by a fresh command and by relief; otherwise it
/// lasts, and without a stage none is added.
pub proof fn a_release_lasts_as_long_as_its_stage(
    latch: FallbackLatch,
    relief: Relief,
    inputs: TickInputs,
    valve: ValveId,
)
    ensures
        relieving(relief, inputs, valve) ==> !released_after(latch, relief, inputs, valve),
        stage_position(inputs, valve) is None && !relieving(relief, inputs, valve)
            ==> released_after(latch, relief, inputs, valve) == (latch.has_released(valve)
            && latch.current() == inputs.link() && !inputs.pending.valves.at(valve)),
        stage_position(inputs, valve) is Some && !relieving(relief, inputs, valve)
            && latch.has_released(valve) && latch.current() == inputs.link()
            && !inputs.pending.valves.at(valve) ==> released_after(latch, relief, inputs, valve),
{
}

/// A sensor's reading is passed on between its ends: as it is from 0 to 1000, as 1000 above, and not
/// at all if it is negative or missing, or if there is no sensor.
pub proof fn a_position_reading_is_passed_on(cfg: ValveConfig, values: Seq<i16>, slot: SensorSlot)
    ensures
        cfg.position_sensor is None ==> sensed(cfg, values) is None,
        cfg.position_sensor == Some(slot) ==> ({
            let reading = values[slot.position()];
            &&& 0 <= reading <= 1000 ==> (sensed(cfg, values) matches Some(at) && at == reading)
            &&& 1000 < reading < 32767 ==> sensed(cfg, values) == Some(1000u16)
            &&& reading < 0 || reading == 32767 ==> sensed(cfg, values) is None
        }),
{
}

/// A valve on output 1 or 2 is judged by the current of the second rail, and one on output 3 or 4 by
/// that of the third. Without rails, or without a signal output, there is none.
pub proof fn a_valve_is_judged_by_its_own_shunt(cfg: ValveConfig, rails: Rails)
    ensures
        rail_current(cfg, None) is None,
        cfg.signal_hco is None ==> rail_current(cfg, Some(rails)) is None,
        cfg.signal_hco == Some(HcoId::Hco0) || cfg.signal_hco == Some(HcoId::Hco1) ==> rail_current(
            cfg,
            Some(rails),
        ) == Some(rails.current_ma@[1]),
        cfg.signal_hco == Some(HcoId::Hco2) || cfg.signal_hco == Some(HcoId::Hco3) ==> rail_current(
            cfg,
            Some(rails),
        ) == Some(rails.current_ma@[2]),
{
}

/// Without a sensor a valve is where the step counter of its own actuator says, and without either
/// nothing is known of it.
pub proof fn the_step_counter_stands_in_for_a_sensor(id: StepperId, counted: PerStepper<u16>)
    ensures
        trusted_position(None, Some(id), Some(counted)) == Some(counted.at(id)),
        trusted_position(None, None, Some(counted)) is None,
        trusted_position(None, Some(id), None) is None,
{
}

/// An actuator is sent where the last of the valves that it drives asks, of those that ask for a
/// stepper.
pub proof fn an_actuator_serves_the_last_that_asks(
    drives: Seq<ValveDrive>,
    driven_by: Seq<Option<StepperId>>,
    id: StepperId,
    v: int,
    n: nat,
)
    requires
        0 <= v < n,
        drives[v] is Stepper,
        driven_by[v] == Some(id),
        forall|u: int|
            v < u < n && (#[trigger] driven_by[u]) == Some(id) ==> !(drives[u] is Stepper),
    ensures
        stepper_target(drives, driven_by, id, n) == Some(drives[v]->promille),
    decreases n,
{
    if v < n - 1 {
        assert(driven_by[n - 1] == Some(id) ==> !(drives[n - 1] is Stepper));
        an_actuator_serves_the_last_that_asks(drives, driven_by, id, v, (n - 1) as nat);
    }
}

/// The second stage switches the heater off for good; nothing else changes what it is commanded to.
pub proof fn the_second_stage_switches_the_heater_off(link: LinkState, mode: HeaterMode)
    ensures
        heater_mode_in(LinkState::FallbackB, mode) == HeaterMode::Off,
        link != LinkState::FallbackB ==> heater_mode_in(link, mode) == mode,
{
}

/// The white LED toggles when half a second has passed since it last did, and at no other time.
pub proof fn the_white_led_toggles_twice_a_second(blink: bool, last: Instant, now: Instant)
    requires
        last.ticks <= now.ticks,
    ensures
        blink_due(last, now) <==> now.ticks - last.ticks >= 500_000,
        blink_after(blink, last, now) != blink <==> now.ticks - last.ticks >= 500_000,
{
}

/// Red says that something is out of the ordinary: raw debug mode, a stalled valve, a venting relief
/// loop or a heater without a sensor, and nothing else. Yellow says that the master is not heard.
/// White shows the blink.
pub proof fn each_led_has_its_own_meaning(
    link: LinkState,
    raw_debug: bool,
    statuses: Seq<u8>,
    relief: Relief,
    heater: Heater,
    blink: bool,
)
    ensures
        ({
            let leds = leds_for(link, raw_debug, statuses, relief, heater, blink);
            &&& raw_debug ==> leds.red
            &&& relief.phase() == ReliefState::Relieving ==> leds.red
            &&& heater.phase() == HeaterState::SensorFault ==> leds.red
            &&& forall|i: int|
                0 <= i < 4 && #[trigger] statuses[i] == ValveStatus::Stalled as u8 ==> leds.red
            &&& !raw_debug && relief.phase() != ReliefState::Relieving && heater.phase()
                != HeaterState::SensorFault && (forall|i: int|
                0 <= i < 4 ==> #[trigger] statuses[i] != ValveStatus::Stalled as u8) ==> !leds.red
            &&& link == LinkState::Alive ==> !leds.yellow
            &&& link != LinkState::Alive ==> leds.yellow
            &&& leds.white == blink
        }),
{
}

/// The store shows an output that is low as zero and one that is high or pulsed as one, and shows the
/// width of a pulse, which a level does not have.
pub proof fn the_store_shows_an_output(state: State, width: PwmMicros)
    ensures
        shown_level(State::Digital(Level::Low)) == 0,
        shown_level(State::Digital(Level::High)) == 1,
        shown_level(State::Pwm(width)) == 1,
        shown_width(State::Digital(Level::Low)) == 0,
        shown_width(State::Digital(Level::High)) == 0,
        shown_width(State::Pwm(width)) == width.micros(),
{
}

/// What the store shows of an output tells what it does, as far as a pulse has a width.
pub proof fn what_is_shown_tells_outputs_apart(a: State, b: State)
    requires
        a matches State::Pwm(width) ==> width.micros() > 0,
        b matches State::Pwm(width) ==> width.micros() > 0,
        shown_level(a) == shown_level(b),
        shown_width(a) == shown_width(b),
    ensures
        a == b,
{
    if let State::Pwm(width) = a {
        a_pulse_width_is_its_micros(width, 0);
    }
    if let State::Pwm(width) = b {
        a_pulse_width_is_its_micros(width, 0);
    }
}

/// A shaft is declared to be somewhere when either of the two is.
pub proof fn either_shaft_can_be_declared(pending: Pending)
    ensures
        declares_a_position(pending) <==> exists|id: StepperId| (
        #[trigger] pending.stepper_zero.at(id)) is Some,
{
    assert forall|id: StepperId| (#[trigger] pending.stepper_zero.at(id)) is Some implies declares_a_position(
        pending,
    ) by {
        assert(id == StepperId::Stepper0 || id == StepperId::Stepper1);
    }
}

/// What is written to the store reaches the next tick, and only that one: the command of every valve
/// and whether it is fresh, the direct write of every output and how it was written, and the
/// configuration. The tick after it finds nothing pending any more, and requests to commit or reset
/// stay for the task that does them.
pub proof fn a_write_is_acted_on_once(
    first: Store,
    second: Store,
    third: Store,
    sampled: Sampled,
    later: Sampled,
    inputs: TickInputs,
    next: TickInputs,
    valve: ValveId,
    hco: HcoId,
)
    requires
        gathered(first, sampled, inputs, second),
        gathered(second, later, next, third),
    ensures
        inputs.commanded.at(valve) == first.valve_commanded.at(valve),
        inputs.pending.valves.at(valve) == first.pending.valves.at(valve),
        inputs.raw_debug == first.raw_debug,
        inputs.pending.config == first.pending.config,
        first.pending.outputs ==> (inputs.direct_writes matches Some(writes) && {
            &&& writes.dirty.at(hco) == first.hco_direct_dirty.at(hco)
            &&& !first.hco_direct_pwm.at(hco) ==> (writes.state(hco.position()) == State::Digital(
                Level::Low,
            ) <==> first.hco_digital.at(hco) == 0)
            &&& first.hco_direct_pwm.at(hco) && 500 <= first.hco_pwm_us.at(hco) <= 2500 ==> (
            writes.state(hco.position()) matches State::Pwm(width) && width.micros()
                == first.hco_pwm_us.at(hco))
        }),
        !first.pending.outputs ==> inputs.direct_writes is None,
        inputs.since_heartbeat == sampled.since_heartbeat && inputs.seen == sampled.seen
            && inputs.now == sampled.now && inputs.rails == sampled.rails && inputs.heater_ntc
            == sampled.heater_ntc,
        next.direct_writes is None,
        !next.pending.config,
        !next.pending.valves.at(valve),
        next.commanded.at(valve) == first.valve_commanded.at(valve),
        third.pending.save == first.pending.save && third.pending.restore == first.pending.restore,
{
    hco.position_in_range();
    valve.position_in_range();
    if let Some(writes) = inputs.direct_writes {
        if writes.is_pwm.at(hco) {
            a_pulsed_write_is_its_width(writes, hco);
        } else {
            a_digital_write_of_zero_is_low(writes, hco);
        }
    }
}

/// What a tick decided and saw is what the node broadcasts after it: every valve's target, where it was
/// measured to be and its current, which is zero where there is none; every output, as zero while it
/// is low, 0x8000 while it is high and the width of its pulse otherwise; and the link.
pub proof fn a_tick_is_broadcast(
    before: Store,
    inputs: TickInputs,
    arbitration: Arbitration,
    measured: PerValve<u16>,
    statuses: PerValve<u8>,
    outcome: TickOutcome,
    hco: Seq<State>,
    steps: Option<PerStepper<i32>>,
    after: Store,
    k: int,
)
    requires
        written_back(
            before,
            inputs,
            arbitration,
            measured,
            statuses,
            outcome,
            hco,
            steps,
            after,
        ),
        0 <= k < 4,
    ensures
        ({
            let bytes = shown_payload(after, TpdoKind::ValveTarget);
            bytes[2 * k] + 256 * bytes[2 * k + 1] == arbitration.targets@[k]
        }),
        ({
            let bytes = shown_payload(after, TpdoKind::ValveMeasured);
            bytes[2 * k] + 256 * bytes[2 * k + 1] == measured@[k]
        }),
        ({
            let bytes = shown_payload(after, TpdoKind::ValveCommanded);
            bytes[2 * k] + 256 * bytes[2 * k + 1] == before.valve_commanded@[k]
        }),
        ({
            let bytes = shown_payload(after, TpdoKind::ValveCurrent);
            bytes[2 * k] + 256 * bytes[2 * k + 1] == match arbitration.currents@[k] {
                Some(ma) => ma as int,
                None => 0,
            }
        }),
        ({
            let bytes = shown_payload(after, TpdoKind::HcoState);
            let word = bytes[2 * k] + 256 * bytes[2 * k + 1];
            match hco[k] {
                State::Digital(Level::Low) => word == 0,
                State::Digital(Level::High) => word == 0x8000,
                State::Pwm(width) => width.micros() > 0 ==> word == width.micros(),
            }
        }),
        ({
            let bytes = shown_payload(after, TpdoKind::Status);
            &&& bytes[0] == arbitration.link as u8
            &&& bytes[4] + 256 * bytes[5] + 65536 * bytes[6] + 16777216 * bytes[7]
                == inputs.since_heartbeat
        }),
{
    a_valve_frame_carries_its_field(after, k);
    an_output_frame_carries_its_outputs(after, k);
    a_status_frame_carries_the_link(after, ValveId::Valve0);
}

/// What a tick saw that is not broadcast can be read: the heater and what it stays commanded to, the
/// pads, the relief loop, the statuses, the LEDs if they changed, the rails if they were read and the
/// step counters, which are zero on a board without a step port. The configuration, what is pending
/// and what the other tasks keep is left alone.
pub proof fn a_tick_can_be_read(
    before: Store,
    inputs: TickInputs,
    arbitration: Arbitration,
    measured: PerValve<u16>,
    statuses: PerValve<u8>,
    outcome: TickOutcome,
    hco: Seq<State>,
    steps: Option<PerStepper<i32>>,
    after: Store,
    id: StepperId,
)
    requires
        written_back(
            before,
            inputs,
            arbitration,
            measured,
            statuses,
            outcome,
            hco,
            steps,
            after,
        ),
    ensures
        after.heater_milli_c == outcome.heater_milli_c,
        after.heater_raw == outcome.heater_raw,
        after.heater_state == outcome.heater_state,
        after.heater_mode == outcome.heater_mode,
        after.heating_state == outcome.heating_states,
        after.relief_state == outcome.relief_state,
        after.valve_status == statuses,
        outcome.leds matches Some(leds) ==> (after.leds % 2 == 1 <==> leds.red) && (after.leds / 2 % 2
            == 1 <==> leds.yellow) && (after.leds / 4 == 1 <==> leds.white),
        outcome.leds is None ==> after.leds == before.leds,
        inputs.rails matches Some(rails) ==> after.rail_current_ma == rails.current_ma
            && after.rail_voltage_mv == rails.voltage_mv,
        inputs.rails is None ==> after.rail_current_ma == before.rail_current_ma
            && after.rail_voltage_mv == before.rail_voltage_mv,
        after.stepper_position_steps.at(id) == match steps {
            Some(steps) => steps.at(id),
            None => 0,
        },
        after.config == before.config,
        after.pending == before.pending,
        after.raw_debug == before.raw_debug,
        after.sensor_value == before.sensor_value,
        after.raw_adc == before.raw_adc,
        after.error_counters == before.error_counters,
        after.hco_direct_dirty == before.hco_direct_dirty,
{
    id.position_in_range();
    if let Some(leds) = outcome.leds {
        crate::leds::each_led_has_its_own_bit(leds);
    }
}

/// A shaft that is declared to be somewhere is there, and one that is not declared stays where it was.
/// Declaring either ends what both were doing, and without a declaration nothing changes.
pub proof fn a_declared_shaft_is_there(
    before: StepperPort,
    pending: Pending,
    after: StepperPort,
    id: StepperId,
    other: StepperId,
)
    requires
        re_zeroed(before, pending, after, id),
    ensures
        pending.stepper_zero.at(id) matches Some(steps) ==> after.steps().at(id) == steps,
        pending.stepper_zero.at(id) is None ==> after.steps().at(id) == before.steps().at(id),
        pending.stepper_zero.at(other) is Some ==> after.steps().owed(id) == 0
            && !after.is_running(),
        pending.stepper_zero.at(StepperId::Stepper0) is None && pending.stepper_zero.at(
            StepperId::Stepper1,
        ) is None ==> after.steps().owed(id) == before.steps().owed(id) && after.is_running()
            == before.is_running(),
        after.steps().heads_up(id) == before.steps().heads_up(id),
{
    either_shaft_can_be_declared(pending);
}

/// A planner starts over when its own shaft was declared or the configuration changed, and at no other
/// time.
pub proof fn a_planner_starts_over_for_its_own_shaft(pending: Pending, id: StepperId)
    ensures
        pending.config ==> starts_over(pending, id),
        pending.stepper_zero.at(id) is Some ==> starts_over(pending, id),
        !pending.config && pending.stepper_zero.at(id) is None ==> !starts_over(pending, id),
{
}

/// An actuator without a plan holds: its command moves it nowhere. With one it does what is planned.
pub proof fn an_actuator_without_a_plan_holds(position: i32, planned: StepCommand, fitted: bool)
    ensures
        planned_or_held(Some(planned), position) == planned,
        planned_or_held(None, position).target_steps == position,
        planned_or_held(None, position).step_hz == 0,
        !moves(fitted, planned_or_held(None, position), position),
{
}

/// The thermostat holds the configured setpoint, in hundredths of a degree: a pad that is colder by
/// more than the hysteresis heats, one that is warmer by more than it does not.
pub proof fn the_heater_holds_the_configured_setpoint(
    state: HeaterState,
    pad: HeaterConfig,
    inputs: TickInputs,
    milli_c: i32,
)
    requires
        milli_c != i32::MIN,
        pad.hysteresis_milli_c >= 0,
    ensures
        milli_c < 10 * inputs.config.heater_setpoint_centi_c - pad.hysteresis_milli_c ==> heater_after(
            state,
            pad,
            HeaterMode::Thermostat,
            inputs.setpoint_milli_c(),
            milli_c,
        ) == HeaterState::Heating,
        milli_c > 10 * inputs.config.heater_setpoint_centi_c + pad.hysteresis_milli_c ==> heater_after(
            state,
            pad,
            HeaterMode::Thermostat,
            inputs.setpoint_milli_c(),
            milli_c,
        ) == HeaterState::Idle,
{
}

/// A change of the configuration switches everything off at once, except what is held by hand.
pub proof fn a_new_configuration_switches_off(overrides: Seq<Option<State>>, hco: HcoId)
    requires
        overrides.len() == 4,
    ensures
        overrides[hco.position()] is None ==> overlaid(all_low(), overrides)[hco.position()]
            == State::Digital(Level::Low),
        overrides[hco.position()] matches Some(state) ==> overlaid(all_low(), overrides)[
            hco.position()] == state,
{
    hco.position_in_range();
}

/// The heater has its pair to itself through the whole tick: outside raw debug mode, and unless a hand
/// is on it, each of its outputs is high exactly while the heater is on, whatever valves, pads and
/// direct writes ask of it.
pub proof fn a_tick_heats_the_heaters_pair(
    direct: Seq<State>,
    overrides: Seq<Option<State>>,
    inputs: TickInputs,
    drives: Seq<ValveDrive>,
    thermostats: Seq<Heating>,
    pad: HeaterConfig,
    heating: bool,
    hco: HcoId,
)
    requires
        direct.len() == 4,
        overrides[hco.position()] is None,
        !inputs.raw_debug,
        (pad.pair == HcoPair::A) == (hco == HcoId::Hco0 || hco == HcoId::Hco1),
    ensures
        pushed_after(direct, overrides, inputs, drives, thermostats, Some(pad), heating)[
            hco.position()] == if heating {
            State::Digital(Level::High)
        } else {
            State::Digital(Level::Low)
        },
{
    hco.position_in_range();
    all_four_stay(direct, inputs.config.valves@, drives, 4);
    let valved = all_driven(direct, inputs.config.valves@, drives, 4);
    all_four_stay_padded(valved, inputs.config.heating@, thermostats, 4);
    the_heaters_pair_follows_the_heater(
        all_padded(valved, inputs.config.heating@, thermostats, 4),
        pad,
        heating,
        hco,
    );
}

/// A pad has its outputs over valves and direct writes through the whole tick: outside raw debug mode,
/// where no other pad, heater or hand has the output, it is high exactly while the pad's thermostat
/// heats.
pub proof fn a_tick_heats_the_pads(
    direct: Seq<State>,
    overrides: Seq<Option<State>>,
    inputs: TickInputs,
    drives: Seq<ValveDrive>,
    thermostats: Seq<Heating>,
    heating: bool,
    v: int,
    hco: HcoId,
)
    requires
        direct.len() == 4,
        overrides[hco.position()] is None,
        !inputs.raw_debug,
        0 <= v < 4,
        inputs.config.heating@[v].hco is Some,
        inputs.config.heating@[v].sensor is Some,
        inputs.config.heating@[v].hco == Some(hco) || inputs.config.heating@[v].also.has(hco),
        forall|u: int|
            0 <= u < 4 && u != v ==> (#[trigger] inputs.config.heating@[u]).hco is None
                || inputs.config.heating@[u].sensor is None || (inputs.config.heating@[u].hco != Some(
                hco,
            ) && !inputs.config.heating@[u].also.has(hco)),
    ensures
        pushed_after(direct, overrides, inputs, drives, thermostats, None, heating)[hco.position()]
            == if thermostats[v].phase() == HeatingState::Heating {
            State::Digital(Level::High)
        } else {
            State::Digital(Level::Low)
        },
{
    hco.position_in_range();
    all_four_stay(direct, inputs.config.valves@, drives, 4);
    let valved = all_driven(direct, inputs.config.valves@, drives, 4);
    each_pad_reaches_its_outputs(valved, inputs.config.heating@, thermostats, v, hco);
}

/// However many valves are folded in, there are four outputs.
proof fn all_four_stay(
    states: Seq<State>,
    valves: Seq<ValveConfig>,
    drives: Seq<ValveDrive>,
    n: nat,
)
    requires
        states.len() == 4,
    ensures
        all_driven(states, valves, drives, n).len() == 4,
    decreases n,
{
    if n > 0 {
        all_four_stay(states, valves, drives, (n - 1) as nat);
    }
}

/// However many pads are folded in, there are four outputs.
proof fn all_four_stay_padded(
    states: Seq<State>,
    pads: Seq<ValveHeatingConfig>,
    thermostats: Seq<Heating>,
    n: nat,
)
    requires
        states.len() == 4,
    ensures
        all_padded(states, pads, thermostats, n).len() == 4,
    decreases n,
{
    if n > 0 {
        all_four_stay_padded(states, pads, thermostats, (n - 1) as nat);
    }
}

/// The store is told the phases by their numbers on the wire, what the heater measured, and what it
/// stays commanded to, which the second fallback stage turns to off; the LEDs only when they changed.
pub proof fn the_store_is_told_of_a_tick(
    outcome: TickOutcome,
    relief: Relief,
    heater: Heater,
    thermostats: Seq<Heating>,
    link: LinkState,
    mode: HeaterMode,
    lit: LedsState,
    lit_before: LedsState,
    i: int,
)
    requires
        tells(outcome, relief, heater, thermostats, link, mode, lit, lit_before),
        0 <= i < 4,
    ensures
        outcome.relief_state == match relief.phase() {
            ReliefState::Idle => 0,
            ReliefState::Relieving => 1,
            ReliefState::Cooldown => 2,
            ReliefState::Inhibited => 3,
            ReliefState::Disabled => 4int,
        },
        outcome.heater_state == match heater.phase() {
            HeaterState::Idle => 0,
            HeaterState::Heating => 1,
            HeaterState::SensorFault => 2,
            HeaterState::Disabled => 3,
            HeaterState::Off => 4,
            HeaterState::Blind => 5int,
        },
        outcome.heating_states@[i] == match thermostats[i].phase() {
            HeatingState::Idle => 0,
            HeatingState::Heating => 1,
            HeatingState::SensorFault => 2,
            HeatingState::Disabled => 3int,
        },
        outcome.heater_milli_c == heater.temperature(),
        outcome.heater_raw == heater.counts(),
        link == LinkState::FallbackB ==> outcome.heater_mode == HeaterMode::Off,
        link != LinkState::FallbackB ==> outcome.heater_mode == mode,
        outcome.leds is Some <==> lit != lit_before,
        outcome.leds matches Some(leds) ==> leds == lit,
{
}

} // verus!
