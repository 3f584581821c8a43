use io_board::board::on_board_sens::{heater_ntc_counts, rails_from, reading_v_to_current_ma, reading_v_to_system_v, RailReadings, Reference};
use io_board::board::pwm::{always_pulsed_interrupt, channel_drives, mixed_plan, soft_pwm_interrupt, ChannelDrive, PinActions, SoftPin, TimerFlags, PULSE_OFF};
use io_board::board::stepper::{start_values, StepCommand, StepperPort};
use io_board::hco::{HcoControl, HcoShadow, HcoState, Level, PwmMicros, State};
use io_board::index::{HcoId, PerHco, PerStepper, StepperId};
use io_board::outputs::{digital, pwm, Outputs};

fn pulse(us: u16) -> State {
    State::Pwm(PwmMicros::from_u16_clamped(us))
}

#[test]
fn pulse_widths_are_clamped_or_refused() {
    assert_eq!(PwmMicros::from_u16_clamped(0).as_u16(), 500);
    assert_eq!(PwmMicros::from_u16_clamped(9999).as_u16(), 2500);
    assert_eq!(PwmMicros::try_from(1500), Ok(PwmMicros::from_u16_clamped(1500)));
    assert_eq!(PwmMicros::try_from(499), Err(()));
    assert_eq!(PwmMicros::try_from(2501), Err(()));
    assert_eq!(u16::from(PwmMicros::from_u16_clamped(700)), 700);
    assert_eq!(PwmMicros::default().as_u16(), 0);
    assert_eq!((Level::from(true), Level::from(false)), (Level::High, Level::Low));
    assert_eq!((Level::High.as_u8(), Level::default().as_u8()), (1, 0));
    assert_eq!(State::default(), State::Digital(Level::Low));
}

#[test]
fn one_output_is_set_at_a_time() {
    let mut shadow = HcoShadow::new();
    shadow.set_level(HcoId::Hco2, Level::High);
    shadow.set_pwm_micros(HcoId::Hco3, 100);
    let expected: HcoState =
        PerHco::new([State::default(), State::default(), State::Digital(Level::High), pulse(500)]);
    assert_eq!(shadow.get_state(), expected);
}

#[test]
fn overrides_lie_over_what_is_desired() {
    let mut outputs = Outputs::new(HcoShadow::new());
    assert!(!outputs.has_overrides());
    outputs.install_override(HcoId::Hco1, pwm(1800));
    assert!(outputs.has_overrides());
    outputs.drive(PerHco::splat(digital(true)));
    assert_eq!(outputs.current()[HcoId::Hco1], pulse(1800));
    assert_eq!(outputs.current()[HcoId::Hco0], State::Digital(Level::High));
    outputs.all_off();
    assert_eq!(outputs.current()[HcoId::Hco0], State::Digital(Level::Low));
    assert_eq!(outputs.current()[HcoId::Hco1], pulse(1800));
    outputs.release_override(HcoId::Hco1);
    outputs.all_off();
    assert_eq!(outputs.current()[HcoId::Hco1], State::Digital(Level::Low));
    outputs.install_override(HcoId::Hco0, digital(true));
    outputs.clear_overrides();
    assert!(!outputs.has_overrides());
}

#[test]
fn states_become_duty_cycles() {
    let state: HcoState = PerHco::new([digital(true), digital(false), pulse(1500), pulse(2501)]);
    assert_eq!(
        channel_drives(&state),
        [
            ChannelDrive::FullyOn,
            ChannelDrive::FullyOff,
            ChannelDrive::Fraction { num: 750 },
            ChannelDrive::Fraction { num: 1250 },
        ]
    );
}

#[test]
fn a_mixed_board_pulses_its_pins_by_interrupt() {
    let state: HcoState = PerHco::new([pulse(1500), digital(true), digital(true), pulse(501)]);
    let plan = mixed_plan(&state);
    assert_eq!(plan.out1, SoftPin { pulse_us: 1500, level: None });
    assert_eq!(plan.out2, SoftPin { pulse_us: PULSE_OFF, level: Some(Level::High) });
    assert_eq!(plan.out4, ChannelDrive::Fraction { num: 250 });
    assert!(plan.update_interrupt && plan.compare1_interrupt && !plan.compare2_interrupt);
    let still = mixed_plan(&PerHco::splat(digital(false)));
    assert!(!still.update_interrupt);
}

#[test]
fn the_interrupt_raises_and_lowers_only_pulsed_pins() {
    let begun = TimerFlags { update: true, compare1: false, compare2: false };
    let (first, second) = soft_pwm_interrupt(begun, 1500, PULSE_OFF);
    assert_eq!(first, PinActions { set_compare: Some(1500), raise: true, lower: false });
    assert_eq!(second, PinActions { set_compare: None, raise: false, lower: false });
    let over = TimerFlags { update: false, compare1: true, compare2: true };
    let (first, second) = soft_pwm_interrupt(over, 1500, PULSE_OFF);
    assert!(first.lower && !second.lower);
    let (_, second) = always_pulsed_interrupt(over, 1500, 1600);
    assert_eq!(second, PinActions { set_compare: None, raise: false, lower: true });
}

#[test]
fn readings_become_volts_and_amperes() {
    let reference = Reference::new(1489);
    assert_eq!(reference.reading_to_mv(1489), 1200);
    assert_eq!(reference.reading_to_uv(2978), 2_400_000);
    assert_eq!(reading_v_to_system_v(1100), 8600);
    assert_eq!(reading_v_to_current_ma(300), 1000);
    assert_eq!(Reference::new(0).reading_to_mv(4), 4800, "a dead reference counts as one");
    assert_eq!(heater_ntc_counts([4095, 4095, 4095, 4094]), 4094);
    let readings = RailReadings {
        logic_current: None,
        hco12_current: 1489,
        hco34_current: 0,
        logic_voltage: 1489,
        hco12_voltage: 0,
        hco34_voltage: 2978,
    };
    let rails = rails_from(&reference, &readings);
    assert_eq!(rails.current_ma.as_array(), &[0, 4000, 0]);
    assert_eq!(rails.voltage_mv.as_array(), &[9381, 0, 18763]);
}

#[test]
fn a_move_counts_every_pulse_and_stops_exactly() {
    let mut port = StepperPort::new(PerStepper::new([true, true]));
    let go = StepCommand { target_steps: -3, step_hz: 1000 };
    let stay = StepCommand::hold();
    let plan = port.command(go, stay);
    assert_eq!((plan.direction0, plan.direction1), (Some(false), None));
    let start = plan.start.unwrap();
    assert_eq!((start.arr, start.ccr), (999, 995));
    assert!(start.armed0 && !start.armed1);
    assert!(port.is_repeat(go, stay));
    assert!(port.pulse().still_owed);
    assert!(port.pulse().still_owed);
    let last = port.pulse();
    assert!(!last.still_owed && last.park0 && !last.park1);
    assert_eq!(port.position_steps(StepperId::Stepper0), -3);
    port.pulse();
    assert_eq!(port.position_steps(StepperId::Stepper0), -3, "nothing is owed any more");
}

#[test]
fn two_moves_share_the_slower_rate() {
    let mut port = StepperPort::new(PerStepper::new([true, true]));
    let plan = port.command(
        StepCommand { target_steps: 10, step_hz: 2000 },
        StepCommand { target_steps: 2, step_hz: 400 },
    );
    assert_eq!(plan.start.unwrap().arr, 2499);
    port.pulse();
    assert!(port.pulse().park1, "the one that arrives stops on its own");
    // A pulse that finished on the way down is counted, the rest is dropped.
    port.stopped(true);
    assert_eq!(port.position_steps(StepperId::Stepper0), 3);
    assert_eq!(port.position_steps(StepperId::Stepper1), 2);
    port.set_position_steps(StepperId::Stepper0, 800);
    assert_eq!(port.position_steps(StepperId::Stepper0), 800);
    let idle = port.command(StepCommand { target_steps: 800, step_hz: 100 }, StepCommand::hold());
    assert_eq!(idle.start, None);
}

#[test]
fn an_actuator_that_is_not_fitted_never_moves() {
    let mut port = StepperPort::new(PerStepper::new([true, false]));
    let plan = port.command(StepCommand::hold(), StepCommand { target_steps: 5, step_hz: 100 });
    assert_eq!(plan.start, None);
}

#[test]
fn rates_are_brought_into_range() {
    assert_eq!(start_values(1, true, true).arr, 49_999);
    assert_eq!(start_values(1_000_000, true, true).arr, 49);
}

/// An actuator that holds while the other one moves keeps its direction, so its next move still knows
/// what the pin shows.
#[test]
fn a_holding_actuator_keeps_its_direction() {
    let mut port = StepperPort::new(PerStepper::new([true, true]));
    let down = StepCommand { target_steps: -2, step_hz: 100 };
    let plan = port.command(down, StepCommand::hold());
    assert_eq!((plan.direction0, plan.direction1), (Some(false), None));
    port.pulse();
    port.pulse();
    port.stopped(false);

    let plan = port.command(StepCommand { target_steps: -2, step_hz: 0 }, StepCommand { target_steps: 5, step_hz: 100 });
    assert_eq!((plan.direction0, plan.direction1), (None, None));
    port.stopped(false);

    let plan = port.command(StepCommand { target_steps: -6, step_hz: 100 }, StepCommand::hold());
    assert_eq!(plan.direction0, None, "it still heads down");
    port.stopped(false);
    let plan = port.command(StepCommand { target_steps: 0, step_hz: 100 }, StepCommand::hold());
    assert_eq!(plan.direction0, Some(true));
}
