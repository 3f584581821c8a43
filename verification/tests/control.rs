use io_board::config::{Config, FallbackAction, ReliefConfig, SensorSlotConfig, ValveConfig, ValveHeatingConfig};
use io_board::heating::HeatingState;
use io_board::control::{apply_drive, apply_pad, gather, position_feedback, re_zero, sensed_position, settling_positions, step_commands, stepper_targets, valve_current, write_back, Arbitration, Control, DirectWrites, Sampled, TickInputs, TickOutcome};
use io_board::board::stepper::{StepCommand, StepperPort};
use io_board::hco::{HcoShadow, HcoState, Level, PwmMicros, State};
use io_board::heater::{AnalogPin, HeaterConfig, HeaterMode, HeaterState};
use io_board::index::{AmplifierId, HcoId, HcoPair, I2cBus, PerHco, PerRail, PerSensorSlot, PerStepper, PerValve, SensorSlot, StepperId, ValveId};
use io_board::leds::LedsState;
use io_board::outputs::Outputs;
use io_board::proto::valve::unpowered_at;
use io_board::rail_sense::{NoRails, Rails};
use io_board::store::{LinkState, Pending, Store, SENSOR_INVALID};
use io_board::time::Instant;
use io_board::valves::{ValveDrive, ValveStatus};

fn test_control() -> Control<HcoShadow> {
    Control::new(Outputs::new(HcoShadow::new()), Instant::from_millis(0))
}

/// A pad on the pair of outputs 3 and 4.
fn pad() -> HeaterConfig {
    HeaterConfig::new(HcoPair::B, AnalogPin::Pa6)
}

fn inputs(config: Config, commanded: [u16; 4], now: Instant) -> TickInputs {
    TickInputs {
        config: Config { heater_setpoint_centi_c: 3_000, ..config },
        commanded: PerValve::new(commanded),
        sensor_value: PerSensorSlot::splat(0),
        raw_debug: false,
        pending: Pending::default(),
        direct_writes: None,
        rails: None,
        heater_ntc: None,
        heater_mode: HeaterMode::Thermostat,
        now,
        since_heartbeat: 0,
        seen: true,
        settled_at: PerValve::splat(None),
    }
}

fn servo_on_a() -> Config {
    Config::new().with_valve(ValveId::Valve0, ValveConfig::servo_on_pair(HcoPair::A, 2000, 1000, 500))
}

/// One tick with every valve released by its model.
fn decide(ctl: &mut Control<HcoShadow>, inputs: &TickInputs) -> (Arbitration, TickOutcome) {
    let arbitration = ctl.arbitrate(inputs);
    let outcome = ctl.conclude(inputs, &PerValve::splat(ValveDrive::Released), &PerValve::splat(0));
    (arbitration, outcome)
}

#[test]
fn the_heater_switches_its_output_and_owns_it_over_a_valve() {
    let mut ctl = test_control().with_heater(pad());
    // A solenoid mapped onto the same output loses to the heater.
    let cfg = Config::new().with_valve(ValveId::Valve1, ValveConfig::solenoid_on(HcoId::Hco2));

    let cold = TickInputs {
        heater_ntc: Some(2278), // 20 C
        ..inputs(cfg, [0, 0, 0, 0], Instant::from_millis(0))
    };
    let (_, outcome) = decide(&mut ctl, &cold);
    assert_eq!(ctl.current()[HcoId::Hco2], State::Digital(Level::High));
    assert_eq!(outcome.heater_state, HeaterState::Heating as u8);

    let hot = TickInputs {
        heater_ntc: Some(1614), // 35 C
        ..inputs(cfg, [0, 1000, 0, 0], Instant::from_millis(20))
    };
    ctl.arbitrate(&hot);
    let drives = PerValve::new([
        ValveDrive::Released,
        ValveDrive::Solenoid(true),
        ValveDrive::Released,
        ValveDrive::Released,
    ]);
    ctl.conclude(&hot, &drives, &PerValve::splat(0));
    assert_eq!(ctl.current()[HcoId::Hco2], State::Digital(Level::Low));
}

#[test]
fn a_heater_with_a_broken_ntc_stays_off() {
    let mut ctl = test_control().with_heater(pad());
    let broken = TickInputs {
        heater_ntc: Some(4095),
        ..inputs(Config::new(), [0, 0, 0, 0], Instant::from_millis(0))
    };
    decide(&mut ctl, &broken);
    assert_eq!(ctl.current()[HcoId::Hco2], State::Digital(Level::Low));
}

#[test]
fn raw_debug_hands_the_heater_output_back_to_direct_control() {
    let mut ctl = test_control().with_heater(pad());
    let cold_debug = TickInputs {
        heater_ntc: Some(2278),
        raw_debug: true,
        ..inputs(Config::new(), [0, 0, 0, 0], Instant::from_millis(0))
    };
    decide(&mut ctl, &cold_debug);
    assert_eq!(ctl.current()[HcoId::Hco2], State::Digital(Level::Low), "direct control says off");
}

#[test]
fn raw_debug_direct_write_reaches_a_valve_owned_output() {
    let mut ctl = test_control();
    let cfg = servo_on_a();

    let mut writes_inputs = inputs(cfg, [500, 0, 0, 0], Instant::from_millis(0));
    writes_inputs.raw_debug = true;
    writes_inputs.pending = Pending { outputs: true, ..Pending::default() };
    // HCO1 (valve 0's signal output) gets a direct PWM write, bypassing the valve model.
    writes_inputs.direct_writes = Some(DirectWrites {
        digital: PerHco::splat(0),
        pwm_us: PerHco::new([0, 1800, 0, 0]),
        dirty: PerHco::new([false, true, false, false]),
        is_pwm: PerHco::new([false, true, false, false]),
    });

    ctl.arbitrate(&writes_inputs);
    let mut drives = PerValve::splat(ValveDrive::Released);
    drives[ValveId::Valve0] = ValveDrive::Servo { pulse_us: 1500 };
    ctl.conclude(&writes_inputs, &drives, &PerValve::splat(0));

    assert_eq!(
        ctl.current()[HcoId::Hco1],
        State::Pwm(PwmMicros::from_u16_clamped(1800)),
        "the override must win even though valve 0 owns this output"
    );

    // Leaving raw debug mode hands the output back at once.
    let left = inputs(cfg, [500, 0, 0, 0], Instant::from_millis(20));
    ctl.arbitrate(&left);
    ctl.conclude(&left, &drives, &PerValve::splat(0));
    assert_eq!(ctl.current()[HcoId::Hco1], State::Pwm(PwmMicros::from_u16_clamped(1500)));
}

#[test]
fn a_heartbeat_timeout_drives_every_valve_to_its_fallback_a_position() {
    let mut ctl = test_control();
    let cfg = servo_on_a();
    assert_eq!(cfg.fallback_a_ms, 3_000, "test assumes the factory-default timeout");

    // Alive, commanded open.
    decide(&mut ctl, &inputs(cfg, [1000, 0, 0, 0], Instant::from_millis(0)));

    // The master goes quiet past the stage-A timeout: the commanded position stops mattering.
    let mut timed_out = inputs(cfg, [1000, 0, 0, 0], Instant::from_millis(3_020));
    timed_out.since_heartbeat = 3_020;
    let (outcome, _) = decide(&mut ctl, &timed_out);

    assert_eq!(outcome.link, LinkState::FallbackA);
    assert_eq!(outcome.targets[ValveId::Valve0], 0, "default fallback A action is fully closed");
}

/// A valve held at the stage A position has not been to the stage B position, however long it has
/// been sitting still.
#[test]
fn stage_b_re_drives_a_valve_stage_a_was_holding() {
    let mut ctl = test_control();
    let hold_closed = ValveConfig {
        fallback_a: FallbackAction { position: 0, unpower: false },
        ..ValveConfig::servo_on_pair(HcoPair::A, 2000, 1000, 500)
    };
    let cfg = Config::new().with_valve(ValveId::Valve0, hold_closed);

    // The valve reaches the stage A position and sits there from then on: asked about that position
    // its model says yes, about any other no.
    let mut tick = |ms: u64| {
        let mut i = inputs(cfg, [1000, 0, 0, 0], Instant::from_millis(ms));
        i.since_heartbeat = ms as u32;
        let asked = settling_positions(&i)[ValveId::Valve0];
        i.settled_at[ValveId::Valve0] = asked.filter(|position| *position == 0 && ms > 5_000);
        (decide(&mut ctl, &i).0, asked)
    };

    // Stage A: closed and held, well past the settle time.
    let (outcome, asked) = tick(3_020);
    assert_eq!(asked, Some(0));
    assert_eq!(outcome.link, LinkState::FallbackA);
    assert_eq!(outcome.targets[ValveId::Valve0], 0);
    tick(10_000);

    let (outcome, asked) = tick(300_020);
    assert_eq!(asked, Some(1000), "the stage's own position is what counts");
    assert_eq!(outcome.link, LinkState::FallbackB);
    assert_eq!(outcome.targets[ValveId::Valve0], 1000, "stage B has to vent before it releases");
}

#[test]
fn relief_overrides_a_fallback_driven_target() {
    let mut ctl = test_control();
    let cfg = servo_on_a().with_relief(ReliefConfig::new(ValveId::Valve0, SensorSlot::Slot0, 500));

    // Past the fallback timeout *and* over the relief threshold on the watched slot: without
    // relief this tick would target the fallback-A position (closed, 0).
    let mut over_pressure = inputs(cfg, [0, 0, 0, 0], Instant::from_millis(3_020));
    over_pressure.since_heartbeat = 3_020;
    over_pressure.sensor_value[SensorSlot::Slot0] = 600;

    let (outcome, _) = decide(&mut ctl, &over_pressure);

    assert_eq!(outcome.targets[ValveId::Valve0], 1000, "relief must win over the fallback stage");
}

#[test]
fn a_stage_releases_a_valve_only_once_it_has_settled_there() {
    let mut ctl = test_control();
    let cfg = servo_on_a();
    let mut stage_b = |ms: u64, settled_at: Option<u16>| {
        let mut i = inputs(cfg, [0, 0, 0, 0], Instant::from_millis(ms));
        i.since_heartbeat = ms as u32;
        i.settled_at[ValveId::Valve0] = settled_at;
        decide(&mut ctl, &i).0.targets[ValveId::Valve0]
    };
    assert_eq!(stage_b(300_020, None), 1000);
    assert_eq!(stage_b(300_600, Some(0)), 1000, "having settled elsewhere does not count");
    assert_eq!(stage_b(301_100, Some(1000)), unpowered_at(1000));
    assert_eq!(stage_b(301_120, None), unpowered_at(1000), "and it stays released");
}

#[test]
fn a_fresh_command_re_arms_a_valve_within_a_stage() {
    let mut ctl = test_control();
    let mut i = inputs(servo_on_a(), [0, 0, 0, 0], Instant::from_millis(3_020));
    i.since_heartbeat = 3_020;
    i.settled_at[ValveId::Valve0] = Some(0);
    assert_eq!(decide(&mut ctl, &i).0.targets[ValveId::Valve0], unpowered_at(0));
    i.settled_at[ValveId::Valve0] = None;
    i.pending.valves[ValveId::Valve0] = true;
    assert_eq!(decide(&mut ctl, &i).0.targets[ValveId::Valve0], 0);
}

#[test]
fn a_command_is_held_to_the_valve_range_and_keeps_its_release_flag() {
    let mut ctl = test_control();
    let mut valve = ValveConfig::servo_on_pair(HcoPair::A, 2000, 1000, 500);
    valve.min_promille = 100;
    valve.max_promille = 900;
    let cfg = Config::new().with_valve(ValveId::Valve0, valve);
    let t = |ctl: &mut Control<HcoShadow>, word: u16| {
        decide(ctl, &inputs(cfg, [word, 0, 0, 0], Instant::from_millis(0))).0.targets[ValveId::Valve0]
    };
    assert_eq!(t(&mut ctl, 1000), 900);
    assert_eq!(t(&mut ctl, 0), 100);
    assert_eq!(t(&mut ctl, unpowered_at(950)), unpowered_at(900));
    assert_eq!(t(&mut ctl, 500), 500);
}

#[test]
fn a_fresh_command_takes_its_outputs_back_from_an_override() {
    let mut ctl = test_control();
    let mut i = inputs(servo_on_a(), [500, 0, 0, 0], Instant::from_millis(0));
    i.raw_debug = true;
    i.direct_writes = Some(DirectWrites {
        digital: PerHco::splat(1),
        pwm_us: PerHco::splat(0),
        dirty: PerHco::new([true, false, true, false]),
        is_pwm: PerHco::splat(false),
    });
    decide(&mut ctl, &i);
    assert_eq!(ctl.current()[HcoId::Hco0], State::Digital(Level::High), "overridden by hand");
    assert_eq!(ctl.current()[HcoId::Hco2], State::Digital(Level::High), "nobody owns it");

    i.direct_writes = None;
    i.pending.valves[ValveId::Valve0] = true;
    decide(&mut ctl, &i);
    assert_eq!(ctl.current()[HcoId::Hco0], State::Digital(Level::Low), "the released valve has it back");
    assert_eq!(ctl.current()[HcoId::Hco2], State::Digital(Level::High));
}

#[test]
fn a_changed_configuration_drops_every_direct_output() {
    let mut ctl = test_control();
    let mut i = inputs(Config::new(), [0; 4], Instant::from_millis(0));
    i.direct_writes = Some(DirectWrites {
        digital: PerHco::splat(1),
        pwm_us: PerHco::splat(0),
        dirty: PerHco::splat(true),
        is_pwm: PerHco::splat(false),
    });
    decide(&mut ctl, &i);
    assert_eq!(ctl.current().as_array(), &[State::Digital(Level::High); 4]);
    i.direct_writes = None;
    i.pending.config = true;
    decide(&mut ctl, &i);
    assert_eq!(ctl.current().as_array(), &[State::Digital(Level::Low); 4]);
}

#[test]
fn stage_b_switches_the_heater_off_and_resets_its_command() {
    let mut ctl = test_control().with_heater(pad());
    let mut i = inputs(Config::new(), [0; 4], Instant::from_millis(0));
    i.heater_mode = HeaterMode::Blind;
    i.since_heartbeat = 3_020;
    let (_, outcome) = decide(&mut ctl, &i);
    assert_eq!(outcome.heater_mode, HeaterMode::Blind, "stage A keeps the commanded mode");
    assert_eq!(ctl.current()[HcoId::Hco3], State::Digital(Level::High));
    i.since_heartbeat = 300_020;
    let (_, outcome) = decide(&mut ctl, &i);
    assert_eq!(outcome.heater_mode, HeaterMode::Off);
    assert_eq!(outcome.heater_state, HeaterState::Off as u8);
    assert_eq!(ctl.current()[HcoId::Hco3], State::Digital(Level::Low));
}

#[test]
fn the_leds_say_what_is_wrong_and_only_when_it_changes() {
    let mut ctl = test_control();
    let i = inputs(Config::new(), [0; 4], Instant::from_millis(0));
    assert_eq!(decide(&mut ctl, &i).1.leds, None, "alive, and nothing wrong");

    let mut stalled = i;
    stalled.now = Instant::from_millis(500);
    ctl.arbitrate(&stalled);
    let mut statuses = PerValve::splat(0);
    statuses[ValveId::Valve3] = ValveStatus::Stalled as u8;
    let outcome = ctl.conclude(&stalled, &PerValve::splat(ValveDrive::Released), &statuses);
    assert_eq!(outcome.leds, Some(LedsState { red: true, yellow: false, white: true }));

    let mut quiet = i;
    quiet.since_heartbeat = 3_000;
    quiet.now = Instant::from_millis(999);
    assert_eq!(decide(&mut ctl, &quiet).1.leds, Some(LedsState { red: false, yellow: true, white: true }));
    assert_eq!(LedsState { red: true, yellow: false, white: true }.as_byte(), 0b101);
    assert_eq!(LedsState::from([false, true, true]).as_byte(), 0b110);
}

#[test]
fn a_position_sensor_is_believed_only_in_range() {
    let cfg = ValveConfig::servo_on_pair(HcoPair::A, 2000, 1000, 500).with_position_sensor(SensorSlot::Slot2);
    let mut values = PerSensorSlot::splat(0i16);
    for (reading, expected) in [(120, Some(120)), (1500, Some(1000)), (-1, None), (SENSOR_INVALID, None)] {
        values[SensorSlot::Slot2] = reading;
        assert_eq!(sensed_position(&cfg, &values), expected);
    }
    assert_eq!(sensed_position(&ValveConfig::unmapped(), &values), None);
    assert!(SensorSlotConfig::encoder(I2cBus::Bus0, 0, 1024).calib.is_calibrated());
}

#[test]
fn a_valve_is_charged_the_current_of_its_own_pair() {
    let rails = Rails { current_ma: PerRail::new([1, 22, 333]), voltage_mv: PerRail::splat(0) };
    assert_eq!(valve_current(&ValveConfig::solenoid_on(HcoId::Hco1), Some(rails)), Some(22));
    assert_eq!(valve_current(&ValveConfig::solenoid_on(HcoId::Hco2), Some(rails)), Some(333));
    assert_eq!(valve_current(&ValveConfig::unmapped(), Some(rails)), None);
    assert_eq!(valve_current(&ValveConfig::solenoid_on(HcoId::Hco1), NoRails.read()), None);
}

#[test]
fn a_drive_reaches_only_the_outputs_of_its_valve() {
    let cfg = ValveConfig::servo_on_pair(HcoPair::B, 2000, 1000, 500);
    let mut desired: HcoState = PerHco::splat(State::Digital(Level::Low));
    apply_drive(&mut desired, &cfg, ValveDrive::Servo { pulse_us: 3000 });
    assert_eq!(
        desired.as_array(),
        &[
            State::Digital(Level::Low),
            State::Digital(Level::Low),
            State::Digital(Level::High),
            State::Pwm(PwmMicros::from_u16_clamped(2500)),
        ]
    );
    apply_drive(&mut desired, &cfg, ValveDrive::Stepper { promille: 700 });
    assert_eq!(desired[HcoId::Hco2], State::Digital(Level::High));
    apply_drive(&mut desired, &cfg, ValveDrive::Released);
    assert_eq!(desired.as_array(), &[State::Digital(Level::Low); 4]);
}

#[test]
fn a_tick_takes_its_intent_from_the_store_and_writes_back_what_it_saw() {
    let mut store = Store::new();
    store.valve_commanded[ValveId::Valve0] = 700;
    store.pending.outputs = true;
    store.pending.save = true;
    store.hco_direct_dirty[HcoId::Hco3] = true;
    store.hco_digital[HcoId::Hco3] = 1;
    let sampled = Sampled {
        rails: Some(Rails { current_ma: PerRail::new([5, 6, 7]), voltage_mv: PerRail::new([8, 9, 10]) }),
        heater_ntc: None,
        now: Instant::from_millis(40),
        since_heartbeat: 12,
        seen: true,
    };
    let i = gather(&mut store, &sampled);
    assert!(i.pending.outputs && i.direct_writes.is_some());
    assert!(!store.pending.outputs && store.pending.save, "a commit is not the control task's to take");
    assert!(!store.hco_direct_dirty[HcoId::Hco3]);

    let mut ctl = test_control();
    let arbitration = ctl.arbitrate(&i);
    let statuses = PerValve::new([ValveStatus::Moving as u8, 0, 0, 0]);
    let outcome = ctl.conclude(&i, &PerValve::splat(ValveDrive::Released), &statuses);
    let measured = PerValve::new([300, 0, 0, 0]);
    write_back(&mut store, &i, &arbitration, &measured, &statuses, &outcome, &ctl.current(), Some(PerStepper::new([40, -3])));
    assert_eq!(store.valve_target[ValveId::Valve0], 700);
    assert_eq!(store.valve_measured[ValveId::Valve0], 300);
    assert_eq!(store.valve_status[ValveId::Valve0], ValveStatus::Moving as u8);
    assert_eq!(store.hco_digital.as_array(), &[0, 0, 0, 1]);
    assert_eq!(store.rail_current_ma.as_array(), &[5, 6, 7]);
    assert_eq!(store.rail_voltage_mv.as_array(), &[8, 9, 10]);
    assert_eq!(store.link_state, LinkState::Alive);
    assert_eq!(store.ms_since_heartbeat, 12);
    assert_eq!(store.heating_state.as_array(), &[HeatingState::Disabled as u8; 4]);
    assert_eq!(store.stepper_position_steps.as_array(), &[40, -3]);

    write_back(&mut store, &i, &arbitration, &measured, &statuses, &outcome, &ctl.current(), None);
    assert_eq!(store.stepper_position_steps.as_array(), &[0, 0]);
}

#[test]
fn an_actuator_without_a_plan_holds_where_it_is() {
    let planned = PerStepper::new([Some(StepCommand { target_steps: 800, step_hz: 400 }), None]);
    let commands = step_commands(&planned, &PerStepper::new([0, -17]));
    assert_eq!(commands[StepperId::Stepper0], StepCommand { target_steps: 800, step_hz: 400 });
    assert_eq!(commands[StepperId::Stepper1], StepCommand { target_steps: -17, step_hz: 0 });
}

#[test]
fn a_declared_position_moves_one_counter_and_restarts_its_planner() {
    let mut port = StepperPort::new(PerStepper::new([true, true]));
    port.set_position_steps(StepperId::Stepper0, 12);
    let mut pending = Pending::default();
    pending.stepper_zero[StepperId::Stepper1] = Some(-400);

    let restart = re_zero(&mut port, &pending);

    assert_eq!(port.position_steps(StepperId::Stepper0), 12);
    assert_eq!(port.position_steps(StepperId::Stepper1), -400);
    assert_eq!(restart, PerStepper::new([false, true]));
    assert!(!port.pulse().still_owed);

    let changed = Pending { config: true, ..Pending::default() };
    assert_eq!(re_zero(&mut port, &changed), PerStepper::new([true, true]));
    assert_eq!(port.position_steps(StepperId::Stepper1), -400);
}

#[test]
fn a_position_sensor_is_trusted_before_a_step_counter() {
    let counted = Some(PerStepper::new([250, 500]));
    assert_eq!(position_feedback(Some(7), Some(StepperId::Stepper1), counted), Some(7));
    assert_eq!(position_feedback(None, Some(StepperId::Stepper1), counted), Some(500));
    assert_eq!(position_feedback(None, Some(StepperId::Stepper0), counted), Some(250));
    assert_eq!(position_feedback(None, None, counted), None);
    assert_eq!(position_feedback(None, Some(StepperId::Stepper0), None), None);
}

#[test]
fn an_actuator_is_asked_for_what_its_valve_wants() {
    let mut drives = PerValve::splat(ValveDrive::Released);
    let mut driven_by = PerValve::splat(None);
    driven_by[ValveId::Valve0] = Some(StepperId::Stepper1);
    driven_by[ValveId::Valve1] = Some(StepperId::Stepper0);
    drives[ValveId::Valve0] = ValveDrive::Stepper { promille: 640 };
    drives[ValveId::Valve1] = ValveDrive::Servo { pulse_us: 1500 };
    drives[ValveId::Valve2] = ValveDrive::Stepper { promille: 10 };

    assert_eq!(stepper_targets(&drives, &driven_by), PerStepper::new([None, Some(640)]));

    driven_by[ValveId::Valve2] = Some(StepperId::Stepper1);
    assert_eq!(stepper_targets(&drives, &driven_by), PerStepper::new([None, Some(10)]));
}

/// A declared position ends the move under way, of both actuators.
#[test]
fn a_declared_position_drops_the_move() {
    let mut port = StepperPort::new(PerStepper::new([true, true]));
    let far = StepCommand { target_steps: 800, step_hz: 400 };
    assert!(port.command(far, far).start.is_some());
    let mut pending = Pending::default();
    re_zero(&mut port, &pending);
    assert!(port.is_repeat(far, far), "nothing was declared, so the move goes on");

    pending.stepper_zero[StepperId::Stepper0] = Some(100);
    re_zero(&mut port, &pending);
    assert!(!port.is_repeat(far, far));
    assert!(!port.pulse().still_owed);
    assert_eq!(port.position_steps(StepperId::Stepper0), 100);
    assert_eq!(port.position_steps(StepperId::Stepper1), 0);
    let plan = port.command(far, StepCommand::hold());
    assert!(plan.start.is_some(), "and the next command starts afresh");
}

/// A pad on outputs 3 and 4 around valve 0's thermistor in slot 1, set to 30 degrees.
fn padded_config() -> Config {
    servo_on_a()
        .with_sensor(SensorSlot::Slot1, SensorSlotConfig::pt1000(I2cBus::Bus0, AmplifierId::Amp0))
        .with_valve_heating(
            ValveId::Valve0,
            ValveHeatingConfig::new(HcoId::Hco2, SensorSlot::Slot1, 3_000).also_on(HcoId::Hco3),
        )
}

#[test]
fn a_pad_follows_the_slot_it_watches() {
    let mut ctl = test_control();
    let cfg = padded_config();
    assert_eq!(cfg.sanity_check(), Ok(()));
    let mut tick = |ms: u64, reading: i16| {
        let mut i = inputs(cfg, [0, 0, 0, 0], Instant::from_millis(ms));
        i.sensor_value[SensorSlot::Slot1] = reading;
        let (_, outcome) = decide(&mut ctl, &i);
        let outputs = ctl.current();
        (outputs[HcoId::Hco2], outputs[HcoId::Hco3], outcome.heating_states[ValveId::Valve0])
    };
    let on = State::Digital(Level::High);
    let off = State::Digital(Level::Low);
    assert_eq!(tick(0, 2_000), (on, on, HeatingState::Heating as u8));
    assert_eq!(tick(20, 3_050), (on, on, HeatingState::Heating as u8), "still climbing through the band");
    assert_eq!(tick(40, 3_200), (off, off, HeatingState::Idle as u8));
    assert_eq!(tick(60, 2_000), (on, on, HeatingState::Heating as u8));
    assert_eq!(tick(80, SENSOR_INVALID), (off, off, HeatingState::SensorFault as u8));
}

#[test]
fn a_pad_owns_its_outputs_except_in_raw_debug() {
    let mut ctl = test_control();
    let mut i = inputs(padded_config(), [0, 0, 0, 0], Instant::from_millis(0));
    i.sensor_value[SensorSlot::Slot1] = 3_500;
    i.pending.outputs = true;
    i.direct_writes = Some(DirectWrites {
        digital: PerHco::new([0, 0, 1, 0]),
        pwm_us: PerHco::splat(0),
        dirty: PerHco::new([false, false, true, false]),
        is_pwm: PerHco::splat(false),
    });
    decide(&mut ctl, &i);
    assert_eq!(ctl.current()[HcoId::Hco2], State::Digital(Level::Low), "too warm, whatever was written");
    i.raw_debug = true;
    decide(&mut ctl, &i);
    assert_eq!(ctl.current()[HcoId::Hco2], State::Digital(Level::High));
}

/// A pad that lacks its slot has no outputs, so a valve may use them.
#[test]
fn an_unfitted_pad_leaves_its_outputs_alone() {
    let mut pad = ValveHeatingConfig::new(HcoId::Hco0, SensorSlot::Slot1, 3_000).disabled();
    pad.sensor = None;
    let mut states: HcoState = PerHco::splat(State::Digital(Level::High));
    apply_pad(&mut states, &pad, false);
    assert_eq!(states, PerHco::splat(State::Digital(Level::High)));
    apply_pad(&mut states, &ValveHeatingConfig::new(HcoId::Hco0, SensorSlot::Slot1, 3_000), false);
    assert_eq!(states[HcoId::Hco0], State::Digital(Level::Low));
    assert_eq!(states[HcoId::Hco1], State::Digital(Level::High));
}

#[test]
fn the_heater_log_shows_what_to_calibrate_by() {
    let mut ctl = test_control().with_heater(pad().with_offset_milli_c(-3_000));
    let mut tick = |ms: u64| {
        let i = TickInputs { heater_ntc: Some(1825), ..inputs(Config::new(), [0; 4], Instant::from_millis(ms)) };
        decide(&mut ctl, &i).1.heater_log
    };
    let line = tick(0).expect("the first tick is logged");
    assert_eq!((line.raw, line.uncalibrated_milli_c, line.offset_milli_c, line.milli_c), (1825, 30_000, -3_000, 27_000));
    assert_eq!(line.state, HeaterState::Heating);
    assert!(tick(20).is_none());
    assert!(tick(1_000).is_some());
    assert!(decide(&mut test_control(), &inputs(Config::new(), [0; 4], Instant::from_millis(0))).1.heater_log.is_none());
}

/// A range that no command fits only matters where a command is held to it.
#[test]
fn an_empty_range_does_not_hinder_a_fallback_stage() {
    let mut ctl = test_control();
    let mut cfg = servo_on_a();
    cfg.valves[ValveId::Valve0].min_promille = 900;
    cfg.valves[ValveId::Valve0].max_promille = 100;
    for valve in [ValveId::Valve1, ValveId::Valve2, ValveId::Valve3] {
        cfg.valves[valve].min_promille = 0;
    }
    let mut i = inputs(cfg, [500, 0, 0, 0], Instant::from_millis(3_020));
    i.since_heartbeat = 3_020;
    assert_eq!(decide(&mut ctl, &i).0.targets[ValveId::Valve0], 0);
}

/// The heater's setpoint is configuration: hundredths of a degree.
#[test]
fn the_heater_holds_the_configured_setpoint() {
    let mut ctl = test_control().with_heater(pad());
    let mut i = inputs(Config::new(), [0; 4], Instant::from_millis(0));
    i.heater_ntc = Some(2278); // 20 C
    i.config.heater_setpoint_centi_c = 1_500;
    assert_eq!(decide(&mut ctl, &i).1.heater_state, HeaterState::Idle as u8);
    i.config.heater_setpoint_centi_c = 2_150;
    assert_eq!(decide(&mut ctl, &i).1.heater_state, HeaterState::Heating as u8);
    i.config = Config::new();
    assert_eq!(decide(&mut ctl, &i).1.heater_state, HeaterState::Idle as u8, "unset, it asks for no heat");
}
