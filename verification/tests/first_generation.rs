use io_board::board::HcOutputsState;
use io_board::can::FrameBody;
use io_board::can_do_id::{PdMessageKind, ProcessDataCanId};
use io_board::canopen_interface::{apply_effect, try_write_to_store, update_store_hco_state, write_and_apply, Applied, CanInterfaceStore, CanOpenInterface, StoreEffect, StoreWrite, StoreWriteError};
use io_board::command_listener::{CommandListener, HcoCommand};
use io_board::ereg::CalibServo;
use io_board::ext_adc::{decode_conversion, AdcMeasurements, ExtAdcReading, ExtAdcs};
use io_board::hco::{Level, PwmMicros, State};
use io_board::high_current_out::{HcoController, HcoState, HighCurrentOutput, PinDrive};
use io_board::board::pwm::ChannelDrive;
use io_board::sensors::{reported, store_raw, SensorKind, SensorMapping, NO_VALUE};

fn frame(bytes: &[u8]) -> FrameBody {
    FrameBody::from_slice(bytes).unwrap()
}

#[test]
fn a_listener_takes_level_and_pulse_commands() {
    let listener = CommandListener::new();
    let level = |sub, value| listener.listen(0x60A, &frame(&[0x4E, 0x20, 0x20, sub, value, 0, 0, 0]));
    assert_eq!(level(0, 1), Some(HcoCommand::SetLevel(HighCurrentOutput::_1, Level::High)));
    assert_eq!(level(3, 0), Some(HcoCommand::SetLevel(HighCurrentOutput::_4, Level::Low)));
    assert_eq!(level(4, 1), None, "no such output");
    let pulse = |command| listener.listen(0x60A, &frame(&[command, 0x21, 0x20, 2, 0xDC, 0x05, 0, 0]));
    assert_eq!(pulse(0x4A), Some(HcoCommand::SetPwmMicros(HighCurrentOutput::_3, 1500)));
    assert_eq!(pulse(0x4E), None, "one byte is not a pulse width");
}

#[test]
fn a_listener_ignores_everything_else() {
    let listener = CommandListener::new();
    let body = [0x4E, 0x20, 0x20, 0, 1, 0, 0, 0];
    assert_eq!(listener.listen(0x60B, &frame(&body)), None, "another node");
    assert_eq!(listener.listen(0x20A, &frame(&body)), None, "not a request");
    assert_eq!(listener.listen(0x60A, &frame(&body[..7])), None, "too short");
    for command in [0x4C, 0x0E, 0x2E, 0x6E, 0x8E, 0xAE, 0xCE, 0xEE] {
        let mut other = body;
        other[0] = command;
        assert_eq!(listener.listen(0x60A, &frame(&other)), None);
    }
    let mut other = body;
    other[1] = 0x22;
    assert_eq!(listener.listen(0x60A, &frame(&other)), None, "no such object");
}

#[test]
fn an_interface_takes_sized_expedited_downloads() {
    let interface = CanOpenInterface::new(10);
    let write = [0x2B, 0x21, 0x20, 2, 0xDC, 0x05, 0, 0];
    assert_eq!(
        interface.listen(0x60A, &frame(&write)),
        Some(StoreWrite { index: 0x2021, sub: 2, data: [0xDC, 0x05, 0, 0], len: 2 })
    );
    assert_eq!(interface.listen(0x60B, &frame(&write)), None);
    assert_eq!(interface.listen(0x58A, &frame(&write)), None, "a response");
    assert_eq!(interface.listen(0x70A, &frame(&[5])), None, "a heartbeat");
    assert_eq!(interface.listen(0x60A, &frame(&[0x40, 0x21, 0x20, 2, 0, 0, 0, 0])), None, "a read");
    assert_eq!(interface.listen(0x60A, &frame(&[0x2A, 0x21, 0x20, 2, 0, 0, 0, 0])), None, "no size");
    assert_eq!(interface.listen(0x60A, &frame(&write[..7])), None);
}

fn empty_store() -> CanInterfaceStore {
    CanInterfaceStore { valves: [0; 4], hco_binary: [0; 4], hco_pwm_us: [0; 4] }
}

#[test]
fn writes_land_in_the_store_and_say_what_they_ask() {
    let mut store = empty_store();
    assert_eq!(
        try_write_to_store(&mut store, 0x2010, 1, &[0xE8, 0x04]),
        Ok(StoreEffect::SetValve { valve: 1, promille: 1000 })
    );
    assert_eq!(store.valves, [0, 1000, 0, 0]);
    assert_eq!(
        try_write_to_store(&mut store, 0x2020, 3, &[7]),
        Ok(StoreEffect::SetLevel { output: HighCurrentOutput::_4, level: Level::High })
    );
    assert_eq!(store.hco_binary, [0, 0, 0, 7]);
    assert_eq!(
        try_write_to_store(&mut store, 0x2021, 0, &[0x64, 0x00]),
        Ok(StoreEffect::SetPwm { output: HighCurrentOutput::_1, micros: 500 })
    );
    assert_eq!(store.hco_pwm_us, [100, 0, 0, 0]);
}

#[test]
fn refused_writes_change_nothing() {
    let mut store = empty_store();
    for index in [0x2000, 0x2001, 0x2002, 0x2003] {
        assert_eq!(try_write_to_store(&mut store, index, 0, &[1]), Err(StoreWriteError::ReadOnly));
    }
    assert_eq!(try_write_to_store(&mut store, 0x2022, 0, &[1]), Err(StoreWriteError::IndexNotMapped));
    assert_eq!(try_write_to_store(&mut store, 0x2010, 4, &[1, 0]), Err(StoreWriteError::SubIndexOutOfRange));
    assert_eq!(try_write_to_store(&mut store, 0x2020, 4, &[1]), Err(StoreWriteError::SubIndexOutOfRange));
    assert_eq!(try_write_to_store(&mut store, 0x2021, 9, &[1, 0]), Err(StoreWriteError::SubIndexOutOfRange));
    assert_eq!(try_write_to_store(&mut store, 0x2010, 0, &[1]), Err(StoreWriteError::DataWrongSize));
    assert_eq!(try_write_to_store(&mut store, 0x2020, 0, &[1, 0]), Err(StoreWriteError::DataWrongSize));
    assert_eq!(try_write_to_store(&mut store, 0x2021, 0, &[1]), Err(StoreWriteError::DataWrongSize));
    assert_eq!(store, empty_store());
}

#[test]
fn a_direct_write_is_shown_as_the_outputs_took_it() {
    let mut store = empty_store();
    let mut controller = HcoController::new();
    let applied = write_and_apply(&mut store, &mut controller, 0x2021, 1, &[0xFF, 0xFF]).unwrap();
    assert_eq!(store.hco_pwm_us, [0, 2500, 0, 0]);
    assert_eq!(store.hco_binary, [0, 1, 0, 0]);
    match applied {
        Applied::Outputs(plan) => {
            assert_eq!(plan.out2, PinDrive::Pulse(2500));
            assert!(plan.update_interrupt && plan.compare2_interrupt && !plan.compare1_interrupt);
        }
        Applied::Valve { .. } => panic!("no valve was written"),
    }
    write_and_apply(&mut store, &mut controller, 0x2020, 2, &[9]).unwrap();
    assert_eq!(store.hco_binary, [0, 1, 1, 0]);
    assert_eq!(
        write_and_apply(&mut store, &mut controller, 0x2010, 2, &[5, 0]),
        Ok(Applied::Valve { valve: 2, promille: 5 })
    );
    assert!(write_and_apply(&mut store, &mut controller, 0x2000, 0, &[0]).is_err());
    let mut state = controller.get_state();
    apply_effect(&mut state, StoreEffect::SetValve { valve: 0, promille: 1 });
    assert_eq!(state, controller.get_state());
}

#[test]
fn setting_one_output_leaves_the_others() {
    let mut state = HcoState::default();
    state.set_high(HighCurrentOutput::_2);
    state.set_pwm_micros(HighCurrentOutput::_4, 9000);
    assert_eq!(state.get_state_0_indexed(0), Some(&State::Digital(Level::Low)));
    assert_eq!(state.get_state_0_indexed(1), Some(&State::Digital(Level::High)));
    assert_eq!(state.get_state_0_indexed(3), Some(&State::Pwm(PwmMicros::from_u16_clamped(2500))));
    assert_eq!(state.get_state_0_indexed(4), None);
    state.set_low(HighCurrentOutput::_2);
    state.set_level(HighCurrentOutput::_4, Level::Low);
    assert_eq!(state, HcoState::default());
    let mut store = empty_store();
    state.set_pwm_micros(HighCurrentOutput::_1, 800);
    update_store_hco_state(&mut store, &state);
    assert_eq!((store.hco_binary, store.hco_pwm_us), ([1, 0, 0, 0], [800, 0, 0, 0]));
}

#[test]
fn a_controller_plans_pins_and_channels() {
    let mut controller = HcoController::new();
    let plan = controller.set_pwm_micros(HighCurrentOutput::_3, 1500);
    assert_eq!(plan.out1, PinDrive::Hold(Level::Low));
    assert_eq!(plan.out3, ChannelDrive::Fraction { num: 750 });
    assert_eq!(plan.out4, ChannelDrive::FullyOff);
    assert!(!plan.update_interrupt);
    let plan = controller.set_level(HighCurrentOutput::_4, Level::High);
    assert_eq!(plan.out4, ChannelDrive::FullyOn);
    assert_eq!(controller.get_state()._3, State::Pwm(PwmMicros::from_u16_clamped(1500)));
}

#[test]
fn identifiers_of_the_first_generation_round_trip() {
    for kind in 0..10u8 {
        let id = ProcessDataCanId { node_id: 6, kind: PdMessageKind::try_from(kind).unwrap() };
        let word = u16::from(id);
        assert_eq!(word, 0x206 + 16 * kind as u16);
        assert_eq!(ProcessDataCanId::try_from(word), Ok(id));
    }
    assert_eq!(PdMessageKind::try_from(10), Err(()));
    assert_eq!(ProcessDataCanId::try_from(0x1FF), Err(()));
    assert_eq!(ProcessDataCanId::try_from(0x2A0), Err(()), "no such kind");
    assert_eq!(ProcessDataCanId::try_from(0x400), Err(()));
}

#[test]
fn a_servo_turns_angles_into_pulses() {
    let servo = CalibServo::new_270_deg();
    assert_eq!(servo.unilateral_angle(0), 500);
    assert_eq!(servo.unilateral_angle(2700), 2500);
    assert_eq!(servo.unilateral_angle(1350), 1500);
    assert_eq!(servo.unilateral_angle(5000), 2500);
    assert_eq!(servo.bilateral_angle(0), 1500);
    assert_eq!(servo.bilateral_angle(-1300), 537);
    assert_eq!(servo.bilateral_angle(i16::MIN), 500);
    assert_eq!(servo.bilateral_angle(i16::MAX), 2500);
}

#[test]
fn a_conversion_register_is_taken_apart() {
    assert_eq!(decode_conversion([0x8F, 0xFC]), ExtAdcReading { value: 1023, alert_flag: true });
    assert_eq!(decode_conversion([0x04, 0x03]), ExtAdcReading { value: 256, alert_flag: false });
}

#[test]
fn only_converters_that_answered_are_read() {
    let mut adcs = ExtAdcs::default();
    let mut found = [false; 9];
    found[2] = true;
    adcs.scan_and_enable(&[None, Some(found)]);
    assert!(adcs.enabled[11] && !adcs.enabled[2]);
    assert_eq!(adcs.address(11), 0b101_0010);

    let reading = ExtAdcReading { value: 77, alert_flag: false };
    assert_eq!(adcs.read_all(&[Some([Some(reading); 9]), Some([Some(reading); 9])]), Ok(()));
    assert_eq!(adcs.measurements.0[11], Some(reading));
    assert_eq!(adcs.measurements.0[2], None, "it is not enabled");
    assert_eq!(adcs.read_all(&[None, Some([None; 9])]), Err(()));
    assert_eq!(adcs.measurements.0[11], None);
    assert_eq!(adcs.read_all(&[None, None]), Ok(()), "a bus that is not there fails nothing");
}

#[test]
fn sensors_fill_the_mapping_in_order() {
    let mut mapping = SensorMapping::new_empty();
    for i in 0..8 {
        mapping = mapping.add_consecutive(SensorKind::SimplePressure(i), 1, i).unwrap();
    }
    assert!(mapping.add_consecutive(SensorKind::TempPt1000, 0, 0).is_none(), "no room left");
    assert!(SensorMapping::new_empty().add_consecutive(SensorKind::TempPt1000, 2, 0).is_none());
    assert!(SensorMapping::new_empty().add_consecutive(SensorKind::TempPt1000, 0, 9).is_none());

    let mut measurements = AdcMeasurements::default();
    measurements.0[9 + 3] = Some(ExtAdcReading { value: 512, alert_flag: false });
    let selected = mapping.select(&measurements);
    assert_eq!(selected[3], Some((SensorKind::SimplePressure(3), 512)));
    assert_eq!(selected[4], None);
    let mut bus = [1u16; 9];
    store_raw(&measurements, 1, &mut bus);
    assert_eq!(bus, [1, 1, 1, 512, 1, 1, 1, 1, 1]);
    assert_eq!(reported(&[Some(5), None, None, None, None, None, None, None])[..2], [5, NO_VALUE]);
}

#[test]
fn four_levels_make_an_outputs_state() {
    let state = HcOutputsState::from([true, false, true, false]);
    assert_eq!(state, HcOutputsState { out1: true, out2: false, out3: true, out4: false });
}
