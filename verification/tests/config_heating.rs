use io_board::config::ValveHeatingConfig;
use io_board::index::{HcoId, SensorSlot};

/// Half a heater is not a heater: both the output and the slot have to be there before
/// anything switches, because each without the other is a distinct way to fail badly.
#[test]
fn a_heater_needs_both_an_output_and_a_sensor() {
    let full = ValveHeatingConfig::new(HcoId::Hco2, SensorSlot::Slot1, 3_000);
    assert!(full.is_fitted() && full.is_armed());

    let mut no_sensor = full;
    no_sensor.sensor = None;
    assert!(!no_sensor.is_fitted(), "an output with no sensor is a heater with no way to stop");

    let mut no_output = full;
    no_output.hco = None;
    assert!(!no_output.is_fitted(), "a sensor with no output is a temperature nobody acts on");

    assert!(!full.disabled().is_armed(), "and it still has to be switched on");
    assert!(!ValveHeatingConfig::none().is_fitted());
}

/// An unconfigured slot must not read as "please heat to 0 degC" if something switches it on.
#[test]
fn an_unconfigured_heater_asks_for_no_heat() {
    assert_eq!(ValveHeatingConfig::none().setpoint, i16::MIN);
}

#[test]
fn a_pad_switches_exactly_one_output() {
    let pad = ValveHeatingConfig::new(HcoId::Hco2, SensorSlot::Slot0, 0);
    assert!(pad.switches(HcoId::Hco2));
    assert!(!pad.switches(HcoId::Hco3), "the other half of the pair is nothing to do with it");
    assert!(!ValveHeatingConfig::none().switches(HcoId::Hco2), "and an unfitted pad switches nothing");
}
