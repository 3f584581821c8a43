use io_board::config::{Config, ConfigError, SensorCalib, SensorSlotConfig, Unit, ValveConfig, ValveHeatingConfig};
use io_board::index::{AmplifierId, AnalogInput, HcoId, HcoPair, I2cBus, PdoSensorChannel, SensorSlot, ValveId};

fn with_encoder_on(valve: ValveId, slot: SensorSlot) -> Config {
    Config::new()
        .with_valve(valve, ValveConfig::servo_on_pair(HcoPair::A, 2000, 1000, 1000).with_position_sensor(slot))
        .with_sensor(slot, SensorSlotConfig::encoder(I2cBus::Bus0, 0, 1024))
}

#[test]
fn a_valve_may_take_its_position_from_an_encoder_slot() {
    assert!(with_encoder_on(ValveId::Valve0, SensorSlot::Slot0).sanity_check().is_ok());
}

/// The failure this check exists for: a slot reporting centibar would hand a valve a pressure
/// and the valve would drive against it as though it were a position.
#[test]
fn a_position_sensor_reporting_the_wrong_unit_is_refused() {
    let mut cfg = with_encoder_on(ValveId::Valve0, SensorSlot::Slot0);
    cfg.sensors[SensorSlot::Slot0].unit = Unit::CentiBar;
    assert!(matches!(cfg.sanity_check(), Err(ConfigError::PositionSensorUnit(ValveId::Valve0, SensorSlot::Slot0))));
}

/// Pointing a valve at an empty slot looks configured while doing nothing, which is the
/// silent-failure shape the relief checks already refuse.
#[test]
fn a_position_sensor_on_an_empty_slot_is_refused() {
    let mut cfg = with_encoder_on(ValveId::Valve0, SensorSlot::Slot0);
    cfg.sensors[SensorSlot::Slot0] = SensorSlotConfig::unused();
    assert!(matches!(
        cfg.sanity_check(),
        Err(ConfigError::PositionSensorUnmapped(ValveId::Valve0, SensorSlot::Slot0))
    ));
}

/// The heating pad a node mapping actually writes: a valve, a thermistor slot beside it, and
/// a pad on a free output. All three have to agree before the config is accepted.
fn heated_valve() -> Config {
    Config::new()
        .with_valve(ValveId::Valve0, ValveConfig::solenoid_on(HcoId::Hco0))
        .with_quiet_sensor(SensorSlot::Slot1, SensorSlotConfig::ntc(AnalogInput::Com5Pin1))
        .with_valve_heating(ValveId::Valve0, ValveHeatingConfig::new(HcoId::Hco2, SensorSlot::Slot1, 3_000))
}

#[test]
fn a_heated_valve_configures_cleanly() {
    let cfg = heated_valve();
    assert!(cfg.sanity_check().is_ok());
    assert!(cfg.heating[ValveId::Valve0].is_armed());
    assert!(!cfg.heating[ValveId::Valve1].is_fitted(), "and the other valves keep no pad");
}

/// Switched on with half the wiring is the silent-failure shape: it looks configured on the
/// bus and does nothing at all.
#[test]
fn heating_switched_on_but_unfitted_is_refused() {
    let mut cfg = heated_valve();
    cfg.heating[ValveId::Valve0].sensor = None;
    assert!(matches!(cfg.sanity_check(), Err(ConfigError::HeatingUnfitted(ValveId::Valve0))));
}

/// A thermostat pointed at a pressure slot would hold a valve at "30 hundredths of a bar" —
/// and would still switch a real output while doing it.
#[test]
fn heating_must_watch_a_temperature() {
    let mut cfg = heated_valve();
    cfg.sensors[SensorSlot::Slot1] =
        SensorSlotConfig::pressure(I2cBus::Bus0, AmplifierId::Amp0, Unit::CentiBar, SensorCalib::unity());
    assert!(matches!(cfg.sanity_check(), Err(ConfigError::HeatingSensorUnit(ValveId::Valve0, SensorSlot::Slot1))));

    // ...and at a slot that exists at all.
    let mut cfg = heated_valve();
    cfg.sensors[SensorSlot::Slot1] = SensorSlotConfig::unused();
    assert!(matches!(
        cfg.sanity_check(),
        Err(ConfigError::HeatingSensorUnmapped(ValveId::Valve0, SensorSlot::Slot1))
    ));
}

/// The pad owns its outputs, so the config is where the conflict is settled — not the control
/// tick, where a valve command and a thermostat would take turns winning.
#[test]
fn a_pad_and_a_valve_may_not_share_an_output() {
    let mut cfg = heated_valve();
    cfg.heating[ValveId::Valve0] = cfg.heating[ValveId::Valve0].also_on(HcoId::Hco0); // the valve's own output
    assert!(matches!(cfg.sanity_check(), Err(ConfigError::HeatingOutputShared(ValveId::Valve0, ValveId::Valve0))));

    // Two pads on one output is the same mistake between two heaters.
    let mut cfg = heated_valve();
    cfg.heating[ValveId::Valve1] = ValveHeatingConfig::new(HcoId::Hco2, SensorSlot::Slot1, 3_000);
    assert!(matches!(
        cfg.sanity_check(),
        Err(ConfigError::HeatingOutputSharedWithHeater(ValveId::Valve0, ValveId::Valve1))
    ));

    // Overlapping in one output of several is still sharing it.
    let mut cfg = heated_valve();
    cfg.heating[ValveId::Valve1] = ValveHeatingConfig::new(HcoId::Hco3, SensorSlot::Slot1, 3_000).also_on(HcoId::Hco2);
    assert!(matches!(
        cfg.sanity_check(),
        Err(ConfigError::HeatingOutputSharedWithHeater(ValveId::Valve0, ValveId::Valve1))
    ));
}

/// Several pads on one thermistor, either as one thermostat or as independent ones: the slot
/// is only read, so sharing it is fine where sharing an output is not.
#[test]
fn several_pads_may_follow_one_sensor() {
    let mut cfg = heated_valve();
    cfg.heating[ValveId::Valve0] = cfg.heating[ValveId::Valve0].also_on(HcoId::Hco3);
    assert!(cfg.sanity_check().is_ok(), "{:?}", cfg.sanity_check());

    let mut cfg = heated_valve();
    cfg.heating[ValveId::Valve1] = ValveHeatingConfig::new(HcoId::Hco3, SensorSlot::Slot1, 2_000);
    assert!(cfg.sanity_check().is_ok(), "{:?}", cfg.sanity_check());
}

/// Two slots on one channel means one of them silently never reaches the bus, and which one
/// wins would depend on iteration order.
#[test]
fn two_slots_may_not_claim_the_same_pdo_channel() {
    let cfg = Config::new()
        .with_sensor(SensorSlot::Slot0, SensorSlotConfig::pt1000(I2cBus::Bus0, AmplifierId::Amp0))
        .with_sensor(
            SensorSlot::Slot5,
            SensorSlotConfig::pt1000(I2cBus::Bus0, AmplifierId::Amp1).on_channel(PdoSensorChannel::Ch0),
        );
    assert!(matches!(cfg.sanity_check(), Err(ConfigError::PdoChannelShared(SensorSlot::Slot0, SensorSlot::Slot5))));
}

#[test]
fn a_configured_slot_without_a_bus_is_refused() {
    let mut cfg =
        Config::new().with_sensor(SensorSlot::Slot0, SensorSlotConfig::pt1000(I2cBus::Bus0, AmplifierId::Amp0));
    cfg.sensors[SensorSlot::Slot0].bus = None;
    assert!(matches!(cfg.sanity_check(), Err(ConfigError::SensorBusUnset(SensorSlot::Slot0))));
}

/// The exception to the check above: an NTC is on one of the board's own pins, so requiring
/// a bus of it would make a perfectly wired sensor unconfigurable.
#[test]
fn an_ntc_slot_is_accepted_without_a_bus() {
    let cfg = Config::new().with_sensor(SensorSlot::Slot0, SensorSlotConfig::ntc(AnalogInput::Com6Pin1));
    assert!(cfg.sanity_check().is_ok());
    let used = cfg.analog_inputs_used();
    assert!(used[AnalogInput::Com6Pin1]);
    assert!(!used[AnalogInput::Com5Pin1], "only the pin a slot actually names is sampled");
}

/// The default that keeps the first twelve slots behaving as they always have.
#[test]
fn with_sensor_defaults_a_slot_to_its_own_channel() {
    let cfg = Config::new()
        .with_sensor(SensorSlot::Slot3, SensorSlotConfig::pt1000(I2cBus::Bus0, AmplifierId::Amp0))
        .with_quiet_sensor(SensorSlot::Slot4, SensorSlotConfig::pt1000(I2cBus::Bus0, AmplifierId::Amp2));

    assert_eq!(cfg.sensors[SensorSlot::Slot3].pdo_channel, Some(PdoSensorChannel::Ch3));
    assert_eq!(cfg.sensors[SensorSlot::Slot4].pdo_channel, None);
    assert!(cfg.sanity_check().is_ok());
}
