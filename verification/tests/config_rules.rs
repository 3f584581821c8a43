use io_board::config::heating::HcoSet;
use io_board::config::{Config, ConfigError, Quantity, ReliefConfig, SensorCalib, SensorKind, SensorSlotConfig, Unit, ValveConfig, ValveHeatingConfig, ValveKind};
use io_board::config::sensors::{amplifier_address, ENCODER_FULL_SCALE};
use io_board::index::{AdcSlot, AmplifierId, AnalogInput, HcoId, HcoPair, I2cBus, Id, PerAmplifier, PerHco, SensorSlot, StepperId, ValveId};
use io_board::proto::od::ErrorCounter;

fn fault(cfg: &Config) -> ConfigError {
    cfg.sanity_check().unwrap_err()
}

#[test]
fn every_fault_is_named() {
    let mut cfg = Config::new();
    cfg.master_node_id = 16;
    assert_eq!(fault(&cfg), ConfigError::NodeIdOutOfRange);

    let mut cfg = Config::new();
    cfg.fallback_b_ms = 3_000;
    assert_eq!(fault(&cfg), ConfigError::FallbackOrder);

    let servo = ValveConfig::servo_on_pair(HcoPair::A, 2000, 1000, 500);
    let mut inverted = servo;
    inverted.min_promille = 600;
    inverted.max_promille = 500;
    assert_eq!(fault(&Config::new().with_valve(ValveId::Valve2, inverted)), ConfigError::ClampInverted(ValveId::Valve2));

    let mut still = servo;
    still.travel_ms = 0;
    assert_eq!(fault(&Config::new().with_valve(ValveId::Valve1, still)), ConfigError::ZeroTravelTime(ValveId::Valve1));

    let shared = Config::new()
        .with_valve(ValveId::Valve0, servo)
        .with_valve(ValveId::Valve3, ValveConfig::solenoid_on(HcoId::Hco0));
    assert_eq!(fault(&shared), ConfigError::OutputShared(ValveId::Valve0, ValveId::Valve3));

    let valve = ValveConfig::solenoid_on(HcoId::Hco0);
    let pt = SensorSlotConfig::pt1000(I2cBus::Bus0, AmplifierId::Amp0);
    let armed = Config::new()
        .with_valve(ValveId::Valve0, valve)
        .with_sensor(SensorSlot::Slot0, pt)
        .with_relief(ReliefConfig::new(ValveId::Valve0, SensorSlot::Slot0, 100));
    assert!(armed.sanity_check().is_ok());
    let mut cfg = armed;
    cfg.relief.valve = Some(ValveId::Valve1);
    assert_eq!(fault(&cfg), ConfigError::ReliefValveUnmapped(ValveId::Valve1));
    let mut cfg = armed;
    cfg.relief.sensor = SensorSlot::Slot7;
    assert_eq!(fault(&cfg), ConfigError::ReliefSensorUnmapped(SensorSlot::Slot7));
    let mut cfg = armed;
    cfg.relief.pulse_ms = 0;
    assert_eq!(fault(&cfg), ConfigError::ReliefPulseZero);
    cfg.relief.enabled = false;
    assert!(cfg.sanity_check().is_ok(), "a loop that is off may be set up wrong");
}

#[test]
fn the_owner_of_an_output_follows_the_mapping() {
    let cfg = Config::new()
        .with_valve(ValveId::Valve0, ValveConfig::servo_on_pair(HcoPair::A, 2000, 1000, 500))
        .with_valve(ValveId::Valve2, ValveConfig::solenoid_on(HcoId::Hco3));
    assert_eq!(cfg.hco_owner(HcoId::Hco0), Some(ValveId::Valve0));
    assert_eq!(cfg.hco_owner(HcoId::Hco1), Some(ValveId::Valve0));
    assert_eq!(cfg.hco_owner(HcoId::Hco2), None);
    assert_eq!(cfg.hco_owner(HcoId::Hco3), Some(ValveId::Valve2));
    assert_eq!(HcoId::Hco3.silkscreen(), 4);
}

#[test]
fn pulse_widths_interpolate_both_ways_round() {
    let down = ValveConfig::servo_on_pair(HcoPair::A, 2000, 1000, 500);
    assert_eq!(down.pulse_width_us(0), 2000);
    assert_eq!(down.pulse_width_us(333), 1667);
    assert_eq!(down.pulse_width_us(1000), 1000);
    assert_eq!(down.pulse_width_us(60_000), 1000);
    let up = ValveConfig::servo_on_pair(HcoPair::A, 500, 2470, 500);
    assert_eq!(up.pulse_width_us(501), 1486);
    let mut narrow = down;
    narrow.min_promille = 10;
    narrow.max_promille = 2000;
    assert_eq!((narrow.clamp(0), narrow.clamp(1500), narrow.clamp(40)), (10, 1000, 40));
    assert_eq!(ValveKind::from_u8(2), Some(ValveKind::Servo));
    assert_eq!(ValveKind::from_u8(3), None);
    assert!(!ValveConfig::unmapped().is_mapped() && down.is_mapped());
    assert!(down.uses(HcoId::Hco0) && !down.uses(HcoId::Hco2));
}

#[test]
fn calibrations_are_affine_and_saturate() {
    assert_eq!(SensorCalib::unity().apply(21_500), 21_500);
    assert_eq!(SensorCalib::zero().apply(21_500), 0);
    // 500 mV is 155.15 counts: zero degrees; 600 mV is 186.18 counts: ten degrees.
    assert_eq!(SensorCalib::mcp9700().apply(155_151), 0);
    assert_eq!(SensorCalib::mcp9700().apply(186_182), 10_000);
    let odd = SensorCalib { offset_milli: 1, slope_nano: -500_000_000, constant_milli: 3 };
    assert_eq!(odd.apply(4), 2, "rounded toward zero: -1.5 is -1");
    let steep = SensorCalib { offset_milli: i32::MIN, slope_nano: i32::MAX, constant_milli: 0 };
    assert_eq!(steep.apply(i32::MAX), i32::MAX);
    let falling = SensorCalib { offset_milli: i32::MIN, slope_nano: i32::MIN, constant_milli: 0 };
    assert_eq!(falling.apply(i32::MAX), i32::MIN);
}

#[test]
fn an_encoder_wraps_on_the_side_its_valve_opens_to() {
    let up = SensorCalib::angle_over(4000, 1024);
    assert_eq!(up.apply_wrapped(4_000_000, ENCODER_FULL_SCALE), 0);
    assert_eq!(up.apply_wrapped((4000 + 1024 - 4096) * 1000, ENCODER_FULL_SCALE), 1000);
    let down = SensorCalib::angle_over(100, -1024);
    assert_eq!(down.apply_wrapped(100_000, ENCODER_FULL_SCALE), 0);
    assert_eq!(down.apply_wrapped((100 - 1024 + 4096) * 1000, ENCODER_FULL_SCALE), 1000);
    assert_eq!(SensorCalib::angle_over(0, 0).slope_nano, 1_000_000_000);
    assert_eq!(SensorCalib::angle_over(7, 3).offset_milli, 7_000);
    assert_eq!(SensorCalib::angle_over(7, -3).slope_nano, -333_333_333);
}

#[test]
fn kinds_start_with_their_own_unit_and_calibration() {
    assert_eq!(SensorKind::Angle.natural_unit(), Unit::Promille);
    assert_eq!(SensorKind::Pressure.natural_unit(), Unit::CentiBar);
    assert_eq!(SensorKind::NtcToSupply.natural_unit(), Unit::CentiCelsius);
    assert_eq!(SensorKind::Mcp9700.default_calib(), SensorCalib::mcp9700());
    assert_eq!(SensorKind::Pressure.default_calib(), SensorCalib::zero());
    assert!(SensorKind::Angle.is_on_i2c() && !SensorKind::Ntc.is_on_i2c());
    assert_eq!((Unit::DeciBar.per_milli(), Unit::CentiCelsius.per_milli(), Unit::Promille.per_milli()), (100, 10, 1));
    assert_eq!(Unit::from_u8(5), None);
    assert_eq!(Unit::CentiBar.quantity(), Quantity::Pressure);
    let slot = SensorSlotConfig::mcp9700(I2cBus::Bus1, AmplifierId::Amp8);
    assert_eq!(slot.adc_slot(), Some(AdcSlot::new(I2cBus::Bus1, AmplifierId::Amp8)));
    assert_eq!(SensorSlotConfig::ntc_to_supply(AnalogInput::Com5Pin2).analog_input(), Some(AnalogInput::Com5Pin2));
    assert_eq!(amplifier_address(AmplifierId::Amp3), 0b101_0100);
}

#[test]
fn a_pad_may_switch_several_outputs() {
    let pad = ValveHeatingConfig::new(HcoId::Hco2, SensorSlot::Slot0, 0).also_on(HcoId::Hco0).with_hysteresis(7);
    assert!(pad.switches(HcoId::Hco0) && pad.switches(HcoId::Hco2) && !pad.switches(HcoId::Hco1));
    assert_eq!(pad.hysteresis, 7);
    assert!(pad.outputs().intersects(HcoSet::empty().with(HcoId::Hco0)));
    assert!(!pad.outputs().intersects(HcoSet::empty().with(HcoId::Hco1)));
    assert!(!HcoSet::empty().intersects(HcoSet::empty()));
}

#[test]
fn arrays_over_a_domain_can_be_built_and_walked() {
    let per = PerAmplifier::from_fn(|amp: AmplifierId| amp.index() * 2);
    assert_eq!(per.as_slice(), [0, 2, 4, 6, 8, 10, 12, 14, 16]);
    assert_eq!(per.values().copied().max(), Some(16));
    let mut flags = PerHco::splat(false);
    assert!(!flags.any());
    flags[HcoId::Hco3] = true;
    assert!(flags.any());
    flags.values_mut()[0] = true;
    assert_eq!(flags.into_array(), [true, false, false, true]);
    let zero: PerHco<u16> = PerHco::default();
    assert_eq!(zero.with_at(1, 9).as_array(), &[0, 9, 0, 0]);
    assert_eq!(<StepperId as Id>::from_index(2), None);
    assert_eq!(ErrorCounter::CanRxError.sub(), 5);
}
