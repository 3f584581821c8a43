use io_board::config::{Quantity, SensorCalib, SensorKind, SensorSlotConfig, SensorSource, Unit, UnitPrefix};
use io_board::index::{AdcSlot, AmplifierId, AnalogInput, I2cBus};

/// An `Angle` slot has no address strap, so naming its bus has to be enough to find it —
/// otherwise the amplifier field would have to be kept meaningful for a device that has none.
#[test]
fn a_slot_source_follows_its_kind() {
    let encoder = SensorSlotConfig::encoder(I2cBus::Bus1, 0, 1024);
    assert_eq!(encoder.source(), Some(SensorSource::Encoder(I2cBus::Bus1)));
    assert_eq!(encoder.adc_slot(), None, "an encoder is not on an amplifier strap");

    let probe = SensorSlotConfig::pt1000(I2cBus::Bus1, AmplifierId::Amp3);
    assert_eq!(probe.source(), Some(SensorSource::Adc(AdcSlot::new(I2cBus::Bus1, AmplifierId::Amp3))));
    assert_eq!(SensorSlotConfig::unused().source(), None);
}

/// An NTC is on one of the board's own pins, so it needs no bus at all — and must not be
/// held back by one, since nothing would ever set it.
#[test]
fn an_ntc_slot_needs_no_bus() {
    let ntc = SensorSlotConfig::ntc(AnalogInput::Com6Pin2);
    assert_eq!(ntc.bus, None);
    assert_eq!(ntc.source(), Some(SensorSource::Analog(AnalogInput::Com6Pin2)));
    assert_eq!(ntc.analog_input(), Some(AnalogInput::Com6Pin2));
    assert_eq!(ntc.adc_slot(), None, "an NTC is not on an amplifier strap");
    // Nothing else reads the analog field, however it happens to be set.
    let mut probe = SensorSlotConfig::pt1000(I2cBus::Bus0, AmplifierId::Amp0);
    probe.analog = AnalogInput::Com6Pin2;
    assert_eq!(probe.analog_input(), None);
}

/// A bare `0x3022 = 5` write has to leave a slot that reads a real temperature off COM5, the
/// way a bare Pt1000 write does — so the kind's own defaults are what the constructor uses.
#[test]
fn a_fresh_ntc_slot_is_already_calibrated() {
    let ntc = SensorSlotConfig::ntc(AnalogInput::Com5Pin1);
    assert_eq!(ntc.unit, Unit::CentiCelsius);
    assert_eq!(ntc.calib, SensorCalib::unity());
    assert!(ntc.calib.is_calibrated());
    assert_eq!(SensorSlotConfig::unused().analog, AnalogInput::Com5Pin1);
}

/// The decomposition the unit codes are really made of, kept as accessors so the wire code
/// stays one stable byte.
#[test]
fn a_unit_splits_into_a_quantity_and_a_prefix() {
    assert_eq!(Unit::DeciBar.quantity(), Quantity::Pressure);
    assert_eq!(Unit::DeciBar.prefix(), UnitPrefix::Deci);
    assert_eq!(Unit::CentiCelsius.quantity(), Quantity::Temperature);
    assert_eq!(Unit::Promille.quantity(), Quantity::Ratio);
    assert_eq!(Unit::RawCounts.prefix(), UnitPrefix::Unscaled);
}

/// The wire codes are a persisted encoding: 0..3 must keep the meaning they shipped with.
#[test]
fn the_original_unit_and_kind_codes_are_unchanged() {
    assert_eq!(Unit::from_u8(0), Some(Unit::CentiBar));
    assert_eq!(Unit::from_u8(3), Some(Unit::RawCounts));
    assert_eq!(SensorKind::from_u8(1), Some(SensorKind::Pressure));
    assert_eq!(SensorKind::from_u8(2), Some(SensorKind::Pt1000));
    assert_eq!(SensorKind::from_u8(5), Some(SensorKind::Ntc));
    assert_eq!(SensorKind::from_u8(6), Some(SensorKind::NtcToSupply));
    assert_eq!(SensorKind::from_u8(7), None);
}
