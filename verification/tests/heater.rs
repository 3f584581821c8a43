use io_board::heater::{ntc_counts_to_milli_c, uncalibrated_milli_c, AnalogPin, Heater, HeaterConfig, HeaterMode, HeaterState, NtcWiring, NTC_CURVE, NTC_CURVE_MIN_C, NTC_CURVE_STEP_C};
use io_board::index::HcoPair;
use io_board::store::{RAW_INVALID, TEMPERATURE_INVALID};
use io_board::time::Instant;

fn cfg_b() -> HeaterConfig {
    HeaterConfig::new(HcoPair::B, AnalogPin::Pa6)
}

fn at0() -> Instant {
    Instant::from_millis(0)
}

const HOLD: HeaterMode = HeaterMode::Thermostat;
const SETPOINT: i32 = 30_000;


/// 25 C sits at mid-scale with a 10k/10k divider.
#[test]
fn the_curve_reads_room_temperature_at_mid_scale() {
    assert_eq!(ntc_counts_to_milli_c(2048), 25_000);
}

#[test]
fn the_curve_descends() {
    for pair in NTC_CURVE.windows(2) {
        assert!(pair[0] > pair[1], "NTC_CURVE must fall monotonically: {pair:?}");
    }
}

#[test]
fn every_curve_point_maps_back_to_its_own_temperature() {
    for (i, &counts) in NTC_CURVE.iter().enumerate() {
        let expected = (NTC_CURVE_MIN_C + i as i32 * NTC_CURVE_STEP_C) * 1000;
        assert_eq!(ntc_counts_to_milli_c(counts), expected, "curve point {i}");
    }
}

#[test]
fn between_points_it_interpolates() {
    // Halfway between 25 C (2048) and 30 C (1825).
    let t = ntc_counts_to_milli_c(1937);
    assert!((27_000..28_000).contains(&t), "{t}");
}

#[test]
fn open_or_shorted_ntc_is_invalid() {
    assert_eq!(ntc_counts_to_milli_c(4095), TEMPERATURE_INVALID);
    assert_eq!(ntc_counts_to_milli_c(0), TEMPERATURE_INVALID);
}

#[test]
fn cold_pad_heats() {
    let mut h = Heater::new();
    assert!(h.update(Some(&cfg_b()), HOLD, SETPOINT, Some(2278), at0())); // 20 C
    assert_eq!(h.state(), HeaterState::Heating);
}

#[test]
fn hot_pad_is_off() {
    let mut h = Heater::new();
    assert!(!h.update(Some(&cfg_b()), HOLD, SETPOINT, Some(1614), at0())); // 35 C
    assert_eq!(h.state(), HeaterState::Idle);
}

#[test]
fn it_keeps_heating_through_the_dead_band_and_stops_above_it() {
    let mut h = Heater::new();
    assert!(h.update(Some(&cfg_b()), HOLD, SETPOINT, Some(2278), at0())); // 20 C
    assert!(h.update(Some(&cfg_b()), HOLD, SETPOINT, Some(1825), at0()), "30 C is inside the band, keep heating"); // 30 C
    assert!(!h.update(Some(&cfg_b()), HOLD, SETPOINT, Some(1760), at0()), "~32 C is above the band"); // ~31.5 C
    assert!(
        !h.update(Some(&cfg_b()), HOLD, SETPOINT, Some(1825), at0()),
        "and it stays off coming back down into the band"
    );
    assert!(h.update(Some(&cfg_b()), HOLD, SETPOINT, Some(1900), at0()), "~28 C is below the band again");
}

#[test]
fn a_broken_ntc_switches_the_pad_off() {
    let mut h = Heater::new();
    assert!(h.update(Some(&cfg_b()), HOLD, SETPOINT, Some(2278), at0()));
    assert!(!h.update(Some(&cfg_b()), HOLD, SETPOINT, Some(4095), at0()));
    assert_eq!(h.state(), HeaterState::SensorFault);
    assert_eq!(h.milli_c(), TEMPERATURE_INVALID);
}

#[test]
fn a_board_that_cannot_read_the_ntc_never_heats() {
    let mut h = Heater::new();
    assert!(!h.update(Some(&cfg_b()), HOLD, SETPOINT, None, at0()));
    assert_eq!(h.state(), HeaterState::SensorFault);
    assert_eq!(h.raw(), RAW_INVALID);
}

#[test]
fn the_offset_shifts_the_reported_temperature_and_the_regulation() {
    // The NTC reads 30 C, but the pad is really 3 C colder.
    let cfg = cfg_b().with_offset_milli_c(-3_000);
    let mut h = Heater::new();
    assert!(h.update(Some(&cfg), HOLD, SETPOINT, Some(1825), at0()), "27 C calibrated is below the band");
    assert_eq!(h.milli_c(), 27_000);
}

#[test]
fn the_offset_does_not_mask_a_broken_ntc() {
    let cfg = cfg_b().with_offset_milli_c(5_000);
    let mut h = Heater::new();
    assert!(!h.update(Some(&cfg), HOLD, SETPOINT, Some(4095), at0()));
    assert_eq!(h.milli_c(), TEMPERATURE_INVALID);
}

#[test]
fn an_ntc_to_supply_reads_rising_counts_as_rising_temperature() {
    let cfg = cfg_b().with_ntc_wiring(NtcWiring::ToSupply);
    let mut h = Heater::new();
    // 4095 - 2278: the mirrored divider at 20 C.
    assert!(h.update(Some(&cfg), HOLD, SETPOINT, Some(4095 - 2278), at0()));
    assert_eq!(h.milli_c(), 20_000);
    // 4095 - 1614: 35 C.
    assert!(!h.update(Some(&cfg), HOLD, SETPOINT, Some(4095 - 1614), at0()));
    assert_eq!(h.milli_c(), 35_000);
}

#[test]
fn an_ntc_to_supply_still_detects_open_and_short() {
    let cfg = cfg_b().with_ntc_wiring(NtcWiring::ToSupply);
    let mut h = Heater::new();
    assert!(!h.update(Some(&cfg), HOLD, SETPOINT, Some(0), at0()));
    assert_eq!(h.state(), HeaterState::SensorFault);
    assert!(!h.update(Some(&cfg), HOLD, SETPOINT, Some(4095), at0()));
    assert_eq!(h.state(), HeaterState::SensorFault);
}

#[test]
fn off_keeps_a_cold_pad_off_but_still_reports_its_temperature() {
    let mut h = Heater::new();
    assert!(!h.update(Some(&cfg_b()), HeaterMode::Off, SETPOINT, Some(2278), at0())); // 20 C
    assert_eq!(h.state(), HeaterState::Off);
    assert_eq!(h.milli_c(), 20_000);
}

#[test]
fn blind_heats_through_a_broken_ntc() {
    let mut h = Heater::new();
    assert!(h.update(Some(&cfg_b()), HeaterMode::Blind, SETPOINT, Some(4095), at0()));
    assert_eq!(h.state(), HeaterState::Blind);
    assert!(h.update(Some(&cfg_b()), HeaterMode::Blind, SETPOINT, None, at0()), "and with no reading at all");
}

#[test]
fn blind_ignores_the_setpoint() {
    let mut h = Heater::new();
    assert!(h.update(Some(&cfg_b()), HeaterMode::Blind, SETPOINT, Some(1614), at0()), "35 C, above the band");
    assert_eq!(h.milli_c(), 35_000);
}

#[test]
fn the_setpoint_is_an_input_not_a_constant() {
    let mut h = Heater::new();
    // 20 C: below a 30 C setpoint, above a 10 C one.
    assert!(h.update(Some(&cfg_b()), HOLD, 30_000, Some(2278), at0()));
    assert!(!h.update(Some(&cfg_b()), HOLD, 10_000, Some(2278), at0()));
}

#[test]
fn no_config_is_disabled() {
    let mut h = Heater::new();
    assert!(!h.update(None, HeaterMode::Blind, SETPOINT, Some(2278), at0()), "not even blind");
    assert_eq!(h.state(), HeaterState::Disabled);
}

#[test]
fn a_wider_band_waits_for_a_colder_pad() {
    let cfg = cfg_b().with_hysteresis_milli_c(5_000);
    let mut h = Heater::new();
    assert!(!h.update(Some(&cfg), HOLD, SETPOINT, Some(2048), at0()), "25 C is the edge of the band");
    assert!(h.update(Some(&cfg), HOLD, SETPOINT, Some(2278), at0()), "20 C is below it");
    assert!(h.update(Some(&cfg), HOLD, SETPOINT, Some(1614), at0()), "35 C is still its other edge");
    assert!(h.update(Some(&cfg_b()), HOLD, SETPOINT, Some(2048), at0()), "and 25 C is below the narrow one");
}

/// The offset is measured against what the curve gives by itself.
#[test]
fn the_uncalibrated_temperature_leaves_the_offset_out() {
    let cfg = cfg_b().with_offset_milli_c(-3_000);
    assert_eq!(uncalibrated_milli_c(&cfg, Some(1825)), 30_000);
    assert_eq!(uncalibrated_milli_c(&cfg, Some(4095)), TEMPERATURE_INVALID);
    assert_eq!(uncalibrated_milli_c(&cfg, None), TEMPERATURE_INVALID);
    let swapped = cfg.with_ntc_wiring(NtcWiring::ToSupply);
    assert_eq!(uncalibrated_milli_c(&swapped, Some(4095 - 1825)), 30_000);
}

/// The first tick is logged at once, then one a second.
#[test]
fn a_line_is_logged_every_second() {
    let mut h = Heater::new();
    let mut logged = Vec::new();
    for ms in [0u64, 20, 980, 999, 1_000, 1_020, 1_999, 2_001, 3_000, 3_001] {
        let now = Instant::from_millis(ms);
        if h.log_is_due(now) {
            logged.push(ms);
        }
        h.update(Some(&cfg_b()), HOLD, SETPOINT, Some(2278), now);
    }
    assert_eq!(logged, [0, 1_000, 2_001, 3_001]);
}
