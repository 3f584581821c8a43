use io_board::config::ReliefConfig;
use io_board::config::FallbackAction;
use io_board::index::{SensorSlot, ValveId};
use io_board::relief::{Relief, ReliefState};
use io_board::safety::FallbackLatch;
use io_board::store::{LinkState, SENSOR_INVALID};
use io_board::time::Instant;

/// 60 bar, in the centibar the watched slot reports.
const THRESHOLD: i16 = 6000;

fn cfg() -> ReliefConfig {
    ReliefConfig {
        enabled: true,
        valve: Some(ValveId::Valve0),
        sensor: SensorSlot::Slot0,
        threshold: THRESHOLD,
        position: 1000,
        pulse_ms: 500,
        cooldown_ms: 500,
    }
}

fn at(ms: u64) -> Instant {
    Instant::from_millis(ms)
}

#[test]
fn below_threshold_it_does_not_intervene() {
    let mut r = Relief::new();
    assert_eq!(r.update(&cfg(), 5999, at(0)), None);
    assert_eq!(r.state(), ReliefState::Idle);
}

#[test]
fn crossing_the_threshold_opens_the_valve() {
    let mut r = Relief::new();
    assert_eq!(r.update(&cfg(), 6001, at(0)), Some(1000));
    assert_eq!(r.state(), ReliefState::Relieving);
    assert!(r.is_active());
}

#[test]
fn the_pulse_lasts_the_configured_time_then_closes() {
    let c = cfg();
    let mut r = Relief::new();
    r.update(&c, 6001, at(0));

    // Held open for the whole pulse, even as the reading falls.
    assert_eq!(r.update(&c, 6001, at(250)), Some(1000));
    assert_eq!(r.update(&c, 5000, at(499)), Some(1000));

    // At the end of the pulse the valve goes back to normal control.
    assert_eq!(r.update(&c, 5000, at(500)), None);
    assert_eq!(r.state(), ReliefState::Cooldown);
}

#[test]
fn it_does_not_re_arm_during_the_cooldown() {
    let c = cfg();
    let mut r = Relief::new();
    r.update(&c, 6001, at(0));
    r.update(&c, 6001, at(500)); // -> Cooldown until 1000

    // Still over threshold, but the reading has not had time to settle.
    assert_eq!(r.update(&c, 6001, at(600)), None);
    assert_eq!(r.update(&c, 6001, at(999)), None);
    assert_eq!(r.state(), ReliefState::Cooldown);
}

#[test]
fn it_pulses_again_if_still_over_pressure_after_the_cooldown() {
    let c = cfg();
    let mut r = Relief::new();
    r.update(&c, 6001, at(0));
    r.update(&c, 6001, at(500));

    assert_eq!(r.update(&c, 6001, at(1000)), Some(1000), "a heated vessel keeps rising");
    assert_eq!(r.state(), ReliefState::Relieving);
}

#[test]
fn it_settles_once_the_pressure_is_back_in_range() {
    let c = cfg();
    let mut r = Relief::new();
    r.update(&c, 6001, at(0));
    r.update(&c, 6001, at(500));

    assert_eq!(r.update(&c, 5500, at(1000)), None);
    assert_eq!(r.state(), ReliefState::Idle, "and hands the valve back to the master");
}

#[test]
fn exactly_at_the_threshold_is_not_over_it() {
    let mut r = Relief::new();
    assert_eq!(r.update(&cfg(), THRESHOLD, at(0)), None);
}

#[test]
fn an_invalid_reading_inhibits_rather_than_vents() {
    let mut r = Relief::new();
    assert_eq!(r.update(&cfg(), SENSOR_INVALID, at(0)), None);
    assert_eq!(r.state(), ReliefState::Inhibited);
}

#[test]
fn a_dropped_sample_does_not_cut_a_pulse_short() {
    let c = cfg();
    let mut r = Relief::new();
    r.update(&c, 6001, at(0));
    // One bad read mid-pulse: keep venting, do not slam the valve shut.
    assert_eq!(r.update(&c, SENSOR_INVALID, at(200)), Some(1000));
    assert_eq!(r.state(), ReliefState::Relieving);
    // Once the pulse is over, park inhibited until the sensor returns.
    assert_eq!(r.update(&c, SENSOR_INVALID, at(500)), None);
    assert_eq!(r.state(), ReliefState::Inhibited);
}

#[test]
fn it_recovers_when_the_sensor_comes_back() {
    let c = cfg();
    let mut r = Relief::new();
    r.update(&c, SENSOR_INVALID, at(0));
    assert_eq!(r.state(), ReliefState::Inhibited);

    assert_eq!(r.update(&c, 6001, at(100)), Some(1000));
    assert_eq!(r.state(), ReliefState::Relieving);
}

#[test]
fn disabled_or_unmapped_never_intervenes() {
    let mut r = Relief::new();

    let off = ReliefConfig {
        enabled: false,
        ..cfg()
    };
    assert_eq!(r.update(&off, 30_000, at(0)), None);
    assert_eq!(r.state(), ReliefState::Disabled);

    let unmapped = ReliefConfig { valve: None, ..cfg() };
    assert_eq!(r.update(&unmapped, 30_000, at(0)), None);
    assert_eq!(r.state(), ReliefState::Disabled);
}

/// The requirement that relief keeps working through a short loss of the master.
///
/// It holds structurally rather than by a check somewhere: `update` takes no `LinkState`, so
/// there is no way for a fallback stage to reach it. This pins that down — if someone ever
/// threads a link state in here, this test is what should stop them.
#[test]
fn relief_is_reached_the_same_way_in_every_link_state() {
    let c = cfg();
    for _ in [
        io_board::store::LinkState::Alive,
        io_board::store::LinkState::NeverSeen,
        io_board::store::LinkState::FallbackA,
        io_board::store::LinkState::FallbackB,
        io_board::store::LinkState::Suspended,
    ] {
        let mut r = Relief::new();
        assert_eq!(r.update(&c, 6001, at(0)), Some(1000));
    }
}

/// Composition test for the precedence `io_board::control` implements: relief is evaluated
/// first, and when it is acting the fallback target is not used.
#[test]
fn relief_opens_the_valve_even_while_stage_a_wants_it_shut() {

    let mut latch = FallbackLatch::new();
    latch.enter(LinkState::FallbackA);
    let close = FallbackAction {
        position: 0,
        unpower: true,
    };

    // Stage A on its own would shut this valve.
    assert_eq!(latch.target(ValveId::Valve0, close, false), 0);

    // With the vessel over pressure, relief is what the control task uses instead.
    let mut relief = Relief::new();
    let relieving = relief.update(&cfg(), 6001, at(0));
    assert_eq!(relieving, Some(1000));
    assert_eq!(relieving.unwrap_or(0), 1000, "relief outranks the fallback");

    // Once the pulse is done the valve goes back to the fallback's idea of safe.
    relief.update(&cfg(), 5000, at(500));
    assert_eq!(relief.update(&cfg(), 5000, at(1000)), None);
    assert_eq!(latch.target(ValveId::Valve0, close, false), 0);
}

#[test]
fn the_default_threshold_never_fires() {
    // A node that has not been configured for relief must not start venting because some
    // unrelated sensor reads high.
    let mut r = Relief::new();
    let c = ReliefConfig {
        enabled: true,
        valve: Some(ValveId::Valve0),
        ..ReliefConfig::disabled()
    };
    assert_eq!(r.update(&c, i16::MAX - 1, at(0)), None);
}

/// A pulse is finished whatever is read meanwhile, and up to the very end of the clock.
#[test]
fn a_pulse_outlasts_every_reading_up_to_the_end_of_the_clock() {
    let config = cfg();
    let pulse = 1000 * config.pulse_ms as u64;
    let start = u64::MAX - pulse;
    let mut r = Relief::new();
    assert_eq!(r.update(&config, 6001, Instant::from_ticks(start)), Some(1000));
    for (reading, later) in [(0, 1), (SENSOR_INVALID, 2), (6001, pulse / 2), (i16::MIN, pulse - 1)] {
        assert_eq!(r.update(&config, reading, Instant::from_ticks(start + later)), Some(1000));
    }
    assert_eq!(r.update(&config, SENSOR_INVALID, Instant::from_ticks(u64::MAX)), None);
    assert_eq!(r.state(), ReliefState::Inhibited);
}
