use io_board::config::persist::PersistError;
use io_board::config::{Config, ConfigError, ConfigWarning, NodeSettings, ReliefConfig, SensorCalib, SensorSlotConfig, Unit, ValveConfig};
use io_board::cpu::{record_idle, CpuLoad, CPU_LOAD_UNKNOWN};
use io_board::errors::{bump, Counters, ErrorCounter};
use io_board::index::{AmplifierId, HcoId, HcoPair, I2cBus, SensorSlot, ValveId};
use io_board::node::{boot_config, take_persistence_work};
use io_board::relief::{Relief, ReliefState};
use io_board::safety::{master_ever_seen, note_master_heartbeat, since_last_heartbeat, Heartbeat};
use io_board::store::Store;
use io_board::time::{Duration, Instant};

#[test]
fn a_stored_config_wins_over_the_factory_defaults() {
    let defaults = Config::new();
    let mut stored = Config::new();
    stored.master_node_id = 4;
    assert_eq!(boot_config(&defaults, Ok(stored)).unwrap().master_node_id, 4);
    assert_eq!(boot_config(&defaults, Err(PersistError::NoValidRecord)).unwrap().master_node_id, 1);
    let mut broken = Config::new();
    broken.fallback_b_ms = broken.fallback_a_ms;
    assert!(matches!(boot_config(&broken, Ok(stored)), Err(ConfigError::FallbackOrder)));
    assert_eq!(NodeSettings::new(6, defaults).node_id, 6);
}

#[test]
fn commit_and_reset_requests_are_taken_once() {
    let mut store = Store::new();
    store.pending.save = true;
    store.pending.outputs = true;
    let work = take_persistence_work(&mut store);
    assert!(work.save && !work.restore);
    assert!(!store.pending.save && store.pending.outputs);
    let mut defaults = Config::new();
    defaults.master_node_id = 3;
    store.restore(&defaults);
    assert!(store.pending.config);
    assert_eq!(store.config.master_node_id, 3);
}

#[test]
fn what_is_derived_follows_the_configuration() {
    let mut store = Store::new();
    store.config = Config::new()
        .with_valve(ValveId::Valve2, ValveConfig::servo_on_pair(HcoPair::B, 2000, 1000, 500))
        .with_sensor(SensorSlot::Slot1, SensorSlotConfig::pt1000(I2cBus::Bus0, AmplifierId::Amp0));
    store.refresh_derived();
    assert_eq!(store.hco_owner.as_array(), &[0, 0, 3, 3]);
    assert_eq!(store.sensor_unit.as_array(), &[0, 2, 0, 0, 0, 0, 0, 0]);
}

#[test]
fn a_bounce_is_not_a_press() {
    let mut store = Store::new();
    assert!(!store.debug_button(false));
    assert!(!store.raw_debug && !store.pending.outputs);
    assert!(store.debug_button(true));
    assert!(store.raw_debug && store.pending.outputs);
    store.debug_button(true);
    assert!(!store.raw_debug);
}

#[test]
fn counters_and_load_are_mirrored() {
    let mut store = Store::new();
    let mut counters = Counters::new();
    bump(&mut counters, ErrorCounter::ValveStall);
    store.refresh_error_counters(&mut counters);
    assert_eq!(store.error_counters[ErrorCounter::ValveStall], 1);
    let mut load = CpuLoad::new();
    record_idle(&mut load, Duration::from_ticks(u64::MAX));
    store.refresh_cpu(&load);
    assert_eq!(store.cpu_load, CPU_LOAD_UNKNOWN);
}

#[test]
fn the_silence_is_counted_from_the_last_heartbeat() {
    let mut heartbeat = Heartbeat::new();
    assert!(!master_ever_seen(&heartbeat));
    assert_eq!(since_last_heartbeat(&heartbeat, Instant::from_millis(700)), 700);
    note_master_heartbeat(&mut heartbeat, Instant::from_millis(1_000));
    assert!(master_ever_seen(&heartbeat));
    assert_eq!(since_last_heartbeat(&heartbeat, Instant::from_millis(4_250)), 3_250);
    // Across the wrap of the recorded word.
    note_master_heartbeat(&mut heartbeat, Instant::from_millis(u32::MAX as u64));
    assert_eq!(since_last_heartbeat(&heartbeat, Instant::from_millis(u32::MAX as u64 + 6)), 6);
}

/// The self-regulating relief node: 500 ms pulses with a 500 ms cooldown above 60 bar, with no
/// master on the bus.
#[test]
fn a_relief_node_pulses_on_its_own() {
    let cfg = Config::new()
        .with_valve(ValveId::Valve0, ValveConfig::solenoid_on(HcoId::Hco0))
        .with_sensor(
            SensorSlot::Slot0,
            SensorSlotConfig::pressure(I2cBus::Bus0, AmplifierId::Amp0, Unit::CentiBar, SensorCalib::unity()),
        )
        .with_relief(
            ReliefConfig::new(ValveId::Valve0, SensorSlot::Slot0, 6000).with_pulse_ms(500).with_cooldown_ms(500),
        );
    assert!(cfg.sanity_check().is_ok());
    assert!(cfg.log_warnings().is_empty());
    let mut relief = Relief::new();
    let mut open = 0;
    for ms in (0..4_000).step_by(20) {
        if relief.update(&cfg.relief, 6_500, Instant::from_millis(ms)).is_some() {
            open += 20;
        }
    }
    assert_eq!(open, 2_000, "open for half the time");
    relief.update(&cfg.relief, 5_000, Instant::from_millis(4_000));
    relief.update(&cfg.relief, 5_000, Instant::from_millis(5_000));
    assert_eq!(relief.state(), ReliefState::Idle);
}

#[test]
fn questionable_relief_settings_are_warned_about() {
    let cfg = Config::new()
        .with_valve(ValveId::Valve0, ValveConfig::servo_on_pair(HcoPair::A, 2000, 1000, 800))
        .with_relief(ReliefConfig::new(ValveId::Valve0, SensorSlot::Slot0, i16::MAX));
    assert_eq!(
        cfg.log_warnings(),
        vec![
            ConfigWarning::ReliefPulseShorterThanTravel { pulse_ms: 500, travel_ms: 800 },
            ConfigWarning::ReliefThresholdUnreachable,
        ]
    );
    assert!(Config::new().log_warnings().is_empty());
}
