use io_board::config::{Config, FallbackAction, ValveConfig};
use io_board::index::ValveId;
use io_board::proto::valve::unpowered_at;
use io_board::safety::{action_for, evaluate, FallbackLatch};
use io_board::store::LinkState;

fn cfg() -> Config {
    Config::new()
}

#[test]
fn a_live_master_keeps_the_link_up() {
    assert_eq!(evaluate(&cfg(), false, true, 100), LinkState::Alive);
}

#[test]
fn stages_fire_at_their_configured_timeouts() {
    let c = cfg();
    assert_eq!(evaluate(&c, false, true, 2_999), LinkState::Alive);
    assert_eq!(evaluate(&c, false, true, 3_000), LinkState::FallbackA);
    assert_eq!(evaluate(&c, false, true, 299_999), LinkState::FallbackA);
    assert_eq!(evaluate(&c, false, true, 300_000), LinkState::FallbackB);
}

#[test]
fn a_node_that_never_heard_a_master_still_falls_back() {
    let c = cfg();
    assert_eq!(evaluate(&c, false, false, 500), LinkState::NeverSeen);
    assert_eq!(evaluate(&c, false, false, 3_000), LinkState::FallbackA);
    assert_eq!(evaluate(&c, false, false, 300_000), LinkState::FallbackB);
}

#[test]
fn raw_debug_mode_suspends_the_fallback() {
    let c = cfg();
    assert_eq!(evaluate(&c, true, false, 600_000), LinkState::Suspended);
    // ...but a live master is still reported as live.
    assert_eq!(evaluate(&c, true, true, 10), LinkState::Alive);
}

#[test]
fn disabling_the_fallback_suspends_it_too() {
    let c = Config {
        fallback_enabled: false,
        ..cfg()
    };
    assert_eq!(evaluate(&c, false, true, 600_000), LinkState::Suspended);
}

#[test]
fn default_stage_a_closes_and_stage_b_opens() {
    let v = ValveConfig::servo_on_pair(io_board::index::HcoPair::A, 2000, 1000, 1000);
    assert_eq!(action_for(LinkState::FallbackA, &v).unwrap().position, 0);
    assert_eq!(action_for(LinkState::FallbackB, &v).unwrap().position, 1000);
    assert!(action_for(LinkState::Alive, &v).is_none());
}

#[test]
fn a_released_valve_stays_released_within_a_stage() {
    let mut latch = FallbackLatch::new();
    latch.enter(LinkState::FallbackA);
    let action = FallbackAction {
        position: 0,
        unpower: true,
    };

    // Still travelling: drive to the fallback position.
    assert_eq!(latch.target(ValveId::Valve0, action, false), 0);
    // Arrived and settled: release.
    assert_eq!(latch.target(ValveId::Valve0, action, true), unpowered_at(0));
    // And stay released even though "settled" no longer holds, rather than oscillating.
    assert_eq!(latch.target(ValveId::Valve0, action, false), unpowered_at(0));
}

#[test]
fn entering_stage_b_re_drives_a_valve_stage_a_released() {
    let mut latch = FallbackLatch::new();
    latch.enter(LinkState::FallbackA);
    let close = FallbackAction {
        position: 0,
        unpower: true,
    };
    latch.target(ValveId::Valve0, close, true);
    assert_eq!(latch.target(ValveId::Valve0, close, false), unpowered_at(0));

    assert!(latch.enter(LinkState::FallbackB));
    let vent = FallbackAction {
        position: 1000,
        unpower: true,
    };
    assert_eq!(latch.target(ValveId::Valve0, vent, false), 1000, "stage B has to actually open it");
}

#[test]
fn a_valve_configured_to_hold_is_never_released() {
    let mut latch = FallbackLatch::new();
    latch.enter(LinkState::FallbackA);
    let hold = FallbackAction {
        position: 250,
        unpower: false,
    };
    assert_eq!(latch.target(ValveId::Valve0, hold, true), 250);
    assert_eq!(latch.target(ValveId::Valve0, hold, true), 250);
}
