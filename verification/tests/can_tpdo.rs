use io_board::can::tpdo::{build, should_send, Tpdo, UNCHANGED_DATA_BROADCAST_DURATION};
use io_board::index::{HcoId, ValveId};
use io_board::proto::ids::{TpdoKind, TPDO_KINDS};
use io_board::proto::tpdo::{HcoOutput, TpdoFrame};
use io_board::store::{LinkState, Store};

#[test]
fn every_kind_produces_a_full_frame() {
    let store = Store::new();
    for kind in TPDO_KINDS {
        assert_eq!(build(&store, kind).len(), 8, "{kind:?} must fill the frame");
    }
}

#[test]
fn rails_split_into_separate_voltage_and_current_frames() {
    let mut store = Store::new();
    store.rail_current_ma = io_board::index::PerRail::new([111, 222, 333]);
    store.rail_voltage_mv = io_board::index::PerRail::new([444, 555, 666]);

    assert_eq!(build(&store, TpdoKind::RailCurrent), TpdoFrame::RailCurrent([111, 222, 333]).encode());
    assert_eq!(build(&store, TpdoKind::RailVoltage), TpdoFrame::RailVoltage([444, 555, 666]).encode());
}

#[test]
fn valve_status_carries_ownership_and_relief_alongside() {
    let mut store = Store::new();
    store.valve_status = io_board::index::PerValve::new([1, 2, 3, 4]);
    store.hco_owner = io_board::index::PerHco::new([1, 1, 0, 0]);
    store.relief_state = io_board::relief::ReliefState::Relieving as u8;

    assert_eq!(
        build(&store, TpdoKind::ValveStatus),
        TpdoFrame::ValveStatus {
            status: [1, 2, 3, 4],
            hco_owner: [1, 1, 0, 0],
            relief_state: io_board::relief::ReliefState::Relieving as u8,
        }
        .encode()
    );
}

#[test]
fn hco_state_reports_pwm_when_a_pulse_width_is_set_and_digital_otherwise() {
    let mut store = Store::new();
    // output 0: PWM at 1500us; output 1: digital high; output 2: digital low (default);
    // output 3: also digital high.
    store.hco_pwm_us[HcoId::Hco0] = 1500;
    store.hco_digital[HcoId::Hco0] = 1; // set alongside pwm_us on the real path too; pwm_us wins
    store.hco_digital[HcoId::Hco1] = 1;
    store.hco_digital[HcoId::Hco3] = 1;

    let frame = build(&store, TpdoKind::HcoState);
    assert_eq!(
        frame,
        TpdoFrame::HcoState([
            HcoOutput::Pwm(1500),
            HcoOutput::DigitalOn,
            HcoOutput::DigitalOff,
            HcoOutput::DigitalOn,
        ])
        .encode()
    );
}

#[test]
fn status_reports_stalled_valves_as_a_bitmask_and_no_longer_carries_relief() {
    let mut store = Store::new();
    store.valve_status[ValveId::Valve0] = io_board::valves::ValveStatus::Holding as u8;
    store.valve_status[ValveId::Valve2] = io_board::valves::ValveStatus::Stalled as u8;
    store.link_state = LinkState::FallbackA;
    store.ms_since_heartbeat = 0x0102_0304;

    let frame = build(&store, TpdoKind::Status);
    assert_eq!(frame[0], LinkState::FallbackA as u8);
    assert_eq!(frame[2], 0b0000_0100, "only valve 2 is stalled");
    assert_eq!(&frame[4..], &0x0102_0304u32.to_le_bytes());
}

#[test]
fn sensor_windows_do_not_overlap_and_slot_3_is_always_invalid_here() {
    let mut store = Store::new();
    store.sensor_value = io_board::index::PerSensorSlot::new([10, 11, 12, 13, 14, 15, 16, 17]);
    assert_eq!(build(&store, TpdoKind::Sensor0), TpdoFrame::Sensor0([10, 11, 12, 13]).encode());
    assert_eq!(build(&store, TpdoKind::Sensor1), TpdoFrame::Sensor1([14, 15, 16, 17]).encode());
    assert_eq!(
        build(&store, TpdoKind::Sensor3),
        TpdoFrame::Sensor3([io_board::store::SENSOR_INVALID; 4]).encode(),
        "this node only has 8 sensor slots, so slots 8..12 never have real data"
    );
}

#[test]
fn sensor_units_covers_all_twelve_protocol_slots() {
    let mut store = Store::new();
    store.sensor_unit = io_board::index::PerSensorSlot::new([0, 1, 2, 3, 1, 1, 1, 1]);

    let frame = build(&store, TpdoKind::SensorUnits);
    assert_eq!(
        frame,
        TpdoFrame::SensorUnits([0, 1, 2, 3, 1, 1, 1, 1, 0, 0, 0, 0]).encode(),
        "slots 8..12 pad with 0 (this node has no sensors there)"
    );
}

#[test]
fn a_kind_is_always_sent_the_first_time() {
    assert!(should_send(None, 0, [0; 8]));
}

#[test]
fn an_unchanged_payload_is_skipped_before_the_keepalive_elapses() {
    let payload = [1, 2, 3, 4, 5, 6, 7, 8];
    let last_sent = Some((1_000, payload));
    assert!(!should_send(last_sent, 1_000 + UNCHANGED_DATA_BROADCAST_DURATION - 1, payload));
}

#[test]
fn an_unchanged_payload_is_resent_once_the_keepalive_elapses() {
    let payload = [1, 2, 3, 4, 5, 6, 7, 8];
    let last_sent = Some((1_000, payload));
    assert!(should_send(last_sent, 1_000 + UNCHANGED_DATA_BROADCAST_DURATION, payload));
}

#[test]
fn a_changed_payload_is_sent_immediately_regardless_of_the_keepalive() {
    let last_sent = Some((1_000, [0; 8]));
    assert!(should_send(last_sent, 1_000, [1; 8]));
}

#[test]
fn the_scan_frame_exposes_both_presence_bitmaps() {
    let mut store = Store::new();
    store.i2c_present = io_board::index::PerI2cBus::new([0b1_0000_0001, 0b0_0000_0110]);
    store.i2c_sweeps = 42;

    let frame = build(&store, TpdoKind::I2cScan);
    assert_eq!(u16::from_le_bytes([frame[0], frame[1]]), 0b1_0000_0001);
    assert_eq!(u16::from_le_bytes([frame[2], frame[3]]), 0b0_0000_0110);
    assert_eq!(u16::from_le_bytes([frame[4], frame[5]]), 42);
}

#[test]
fn a_kind_is_polled_at_its_interval_and_sent_when_it_has_news() {
    let mut store = Store::new();
    let mut tpdo = Tpdo::new(6);
    let kind = TpdoKind::RailVoltage;

    let (id, body) = tpdo.poll(&store, kind, 100, 1_000).expect("the first frame is always sent");
    assert_eq!(id, kind.cob_id(6));
    assert_eq!(body.as_slice(), &build(&store, kind));

    store.rail_voltage_mv = io_board::index::PerRail::new([444, 555, 666]);
    assert!(tpdo.poll(&store, kind, 100, 1_099).is_none(), "not due yet");
    let (_, body) = tpdo.poll(&store, kind, 100, 1_100).expect("due, and changed");
    assert_eq!(body.as_slice(), &TpdoFrame::RailVoltage([444, 555, 666]).encode());

    assert!(tpdo.poll(&store, kind, 100, 1_200).is_none(), "due, but nothing new");
    assert!(tpdo.poll(&store, kind, 100, 6_099).is_none());
    assert!(tpdo.poll(&store, kind, 100, 6_150).is_none(), "the last look put it off");
    assert!(tpdo.poll(&store, kind, 100, 6_199).is_some(), "silent for long enough");
    assert!(tpdo.poll(&store, kind, 0, 60_000).is_none(), "switched off");
    assert!(tpdo.poll(&store, TpdoKind::Status, 100, 60_000).is_some(), "the kinds are independent");
}
