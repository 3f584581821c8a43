use io_board::proto::ids::TpdoKind;
use io_board::proto::tpdo::{HcoOutput, TpdoFrame};

/// Every variant has to survive a round trip through its own kind, because a mismatch
/// between `encode` and `decode` would only show up as a listener silently misreading a
/// node's state.
#[test]
fn every_frame_round_trips_through_its_own_kind() {
    let samples = [
        TpdoFrame::ValveCommanded([1, 2, 3, 4]),
        TpdoFrame::ValveTarget([5, 6, 7, 8]),
        TpdoFrame::ValveMeasured([9, 10, 11, 12]),
        TpdoFrame::ValveStatus {
            status: [1, 2, 3, 4],
            hco_owner: [0, 1, 2, 4],
            relief_state: 2,
        },
        TpdoFrame::HcoState([
            HcoOutput::DigitalOn,
            HcoOutput::DigitalOff,
            HcoOutput::Pwm(1500),
            HcoOutput::Pwm(500),
        ]),
        TpdoFrame::RawBus0A([100, 200, 300, 400]),
        TpdoFrame::RawBus0B([500, 600, 700, 800]),
        TpdoFrame::RawBus1A([900, 1000, 1100, 1200]),
        TpdoFrame::RawBus1B([1300, 1400, 1500, 1600]),
        TpdoFrame::Sensor0([-1, -2, -3, i16::MIN]),
        TpdoFrame::Sensor1([1, 2, 3, i16::MAX]),
        TpdoFrame::Sensor3([0, 0, 0, 0]),
        TpdoFrame::SensorUnits([0, 1, 2, 3, 0, 1, 2, 3, 3, 2, 1, 0]),
        TpdoFrame::I2cScan {
            present: [0b1010, 0b0101],
            sweeps: 42,
        },
        TpdoFrame::RailVoltage([111, 222, 333]),
        TpdoFrame::RailCurrent([444, 555, 666]),
        TpdoFrame::Status {
            link_state: 2,
            raw_debug: true,
            stalled_mask: 0b0100,
            ms_since_heartbeat: 0x0102_0304,
        },
        TpdoFrame::ValveCurrent([50, 60, 70, 80]),
    ];

    for frame in samples {
        let bytes = frame.encode();
        assert_eq!(bytes.len(), 8);
        assert_eq!(TpdoFrame::decode(frame.kind(), bytes), frame, "{frame:?} did not round-trip");
    }
}

#[test]
fn status_packs_the_fields_at_their_fixed_offsets() {
    let frame = TpdoFrame::Status {
        link_state: 2,
        raw_debug: false,
        stalled_mask: 0b0000_0100,
        ms_since_heartbeat: 0x0102_0304,
    };
    let bytes = frame.encode();
    assert_eq!(bytes[0], 2);
    assert_eq!(bytes[1], 0);
    assert_eq!(bytes[2], 0b0000_0100);
    assert_eq!(&bytes[4..], &0x0102_0304u32.to_le_bytes());
}

#[test]
fn valve_status_nibble_packs_and_carries_relief_state() {
    let frame = TpdoFrame::ValveStatus {
        status: [1, 2, 3, 4],
        hco_owner: [1, 1, 0, 0],
        relief_state: 1,
    };
    // status[0]=1, status[1]=2 -> byte0 = 0x21; status[2]=3, status[3]=4 -> byte1 = 0x43
    // hco_owner[0]=1, hco_owner[1]=1 -> byte2 = 0x11; hco_owner[2]=0, hco_owner[3]=0 -> byte3 = 0x00
    assert_eq!(frame.encode(), [0x21, 0x43, 0x11, 0x00, 1, 0, 0, 0]);
}

#[test]
fn hco_state_merges_digital_and_pwm() {
    let frame = TpdoFrame::HcoState([
        HcoOutput::DigitalOn,
        HcoOutput::DigitalOff,
        HcoOutput::Pwm(1500),
        HcoOutput::Pwm(2500),
    ]);
    let bytes = frame.encode();
    assert_eq!(u16::from_le_bytes([bytes[0], bytes[1]]), 0x8000);
    assert_eq!(u16::from_le_bytes([bytes[2], bytes[3]]), 0x0000);
    assert_eq!(u16::from_le_bytes([bytes[4], bytes[5]]), 1500);
    assert_eq!(u16::from_le_bytes([bytes[6], bytes[7]]), 2500);
}

#[test]
fn sensor_units_packs_all_twelve_slots_into_three_bytes() {
    let frame = TpdoFrame::SensorUnits([0, 1, 2, 3, 3, 2, 1, 0, 1, 1, 1, 1]);
    let bytes = frame.encode();
    assert_eq!(bytes[3..], [0, 0, 0, 0, 0], "only the first 3 bytes carry data");
    assert_eq!(TpdoFrame::decode(TpdoKind::SensorUnits, bytes), frame);
}

#[test]
fn rails_are_two_separate_frames() {
    let voltage = TpdoFrame::RailVoltage([12000, 12100, 12200]);
    let current = TpdoFrame::RailCurrent([100, 200, 300]);
    assert_ne!(voltage.encode(), current.encode());
    assert_eq!(voltage.kind(), TpdoKind::RailVoltage);
    assert_eq!(current.kind(), TpdoKind::RailCurrent);
}

#[test]
fn kind_matches_what_was_used_to_decode() {
    for kind in io_board::proto::ids::TPDO_KINDS {
        let decoded = TpdoFrame::decode(kind, [0; 8]);
        assert_eq!(decoded.kind(), kind);
    }
}
