use io_board::config::supplement::{accept_supplement, build_supplement, SLOT_LEN, SUPPLEMENT_LEN, SUPPLEMENT_OFFSET};
use io_board::config::persist::{read_record, write_record, Commit, NorConfigStore, PersistError, BUF_LEN, HEADER_LEN, RECORD_LEN, SECTOR_LEN, SLOT_OFFSETS};
use io_board::config::{Config, SensorCalib, SensorSlotConfig, Unit, ValveConfig, ValveHeatingConfig};
use io_board::index::{AmplifierId, AnalogInput, HcoId, HcoPair, I2cBus, PdoSensorChannel, SensorSlot, ValveId};

/// `value = (reading - offset) * per_count`, the form the bench calibrations are recorded in.
fn per_count(offset_counts: f32, per_count: f32) -> SensorCalib {
    SensorCalib {
        offset_milli: (offset_counts * 1000.0) as i32,
        slope_nano: (per_count * 1_000_000_000.0) as i32,
        constant_milli: 0,
    }
}

fn with_constant(calib: SensorCalib, whole_units: f32) -> SensorCalib {
    SensorCalib { constant_milli: (whole_units * 1000.0) as i32, ..calib }
}

/// The record has to survive a round trip byte for byte, because a mismatch between the
/// writer and the reader would only show up as a board that silently forgets its calibration.
#[test]
fn record_round_trips() {
    let mut cfg = Config::new();
    cfg.master_node_id = 4;
    cfg.valves[ValveId::Valve1] = ValveConfig::servo_on_pair(io_board::index::HcoPair::A, 2470, 500, 1200);
    cfg.sensors[SensorSlot::Slot2] = SensorSlotConfig::pressure(
        I2cBus::Bus1,
        AmplifierId::Amp3,
        Unit::DeciBar,
        per_count(439.0, 0.911_161_7),
    );

    let mut buf = [0u8; BUF_LEN];
    let len = write_record(&cfg, 7, &mut buf);
    assert_eq!(len, RECORD_LEN);

    let (sequence, back) = read_record(&buf).expect("record should validate");
    assert_eq!(sequence, 7);
    assert_eq!(back.master_node_id, 4);
    assert_eq!(back.valves[ValveId::Valve1].closed_us, 2470);
    assert_eq!(back.valves[ValveId::Valve1].power_hco, Some(HcoId::Hco0));
    assert_eq!(back.sensors[SensorSlot::Slot2].unit as u8, Unit::DeciBar as u8);
    assert_eq!(
        back.sensors[SensorSlot::Slot2].calib.slope_nano,
        cfg.sensors[SensorSlot::Slot2].calib.slope_nano
    );
}

/// The constant term is the difference between gauge and absolute pressure for a slot, so
/// losing it across a save would silently shift every reading by a bar.
#[test]
fn the_calibration_constant_survives_a_round_trip() {
    let mut cfg = Config::new();
    cfg.sensors[SensorSlot::Slot0] = SensorSlotConfig::pressure(
        I2cBus::Bus0,
        AmplifierId::Amp0,
        Unit::CentiBar,
        with_constant(per_count(47.0, 0.106_044_5), 1.013),
    );
    // ...and a slot on the plain form keeps its zero.
    cfg.sensors[SensorSlot::Slot1] = SensorSlotConfig::pressure(
        I2cBus::Bus0,
        AmplifierId::Amp1,
        Unit::CentiBar,
        per_count(15.0, 0.0855),
    );

    let mut buf = [0u8; BUF_LEN];
    write_record(&cfg, 1, &mut buf);
    let (_, back) = read_record(&buf).expect("record should validate");

    assert_eq!(back.sensors[SensorSlot::Slot0].calib.constant_milli, 1013);
    assert_eq!(back.sensors[SensorSlot::Slot1].calib.constant_milli, 0);
}

#[test]
fn corrupted_record_is_rejected() {
    let cfg = Config::new();
    let mut buf = [0u8; BUF_LEN];
    write_record(&cfg, 1, &mut buf);
    buf[HEADER_LEN + 3] ^= 0xFF;
    assert!(read_record(&buf).is_none());
}

#[test]
fn erased_flash_is_not_a_record() {
    assert!(read_record(&[0xFF; BUF_LEN]).is_none());
}

/// An index that is not a valid id of its domain fails the whole record.
///
/// This used to get through: `power_hco`/`signal_hco` were read as raw `Option<u8>` with no
/// range check, `sanity_check` only checked sharing and clamps, and `control::apply_drive`
/// then dropped the out-of-range output silently — so a board would come up reporting a
/// configured valve that could never move. Typing the field as `Option<HcoId>` moves the check
/// to the one place that can still reject, which is here.
///
/// The CRC is recomputed after the corruption so this tests the id parse specifically, not the
/// checksum that would otherwise catch it first.
#[test]
fn an_out_of_range_index_fails_the_record() {
    // Byte offsets into the body: the per-valve block starts after the 16-byte scalar prefix,
    // and within a valve `kind` comes first, then power_hco, then signal_hco.
    const VALVE_BLOCK: usize = 16;
    for (offset, what) in [(VALVE_BLOCK + 1, "power_hco"), (VALVE_BLOCK + 2, "signal_hco")] {
        let mut cfg = Config::new();
        cfg.valves[ValveId::Valve0] = ValveConfig::servo_on_pair(io_board::index::HcoPair::A, 2000, 1000, 500);

        let mut buf = [0u8; BUF_LEN];
        let len = write_record(&cfg, 1, &mut buf);
        assert!(read_record(&buf).is_some(), "the record should be good before corrupting it");

        // 4 is one past the last output (HCO4 is index 3), and not the 0xFF "none" sentinel.
        buf[HEADER_LEN + offset] = 4;
        let end = len - 4;
        let checksum = crc::Crc::<u32>::new(&crc::CRC_32_ISO_HDLC).checksum(&buf[..end]).to_le_bytes();
        buf[end..len].copy_from_slice(&checksum);

        assert!(read_record(&buf).is_none(), "{what} = 4 must fail the record, not be accepted");
    }
}


/// Two sectors in memory.
struct MockFlash {
    data: Vec<u8>,
    writes: u32,
}

impl MockFlash {
    fn new() -> Self {
        Self { data: vec![0xFF; 2 * SECTOR_LEN as usize], writes: 0 }
    }

    fn commit(&mut self, commit: &Commit) {
        let offset = commit.offset as usize;
        self.data[offset..offset + SECTOR_LEN as usize].fill(0xFF);
        self.writes += 1;
        let behind = commit.supplement_offset as usize;
        self.data[behind..behind + commit.supplement.len()].copy_from_slice(&commit.supplement);
        self.data[offset..offset + commit.record.len()].copy_from_slice(&commit.record);
    }

    fn slot(&self, slot: usize) -> Option<[u8; SLOT_LEN]> {
        let offset = SLOT_OFFSETS[slot] as usize;
        Some(self.data[offset..offset + SLOT_LEN].try_into().unwrap())
    }
}

fn save(store: &mut NorConfigStore, flash: &mut MockFlash, cfg: &Config) -> Result<(), PersistError> {
    if let Some(commit) = store.save(cfg)? {
        flash.commit(&commit);
        store.committed(commit);
    }
    Ok(())
}

/// What is read of a sector that holds a record and nothing behind it.
fn record_alone(cfg: &Config, sequence: u32) -> [u8; SLOT_LEN] {
    let mut buf = [0xFFu8; BUF_LEN];
    write_record(cfg, sequence, &mut buf);
    let mut slot = [0xFFu8; SLOT_LEN];
    slot[..BUF_LEN].copy_from_slice(&buf);
    slot
}

fn load(store: &mut NorConfigStore, flash: &MockFlash) -> Result<Config, PersistError> {
    store.load(&[flash.slot(0), flash.slot(1)])
}

/// A lazy master that keeps resending the same config and re-triggering a save must not keep
/// erasing and rewriting the sector.
#[test]
fn save_skips_flash_write_when_config_is_unchanged() {
    let mut flash = MockFlash::new();
    let mut store = NorConfigStore::new();
    let cfg = Config::new();

    save(&mut store, &mut flash, &cfg).expect("first save should succeed");
    assert_eq!(flash.writes, 1);

    save(&mut store, &mut flash, &cfg).expect("resaving the same config should succeed");
    assert_eq!(flash.writes, 1, "unchanged config must not touch flash again");

    let mut changed = cfg.clone();
    changed.master_node_id = 5;
    save(&mut store, &mut flash, &changed).expect("saving a changed config should succeed");
    assert_eq!(flash.writes, 2, "a real change must still be persisted");
}

/// A config loaded from flash is the baseline for comparison too.
#[test]
fn save_after_load_of_the_same_config_is_a_no_op() {
    let mut flash = MockFlash::new();
    let mut store = NorConfigStore::new();
    let cfg = Config::new();
    save(&mut store, &mut flash, &cfg).unwrap();
    assert_eq!(flash.writes, 1);

    let mut reloaded = NorConfigStore::new();
    flash.writes = 0;
    let loaded = load(&mut reloaded, &flash).expect("should load the record just saved");

    save(&mut reloaded, &mut flash, &loaded).expect("resaving the loaded config should succeed");
    assert_eq!(flash.writes, 0, "resaving what was just loaded must not touch flash");
}

#[test]
fn saves_alternate_between_the_slots_and_the_newest_wins() {
    let mut flash = MockFlash::new();
    let mut store = NorConfigStore::new();
    for id in 2..6u8 {
        let mut cfg = Config::new();
        cfg.master_node_id = id;
        let commit = store.save(&cfg).unwrap().expect("every one of these is a change");
        assert_eq!(commit.slot, (id % 2) as usize, "the first save of a virgin board goes to slot 0");
        assert_eq!(commit.offset, SLOT_OFFSETS[commit.slot]);
        assert_eq!(commit.sequence, id as u32 - 1);
        flash.commit(&commit);
        store.committed(commit);

        let found = load(&mut NorConfigStore::new(), &flash).unwrap();
        assert_eq!(found.master_node_id, id);
    }
}

#[test]
fn a_torn_save_leaves_the_older_config_to_be_found() {
    let mut flash = MockFlash::new();
    let mut store = NorConfigStore::new();
    let mut cfg = Config::new();
    save(&mut store, &mut flash, &cfg).unwrap();
    cfg.master_node_id = 9;
    let commit = store.save(&cfg).unwrap().unwrap();
    flash.commit(&commit);
    // The power fails before the last byte is down.
    let last = commit.offset as usize + commit.record.len() - 1;
    flash.data[last] ^= 0xFF;
    assert_eq!(load(&mut NorConfigStore::new(), &flash).unwrap().master_node_id, 1);
}

#[test]
fn a_virgin_board_has_no_valid_record() {
    let flash = MockFlash::new();
    let mut store = NorConfigStore::new();
    assert_eq!(load(&mut store, &flash).unwrap_err(), PersistError::NoValidRecord);
    assert_eq!(store.load(&[None, None]).unwrap_err(), PersistError::NoValidRecord);
}

#[test]
fn an_unusable_config_is_neither_saved_nor_loaded() {
    let mut cfg = Config::new();
    cfg.master_node_id = 16;
    let store = NorConfigStore::new();
    assert!(matches!(store.save(&cfg), Err(PersistError::Invalid)));

    assert!(matches!(NorConfigStore::new().load(&[Some(record_alone(&cfg, 1)), None]), Err(PersistError::Invalid)));
}

#[test]
fn an_unreadable_slot_does_not_hide_the_other() {
    let slot = record_alone(&Config::new(), 3);
    assert!(NorConfigStore::new().load(&[None, Some(slot)]).is_ok());
}

#[test]
fn erasing_forgets_what_was_stored() {
    let mut flash = MockFlash::new();
    let mut store = NorConfigStore::new();
    let cfg = Config::new();
    save(&mut store, &mut flash, &cfg).unwrap();
    store.erase_all();
    let commit = store.save(&cfg).unwrap().expect("nothing is known to be stored any more");
    assert_eq!((commit.slot, commit.sequence), (0, 1));
}

/// The checksum is the catalogue's: its check value over the digits.
#[test]
fn a_record_ends_in_the_checksum_of_its_content() {
    let mut buf = [0u8; BUF_LEN];
    let len = write_record(&Config::new(), 1, &mut buf);
    let crc = crc::Crc::<u32>::new(&crc::CRC_32_ISO_HDLC);
    assert_eq!(crc.checksum(b"123456789"), 0xCBF4_3926);
    assert_eq!(buf[len - 4..len], crc.checksum(&buf[..len - 4]).to_le_bytes());
    assert_eq!(buf[..4], 0x4249_4F43u32.to_le_bytes());
    assert_eq!(buf[4..8], [3, 0, 35, 1]);
}

#[test]
fn a_record_of_another_version_is_rejected() {
    let mut buf = [0u8; BUF_LEN];
    let len = write_record(&Config::new(), 1, &mut buf);
    buf[4] = 2;
    let crc = crc::Crc::<u32>::new(&crc::CRC_32_ISO_HDLC).checksum(&buf[..len - 4]).to_le_bytes();
    buf[len - 4..len].copy_from_slice(&crc);
    assert!(read_record(&buf).is_none());
}

/// Everything that can be written over the bus is stored: where a valve's position comes from, which
/// pin and broadcast channel a slot is on, and how the pads are wired.
#[test]
fn what_is_saved_is_what_is_loaded() {
    let cfg = Config::new()
        .with_valve(
            ValveId::Valve0,
            ValveConfig::servo_on_pair(HcoPair::A, 2000, 1000, 500).with_position_sensor(SensorSlot::Slot4),
        )
        .with_sensor(SensorSlot::Slot4, SensorSlotConfig::encoder(I2cBus::Bus1, 40, -1024))
        .with_sensor(
            SensorSlot::Slot6,
            SensorSlotConfig::ntc(AnalogInput::ALL[2]).on_channel(PdoSensorChannel::ALL[11]),
        )
        .with_quiet_sensor(SensorSlot::Slot7, SensorSlotConfig::ntc(AnalogInput::ALL[1]))
        .with_valve_heating(
            ValveId::Valve2,
            ValveHeatingConfig::new(HcoId::Hco2, SensorSlot::Slot6, -550).also_on(HcoId::Hco3).with_hysteresis(75),
        );
    let cfg = Config { heater_setpoint_centi_c: -1_250, ..cfg };

    let mut flash = MockFlash::new();
    save(&mut NorConfigStore::new(), &mut flash, &cfg).expect("a sane config is saved");
    let back = load(&mut NorConfigStore::new(), &flash).expect("and found again");

    assert_eq!(back.valves, cfg.valves);
    assert_eq!(back.sensors, cfg.sensors);
    assert_eq!(back.heating, cfg.heating);
    assert_eq!(back.heater_setpoint_centi_c, -1_250);
    assert_eq!(back.tpdo_interval_ms, cfg.tpdo_interval_ms);
    assert_eq!(back.relief, cfg.relief);
    assert_eq!(back.valves[ValveId::Valve0].position_sensor, Some(SensorSlot::Slot4));
    assert_eq!(back.sensors[SensorSlot::Slot6].pdo_channel, Some(PdoSensorChannel::ALL[11]));
    assert_eq!(back.sensors[SensorSlot::Slot7].pdo_channel, None);
    assert!(back.heating[ValveId::Valve2].switches(HcoId::Hco3));
    assert_eq!(back.heating[ValveId::Valve2].setpoint, -550);
}

/// The config that a board is reconfigured to in the tests below.
fn heated() -> Config {
    Config::new()
        .with_valve(ValveId::Valve0, ValveConfig::servo_on_pair(HcoPair::A, 2000, 1000, 500))
        .with_sensor(SensorSlot::Slot1, SensorSlotConfig::ntc(AnalogInput::ALL[3]))
        .with_valve_heating(ValveId::Valve0, ValveHeatingConfig::new(HcoId::Hco2, SensorSlot::Slot1, 2500))
}

/// A record that was written without a supplement is loaded as it stands.
#[test]
fn a_record_alone_leaves_the_rest_at_its_defaults() {
    let cfg = heated();
    let back = NorConfigStore::new().load(&[Some(record_alone(&cfg, 4)), None]).expect("the record is good");
    assert_eq!(back.valves, cfg.valves);
    assert_eq!(back.tpdo_interval_ms, cfg.tpdo_interval_ms);
    let (sensor, saved) = (back.sensors[SensorSlot::Slot1], cfg.sensors[SensorSlot::Slot1]);
    assert_eq!((sensor.kind, sensor.unit, sensor.calib), (saved.kind, saved.unit, saved.calib));
    assert_eq!(sensor.pdo_channel, SensorSlotConfig::unused().pdo_channel);
    assert_eq!(back.heating[ValveId::Valve0], ValveHeatingConfig::none());
}

/// The record itself is the same whatever stands behind it.
#[test]
fn the_supplement_does_not_change_the_record() {
    let cfg = heated();
    let commit = NorConfigStore::new().save(&cfg).unwrap().unwrap();
    assert_eq!(commit.record.len(), 307);
    assert_eq!(commit.supplement.len(), SUPPLEMENT_LEN);
    assert_eq!(commit.supplement_offset, commit.offset + SUPPLEMENT_OFFSET as u32);
    assert_eq!(commit.record, record_alone(&cfg, commit.sequence)[..307]);
    let end = SUPPLEMENT_LEN - 4;
    let crc = crc::Crc::<u32>::new(&crc::CRC_32_ISO_HDLC).checksum(&commit.supplement[..end]);
    assert_eq!(commit.supplement[end..], crc.to_le_bytes());
    assert_eq!(commit.supplement[4..8], 1u32.to_le_bytes());
}

/// A change to a pad alone is a change.
#[test]
fn a_change_behind_the_record_is_saved() {
    let mut flash = MockFlash::new();
    let mut store = NorConfigStore::new();
    let mut cfg = heated();
    save(&mut store, &mut flash, &cfg).unwrap();
    save(&mut store, &mut flash, &cfg).unwrap();
    assert_eq!(flash.writes, 1);
    cfg.heating[ValveId::Valve0].setpoint = 2600;
    save(&mut store, &mut flash, &cfg).unwrap();
    assert_eq!(flash.writes, 2);
    assert_eq!(load(&mut NorConfigStore::new(), &flash).unwrap().heating[ValveId::Valve0].setpoint, 2600);
}

/// A garbled supplement, or one of another record, fails the slot.
#[test]
fn a_supplement_that_does_not_fit_fails_the_slot() {
    let mut flash = MockFlash::new();
    save(&mut NorConfigStore::new(), &mut flash, &heated()).unwrap();
    let good = flash.slot(0).unwrap();
    assert!(NorConfigStore::new().load(&[Some(good), None]).is_ok());

    let mut garbled = good;
    garbled[SUPPLEMENT_OFFSET + 30] ^= 1;
    assert!(matches!(NorConfigStore::new().load(&[Some(garbled), None]), Err(PersistError::NoValidRecord)));

    let mut foreign = good;
    foreign[SUPPLEMENT_OFFSET..].copy_from_slice(&build_supplement(&heated(), 9));
    assert!(matches!(NorConfigStore::new().load(&[Some(foreign), None]), Err(PersistError::NoValidRecord)));

    let mut begun = good;
    begun[..BUF_LEN].fill(0xFF);
    assert!(matches!(NorConfigStore::new().load(&[Some(begun), None]), Err(PersistError::NoValidRecord)));
}

/// An id that does not exist fails the supplement, whatever its checksum.
#[test]
fn an_out_of_range_index_fails_the_supplement() {
    let mut flash = MockFlash::new();
    save(&mut NorConfigStore::new(), &mut flash, &heated()).unwrap();
    let good = flash.slot(0).unwrap();
    let (_, base) = read_record(&good[..BUF_LEN]).unwrap();
    let stored = u32::from_le_bytes(good[SLOT_LEN - 4..].try_into().unwrap());
    assert!(accept_supplement(&good, &base, stored).is_some());
    assert!(accept_supplement(&good, &base, !stored).is_none());
    // A position sensor, a pin, a channel, a pad's output and a pad's slot.
    for (at, what) in [(0, 8u8), (4, 4), (5, 12), (21, 4), (26, 8)] {
        let mut bad = good;
        bad[SUPPLEMENT_OFFSET + 8 + at] = what;
        assert!(accept_supplement(&bad, &base, stored).is_none(), "{what} at {at}");
    }
}
