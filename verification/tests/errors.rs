use io_board::errors::{bump, bump_by, count, reset_all, snapshot, take_if_changed, Counters, ErrorCounter};

#[test]
fn counting_is_per_kind() {
    let mut counters = Counters::new();
    reset_all(&mut counters);

    bump(&mut counters, ErrorCounter::I2cTimeout);
    bump(&mut counters, ErrorCounter::I2cTimeout);
    bump(&mut counters, ErrorCounter::ValveStall);

    assert_eq!(count(&counters, ErrorCounter::I2cTimeout), 2);
    assert_eq!(count(&counters, ErrorCounter::ValveStall), 1);
    assert_eq!(count(&counters, ErrorCounter::CanRxOverrun), 0);
}

#[test]
fn a_batch_counts_as_many_as_it_lost() {
    let mut counters = Counters::new();
    reset_all(&mut counters);

    bump_by(&mut counters, ErrorCounter::CanRxDropped, 7);
    assert_eq!(count(&counters, ErrorCounter::CanRxDropped), 7);
}

/// Skipping the mirror on a quiet board is the whole point of the flag.
#[test]
fn a_quiet_board_costs_nothing_to_mirror() {
    let mut counters = Counters::new();
    reset_all(&mut counters);

    assert!(take_if_changed(&mut counters).is_none(), "nothing has happened yet");

    bump(&mut counters, ErrorCounter::CanRxError);
    let snapshot = take_if_changed(&mut counters).expect("a bump must be visible to the mirror");
    assert_eq!(snapshot[ErrorCounter::CanRxError], 1);

    assert!(take_if_changed(&mut counters).is_none(), "and once mirrored it is quiet again");
}

#[test]
fn a_zero_batch_is_not_an_event() {
    let mut counters = Counters::new();
    reset_all(&mut counters);

    bump_by(&mut counters, ErrorCounter::CanRxDropped, 0);
    assert!(take_if_changed(&mut counters).is_none(), "a lag of zero messages is not a loss");
}

/// A snapshot is indexed by the same id `bump` takes, so a mismatch between the `Id` impl and
/// the wire order would show up here rather than as a master trending the wrong column.
#[test]
fn a_snapshot_lines_up_with_the_wire_order() {
    let mut counters = Counters::new();
    reset_all(&mut counters);

    bump_by(&mut counters, ErrorCounter::ValveStall, 3);
    let snapshot = snapshot(&counters);

    assert_eq!(snapshot[ErrorCounter::ValveStall], 3);
    assert_eq!(snapshot.as_slice()[ErrorCounter::ValveStall.sub() as usize - 1], 3);
}
