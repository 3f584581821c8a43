use io_board::proto::valve::{is_unpowered, position_of, unpowered_at, PROMILLE_MAX};

#[test]
fn the_flag_and_the_position_do_not_interfere() {
    let word = unpowered_at(750);
    assert!(is_unpowered(word));
    assert_eq!(position_of(word), 750, "the reading survives being released");
    assert!(!is_unpowered(750));
    assert_eq!(position_of(750), 750);
}

#[test]
fn the_full_range_fits_beside_the_flag() {
    for position in [0, 1, PROMILLE_MAX] {
        assert_eq!(position_of(unpowered_at(position)), position);
    }
    // 0xFFFF is not reachable from any legal position, which is what keeps the vehicle's
    // "not connected" sentinel from ever looking like a command.
    assert_ne!(unpowered_at(PROMILLE_MAX), u16::MAX);
}
