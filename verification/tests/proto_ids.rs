use io_board::proto::ids::{decode_pdo, TpdoKind, SDO_RESPONSE_BASE, TPDO_KINDS};

#[test]
fn identifiers_round_trip() {
    for (index, kind) in TPDO_KINDS.iter().enumerate() {
        assert_eq!(*kind as usize, index, "TPDO_KINDS must stay in discriminant order");
        let cob = kind.cob_id(6);
        assert_eq!(decode_pdo(cob), Some((6, index as u8)));
        assert_eq!(TpdoKind::from_index(index as u8), Some(*kind));
    }
}

#[test]
fn an_out_of_range_index_does_not_decode() {
    assert_eq!(TpdoKind::from_index(18), None);
    assert_eq!(TpdoKind::from_index(255), None);
}

#[test]
fn every_kind_fits_the_five_bit_field() {
    // A 19th kind would collide with the SDO range.
    assert!(TPDO_KINDS.len() <= 32);
    let highest = TPDO_KINDS.last().unwrap().cob_id(15);
    assert!(highest < SDO_RESPONSE_BASE, "process data must not reach the SDO range");
}

#[test]
fn node_ids_stay_inside_their_nibble() {
    assert_eq!(TpdoKind::ValveCommanded.cob_id(0), 0x200);
    assert_eq!(TpdoKind::ValveCommanded.cob_id(15), 0x20F);
    assert_eq!(TpdoKind::ValveTarget.cob_id(2), 0x212);
}
