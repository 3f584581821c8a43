use io_board::index::{AdcSlot, AmplifierId, HcoId, HcoPair, I2cBus, Id, PerHco, PerSensorSlot, PerValve, RailId, SensorSlot, ValveId};
use io_board::proto::ids::{PerTpdoKind, TpdoKind};

#[test]
fn ids_are_dense_and_in_order() {
    for (i, id) in HcoId::ALL.iter().enumerate() {
        assert_eq!(id.index(), i);
        assert_eq!(HcoId::from_index(i), Some(*id));
    }
    assert_eq!(HcoId::from_index(HcoId::COUNT), None);
    assert_eq!(ValveId::from_u8(4), None);
    assert_eq!(SensorSlot::from_u8(8), None);
}

#[test]
fn a_per_is_indexed_by_its_own_id() {
    let mut outputs: PerHco<u16> = PerHco::splat(0);
    outputs[HcoId::Hco2] = 7;
    assert_eq!(outputs.as_array(), &[0, 0, 7, 0]);
    assert_eq!(outputs[HcoId::Hco2], 7);
}

#[test]
fn iteration_pairs_each_id_with_its_slot() {
    let per = PerValve::new([10u16, 20, 30, 40]);
    let collected: Vec<_> = per.iter().into_iter().map(|(id, v)| (id, *v)).collect();
    assert_eq!(
        collected,
        vec![
            (ValveId::Valve0, 10),
            (ValveId::Valve1, 20),
            (ValveId::Valve2, 30),
            (ValveId::Valve3, 40)
        ]
    );
}

#[test]
fn from_fn_sees_every_id_exactly_once() {
    let per = PerSensorSlot::from_fn(|slot| slot.index() as u8);
    assert_eq!(per.as_array(), &[0, 1, 2, 3, 4, 5, 6, 7]);
}

/// The flattening the raw ADC array at 0x2000/0x2001 is defined by: bus 0's nine straps, then
/// bus 1's. Splitting a slot back into its halves has to be exact, since it picks the I2C
/// address to talk to.
#[test]
fn adc_slots_flatten_bus_major_and_split_back() {
    assert_eq!(AdcSlot::new(I2cBus::Bus0, AmplifierId::Amp0).index(), 0);
    assert_eq!(AdcSlot::new(I2cBus::Bus1, AmplifierId::Amp0).index(), 9);
    assert_eq!(AdcSlot::new(I2cBus::Bus1, AmplifierId::Amp8).index(), 17);
    assert_eq!(AdcSlot::from_index(18), None);

    for (i, slot) in AdcSlot::all().iter().enumerate() {
        assert_eq!(slot.index(), i);
        assert_eq!(slot.bus().index(), i / AmplifierId::COUNT);
        assert_eq!(slot.amplifier().index(), i % AmplifierId::COUNT);
    }
}

/// The harness convention the stall attribution depends on: a servo's power and signal are
/// the two outputs of one pair, and that pair is the one the shunt covers.
#[test]
fn an_hco_pair_owns_two_outputs_and_one_shunt() {
    assert_eq!(HcoPair::A.power(), HcoId::Hco0);
    assert_eq!(HcoPair::A.signal(), HcoId::Hco1);
    assert_eq!(HcoPair::B.power(), HcoId::Hco2);
    assert_eq!(HcoPair::B.signal(), HcoId::Hco3);

    for pair in HcoPair::ALL {
        assert_eq!(pair.power().pair(), pair);
        assert_eq!(pair.signal().pair(), pair);
        assert_eq!(pair.power().pair().rail(), pair.rail());
    }
    assert_eq!(HcoPair::A.rail(), RailId::Hco12);
    assert_eq!(HcoPair::B.rail(), RailId::Hco34);
}

#[test]
fn tpdo_kinds_index_their_own_interval_table() {
    let mut intervals: PerTpdoKind<u16> = PerTpdoKind::splat(0);
    intervals[TpdoKind::ValveCurrent] = 250;
    assert_eq!(intervals.as_array()[TpdoKind::ValveCurrent as usize], 250);
    assert_eq!(<TpdoKind as Id>::from_index(TpdoKind::COUNT), None);
}
