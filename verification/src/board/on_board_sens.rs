//! On-board measurements: converter readings as voltages and currents.
use crate::index::Per;
use crate::rail_sense::Rails;
use vstd::prelude::*;

verus! {

/// A number cut to sixteen bits.
pub open spec fn low16(x: int) -> int {
    x % 65536
}

/// The converter's own scale: what it reads of the internal reference.
pub struct Reference {
    vref_sample: u16,
}

impl Reference {
    pub closed spec fn sample(self) -> u16 {
        self.vref_sample
    }

    pub open spec fn wf(self) -> bool {
        self.sample() > 0
    }

    /// A reference that read as nothing counts as one, so that it can be divided by.
    pub fn new(vref_sample: u16) -> (r: Self)
        ensures
            r.wf(),
            r.sample() == if vref_sample == 0 {
                1
            } else {
                vref_sample
            },
    {
        Self {
            vref_sample: if vref_sample == 0 {
                1
            } else {
                vref_sample
            },
        }
    }

    /// A reading in microvolts.
    pub open spec fn microvolts(self, raw: u16) -> int {
        raw * 1_200_000 / self.sample() as int
    }

    /// A reading in millivolts, against a reference of 1200 mV.
    pub fn reading_to_mv(&self, raw: u16) -> (r: u16)
        requires
            self.wf(),
        ensures
            r == low16(raw * 1200 / self.sample() as int),
    {
        let mv: u32 = (raw as u32 * 1200) / (self.vref_sample as u32);
        (mv % 65536) as u16
    }

    /// A reading in microvolts, against the same reference.
    pub fn reading_to_uv(&self, raw: u16) -> (r: u32)
        requires
            self.wf(),
        ensures
            r == (raw * 1_200_000 / self.sample() as int) % 0x1_0000_0000,
            r == self.microvolts(raw) % 0x1_0000_0000,
    {
        let uv: u64 = (raw as u64 * 1_200_000) / (self.vref_sample as u64);
        (uv % 0x1_0000_0000) as u32
    }
}

/// Voltage at the converter to voltage on the rail: there is a 15k / 2.2k divider between them.
pub fn reading_v_to_system_v(v_mv: u16) -> (r: u16)
    ensures
        r == low16(v_mv * 86 / 11),
{
    let mv: u32 = (v_mv as u32 * 86) / 11;
    (mv % 65536) as u16
}

/// Voltage at the converter to current through the shunt: 15 milliohm, amplified twentyfold.
pub fn reading_v_to_current_ma(v_mv: u16) -> (r: u16)
    ensures
        r == low16(v_mv * 1000 / 300),
{
    let ma: u32 = v_mv as u32 * 1000 / (15 * 20);
    (ma % 65536) as u16
}

/// The readings behind one snapshot of the rails. The logic rail's current is not measured on every
/// board.
#[derive(Clone, Copy, PartialEq, Eq, Debug, Structural)]
pub struct RailReadings {
    pub logic_current: Option<u16>,
    pub hco12_current: u16,
    pub hco34_current: u16,
    pub logic_voltage: u16,
    pub hco12_voltage: u16,
    pub hco34_voltage: u16,
}

pub open spec fn current_of(reference: Reference, raw: u16) -> int {
    low16(low16(raw * 1200 / reference.sample() as int) * 1000 / 300)
}

pub open spec fn voltage_of(reference: Reference, raw: u16) -> int {
    low16(low16(raw * 1200 / reference.sample() as int) * 86 / 11)
}

/// The currents and the voltages of the three rails, by their readings.
pub open spec fn rails_of(reference: Reference, readings: RailReadings) -> (Seq<u16>, Seq<u16>) {
    (
        seq![
            match readings.logic_current {
                Some(raw) => current_of(reference, raw) as u16,
                None => 0u16,
            },
            current_of(reference, readings.hco12_current) as u16,
            current_of(reference, readings.hco34_current) as u16,
        ],
        seq![
            voltage_of(reference, readings.logic_voltage) as u16,
            voltage_of(reference, readings.hco12_voltage) as u16,
            voltage_of(reference, readings.hco34_voltage) as u16,
        ],
    )
}

/// A snapshot of the rails from their readings. A current that is not measured counts as none.
pub fn rails_from(reference: &Reference, readings: &RailReadings) -> (r: Rails)
    requires
        reference.wf(),
    ensures
        r.current_ma@ == seq![
            match readings.logic_current {
                Some(raw) => current_of(*reference, raw) as u16,
                None => 0u16,
            },
            current_of(*reference, readings.hco12_current) as u16,
            current_of(*reference, readings.hco34_current) as u16,
        ],
        r.voltage_mv@ == seq![
            voltage_of(*reference, readings.logic_voltage) as u16,
            voltage_of(*reference, readings.hco12_voltage) as u16,
            voltage_of(*reference, readings.hco34_voltage) as u16,
        ],
        (r.current_ma@, r.voltage_mv@) == rails_of(*reference, *readings),
{
    let logic: u16 = match readings.logic_current {
        Some(raw) => reading_v_to_current_ma(reference.reading_to_mv(raw)),
        None => 0,
    };
    let current = [
        logic,
        reading_v_to_current_ma(reference.reading_to_mv(readings.hco12_current)),
        reading_v_to_current_ma(reference.reading_to_mv(readings.hco34_current)),
    ];
    let voltage = [
        reading_v_to_system_v(reference.reading_to_mv(readings.logic_voltage)),
        reading_v_to_system_v(reference.reading_to_mv(readings.hco12_voltage)),
        reading_v_to_system_v(reference.reading_to_mv(readings.hco34_voltage)),
    ];
    let r = Rails { current_ma: Per::new(current), voltage_mv: Per::new(voltage) };
    assert(r.current_ma@ =~= seq![
        match readings.logic_current {
            Some(raw) => current_of(*reference, raw) as u16,
            None => 0u16,
        },
        current_of(*reference, readings.hco12_current) as u16,
        current_of(*reference, readings.hco34_current) as u16,
    ]);
    assert(r.voltage_mv@ =~= seq![
        voltage_of(*reference, readings.logic_voltage) as u16,
        voltage_of(*reference, readings.hco12_voltage) as u16,
        voltage_of(*reference, readings.hco34_voltage) as u16,
    ]);
    r
}

/// The mean of four samples, rounded down.
pub open spec fn mean_of(samples: Seq<u16>) -> int {
    (samples[0] + samples[1] + samples[2] + samples[3]) / 4
}

/// The heater thermistor's reading: the mean of four samples, rounded down.
pub fn heater_ntc_counts(samples: [u16; 4]) -> (r: u16)
    ensures
        r == (samples@[0] + samples@[1] + samples@[2] + samples@[3]) / 4,
        r == mean_of(samples@),
{
    let sum: u32 = samples[0] as u32 + samples[1] as u32 + samples[2] as u32 + samples[3] as u32;
    (sum / 4) as u16
}

/// The conversions that are cut to sixteen bits lose nothing on what the converter can read: its
/// twelve bits, against a reference that reads at least a third of a volt's worth.
pub proof fn twelve_bit_readings_are_not_cut(reference: Reference, raw: u16)
    requires
        raw <= 4095,
        reference.sample() >= 600,
    ensures
        current_of(reference, raw) == (raw * 1200 / reference.sample() as int) * 1000 / 300,
        voltage_of(reference, raw) == (raw * 1200 / reference.sample() as int) * 86 / 11,
{
    let s = reference.sample() as int;
    let mv = raw * 1200 / s;
    assert(0 <= mv <= 8190) by (nonlinear_arith)
        requires
            0 <= raw <= 4095,
            s >= 600,
            mv == raw * 1200 / s,
    ;
}

/// A current is read off a shunt of 15 milliohm behind a twentyfold amplifier, and a voltage off a
/// divider of 15 k over 2.2 k: for a reading that the converter can give, the millivolts at the
/// converter are the reading's share of the reference's 1200, the current is ten thirds of them and
/// the voltage eighty-six elevenths, each rounded down.
pub proof fn a_reading_is_scaled_by_the_board(reference: Reference, raw: u16, mv: int)
    requires
        raw <= 4095,
        reference.sample() >= 600,
        mv * reference.sample() <= raw * 1200 < (mv + 1) * reference.sample(),
    ensures
        3 * current_of(reference, raw) <= 10 * mv < 3 * current_of(reference, raw) + 3,
        11 * voltage_of(reference, raw) <= 86 * mv < 11 * voltage_of(reference, raw) + 11,
{
    twelve_bit_readings_are_not_cut(reference, raw);
    let s = reference.sample() as int;
    let n = raw * 1200;
    assert(n / s == mv) by (nonlinear_arith)
        requires
            s > 0,
            mv * s <= n < (mv + 1) * s,
    ;
}

/// A higher reading is no lower a current and no lower a voltage, against the same reference.
pub proof fn a_higher_reading_is_no_less(reference: Reference, a: u16, b: u16)
    requires
        a <= b <= 4095,
        reference.sample() >= 600,
    ensures
        current_of(reference, a) <= current_of(reference, b),
        voltage_of(reference, a) <= voltage_of(reference, b),
{
    twelve_bit_readings_are_not_cut(reference, a);
    twelve_bit_readings_are_not_cut(reference, b);
    let s = reference.sample() as int;
    assert(a * 1200 / s <= b * 1200 / s) by (nonlinear_arith)
        requires
            s > 0,
            0 <= a <= b,
    ;
}

/// Each rail is measured by its own readings, the logic rail first and then the two pairs; a current
/// that is not measured counts as none.
pub proof fn each_rail_has_its_own_readings(reference: Reference, readings: RailReadings)
    ensures
        ({
            let (current, voltage) = rails_of(reference, readings);
            &&& current.len() == 3 && voltage.len() == 3
            &&& readings.logic_current is None ==> current[0] == 0
            &&& readings.logic_current matches Some(raw) ==> current[0] == current_of(reference, raw)
            &&& current[1] == current_of(reference, readings.hco12_current)
            &&& current[2] == current_of(reference, readings.hco34_current)
            &&& voltage[0] == voltage_of(reference, readings.logic_voltage)
            &&& voltage[1] == voltage_of(reference, readings.hco12_voltage)
            &&& voltage[2] == voltage_of(reference, readings.hco34_voltage)
        }),
{
}

/// The mean of four samples is no less than the least of them and no more than the greatest, and four
/// times it is their sum, up to what rounding down loses.
pub proof fn a_mean_lies_between_its_samples(samples: Seq<u16>, low: int, high: int)
    requires
        samples.len() == 4,
        forall|i: int| 0 <= i < 4 ==> low <= #[trigger] samples[i] <= high,
    ensures
        low <= mean_of(samples) <= high,
        ({
            let sum = samples[0] + samples[1] + samples[2] + samples[3];
            4 * mean_of(samples) <= sum <= 4 * mean_of(samples) + 3
        }),
{
    assert(low <= samples[0] <= high && low <= samples[1] <= high);
    assert(low <= samples[2] <= high && low <= samples[3] <= high);
}

/// Microvolts are the reading's share of the reference's 1.2 volts, rounded down, so that the reference
/// itself reads as that much.
pub proof fn microvolts_are_the_readings_share(reference: Reference, raw: u16)
    requires
        reference.wf(),
    ensures
        reference.microvolts(raw) * reference.sample() <= raw * 1_200_000 < (reference.microvolts(raw)
            + 1) * reference.sample(),
        reference.microvolts(reference.sample()) == 1_200_000,
{
    let s = reference.sample() as int;
    let n = raw * 1_200_000;
    let q = n / s;
    vstd::arithmetic::div_mod::lemma_fundamental_div_mod(n, s);
    assert(q * s <= n < (q + 1) * s) by (nonlinear_arith)
        requires
            n == s * q + n % s,
            0 <= n % s < s,
    ;
    assert(s * 1_200_000 / s == 1_200_000) by (nonlinear_arith)
        requires
            s > 0,
    ;
}

} // verus!
