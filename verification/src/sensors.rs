//! How raw converter values are mapped to the eight reported sensors.
use crate::ext_adc::{AdcMeasurements, ExtAdcReading};
use vstd::prelude::*;

verus! {

/// What a sensor is. A pressure sensor names its bench calibration by number.
#[derive(Clone, Copy, PartialEq, Eq, Debug, Structural)]
pub enum SensorKind {
    SimplePressure(usize),
    TempPt1000,
}

#[derive(Clone, Copy, PartialEq, Eq, Debug, Structural)]
pub struct Sensor {
    pub kind: SensorKind,
    /// 0 or 1.
    pub bus_idx: usize,
    /// 0..9.
    pub adc_idx: usize,
}

impl Sensor {
    /// A sensor on a bus and a strap that exist.
    pub open spec fn wf(self) -> bool {
        self.bus_idx < 2 && self.adc_idx < 9
    }

    /// Which converter the sensor reads.
    pub open spec fn adc(self) -> int {
        self.bus_idx * 9 + self.adc_idx
    }
}

/// How raw bus values are mapped to the reported sensors.
#[derive(Clone, Copy, PartialEq, Eq, Debug)]
pub struct SensorMapping(pub [Option<Sensor>; 8]);

/// The first entry that is empty.
pub open spec fn first_empty(entries: Seq<Option<Sensor>>, from: int) -> Option<int>
    decreases entries.len() - from,
{
    if from >= entries.len() {
        None
    } else if entries[from] is None {
        Some(from)
    } else {
        first_empty(entries, from + 1)
    }
}

impl SensorMapping {
    /// Every entry is on a bus and a strap that exist.
    pub open spec fn wf(self) -> bool {
        forall|i: int|
            0 <= i < 8 ==> ((#[trigger] self.0@[i]) matches Some(sensor) ==> sensor.wf())
    }

    pub fn new_empty() -> (r: Self)
        ensures
            r.wf(),
            forall|i: int| 0 <= i < 8 ==> (#[trigger] r.0@[i]) is None,
    {
        Self([None;8])
    }

    /// Puts a sensor into the first empty entry. `None` if there is no such bus or strap, or no
    /// room left.
    #[verifier::loop_isolation(false)]
    pub fn add_consecutive(self, kind: SensorKind, bus_idx: usize, adc_idx: usize) -> (r: Option<Self>)
        requires
            self.wf(),
        ensures
            r is Some <==> bus_idx < 2 && adc_idx < 9 && first_empty(self.0@, 0) is Some,
            r matches Some(mapping) ==> mapping.wf() && mapping.0@ == self.0@.update(
                first_empty(self.0@, 0)->0,
                Some(Sensor { kind, bus_idx, adc_idx }),
            ),
    {
        if bus_idx >= 2 {
            return None;
        }
        if adc_idx >= 9 {
            return None;
        }
        let mut entries = self.0;
        let mut i: usize = 0;
        while i < 8
            invariant
                i <= 8,
                entries == self.0,
                first_empty(self.0@, 0) == first_empty(self.0@, i as int),
            decreases 8 - i,
        {
            if entries[i].is_none() {
                entries[i] = Some(Sensor { kind, bus_idx, adc_idx });
                return Some(Self(entries));
            }
            i += 1;
        }
        None
    }

    /// The raw value behind each reported sensor, with what it is to be converted by; `None` where
    /// nothing is mapped or the converter has no reading.
    pub fn select(&self, measurements: &AdcMeasurements) -> (r: [Option<(SensorKind, u16)>; 8])
        requires
            self.wf(),
        ensures
            forall|i: int| 0 <= i < 8 ==> #[trigger] r@[i] == selected(self.0@[i], measurements.0@),
    {
        let mut out: [Option<(SensorKind, u16)>; 8] = [None;8];
        let mut i: usize = 0;
        while i < 8
            invariant
                i <= 8,
                self.wf(),
                forall|j: int|
                    0 <= j < i ==> #[trigger] out@[j] == selected(self.0@[j], measurements.0@),
                forall|j: int| i <= j < 8 ==> (#[trigger] out@[j]) is None,
            decreases 8 - i,
        {
            if let Some(sensor) = self.0[i] {
                assert(sensor.wf());
                if let Some(reading) = measurements.0[sensor.bus_idx * 9 + sensor.adc_idx] {
                    out[i] = Some((sensor.kind, reading.value));
                }
            }
            i += 1;
        }
        out
    }
}

/// The raw value behind one entry of a mapping.
pub open spec fn selected(
    entry: Option<Sensor>,
    measurements: Seq<Option<ExtAdcReading>>,
) -> Option<(SensorKind, u16)> {
    match entry {
        Some(sensor) => match measurements[sensor.adc()] {
            Some(reading) => Some((sensor.kind, reading.value)),
            None => None,
        },
        None => None,
    }
}

/// What is reported for a sensor that has no value.
pub const NO_VALUE: u16 = u16::MAX;

/// What is reported for one sensor.
pub open spec fn reported_value(converted: Option<u16>) -> u16 {
    match converted {
        Some(value) => value,
        None => NO_VALUE,
    }
}

/// The raw value kept for a converter: what it last read, or what was kept before.
pub open spec fn kept_value(reading: Option<ExtAdcReading>, before: u16) -> u16 {
    match reading {
        Some(reading) => reading.value,
        None => before,
    }
}

/// What is reported for each sensor, given the values converted from what [`SensorMapping::select`]
/// gave: [`NO_VALUE`] where there was nothing to convert.
pub fn reported(converted: &[Option<u16>; 8]) -> (r: [u16; 8])
    ensures
        forall|i: int|
            0 <= i < 8 ==> #[trigger] r@[i] == match converted@[i] {
                Some(value) => value,
                None => NO_VALUE,
            },
        forall|i: int| 0 <= i < 8 ==> #[trigger] r@[i] == reported_value(converted@[i]),
{
    let mut out = [NO_VALUE;8];
    let mut i: usize = 0;
    while i < 8
        invariant
            i <= 8,
            forall|j: int|
                0 <= j < i ==> #[trigger] out@[j] == match converted@[j] {
                    Some(value) => value,
                    None => NO_VALUE,
                },
            forall|j: int| i <= j < 8 ==> #[trigger] out@[j] == NO_VALUE,
        decreases 8 - i,
    {
        if let Some(value) = converted[i] {
            out[i] = value;
        }
        i += 1;
    }
    out
}

/// Stores the raw value of every converter of one bus that has a reading; the others keep theirs.
pub fn store_raw(measurements: &AdcMeasurements, bus_idx: usize, bus_store: &mut [u16; 9])
    requires
        bus_idx < 2,
    ensures
        forall|i: int|
            0 <= i < 9 ==> #[trigger] final(bus_store)@[i] == match measurements.0@[bus_idx * 9 + i] {
                Some(reading) => reading.value,
                None => old(bus_store)@[i],
            },
        forall|i: int|
            0 <= i < 9 ==> #[trigger] final(bus_store)@[i] == kept_value(
                measurements.0@[bus_idx * 9 + i],
                old(bus_store)@[i],
            ),
{
    let mut i: usize = 0;
    while i < 9
        invariant
            i <= 9,
            bus_idx < 2,
            forall|j: int|
                0 <= j < i ==> #[trigger] bus_store@[j] == match measurements.0@[bus_idx * 9 + j] {
                    Some(reading) => reading.value,
                    None => old(bus_store)@[j],
                },
            forall|j: int| i <= j < 9 ==> #[trigger] bus_store@[j] == old(bus_store)@[j],
        decreases 9 - i,
    {
        if let Some(reading) = measurements.0[bus_idx * 9 + i] {
            bus_store[i] = reading.value;
        }
        i += 1;
    }
}

/// Sensors are reported in the order they were added: a sensor added after another stands in a
/// later entry, as long as none was taken out.
pub proof fn sensors_are_added_in_order(entries: Seq<Option<Sensor>>, sensor: Sensor)
    requires
        entries.len() == 8,
        first_empty(entries, 0) is Some,
    ensures
        ({
            let at = first_empty(entries, 0)->0;
            &&& 0 <= at < 8
            &&& forall|i: int| 0 <= i < at ==> (#[trigger] entries[i]) is Some
            &&& first_empty(entries.update(at, Some(sensor)), 0) matches Some(next) ==> next > at
        }),
{
    let at = first_empty(entries, 0)->0;
    first_empty_is_first(entries, 0);
    let after = entries.update(at, Some(sensor));
    first_empty_is_first(after, 0);
    if let Some(next) = first_empty(after, 0) {
        if next < at {
            assert(entries[next] is Some);
        }
    }
}

proof fn first_empty_is_first(entries: Seq<Option<Sensor>>, from: int)
    requires
        0 <= from,
    ensures
        first_empty(entries, from) matches Some(at) ==> from <= at < entries.len()
            && entries[at] is None && forall|i: int| from <= i < at ==> (#[trigger] entries[i]) is Some,
    decreases entries.len() - from,
{
    if from < entries.len() && entries[from] is Some {
        first_empty_is_first(entries, from + 1);
    }
}

/// A reported sensor is the reading of its own converter, strap by strap behind its bus, with its own
/// kind; without a sensor or without a reading there is none.
pub proof fn a_sensor_reads_its_own_converter(
    sensor: Sensor,
    measurements: Seq<Option<ExtAdcReading>>,
    reading: ExtAdcReading,
)
    requires
        sensor.bus_idx < 2,
        sensor.adc_idx < 9,
    ensures
        ({
            let behind = if sensor.bus_idx == 0 {
                sensor.adc_idx as int
            } else {
                9 + sensor.adc_idx
            };
            &&& measurements[behind] == Some(reading) ==> selected(Some(sensor), measurements)
                == Some((sensor.kind, reading.value))
            &&& measurements[behind] is None ==> selected(Some(sensor), measurements) is None
        }),
        selected(None, measurements) is None,
{
}

/// The first empty entry is empty, and everything before it is taken; there is none exactly if every
/// entry is taken.
pub proof fn a_sensor_goes_to_the_first_empty_entry(entries: Seq<Option<Sensor>>)
    ensures
        first_empty(entries, 0) matches Some(at) ==> 0 <= at < entries.len() && entries[at] is None
            && forall|i: int| 0 <= i < at ==> (#[trigger] entries[i]) is Some,
        first_empty(entries, 0) is None ==> forall|i: int|
            0 <= i < entries.len() ==> (#[trigger] entries[i]) is Some,
{
    first_empty_is_first(entries, 0);
    no_empty_entry_is_missed(entries, 0);
}

proof fn no_empty_entry_is_missed(entries: Seq<Option<Sensor>>, from: int)
    requires
        0 <= from,
    ensures
        first_empty(entries, from) is None ==> forall|i: int|
            from <= i < entries.len() ==> (#[trigger] entries[i]) is Some,
    decreases entries.len() - from,
{
    if from < entries.len() && entries[from] is Some {
        no_empty_entry_is_missed(entries, from + 1);
    }
}

/// A value is reported as it is, and none as the largest word there is; a raw value is kept until the
/// converter reads another.
pub proof fn a_value_is_reported_as_it_is(value: u16, reading: ExtAdcReading, before: u16)
    ensures
        reported_value(Some(value)) == value,
        reported_value(None) == 65535,
        kept_value(Some(reading), before) == reading.value,
        kept_value(None, before) == before,
{
}

} // verus!
