//! The external converters on the amplifier boards: up to nine on each of two buses.
use crate::config::sensors::AMPLIFIER_ADDRESSES;
use vstd::prelude::*;

verus! {

/// How many buses the converters sit on.
pub const NUM_I2C_BUSES: usize = 2;

/// How many converters there can be.
pub const NUM_ADCS: usize = 18;

/// How long a bus may take to answer, in milliseconds.
pub const I2C_TIMEOUT_MS: u64 = 100;

#[derive(Clone, Copy, PartialEq, Eq, Debug, Structural)]
pub struct ExtAdcReading {
    pub value: u16,
    pub alert_flag: bool,
}

/// What each converter last read, bus by bus; `None` if its last read failed or there was none.
#[derive(Clone, Copy, PartialEq, Eq, Debug)]
pub struct AdcMeasurements(pub [Option<ExtAdcReading>; 18]);

impl AdcMeasurements {
    pub fn default() -> (r: Self)
        ensures
            forall|i: int| 0 <= i < 18 ==> (#[trigger] r.0@[i]) is None,
    {
        AdcMeasurements([None;18])
    }
}

/// The big-endian number in two bytes.
pub open spec fn be16(buffer: Seq<u8>) -> int {
    256 * buffer[0] + buffer[1]
}

/// Takes a converter's two-byte register apart: the alert flag in the top bit, ten bits of
/// conversion result above two unused ones.
pub fn decode_conversion(buffer: [u8; 2]) -> (r: ExtAdcReading)
    ensures
        r.value == be16(buffer@) / 4 % 1024,
        r.alert_flag == (be16(buffer@) >= 32768),
        r == decoded(buffer@),
{
    let register: u16 = 256 * (buffer[0] as u16) + buffer[1] as u16;
    assert((register >> 15) > 0 <==> register >= 32768) by (bit_vector);
    assert((register >> 2) & 0x3ff == register / 4 % 1024) by (bit_vector);
    ExtAdcReading { value: (register >> 2) & 0x3ff, alert_flag: (register >> 15) > 0 }
}

/// A reading is a ten-bit number.
pub proof fn a_reading_has_ten_bits(buffer: Seq<u8>)
    ensures
        0 <= be16(buffer) / 4 % 1024 < 1024,
{
}

/// What was found or read on each bus, strap by strap; `None` for a bus that is not there.
pub type PerBus<T> = [Option<[T; 9]>; 2];

pub struct ExtAdcs {
    pub enabled: [bool; 18],
    pub measurements: AdcMeasurements,
}

impl ExtAdcs {
    pub fn new(enabled: [bool; 18]) -> (r: Self)
        ensures
            r.enabled == enabled,
            forall|i: int| 0 <= i < 18 ==> (#[trigger] r.measurements.0@[i]) is None,
    {
        Self { enabled, measurements: AdcMeasurements::default() }
    }

    pub fn default() -> (r: Self)
        ensures
            forall|i: int| 0 <= i < 18 ==> !#[trigger] r.enabled@[i],
            forall|i: int| 0 <= i < 18 ==> (#[trigger] r.measurements.0@[i]) is None,
    {
        Self::new([false;18])
    }

    /// The address to talk to for a converter.
    pub fn address(&self, adc_idx: usize) -> (r: u8)
        requires
            adc_idx < 18,
        ensures
            r == AMPLIFIER_ADDRESSES@[adc_idx as int % 9],
    {
        AMPLIFIER_ADDRESSES[adc_idx % 9]
    }

    /// Whether a converter is enabled after a scan.
    pub open spec fn enabled_by(self, found: PerBus<bool>, i: int) -> bool {
        self.enabled@[i] || (found@[i / 9] is Some && found@[i / 9]->0@[i % 9])
    }

    /// What is known of a converter after a pass.
    pub open spec fn measured_by(self, results: PerBus<Option<ExtAdcReading>>, i: int) -> Option<
        ExtAdcReading,
    > {
        if self.reads(results, i) {
            results@[i / 9]->0@[i % 9]
        } else {
            self.measurements.0@[i]
        }
    }

    /// Enables the converters that answered a scan. One that did not answer stays as it was.
    pub fn scan_and_enable(&mut self, found: &PerBus<bool>)
        ensures
            forall|i: int|
                0 <= i < 18 ==> #[trigger] final(self).enabled@[i] == (old(self).enabled@[i] || (
                found@[i / 9] is Some && found@[i / 9]->0@[i % 9])),
            forall|i: int|
                0 <= i < 18 ==> #[trigger] final(self).enabled@[i] == old(self).enabled_by(*found, i),
            final(self).measurements == old(self).measurements,
    {
        let mut i: usize = 0;
        while i < 18
            invariant
                i <= 18,
                self.measurements == old(self).measurements,
                forall|j: int|
                    0 <= j < i ==> #[trigger] self.enabled@[j] == (old(self).enabled@[j] || (
                    found@[j / 9] is Some && found@[j / 9]->0@[j % 9])),
                forall|j: int|
                    i <= j < 18 ==> #[trigger] self.enabled@[j] == old(self).enabled@[j],
            decreases 18 - i,
        {
            if let Some(bus) = &found[i / 9] {
                if bus[i % 9] {
                    self.enabled[i] = true;
                }
            }
            i += 1;
        }
    }

    /// Whether a pass reads a converter: it is enabled, and its bus is there.
    pub open spec fn reads(self, results: PerBus<Option<ExtAdcReading>>, i: int) -> bool {
        self.enabled@[i] && results@[i / 9] is Some
    }

    /// Takes what a pass over the enabled converters read; `None` for a read that failed. The
    /// others keep what they had. Fails if any read failed.
    pub fn read_all(&mut self, results: &PerBus<Option<ExtAdcReading>>) -> (r: Result<(), ()>)
        ensures
            final(self).enabled == old(self).enabled,
            forall|i: int|
                0 <= i < 18 ==> #[trigger] final(self).measurements.0@[i] == if old(self).reads(
                    *results,
                    i,
                ) {
                    results@[i / 9]->0@[i % 9]
                } else {
                    old(self).measurements.0@[i]
                },
            forall|i: int|
                0 <= i < 18 ==> #[trigger] final(self).measurements.0@[i] == old(self).measured_by(
                    *results,
                    i,
                ),
            r is Ok <==> forall|i: int|
                0 <= i < 18 && #[trigger] old(self).reads(*results, i) ==> results@[i / 9]->0@[i
                    % 9] is Some,
    {
        let mut success = true;
        let mut i: usize = 0;
        while i < 18
            invariant
                i <= 18,
                self.enabled == old(self).enabled,
                forall|j: int|
                    0 <= j < i ==> #[trigger] self.measurements.0@[j] == if old(self).reads(
                        *results,
                        j,
                    ) {
                        results@[j / 9]->0@[j % 9]
                    } else {
                        old(self).measurements.0@[j]
                    },
                forall|j: int|
                    i <= j < 18 ==> #[trigger] self.measurements.0@[j] == old(self).measurements.0@[j],
                success <==> forall|j: int|
                    0 <= j < i && #[trigger] old(self).reads(*results, j) ==> results@[j / 9]->0@[j
                        % 9] is Some,
            decreases 18 - i,
        {
            if self.enabled[i] {
                if let Some(bus) = &results[i / 9] {
                    let result = bus[i % 9];
                    assert(old(self).reads(*results, i as int));
                    if result.is_none() {
                        success = false;
                    }
                    self.measurements.0[i] = result;
                }
            }
            i += 1;
        }
        match success {
            true => Ok(()),
            false => Err(()),
        }
    }
}

/// What a converter's register says.
pub open spec fn decoded(buffer: Seq<u8>) -> ExtAdcReading {
    ExtAdcReading {
        value: (be16(buffer) / 4 % 1024) as u16,
        alert_flag: be16(buffer) >= 32768,
    }
}

/// A register, high byte first, is the alert flag, three bits without meaning, the ten bits of the
/// value and two more without meaning: whatever those are, the flag and the value come out as they
/// went in.
pub proof fn a_register_is_its_fields(
    buffer: Seq<u8>,
    alert: bool,
    unused: int,
    value: int,
    below: int,
)
    requires
        0 <= unused < 8,
        0 <= value < 1024,
        0 <= below < 4,
        256 * buffer[0] + buffer[1] == (if alert {
            32768int
        } else {
            0
        }) + 4096 * unused + 4 * value + below,
    ensures
        decoded(buffer).value == value,
        decoded(buffer).alert_flag == alert,
{
}

/// A pass reads a converter exactly if it is enabled and its bus, the first for the first nine and
/// the second for the others, is there.
pub proof fn a_pass_reads_what_is_enabled(
    adcs: ExtAdcs,
    results: PerBus<Option<ExtAdcReading>>,
    i: int,
)
    requires
        0 <= i < 18,
    ensures
        adcs.reads(results, i) <==> adcs.enabled@[i] && if i < 9 {
            results@[0] is Some
        } else {
            results@[1] is Some
        },
{
}

/// A converter that answers a scan is enabled, on its own bus and strap, and none is ever disabled by
/// one; a pass takes what an enabled converter of a bus that is there read, even nothing, and leaves
/// the others with what they had.
pub proof fn a_scan_enables_and_a_pass_reads(
    adcs: ExtAdcs,
    found: PerBus<bool>,
    results: PerBus<Option<ExtAdcReading>>,
    bus: int,
    strap: int,
)
    requires
        0 <= bus < 2,
        0 <= strap < 9,
    ensures
        ({
            let i = 9 * bus + strap;
            &&& adcs.enabled@[i] ==> adcs.enabled_by(found, i)
            &&& found@[bus] matches Some(straps) ==> (straps@[strap] ==> adcs.enabled_by(found, i))
            &&& found@[bus] is None ==> adcs.enabled_by(found, i) == adcs.enabled@[i]
            &&& found@[bus] matches Some(straps) ==> (!straps@[strap] ==> adcs.enabled_by(found, i)
                == adcs.enabled@[i])
            &&& adcs.enabled@[i] ==> (results@[bus] matches Some(read) ==> adcs.measured_by(results, i)
                == read@[strap])
            &&& !adcs.enabled@[i] || results@[bus] is None ==> adcs.measured_by(results, i)
                == adcs.measurements.0@[i]
        }),
{
    let i = 9 * bus + strap;
    assert(i / 9 == bus && i % 9 == strap);
}

} // verus!
