//! A bang-bang thermostat for a resistive heating pad on one pair of high current outputs.
//!
//! The pad carries its own 10k thermistor, read through a divider on an analog pin. The master
//! says what the heater does: off (the boot state), a thermostat holding a setpoint, or blind
//! heating with no temperature control, the backup for a broken thermistor.
//!
//! In thermostat mode, a thermistor that reads open or shorted switches the pad off.
use crate::arith::{saturating_add, saturating_sum};
use crate::index::HcoPair;
use crate::proto::od::{RAW_INVALID, TEMPERATURE_INVALID};
use crate::time::{Duration, Instant};
use vstd::prelude::*;

verus! {

/// Build-time heater hardware.
#[derive(Clone, Copy, PartialEq, Eq, Debug, Structural)]
pub struct HeaterConfig {
    /// The pair that switches the pad. Both outputs switch together.
    pub pair: HcoPair,
    /// The analog input the pad's divider is wired to.
    pub ntc: AnalogPin,
    /// Which side of the divider the thermistor is on.
    pub ntc_wiring: NtcWiring,
    /// Half-width of the dead band.
    pub hysteresis_milli_c: i32,
    /// Calibration offset, in millidegrees Celsius, added to the temperature read off the curve.
    pub offset_milli_c: i32,
}

impl HeaterConfig {
    pub fn new(pair: HcoPair, ntc: AnalogPin) -> (r: Self)
        ensures
            r == (HeaterConfig {
                pair,
                ntc,
                ntc_wiring: NtcWiring::ToGround,
                hysteresis_milli_c: 1_000,
                offset_milli_c: 0,
            }),
    {
        Self {
            pair,
            ntc,
            ntc_wiring: NtcWiring::ToGround,
            hysteresis_milli_c: 1_000,
            offset_milli_c: 0,
        }
    }

    pub fn with_ntc_wiring(self, ntc_wiring: NtcWiring) -> (r: Self)
        ensures
            r == (HeaterConfig { ntc_wiring, ..self }),
    {
        Self { ntc_wiring, ..self }
    }

    pub fn with_offset_milli_c(self, offset_milli_c: i32) -> (r: Self)
        ensures
            r == (HeaterConfig { offset_milli_c, ..self }),
    {
        Self { offset_milli_c, ..self }
    }

    pub fn with_hysteresis_milli_c(self, hysteresis_milli_c: i32) -> (r: Self)
        ensures
            r == (HeaterConfig { hysteresis_milli_c, ..self }),
    {
        Self { hysteresis_milli_c, ..self }
    }
}

/// A converter-capable connector pin free for an external sensor.
#[derive(Clone, Copy, PartialEq, Eq, Debug, Structural)]
pub enum AnalogPin {
    /// The stepper step clock. Claiming it leaves the node without a stepper port.
    Pa2,
    Pa6,
    /// Taken by the second stepper's direction line where there is one.
    Pa5,
    Pc5,
    Pc4,
}

/// Which side of the 10k divider the thermistor sits on.
#[derive(Clone, Copy, PartialEq, Eq, Debug, Structural)]
pub enum NtcWiring {
    /// 10k to the supply, thermistor to ground. The reading falls as the pad heats.
    ToGround,
    /// Thermistor to the supply, 10k to ground. The reading rises as the pad heats.
    ToSupply,
}

impl NtcWiring {
    /// The reading that the thermistor-to-ground divider gives at the same temperature.
    pub open spec fn normalised(self, counts: u16) -> u16 {
        match self {
            NtcWiring::ToGround => counts,
            NtcWiring::ToSupply => if counts > ADC_FULL_SCALE {
                0
            } else {
                (ADC_FULL_SCALE - counts) as u16
            },
        }
    }

    fn normalise(self, counts: u16) -> (r: u16)
        ensures
            r == self.normalised(counts),
    {
        match self {
            Self::ToGround => counts,
            Self::ToSupply => ADC_FULL_SCALE.saturating_sub(counts),
        }
    }
}

/// 12-bit converter.
pub const ADC_FULL_SCALE: u16 = 4095;

/// Object 0x2018: what the master has told the heater to do. The order of the variants is the wire
/// encoding.
#[derive(Clone, Copy, PartialEq, Eq, Debug, Structural)]
pub enum HeaterMode {
    Off,
    /// Hold the setpoint, and refuse to heat without a valid reading.
    Thermostat,
    /// Pad on continuously, whatever the thermistor says.
    Blind,
}

impl HeaterMode {
    pub fn from_u8(v: u8) -> (r: Option<Self>)
        ensures
            r is Some <==> v < 3,
            r matches Some(mode) ==> mode as int == v,
    {
        match v {
            0 => Some(Self::Off),
            1 => Some(Self::Thermostat),
            2 => Some(Self::Blind),
            _ => None,
        }
    }
}

/// Object 0x2017 sub 3. The order of the variants is the wire encoding.
#[derive(Clone, Copy, PartialEq, Eq, Debug, Structural)]
pub enum HeaterState {
    /// Thermostat, in or above the dead band, pad off.
    Idle,
    /// Thermostat, below the dead band or still climbing through it, pad on.
    Heating,
    /// Thermostat, but there is no valid reading. Pad off.
    SensorFault,
    /// No heater on this node.
    Disabled,
    /// Commanded off.
    Off,
    /// Commanded to heat blind. Pad on.
    Blind,
}

/// How often the reading is logged, for calibration, in milliseconds.
pub const LOG_INTERVAL_MS: u64 = 1000;

/// What is logged of a tick: what to calibrate the pad by.
#[derive(Clone, Copy, PartialEq, Eq, Debug, Structural)]
pub struct HeaterLog {
    pub raw: u16,
    pub uncalibrated_milli_c: i32,
    pub offset_milli_c: i32,
    pub milli_c: i32,
    pub state: HeaterState,
}

pub struct Heater {
    state: HeaterState,
    milli_c: i32,
    raw: u16,
    last_log: Option<Instant>,
}

/// Whether a log line is due: the first one at once, then one every [`LOG_INTERVAL_MS`].
pub open spec fn line_due(last: Option<Instant>, now: Instant) -> bool {
    match last {
        Some(last) => now.ticks - last.ticks >= LOG_INTERVAL_MS * 1000,
        None => true,
    }
}

/// The temperature that the curve gives for a reading, before any offset; none if there is no
/// reading or the curve does not reach it.
pub open spec fn uncalibrated(cfg: HeaterConfig, counts: Option<u16>) -> i32 {
    match counts {
        Some(c) => curve_milli_c(cfg.ntc_wiring.normalised(c)),
        None => TEMPERATURE_INVALID,
    }
}

/// The calibrated temperature of a reading: the curve's, moved by the offset, if it gives one.
pub open spec fn calibrated(cfg: HeaterConfig, counts: Option<u16>) -> i32 {
    let t = uncalibrated(cfg, counts);
    if t == TEMPERATURE_INVALID {
        TEMPERATURE_INVALID
    } else {
        saturating_sum(t, cfg.offset_milli_c)
    }
}

/// The temperature that the curve gives for a reading, which the offset is measured against;
/// [`TEMPERATURE_INVALID`] if there is none.
pub fn uncalibrated_milli_c(cfg: &HeaterConfig, counts: Option<u16>) -> (r: i32)
    ensures
        r == uncalibrated(*cfg, counts),
{
    match counts {
        Some(c) => ntc_counts_to_milli_c(cfg.ntc_wiring.normalise(c)),
        None => TEMPERATURE_INVALID,
    }
}

/// Where one reading leads. Off and blind are the master's word; a thermostat without a reading is
/// at fault; below the dead band it heats, above it it does not, and inside it keeps doing what it
/// was doing.
pub open spec fn heater_after(
    state: HeaterState,
    cfg: HeaterConfig,
    mode: HeaterMode,
    setpoint_milli_c: i32,
    milli_c: i32,
) -> HeaterState {
    match mode {
        HeaterMode::Off => HeaterState::Off,
        HeaterMode::Blind => HeaterState::Blind,
        HeaterMode::Thermostat => if milli_c == TEMPERATURE_INVALID {
            HeaterState::SensorFault
        } else if milli_c < setpoint_milli_c - cfg.hysteresis_milli_c {
            HeaterState::Heating
        } else if milli_c <= setpoint_milli_c + cfg.hysteresis_milli_c && state
            == HeaterState::Heating {
            HeaterState::Heating
        } else {
            HeaterState::Idle
        },
    }
}

/// The states in which the pad is on.
pub open spec fn pad_on(state: HeaterState) -> bool {
    state == HeaterState::Heating || state == HeaterState::Blind
}

impl Heater {
    pub closed spec fn phase(self) -> HeaterState {
        self.state
    }

    pub closed spec fn temperature(self) -> i32 {
        self.milli_c
    }

    pub closed spec fn counts(self) -> u16 {
        self.raw
    }

    /// When the last log line was due.
    pub closed spec fn logged(self) -> Option<Instant> {
        self.last_log
    }

    /// The clock has not run back since the last log line.
    pub open spec fn logged_before(self, now: Instant) -> bool {
        self.logged() matches Some(last) ==> last.ticks <= now.ticks
    }

    pub fn new() -> (r: Self)
        ensures
            r.phase() == HeaterState::Disabled,
            r.temperature() == TEMPERATURE_INVALID,
            r.counts() == RAW_INVALID,
            r.logged() is None,
    {
        Self {
            state: HeaterState::Disabled,
            milli_c: TEMPERATURE_INVALID,
            raw: RAW_INVALID,
            last_log: None,
        }
    }

    pub fn state(&self) -> (r: HeaterState)
        ensures
            r == self.phase(),
    {
        self.state
    }

    /// Last calibrated temperature, [`TEMPERATURE_INVALID`] if there is none.
    pub fn milli_c(&self) -> (r: i32)
        ensures
            r == self.temperature(),
    {
        self.milli_c
    }

    /// Last raw reading, [`RAW_INVALID`] if there is none.
    pub fn raw(&self) -> (r: u16)
        ensures
            r == self.counts(),
    {
        self.raw
    }

    /// Whether the coming tick is to be logged.
    pub fn log_is_due(&self, now: Instant) -> (r: bool)
        requires
            self.logged_before(now),
        ensures
            r == line_due(self.logged(), now),
    {
        match self.last_log {
            Some(last) => now.saturating_duration_since(last).as_ticks() >= Duration::from_millis(
                LOG_INTERVAL_MS,
            ).as_ticks(),
            None => true,
        }
    }

    /// Whether another heater is this one after a tick.
    pub open spec fn ticked(
        self,
        cfg: HeaterConfig,
        mode: HeaterMode,
        setpoint_milli_c: i32,
        counts: Option<u16>,
        now: Instant,
        after: Self,
    ) -> bool {
        &&& after.counts() == match counts {
            Some(c) => c,
            None => RAW_INVALID,
        }
        &&& after.temperature() == calibrated(cfg, counts)
        &&& after.phase() == heater_after(
            self.phase(),
            cfg,
            mode,
            setpoint_milli_c,
            calibrated(cfg, counts),
        )
        &&& after.logged() == if line_due(self.logged(), now) {
            Some(now)
        } else {
            self.logged()
        }
    }

    /// Advances one tick and returns whether the pad should be on.
    ///
    /// The temperature is measured and reported in every mode, so the master can watch the pad
    /// while it heats blind or sits off.
    pub fn update(
        &mut self,
        cfg: Option<&HeaterConfig>,
        mode: HeaterMode,
        setpoint_milli_c: i32,
        counts: Option<u16>,
        now: Instant,
    ) -> (r: bool)
        requires
            cfg is Some ==> old(self).logged_before(now),
        ensures
            r == pad_on(final(self).phase()),
            match cfg {
                None => {
                    &&& final(self).phase() == HeaterState::Disabled
                    &&& final(self).temperature() == old(self).temperature()
                    &&& final(self).counts() == old(self).counts()
                    &&& final(self).logged() == old(self).logged()
                },
                Some(cfg) => {
                    &&& old(self).ticked(
                        *cfg,
                        mode,
                        setpoint_milli_c,
                        counts,
                        now,
                        *final(self),
                    )
                    &&& final(self).counts() == match counts {
                        Some(c) => c,
                        None => RAW_INVALID,
                    }
                    &&& final(self).temperature() == calibrated(*cfg, counts)
                    &&& final(self).phase() == heater_after(
                        old(self).phase(),
                        *cfg,
                        mode,
                        setpoint_milli_c,
                        calibrated(*cfg, counts),
                    )
                    &&& final(self).logged() == if line_due(old(self).logged(), now) {
                        Some(now)
                    } else {
                        old(self).logged()
                    }
                },
            },
    {
        let cfg = match cfg {
            Some(cfg) => cfg,
            None => {
                self.state = HeaterState::Disabled;
                return false;
            },
        };
        self.raw = match counts {
            Some(c) => c,
            None => RAW_INVALID,
        };
        let uncalibrated: i32 = uncalibrated_milli_c(cfg, counts);
        self.milli_c = if uncalibrated == TEMPERATURE_INVALID {
            TEMPERATURE_INVALID
        } else {
            saturating_add(uncalibrated, cfg.offset_milli_c)
        };
        if self.log_is_due(now) {
            self.last_log = Some(now);
        }
        let reading: i64 = self.milli_c as i64;
        let setpoint: i64 = setpoint_milli_c as i64;
        let band: i64 = cfg.hysteresis_milli_c as i64;
        let next = if mode == HeaterMode::Off {
            HeaterState::Off
        } else if mode == HeaterMode::Blind {
            HeaterState::Blind
        } else if self.milli_c == TEMPERATURE_INVALID {
            HeaterState::SensorFault
        } else if reading < setpoint - band {
            HeaterState::Heating
        } else if reading > setpoint + band {
            HeaterState::Idle
        } else {
            match self.state {
                HeaterState::Heating => HeaterState::Heating,
                _ => HeaterState::Idle,
            }
        };
        self.state = next;
        matches!(next, HeaterState::Heating | HeaterState::Blind)
    }
}

impl Default for Heater {
    fn default() -> (r: Self)
        ensures
            r.phase() == HeaterState::Disabled,
            r.temperature() == TEMPERATURE_INVALID,
            r.counts() == RAW_INVALID,
            r.logged() is None,
    {
        Self::new()
    }
}

/// The pad thermistor's curve, sampled every five degrees from -40 to 125: the 12-bit reading at
/// each temperature. It falls as the thermistor heats.
///
/// Tabulated for a 10k upper leg to the supply and the thermistor to ground, with R25 = 10k and
/// B = 3950 K:
///
/// ```text
///   R_ntc(T) = 10k * exp(3950 * (1/T - 1/298.15))
///   counts(T) = 4095 * R_ntc / (10k + R_ntc)
/// ```
pub const NTC_CURVE: [u16; 34] = [
    3996,
    3955,
    3900,
    3830,
    3740,
    3629,
    3495,
    3337,
    3156,
    2955,
    2738,
    2510,
    2278,
    2048,
    1825,
    1614,
    1419,
    1241,
    1081,
    940,
    815,
    707,
    613,
    532,
    462,
    401,
    350,
    305,
    267,
    234,
    206,
    181,
    160,
    142,
];

/// Temperature of the first entry of [`NTC_CURVE`], in degrees Celsius.
pub const NTC_CURVE_MIN_C: i32 = -40;

/// Spacing between adjacent entries of [`NTC_CURVE`], in degrees Celsius.
pub const NTC_CURVE_STEP_C: i32 = 5;

/// Whether a reading lies on the stretch of the curve between two adjacent entries.
pub open spec fn on_segment(i: int, counts: int) -> bool {
    0 <= i < 33 && NTC_CURVE@[i + 1] <= counts <= NTC_CURVE@[i]
}

/// The temperature of a reading on a stretch of the curve, in millidegrees: linear between the two
/// entries, rounded down.
pub open spec fn segment_milli_c(i: int, counts: int) -> int {
    (-40 + 5 * i) * 1000 + (5000 * (NTC_CURVE@[i] - counts)) / (NTC_CURVE@[i] - NTC_CURVE@[i + 1])
}

/// The temperature of a reading; [`TEMPERATURE_INVALID`] off the ends of the curve.
pub open spec fn curve_milli_c(counts: u16) -> i32 {
    if 142 <= counts <= 3996 {
        segment_milli_c(choose|i: int| on_segment(i, counts as int), counts as int) as i32
    } else {
        TEMPERATURE_INVALID
    }
}

/// The curve falls all the way.
pub proof fn the_curve_descends(i: int)
    requires
        0 <= i < 33,
    ensures
        NTC_CURVE@[i] > NTC_CURVE@[i + 1],
        142 <= NTC_CURVE@[i + 1],
        NTC_CURVE@[i] <= 3996,
{
}

/// Entries further down the curve read lower.
proof fn the_curve_orders_its_entries(i: int, j: int)
    requires
        0 <= i <= j < 34,
    ensures
        NTC_CURVE@[i] >= NTC_CURVE@[j],
        i < j ==> NTC_CURVE@[i] > NTC_CURVE@[j],
    decreases j - i,
{
    if i < j {
        the_curve_descends(j - 1);
        the_curve_orders_its_entries(i, j - 1);
    }
}

/// A reading on two stretches is the entry that they share, and both give it the same temperature.
proof fn stretches_meet(i: int, j: int, counts: int)
    requires
        on_segment(i, counts),
        on_segment(j, counts),
        i <= j,
    ensures
        segment_milli_c(i, counts) == segment_milli_c(j, counts),
{
    if i < j {
        the_curve_orders_its_entries(i + 1, j);
        the_curve_descends(i);
        the_curve_descends(j);
        if i + 1 < j {
            the_curve_orders_its_entries(i + 1, j);
        }
        let d = NTC_CURVE@[i] - NTC_CURVE@[i + 1];
        assert((5000 * d) / d == 5000) by (nonlinear_arith)
            requires
                d > 0,
        ;
        let e = NTC_CURVE@[j] - NTC_CURVE@[j + 1];
        assert(0int / e == 0) by (nonlinear_arith)
            requires
                e > 0,
        ;
    }
}

/// The temperature of a reading can be taken from any stretch that it lies on.
pub proof fn any_stretch_gives_the_temperature(i: int, counts: u16)
    requires
        on_segment(i, counts as int),
    ensures
        142 <= counts <= 3996,
        curve_milli_c(counts) == segment_milli_c(i, counts as int),
        -40_000 + 5000 * i <= curve_milli_c(counts) <= -35_000 + 5000 * i,
{
    let j = choose|j: int| on_segment(j, counts as int);
    assert(on_segment(j, counts as int));
    the_curve_orders_its_entries(0, i);
    the_curve_orders_its_entries(i + 1, 33);
    if i <= j {
        stretches_meet(i, j, counts as int);
    } else {
        stretches_meet(j, i, counts as int);
    }
    the_curve_descends(i);
    let d = NTC_CURVE@[i] - NTC_CURVE@[i + 1];
    let n = NTC_CURVE@[i] - counts;
    assert(0 <= (5000 * n) / d <= 5000) by (nonlinear_arith)
        requires
            d > 0,
            0 <= n <= d,
    ;
}

/// Converts a raw 12-bit reading of the divider to millidegrees Celsius.
///
/// [`TEMPERATURE_INVALID`] for anything off the ends of [`NTC_CURVE`]: an open thermistor (pin
/// pulled to the supply) or a short (pin at ground).
pub fn ntc_counts_to_milli_c(counts: u16) -> (r: i32)
    ensures
        r == curve_milli_c(counts),
        r == TEMPERATURE_INVALID <==> counts < 142 || counts > 3996,
{
    if counts > NTC_CURVE[0] || counts < NTC_CURVE[33] {
        return TEMPERATURE_INVALID;
    }
    let mut i: usize = 0;
    while NTC_CURVE[i + 1] > counts
        invariant
            i < 33,
            142 <= counts <= NTC_CURVE@[i as int],
        decreases 33 - i,
    {
        i += 1;
    }
    assert(on_segment(i as int, counts as int));
    proof {
        any_stretch_gives_the_temperature(i as int, counts);
        the_curve_descends(i as int);
    }
    let high: i32 = NTC_CURVE[i] as i32;
    let low: i32 = NTC_CURVE[i + 1] as i32;
    let base_milli_c: i32 = (NTC_CURVE_MIN_C + i as i32 * NTC_CURVE_STEP_C) * 1000;
    base_milli_c + (NTC_CURVE_STEP_C * 1000 * (high - counts as i32)) / (high - low)
}

/// Every entry of the curve reads as its own temperature.
pub proof fn an_entry_reads_as_its_own_temperature(i: int, counts: u16)
    requires
        0 <= i < 34,
        counts == NTC_CURVE@[i],
    ensures
        curve_milli_c(counts) == (-40 + 5 * i) * 1000,
{
    if i < 33 {
        the_curve_descends(i);
        any_stretch_gives_the_temperature(i, counts);
        let d = NTC_CURVE@[i] - NTC_CURVE@[i + 1];
        assert(0int / d == 0) by (nonlinear_arith)
            requires
                d > 0,
        ;
    } else {
        the_curve_descends(32);
        any_stretch_gives_the_temperature(32, counts);
        let d = NTC_CURVE@[32] - NTC_CURVE@[33];
        assert((5000 * d) / d == 5000) by (nonlinear_arith)
            requires
                d > 0,
        ;
    }
}

/// A lower reading is never a lower temperature.
pub proof fn a_lower_reading_is_no_cooler(a: u16, b: u16, i: int, j: int)
    requires
        on_segment(i, a as int),
        on_segment(j, b as int),
        a <= b,
    ensures
        curve_milli_c(a) >= curve_milli_c(b),
{
    any_stretch_gives_the_temperature(i, a);
    any_stretch_gives_the_temperature(j, b);
    if i == j {
        the_curve_descends(i);
        let d = NTC_CURVE@[i] - NTC_CURVE@[i + 1];
        let n = NTC_CURVE@[i] - a;
        let m = NTC_CURVE@[i] - b;
        assert((5000 * n) / d >= (5000 * m) / d) by (nonlinear_arith)
            requires
                d > 0,
                n >= m,
        ;
    } else if i < j {
        the_curve_orders_its_entries(i + 1, j);
        assert(a == b);
        stretches_meet(i, j, a as int);
    }
}

/// Without a reading a thermostat never heats, whatever it was doing, and no offset hides it.
pub proof fn a_thermostat_without_a_reading_is_off(
    state: HeaterState,
    cfg: HeaterConfig,
    setpoint_milli_c: i32,
    counts: Option<u16>,
)
    requires
        counts matches Some(c) ==> {
            let n = cfg.ntc_wiring.normalised(c);
            n < 142 || n > 3996
        },
    ensures
        calibrated(cfg, counts) == TEMPERATURE_INVALID,
        heater_after(
            state,
            cfg,
            HeaterMode::Thermostat,
            setpoint_milli_c,
            calibrated(cfg, counts),
        ) == HeaterState::SensorFault,
        !pad_on(HeaterState::SensorFault),
{
}

/// A heater that is told to be off is off, and one that is told to heat blind heats, whatever is
/// read.
pub proof fn off_and_blind_are_the_masters_word(
    state: HeaterState,
    cfg: HeaterConfig,
    setpoint_milli_c: i32,
    milli_c: i32,
)
    ensures
        !pad_on(heater_after(state, cfg, HeaterMode::Off, setpoint_milli_c, milli_c)),
        pad_on(heater_after(state, cfg, HeaterMode::Blind, setpoint_milli_c, milli_c)),
{
}

/// Swapping the legs of the divider mirrors the reading, and twice mirrored is unchanged.
pub proof fn the_wirings_mirror_each_other(counts: u16)
    requires
        counts <= ADC_FULL_SCALE,
    ensures
        NtcWiring::ToSupply.normalised(NtcWiring::ToSupply.normalised(counts)) == counts,
        NtcWiring::ToSupply.normalised(counts) == ADC_FULL_SCALE - counts,
{
}

/// A thermostat with a temperature goes by the temperature outside the dead band, whatever it was
/// doing before, the off and the blind mode among it: it heats below the band and idles above it.
pub proof fn outside_the_dead_band_the_temperature_decides(
    state: HeaterState,
    cfg: HeaterConfig,
    setpoint_milli_c: i32,
    milli_c: i32,
)
    requires
        milli_c != TEMPERATURE_INVALID,
    ensures
        milli_c < setpoint_milli_c - cfg.hysteresis_milli_c ==> heater_after(
            state,
            cfg,
            HeaterMode::Thermostat,
            setpoint_milli_c,
            milli_c,
        ) == HeaterState::Heating,
        milli_c > setpoint_milli_c + cfg.hysteresis_milli_c && milli_c >= setpoint_milli_c
            - cfg.hysteresis_milli_c ==> heater_after(
            state,
            cfg,
            HeaterMode::Thermostat,
            setpoint_milli_c,
            milli_c,
        ) == HeaterState::Idle,
{
}

/// Inside the dead band a thermostat keeps heating if it was heating, and idles otherwise.
pub proof fn inside_the_dead_band_the_thermostat_holds(
    state: HeaterState,
    cfg: HeaterConfig,
    setpoint_milli_c: i32,
    milli_c: i32,
)
    requires
        milli_c != TEMPERATURE_INVALID,
        setpoint_milli_c - cfg.hysteresis_milli_c <= milli_c <= setpoint_milli_c
            + cfg.hysteresis_milli_c,
    ensures
        heater_after(state, cfg, HeaterMode::Thermostat, setpoint_milli_c, milli_c) == if state
            == HeaterState::Heating {
            HeaterState::Heating
        } else {
            HeaterState::Idle
        },
{
}

/// A pad that is colder never heats less: a thermostat that heats at one temperature heats at every
/// lower one.
pub proof fn a_colder_pad_heats_no_less(
    state: HeaterState,
    cfg: HeaterConfig,
    setpoint_milli_c: i32,
    colder: i32,
    warmer: i32,
)
    requires
        colder != TEMPERATURE_INVALID,
        warmer != TEMPERATURE_INVALID,
        colder <= warmer,
        heater_after(state, cfg, HeaterMode::Thermostat, setpoint_milli_c, warmer)
            == HeaterState::Heating,
    ensures
        heater_after(state, cfg, HeaterMode::Thermostat, setpoint_milli_c, colder)
            == HeaterState::Heating,
{
}

/// Each mode has its own states: off is off and blind is blind, and a thermostat is neither.
pub proof fn each_mode_has_its_own_states(
    state: HeaterState,
    cfg: HeaterConfig,
    mode: HeaterMode,
    setpoint_milli_c: i32,
    milli_c: i32,
)
    ensures
        heater_after(state, cfg, mode, setpoint_milli_c, milli_c) == HeaterState::Off <==> mode
            == HeaterMode::Off,
        heater_after(state, cfg, mode, setpoint_milli_c, milli_c) == HeaterState::Blind <==> mode
            == HeaterMode::Blind,
        heater_after(state, cfg, mode, setpoint_milli_c, milli_c) == HeaterState::SensorFault
            <==> mode == HeaterMode::Thermostat && milli_c == TEMPERATURE_INVALID,
{
}

/// The pad is on in two states: while a thermostat heats, and while heating blind.
pub proof fn the_pad_is_on_in_two_states()
    ensures
        pad_on(HeaterState::Heating),
        pad_on(HeaterState::Blind),
        !pad_on(HeaterState::Idle),
        !pad_on(HeaterState::SensorFault),
        !pad_on(HeaterState::Disabled),
        !pad_on(HeaterState::Off),
{
}

/// The offset moves the temperature by itself, as long as the sum fits; without a reading, or off
/// the ends of the curve, there is no temperature, whatever the offset.
pub proof fn the_offset_moves_the_temperature(cfg: HeaterConfig, counts: u16)
    requires
        counts <= 4095,
    ensures
        ({
            let low = if cfg.ntc_wiring == NtcWiring::ToSupply {
                4095 - counts
            } else {
                counts as int
            };
            if 142 <= low <= 3996 {
                &&& -40_000 <= uncalibrated(cfg, Some(counts)) <= 125_000
                &&& i32::MIN <= uncalibrated(cfg, Some(counts)) + cfg.offset_milli_c <= i32::MAX
                    ==> calibrated(cfg, Some(counts)) == uncalibrated(cfg, Some(counts))
                    + cfg.offset_milli_c
            } else {
                uncalibrated(cfg, Some(counts)) == TEMPERATURE_INVALID && calibrated(
                    cfg,
                    Some(counts),
                ) == TEMPERATURE_INVALID
            }
        }),
        uncalibrated(cfg, None) == TEMPERATURE_INVALID,
        calibrated(cfg, None) == TEMPERATURE_INVALID,
{
    let low = cfg.ntc_wiring.normalised(counts);
    if 142 <= low <= 3996 {
        some_stretch_holds_it(low, 33);
        let i = choose|i: int| on_segment(i, low as int);
        any_stretch_gives_the_temperature(i, low);
    }
}

/// Every reading between the ends of the curve lies on a stretch of it.
proof fn some_stretch_holds_it(counts: u16, n: int)
    requires
        0 < n <= 33,
        NTC_CURVE@[n] <= counts <= 3996,
    ensures
        exists|i: int| on_segment(i, counts as int),
    decreases n,
{
    if counts <= NTC_CURVE@[n - 1] {
        assert(on_segment(n - 1, counts as int));
    } else {
        some_stretch_holds_it(counts, n - 1);
    }
}

/// Log lines are a second apart: the first is due at once, the next once a million ticks have
/// passed, and none before.
pub proof fn log_lines_are_a_second_apart(last: Instant, now: Instant)
    ensures
        line_due(None, now),
        line_due(Some(last), now) <==> now.ticks >= last.ticks + 1_000_000,
{
}

/// The temperature is measured in every mode, off and blind included: it is the curve's for the
/// reading, moved by the offset, and the reading itself is shown as it is. Without a reading both say
/// so. Told to be off, the heater is off, and blind it is on, whatever was measured.
pub proof fn a_heater_measures_in_every_mode(
    before: Heater,
    cfg: HeaterConfig,
    mode: HeaterMode,
    setpoint_milli_c: i32,
    counts: u16,
    now: Instant,
    after: Heater,
    blind: Heater,
)
    requires
        before.ticked(cfg, mode, setpoint_milli_c, Some(counts), now, after),
        before.ticked(cfg, mode, setpoint_milli_c, None, now, blind),
        cfg.ntc_wiring == NtcWiring::ToGround,
        cfg.offset_milli_c == 0,
    ensures
        after.counts() == counts,
        blind.counts() == 65535,
        after.temperature() == curve_milli_c(counts),
        blind.temperature() == TEMPERATURE_INVALID,
        mode == HeaterMode::Off ==> after.phase() == HeaterState::Off && blind.phase()
            == HeaterState::Off,
        mode == HeaterMode::Blind ==> after.phase() == HeaterState::Blind && blind.phase()
            == HeaterState::Blind,
        mode == HeaterMode::Thermostat ==> blind.phase() == HeaterState::SensorFault,
        after.logged() == Some(now) || after.logged() == before.logged(),
        before.logged() is None ==> after.logged() == Some(now),
{
    if 142 <= counts <= 3996 {
        some_stretch_holds_it(counts, 33);
        let i = choose|i: int| on_segment(i, counts as int);
        any_stretch_gives_the_temperature(i, counts);
    }
}

/// A thermostat goes by what it measures: one tick with a reading that the curve puts below the dead
/// band leaves it heating, one above leaves it idle.
pub proof fn a_heater_goes_by_what_it_measures(
    before: Heater,
    cfg: HeaterConfig,
    setpoint_milli_c: i32,
    counts: u16,
    now: Instant,
    after: Heater,
)
    requires
        before.ticked(cfg, HeaterMode::Thermostat, setpoint_milli_c, Some(counts), now, after),
        after.temperature() != TEMPERATURE_INVALID,
        cfg.hysteresis_milli_c >= 0,
    ensures
        after.temperature() < setpoint_milli_c - cfg.hysteresis_milli_c ==> after.phase()
            == HeaterState::Heating,
        after.temperature() > setpoint_milli_c + cfg.hysteresis_milli_c ==> after.phase()
            == HeaterState::Idle,
        setpoint_milli_c - cfg.hysteresis_milli_c <= after.temperature() <= setpoint_milli_c
            + cfg.hysteresis_milli_c ==> (after.phase() == HeaterState::Heating <==> before.phase()
            == HeaterState::Heating),
{
}

/// Between two entries the curve is straight: the temperature exceeds that of the entry above by the
/// reading's share of five degrees, rounded down to a thousandth.
pub proof fn between_two_entries_the_curve_is_straight(i: int, counts: u16)
    requires
        0 <= i < 33,
        NTC_CURVE@[i + 1] <= counts <= NTC_CURVE@[i],
    ensures
        ({
            let above = curve_milli_c(counts) - (5000 * i - 40_000);
            let apart = NTC_CURVE@[i] - NTC_CURVE@[i + 1];
            above * apart <= 5000 * (NTC_CURVE@[i] - counts) < (above + 1) * apart
        }),
{
    assert(on_segment(i, counts as int));
    any_stretch_gives_the_temperature(i, counts);
    the_curve_descends(i);
    let d = NTC_CURVE@[i] - NTC_CURVE@[i + 1];
    let n = 5000 * (NTC_CURVE@[i] - counts);
    let q = n / d;
    vstd::arithmetic::div_mod::lemma_fundamental_div_mod(n, d);
    assert(q * d <= n < (q + 1) * d) by (nonlinear_arith)
        requires
            n == d * q + n % d,
            0 <= n % d < d,
    ;
}

/// A thermistor to the supply reads the other way round: full scale less its reading stands for the
/// temperature that the reading stands for with the thermistor to ground.
pub proof fn the_wiring_turns_the_reading_round(a: HeaterConfig, b: HeaterConfig, counts: u16)
    requires
        counts <= 4095,
        a.ntc_wiring == NtcWiring::ToGround,
        b.ntc_wiring == NtcWiring::ToSupply,
        a.offset_milli_c == b.offset_milli_c,
    ensures
        uncalibrated(a, Some(counts)) == curve_milli_c(counts),
        uncalibrated(b, Some((4095 - counts) as u16)) == uncalibrated(a, Some(counts)),
        calibrated(b, Some((4095 - counts) as u16)) == calibrated(a, Some(counts)),
{
}

} // verus!
