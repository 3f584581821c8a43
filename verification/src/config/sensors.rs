//! What is on a sensor slot, how its raw number becomes a physical value, and in what unit.
use crate::arith::{euclidean_rem, trunc_div, truncating_div};
use crate::index::{AdcSlot, AmplifierId, AnalogInput, I2cBus, Id, PdoSensorChannel};
use vstd::prelude::*;

verus! {

/// Number of amplifier address straps.
pub const NUM_AMPLIFIERS: usize = 9;

/// Every probe-able amplifier slot on the board: both buses, all nine straps.
pub const NUM_ADC_SLOTS: usize = 18;

pub const NUM_SENSOR_SLOTS: usize = 8;

/// How many slots can be on the bus as process data at once.
pub const NUM_PDO_SENSOR_CHANNELS: usize = 12;

/// The microcontroller's own converter pins: both pins of two connectors.
pub const NUM_ANALOG_INPUTS: usize = 4;

/// Amplifier addresses in scan order, one per strap combination.
pub const AMPLIFIER_ADDRESSES: [u8; 9] = [
    0b101_0000,
    0b101_0001,
    0b101_0010,
    0b101_0100,
    0b101_0101,
    0b101_0110,
    0b101_1000,
    0b101_1001,
    0b101_1010,
];

/// The address of one amplifier strap.
pub fn amplifier_address(amplifier: AmplifierId) -> (r: u8)
    ensures
        r == AMPLIFIER_ADDRESSES@[amplifier as int],
{
    AMPLIFIER_ADDRESSES[amplifier.index()]
}

/// Address of the rotary encoder. Fixed in the part, so naming the bus names the encoder.
pub const ENCODER_ADDRESS: u8 = 0x36;

/// Counts per full turn of the encoder's 12-bit angle register.
pub const ENCODER_FULL_SCALE: u16 = 4096;

/// Bit of a bus's presence word set when its encoder answered the last sweep.
pub const ENCODER_PRESENT_BIT: u16 = 512;

/// Bit of a bus's presence word set when its encoder reports a magnet at a usable distance.
pub const ENCODER_MAGNET_OK_BIT: u16 = 1024;

/// What is physically on a sensor slot.
///
/// The kind decides which device the slot is read from and how its raw number is linearised before
/// the slot's calibration is applied. The order of the variants is a wire and flash encoding.
#[derive(Clone, Copy, PartialEq, Eq, Debug, Structural)]
pub enum SensorKind {
    Unused,
    /// Linear pressure transducer through an instrumentation amplifier.
    Pressure,
    /// Pt1000 RTD in a Wheatstone bridge.
    Pt1000,
    /// MCP9700 analogue temperature sensor: 10 mV/degC, 500 mV at 0 degC.
    Mcp9700,
    /// AS5600 magnetic rotary encoder on the slot's bus.
    Angle,
    /// 10k thermistor to ground, 10k to the supply, on one of the board's own pins.
    Ntc,
    /// [`Self::Ntc`] with the two legs of the divider swapped.
    NtcToSupply,
}

impl SensorKind {
    pub fn from_u8(v: u8) -> (r: Option<Self>)
        ensures
            r is Some <==> v < 7,
            r matches Some(kind) ==> kind as int == v,
    {
        match v {
            0 => Some(Self::Unused),
            1 => Some(Self::Pressure),
            2 => Some(Self::Pt1000),
            3 => Some(Self::Mcp9700),
            4 => Some(Self::Angle),
            5 => Some(Self::Ntc),
            6 => Some(Self::NtcToSupply),
            _ => None,
        }
    }

    /// The unit a slot of this kind starts with.
    pub open spec fn spec_natural_unit(self) -> Unit {
        match self {
            SensorKind::Unused | SensorKind::Pressure => Unit::CentiBar,
            SensorKind::Angle => Unit::Promille,
            _ => Unit::CentiCelsius,
        }
    }

    /// The kinds whose device sits on a bus.
    pub open spec fn on_i2c(self) -> bool {
        self == SensorKind::Pressure || self == SensorKind::Pt1000 || self == SensorKind::Mcp9700
            || self == SensorKind::Angle
    }

    /// The kinds whose device is a thermistor on one of the board's own pins.
    pub open spec fn on_a_pin(self) -> bool {
        self == SensorKind::Ntc || self == SensorKind::NtcToSupply
    }

    /// The calibration a slot of this kind starts with: one only where the transfer function is
    /// the board's or the part's, so that one answer is right for every installation.
    pub open spec fn spec_default_calib(self) -> SensorCalib {
        match self {
            SensorKind::Pt1000 | SensorKind::Ntc | SensorKind::NtcToSupply =>
                SensorCalib::spec_unity(),
            SensorKind::Mcp9700 => SensorCalib::spec_mcp9700(),
            _ => SensorCalib::spec_zero(),
        }
    }

    /// The unit a slot of this kind reports in until told otherwise.
    pub fn natural_unit(self) -> (r: Unit)
        ensures
            r == self.spec_natural_unit(),
    {
        match self {
            Self::Unused => Unit::CentiBar,
            Self::Pressure => Unit::CentiBar,
            Self::Pt1000 | Self::Mcp9700 | Self::Ntc | Self::NtcToSupply => Unit::CentiCelsius,
            Self::Angle => Unit::Promille,
        }
    }

    /// Whether this kind is read over a bus.
    pub fn is_on_i2c(self) -> (r: bool)
        ensures
            r == self.on_i2c(),
    {
        match self {
            Self::Pressure | Self::Pt1000 | Self::Mcp9700 | Self::Angle => true,
            Self::Unused | Self::Ntc | Self::NtcToSupply => false,
        }
    }

    /// The calibration a freshly configured slot of this kind starts from. The kinds whose curve
    /// belongs to the individual sensor get one that reports nothing at all.
    pub fn default_calib(self) -> (r: SensorCalib)
        ensures
            r == self.spec_default_calib(),
    {
        match self {
            Self::Pt1000 | Self::Ntc | Self::NtcToSupply => SensorCalib::unity(),
            Self::Mcp9700 => SensorCalib::mcp9700(),
            Self::Unused | Self::Pressure | Self::Angle => SensorCalib::zero(),
        }
    }
}

/// How to scale a slot's physical value into the signed 16-bit number that goes on the bus. The
/// order of the variants is a wire encoding.
#[derive(Clone, Copy, PartialEq, Eq, Debug, Structural)]
pub enum Unit {
    /// 0.01 bar per count.
    CentiBar,
    /// 0.1 bar per count.
    DeciBar,
    /// 0.01 degrees Celsius per count.
    CentiCelsius,
    /// Uncalibrated device counts, passed through.
    RawCounts,
    /// Promille, 0..1000.
    Promille,
}

impl Unit {
    pub fn from_u8(v: u8) -> (r: Option<Self>)
        ensures
            r is Some <==> v < 5,
            r matches Some(unit) ==> unit as int == v,
    {
        match v {
            0 => Some(Self::CentiBar),
            1 => Some(Self::DeciBar),
            2 => Some(Self::CentiCelsius),
            3 => Some(Self::RawCounts),
            4 => Some(Self::Promille),
            _ => None,
        }
    }

    pub open spec fn spec_quantity(self) -> Quantity {
        match self {
            Unit::CentiBar | Unit::DeciBar => Quantity::Pressure,
            Unit::CentiCelsius => Quantity::Temperature,
            Unit::RawCounts => Quantity::Raw,
            Unit::Promille => Quantity::Ratio,
        }
    }

    pub open spec fn spec_prefix(self) -> UnitPrefix {
        match self {
            Unit::DeciBar => UnitPrefix::Deci,
            Unit::CentiBar | Unit::CentiCelsius => UnitPrefix::Centi,
            Unit::Promille => UnitPrefix::Milli,
            Unit::RawCounts => UnitPrefix::Unscaled,
        }
    }

    /// What is being measured, independent of how finely.
    pub fn quantity(self) -> (r: Quantity)
        ensures
            r == self.spec_quantity(),
    {
        match self {
            Self::CentiBar | Self::DeciBar => Quantity::Pressure,
            Self::CentiCelsius => Quantity::Temperature,
            Self::RawCounts => Quantity::Raw,
            Self::Promille => Quantity::Ratio,
        }
    }

    /// How finely, independent of what.
    pub fn prefix(self) -> (r: UnitPrefix)
        ensures
            r == self.spec_prefix(),
    {
        match self {
            Self::DeciBar => UnitPrefix::Deci,
            Self::CentiBar | Self::CentiCelsius => UnitPrefix::Centi,
            Self::Promille => UnitPrefix::Milli,
            Self::RawCounts => UnitPrefix::Unscaled,
        }
    }

    /// Divisor from the milli-unit that calibration works in to this unit's counts: the number of
    /// thousandths in one count.
    pub fn per_milli(self) -> (r: i32)
        ensures
            r == match self {
                Unit::DeciBar => 100int,
                Unit::CentiBar | Unit::CentiCelsius => 10,
                Unit::Promille | Unit::RawCounts => 1,
            },
    {
        match self.prefix() {
            UnitPrefix::Deci => 100,
            UnitPrefix::Centi => 10,
            UnitPrefix::Milli => 1,
            UnitPrefix::Unscaled => 1,
        }
    }
}

/// The physical quantity half of a [`Unit`].
#[derive(Clone, Copy, PartialEq, Eq, Debug, Structural)]
pub enum Quantity {
    Pressure,
    Temperature,
    /// Dimensionless, such as how far open a valve is.
    Ratio,
    /// Device counts, with no physical meaning attached.
    Raw,
}

/// The scale half of a [`Unit`].
#[derive(Clone, Copy, PartialEq, Eq, Debug, Structural)]
pub enum UnitPrefix {
    Unscaled,
    Deci,
    Centi,
    Milli,
}

/// Fixed-point affine calibration for one sensor slot:
///
/// ```text
///   out = (linear - offset) * slope / 1e9 + constant
/// ```
///
/// with `linear`, `offset`, `out` and `constant` in thousandths.
#[derive(Clone, Copy, PartialEq, Eq, Debug, Structural)]
pub struct SensorCalib {
    /// Zero offset, in thousandths of whatever the kind's linearised value is measured in.
    pub offset_milli: i32,
    /// Slope, in nano-output-units per linearised unit. `1_000_000_000` is unity.
    pub slope_nano: i32,
    /// Constant added after the linear part, in thousandths of the output unit.
    pub constant_milli: i32,
}

/// A number brought into the range of `i32`.
pub open spec fn clamp_i32(x: int) -> int {
    if x < i32::MIN {
        i32::MIN as int
    } else if x > i32::MAX {
        i32::MAX as int
    } else {
        x
    }
}

/// The number of thousandths of a count in a full turn; a turn has at least one count.
pub open spec fn turn_milli(full_scale: u16) -> int {
    1000 * (if full_scale == 0 {
        1
    } else {
        full_scale as int
    })
}

impl SensorCalib {
    pub open spec fn spec_zero() -> Self {
        SensorCalib { offset_milli: 0, slope_nano: 0, constant_milli: 0 }
    }

    pub open spec fn spec_unity() -> Self {
        SensorCalib { offset_milli: 0, slope_nano: 1_000_000_000, constant_milli: 0 }
    }

    pub open spec fn spec_mcp9700() -> Self {
        SensorCalib { offset_milli: 155_151, slope_nano: 322_265_632, constant_milli: 0 }
    }

    /// The affine map itself, on a value that is already zeroed.
    pub open spec fn scaled(self, zeroed: int) -> int {
        clamp_i32(trunc_div(zeroed * self.slope_nano, 1_000_000_000) + self.constant_milli)
    }

    /// The signed distance from the zero angle, running the way the slope says: up through
    /// `[0, turn)`, or down through `(-turn, 0]`.
    pub open spec fn turned(self, linear: int, full_scale: u16) -> int {
        if self.slope_nano < 0 {
            -((self.offset_milli - linear) % turn_milli(full_scale))
        } else {
            (linear - self.offset_milli) % turn_milli(full_scale)
        }
    }

    /// The slope that maps a span of counts onto a thousand promille, rounded away from zero.
    pub open spec fn angle_slope(counts: i16) -> int {
        if counts == 0 {
            1_000_000_000
        } else if counts > 0 {
            (1_000_000_000 + counts / 2) / (counts as int)
        } else {
            -((1_000_000_000 + (-counts) / 2) / (-counts as int))
        }
    }

    /// Nothing configured: the zero slope marks it as such.
    pub fn zero() -> (r: Self)
        ensures
            r == Self::spec_zero(),
    {
        Self { offset_milli: 0, slope_nano: 0, constant_milli: 0 }
    }

    /// A pass-through: the linearised value, in its own milli-units, is the answer.
    pub fn unity() -> (r: Self)
        ensures
            r == Self::spec_unity(),
    {
        Self { offset_milli: 0, slope_nano: 1_000_000_000, constant_milli: 0 }
    }

    /// The MCP9700's datasheet transfer function against a 3.3 V, 10-bit conversion: the zero
    /// sits at 155.15 counts and one count is 0.3223 degrees.
    pub fn mcp9700() -> (r: Self)
        ensures
            r == Self::spec_mcp9700(),
    {
        Self { offset_milli: 155_151, slope_nano: 322_265_632, constant_milli: 0 }
    }

    /// Calibration for an encoder whose valve travels `counts` of the turn between closed and
    /// open, with the closed stop at `zero_counts`. `counts` is negative for a valve whose angle
    /// decreases as it opens.
    pub fn angle_over(zero_counts: u16, counts: i16) -> (r: Self)
        ensures
            r == (SensorCalib {
                offset_milli: (zero_counts * 1000) as i32,
                slope_nano: Self::angle_slope(counts) as i32,
                constant_milli: 0,
            }),
            -1_000_000_000 <= Self::angle_slope(counts) <= 1_000_000_000,
    {
        let span: i64 = if counts == 0 {
            1
        } else if counts > 0 {
            counts as i64
        } else {
            -(counts as i64)
        };
        let slope: i64 = (1_000_000_000 + span / 2) / span;
        assert(0 <= slope <= 1_000_000_000) by (nonlinear_arith)
            requires
                1 <= span <= 32768,
                slope == (1_000_000_000 + span as int / 2) / span as int,
        ;
        let signed: i64 = if counts < 0 {
            -slope
        } else {
            slope
        };
        Self { offset_milli: zero_counts as i32 * 1000, slope_nano: signed as i32, constant_milli: 0 }
    }

    /// Whether this record says anything at all. A zero slope is taken as "not calibrated yet".
    pub fn is_calibrated(&self) -> (r: bool)
        ensures
            r == (self.slope_nano != 0),
    {
        self.slope_nano != 0
    }

    /// `out = (linear - offset) * slope / 1e9 + constant`, both sides in thousandths, held to the
    /// range of the result.
    pub fn apply(&self, linear: i32) -> (r: i32)
        ensures
            r == self.scaled(linear - self.offset_milli),
    {
        let zeroed: i64 = linear as i64 - self.offset_milli as i64;
        let slope: i64 = self.slope_nano as i64;
        proof {
            assert(-9223372036854775807 <= zeroed * slope <= 9223372036854775807)
                by (nonlinear_arith)
                requires
                    -4294967295 <= zeroed <= 4294967295,
                    -2147483648 <= slope <= 2147483647,
            ;
        }
        let out: i64 = truncating_div(zeroed * slope, 1_000_000_000) + self.constant_milli as i64;
        if out < i32::MIN as i64 {
            i32::MIN
        } else if out > i32::MAX as i64 {
            i32::MAX
        } else {
            out as i32
        }
    }

    /// [`Self::apply`], but the zeroing wraps at `full_scale` counts, so that a closed stop may
    /// sit anywhere on the circle. The sign of the slope picks which way round the travel runs.
    pub fn apply_wrapped(&self, linear: i32, full_scale: u16) -> (r: i32)
        requires
            self.slope_nano < 0 ==> i32::MIN <= self.offset_milli - linear <= i32::MAX,
            self.slope_nano >= 0 ==> i32::MIN <= linear - self.offset_milli <= i32::MAX,
        ensures
            r == self.scaled(self.turned(linear as int, full_scale)),
    {
        let modulus: i32 = if full_scale == 0 {
            1000
        } else {
            full_scale as i32 * 1000
        };
        let zeroed: i32 = if self.slope_nano < 0 {
            -euclidean_rem(self.offset_milli - linear, modulus)
        } else {
            euclidean_rem(linear - self.offset_milli, modulus)
        };
        Self { offset_milli: 0, ..*self }.apply(zeroed)
    }
}

/// Where a slot's raw number comes from.
#[derive(Clone, Copy, PartialEq, Eq, Debug, Structural)]
pub enum SensorSource {
    /// An amplifier channel.
    Adc(AdcSlot),
    /// The encoder on this bus.
    Encoder(I2cBus),
    /// One of the microcontroller's own converter pins.
    Analog(AnalogInput),
}

#[derive(Clone, Copy, PartialEq, Eq, Debug, Structural)]
pub struct SensorSlotConfig {
    pub kind: SensorKind,
    /// Which bus, or `None` for an unused slot. Ignored for the thermistor kinds.
    pub bus: Option<I2cBus>,
    /// Which address strap. Ignored for the encoder and for the thermistor kinds.
    pub amplifier: AmplifierId,
    /// Which pin, for the two thermistor wirings. Ignored by every other kind.
    pub analog: AnalogInput,
    pub unit: Unit,
    pub calib: SensorCalib,
    /// Which channel broadcasts this slot, if any.
    pub pdo_channel: Option<PdoSensorChannel>,
}

impl SensorSlotConfig {
    pub open spec fn spec_unused() -> Self {
        SensorSlotConfig {
            kind: SensorKind::Unused,
            bus: None,
            amplifier: AmplifierId::Amp0,
            analog: AnalogInput::Com5Pin1,
            unit: Unit::CentiBar,
            calib: SensorCalib::spec_zero(),
            pdo_channel: None,
        }
    }

    /// A slot on a bus whose kind carries its own transfer function.
    pub open spec fn spec_from_kind(kind: SensorKind, bus: I2cBus, amplifier: AmplifierId) -> Self {
        SensorSlotConfig {
            kind,
            bus: Some(bus),
            amplifier,
            unit: kind.spec_natural_unit(),
            calib: kind.spec_default_calib(),
            ..Self::spec_unused()
        }
    }

    /// A thermistor slot on one of the board's own pins.
    pub open spec fn spec_ntc_wired(kind: SensorKind, analog: AnalogInput) -> Self {
        SensorSlotConfig {
            kind,
            analog,
            unit: kind.spec_natural_unit(),
            calib: kind.spec_default_calib(),
            ..Self::spec_unused()
        }
    }

    /// The device a slot is read from: a pin for the thermistor kinds, the bus's encoder for an
    /// angle, an amplifier strap for every other kind on a bus.
    pub open spec fn spec_source(self) -> Option<SensorSource> {
        if self.kind.on_a_pin() {
            Some(SensorSource::Analog(self.analog))
        } else if self.kind == SensorKind::Unused || self.bus is None {
            None
        } else if self.kind == SensorKind::Angle {
            Some(SensorSource::Encoder(self.bus->0))
        } else {
            Some(SensorSource::Adc(AdcSlot::spec_new(self.bus->0, self.amplifier)))
        }
    }

    /// The pin a slot is read from.
    pub open spec fn spec_analog_input(self) -> Option<AnalogInput> {
        if self.kind.on_a_pin() {
            Some(self.analog)
        } else {
            None
        }
    }

    pub fn unused() -> (r: Self)
        ensures
            r == Self::spec_unused(),
    {
        Self {
            kind: SensorKind::Unused,
            bus: None,
            amplifier: AmplifierId::Amp0,
            analog: AnalogInput::Com5Pin1,
            unit: Unit::CentiBar,
            calib: SensorCalib::zero(),
            pdo_channel: None,
        }
    }

    pub fn pressure(bus: I2cBus, amplifier: AmplifierId, unit: Unit, calib: SensorCalib) -> (r: Self)
        ensures
            r == (SensorSlotConfig {
                kind: SensorKind::Pressure,
                bus: Some(bus),
                amplifier,
                unit,
                calib,
                ..Self::spec_unused()
            }),
    {
        Self {
            kind: SensorKind::Pressure,
            bus: Some(bus),
            amplifier,
            unit,
            calib,
            ..Self::unused()
        }
    }

    /// A slot on `amplifier` whose kind carries its own transfer function.
    fn from_kind(kind: SensorKind, bus: I2cBus, amplifier: AmplifierId) -> (r: Self)
        ensures
            r == Self::spec_from_kind(kind, bus, amplifier),
    {
        Self {
            kind,
            bus: Some(bus),
            amplifier,
            unit: kind.natural_unit(),
            calib: kind.default_calib(),
            ..Self::unused()
        }
    }

    pub fn pt1000(bus: I2cBus, amplifier: AmplifierId) -> (r: Self)
        ensures
            r == Self::spec_from_kind(SensorKind::Pt1000, bus, amplifier),
    {
        Self::from_kind(SensorKind::Pt1000, bus, amplifier)
    }

    pub fn mcp9700(bus: I2cBus, amplifier: AmplifierId) -> (r: Self)
        ensures
            r == Self::spec_from_kind(SensorKind::Mcp9700, bus, amplifier),
    {
        Self::from_kind(SensorKind::Mcp9700, bus, amplifier)
    }

    /// A 10k thermistor in a divider on one of the board's own pins, thermistor to ground.
    pub fn ntc(analog: AnalogInput) -> (r: Self)
        ensures
            r == Self::spec_ntc_wired(SensorKind::Ntc, analog),
    {
        Self::ntc_wired(SensorKind::Ntc, analog)
    }

    /// [`Self::ntc`] with the divider the other way round.
    pub fn ntc_to_supply(analog: AnalogInput) -> (r: Self)
        ensures
            r == Self::spec_ntc_wired(SensorKind::NtcToSupply, analog),
    {
        Self::ntc_wired(SensorKind::NtcToSupply, analog)
    }

    fn ntc_wired(kind: SensorKind, analog: AnalogInput) -> (r: Self)
        ensures
            r == Self::spec_ntc_wired(kind, analog),
    {
        Self {
            kind,
            analog,
            unit: kind.natural_unit(),
            calib: kind.default_calib(),
            ..Self::unused()
        }
    }

    /// The encoder on `bus`, reporting promille of a valve travel that spans `counts` of the turn
    /// starting at `zero_counts`.
    pub fn encoder(bus: I2cBus, zero_counts: u16, counts: i16) -> (r: Self)
        ensures
            r == (SensorSlotConfig {
                kind: SensorKind::Angle,
                bus: Some(bus),
                unit: Unit::Promille,
                calib: SensorCalib {
                    offset_milli: (zero_counts * 1000) as i32,
                    slope_nano: SensorCalib::angle_slope(counts) as i32,
                    constant_milli: 0,
                },
                ..Self::spec_unused()
            }),
    {
        Self {
            kind: SensorKind::Angle,
            bus: Some(bus),
            unit: Unit::Promille,
            calib: SensorCalib::angle_over(zero_counts, counts),
            ..Self::unused()
        }
    }

    /// Broadcasts this slot on `channel`.
    pub fn on_channel(self, channel: PdoSensorChannel) -> (r: Self)
        ensures
            r == (SensorSlotConfig { pdo_channel: Some(channel), ..self }),
    {
        Self { pdo_channel: Some(channel), ..self }
    }

    /// Which device this slot reads, or `None` when it is unused or has no bus.
    pub fn source(&self) -> (r: Option<SensorSource>)
        ensures
            r == self.spec_source(),
    {
        match self.kind {
            SensorKind::Unused => None,
            SensorKind::Ntc | SensorKind::NtcToSupply => Some(SensorSource::Analog(self.analog)),
            SensorKind::Angle => match self.bus {
                Some(bus) => Some(SensorSource::Encoder(bus)),
                None => None,
            },
            SensorKind::Pressure | SensorKind::Pt1000 | SensorKind::Mcp9700 => match self.bus {
                Some(bus) => Some(SensorSource::Adc(AdcSlot::new(bus, self.amplifier))),
                None => None,
            },
        }
    }

    /// Which pin this slot reads, or `None` for anything that is no thermistor.
    pub fn analog_input(&self) -> (r: Option<AnalogInput>)
        ensures
            r == self.spec_analog_input(),
            r == match self.spec_source() {
                Some(SensorSource::Analog(input)) => Some(input),
                _ => None,
            },
    {
        match self.source() {
            Some(SensorSource::Analog(input)) => Some(input),
            _ => None,
        }
    }

    /// Which amplifier position this slot reads, or `None` for a slot that reads something else.
    pub fn adc_slot(&self) -> (r: Option<AdcSlot>)
        ensures
            r == match self.spec_source() {
                Some(SensorSource::Adc(slot)) => Some(slot),
                _ => None,
            },
    {
        match self.source() {
            Some(SensorSource::Adc(slot)) => Some(slot),
            _ => None,
        }
    }
}

/// A unity calibration hands the linearised value through unchanged.
pub proof fn unity_is_a_pass_through(linear: i32)
    ensures
        SensorCalib::spec_unity().scaled(linear - SensorCalib::spec_unity().offset_milli) == linear,
{
    assert(trunc_div(linear * 1_000_000_000, 1_000_000_000) == linear);
}

/// An uncalibrated record maps every reading onto one constant.
pub proof fn zero_slope_reports_nothing(calib: SensorCalib, a: int, b: int)
    requires
        calib.slope_nano == 0,
    ensures
        calib.scaled(a) == calib.scaled(b),
        calib.scaled(a) == calib.constant_milli,
{
    assert(a * 0 == 0 && b * 0 == 0);
}

/// A rising calibration never reports less for a larger reading, and a falling one never more.
pub proof fn calibration_is_monotone(calib: SensorCalib, a: int, b: int)
    requires
        a <= b,
    ensures
        calib.slope_nano >= 0 ==> calib.scaled(a) <= calib.scaled(b),
        calib.slope_nano <= 0 ==> calib.scaled(b) <= calib.scaled(a),
{
    let k = calib.slope_nano as int;
    assert(k >= 0 ==> a * k <= b * k) by (nonlinear_arith)
        requires
            a <= b,
    ;
    assert(k <= 0 ==> b * k <= a * k) by (nonlinear_arith)
        requires
            a <= b,
    ;
}

/// The zeroed angle depends only on where the shaft is, not on how often it has turned, and stays
/// within one turn of the zero on the side that the valve opens toward.
pub proof fn the_angle_wraps_at_a_full_turn(calib: SensorCalib, linear: int, turns: int, full_scale: u16)
    ensures
        calib.turned(linear + turns * turn_milli(full_scale), full_scale) == calib.turned(
            linear,
            full_scale,
        ),
        calib.slope_nano >= 0 ==> 0 <= calib.turned(linear, full_scale) < turn_milli(full_scale),
        calib.slope_nano < 0 ==> -turn_milli(full_scale) < calib.turned(linear, full_scale) <= 0,
{
    let m = turn_milli(full_scale);
    let up = linear - calib.offset_milli;
    let down = calib.offset_milli - linear;
    vstd::arithmetic::div_mod::lemma_mod_multiples_vanish(turns, up, m);
    vstd::arithmetic::div_mod::lemma_mod_multiples_vanish(-turns, down, m);
    assert(m * turns + up == (linear + turns * m) - calib.offset_milli) by (nonlinear_arith)
        requires
            up == linear - calib.offset_milli,
    ;
    assert(m * (-turns) + down == calib.offset_milli - (linear + turns * m)) by (nonlinear_arith)
        requires
            down == calib.offset_milli - linear,
    ;
}

/// An encoder calibrated over a span of counts reads zero at its closed stop and fully open, to
/// within one promille, at its open one, whichever way round it turns.
pub proof fn an_angle_calibration_meets_both_stops(calib: SensorCalib, zero_counts: u16, counts: i16)
    requires
        counts != 0,
        calib.offset_milli == zero_counts * 1000,
        calib.slope_nano == SensorCalib::angle_slope(counts),
        calib.constant_milli == 0,
    ensures
        calib.scaled(0) == 0,
        999 <= calib.scaled(counts * 1000) <= 1000,
{
    let k = calib.slope_nano as int;
    let n = if counts > 0 {
        counts as int
    } else {
        -(counts as int)
    };
    let m = (1_000_000_000 + n / 2) / n;
    assert(1_000_000_000 - n <= n * m <= 1_000_000_000 + n) by (nonlinear_arith)
        requires
            n > 0,
            m == (1_000_000_000 + n / 2) / n,
    ;
    assert((counts * 1000) * k == 1000 * (n * m)) by (nonlinear_arith)
        requires
            (counts == n && k == m) || (counts == -n && k == -m),
    ;
    let product = (counts * 1000) * k;
    assert(999_967_232_000 <= product <= 1_000_032_768_000);
    assert(0 * k == 0);
}

/// A calibration is a straight line: what it adds to the constant is the zeroed reading times the
/// slope in billionths, rounded toward zero, as long as the result fits.
pub proof fn a_calibration_is_a_straight_line(calib: SensorCalib, zeroed: int)
    ensures
        ({
            let product = zeroed * calib.slope_nano;
            let out = calib.scaled(zeroed);
            let line = out - calib.constant_milli;
            &&& i32::MIN <= out <= i32::MAX
            &&& i32::MIN < out < i32::MAX && product >= 0 ==> line * 1_000_000_000 <= product < (line
                + 1) * 1_000_000_000
            &&& i32::MIN < out < i32::MAX && product <= 0 ==> (line - 1) * 1_000_000_000 < product
                <= line * 1_000_000_000
            &&& product >= (i32::MAX - calib.constant_milli) * 1_000_000_000 ==> out == i32::MAX
            &&& product <= (i32::MIN - calib.constant_milli) * 1_000_000_000 ==> out == i32::MIN
        }),
{
    let product = zeroed * calib.slope_nano;
    crate::arith::a_quotient_is_rounded_toward_zero(product, 1_000_000_000);
}

/// The zeroed angle is where the shaft stands past the zero: adding the zero back gives the reading
/// again, up to whole turns.
pub proof fn a_zeroed_angle_is_measured_from_the_zero(
    calib: SensorCalib,
    linear: int,
    full_scale: u16,
)
    requires
        full_scale > 0,
    ensures
        (calib.turned(linear, full_scale) + calib.offset_milli - linear) % (1000 * full_scale) == 0,
        linear == calib.offset_milli ==> calib.turned(linear, full_scale) == 0,
{
    let m = 1000 * full_scale;
    let up = linear - calib.offset_milli;
    vstd::arithmetic::div_mod::lemma_fundamental_div_mod(up, m);
    vstd::arithmetic::div_mod::lemma_fundamental_div_mod(-up, m);
    let (q, p) = (up / m, (-up) / m);
    vstd::arithmetic::div_mod::lemma_mod_multiples_basic(-q, m);
    vstd::arithmetic::div_mod::lemma_mod_multiples_basic(p, m);
    assert(m * q == q * m && m * p == p * m && (-q) * m == -(q * m)) by (nonlinear_arith);
    vstd::arithmetic::div_mod::lemma_small_mod(0, m as nat);
}

/// The slope of an encoder spreads a thousand promille over its counts, to the nearest billionth, and
/// has the sign of the counts.
pub proof fn an_angle_slope_is_the_nearest(counts: i16)
    requires
        counts != 0,
    ensures
        counts > 0 ==> SensorCalib::angle_slope(counts) > 0,
        counts < 0 ==> SensorCalib::angle_slope(counts) < 0,
        SensorCalib::angle_slope((-counts) as i16) == -SensorCalib::angle_slope(counts) || counts
            == i16::MIN,
        ({
            let n = if counts > 0 {
                counts as int
            } else {
                -counts
            };
            let off = SensorCalib::angle_slope(counts) * counts - 1_000_000_000;
            -n <= 2 * off <= n
        }),
{
    let n = if counts > 0 {
        counts as int
    } else {
        -(counts as int)
    };
    let t = 1_000_000_000 + n / 2;
    let q = t / n;
    vstd::arithmetic::div_mod::lemma_fundamental_div_mod(t, n);
    assert(t - n < q * n <= t) by (nonlinear_arith)
        requires
            t == n * q + t % n,
            0 <= t % n < n,
    ;
    assert(q > 0) by (nonlinear_arith)
        requires
            q * n > t - n,
            t >= n,
            n > 0,
    ;
    assert((-q) * (-n) == q * n) by (nonlinear_arith);
}

/// What each kind is: where it is read, in what unit it starts to report and whether it starts with a
/// calibration of its own.
pub proof fn each_kind_has_its_device(kind: SensorKind)
    ensures
        kind.on_i2c() <==> kind == SensorKind::Pressure || kind == SensorKind::Pt1000 || kind
            == SensorKind::Mcp9700 || kind == SensorKind::Angle,
        kind.on_a_pin() <==> kind == SensorKind::Ntc || kind == SensorKind::NtcToSupply,
        kind != SensorKind::Unused <==> kind.on_i2c() || kind.on_a_pin(),
        kind.spec_natural_unit() == Unit::CentiBar <==> kind == SensorKind::Unused || kind
            == SensorKind::Pressure,
        kind.spec_natural_unit() == Unit::Promille <==> kind == SensorKind::Angle,
        kind.spec_natural_unit() == Unit::CentiCelsius <==> kind == SensorKind::Pt1000 || kind
            == SensorKind::Mcp9700 || kind.on_a_pin(),
        kind.spec_default_calib().slope_nano == 0 <==> kind == SensorKind::Unused || kind
            == SensorKind::Pressure || kind == SensorKind::Angle,
        kind.spec_default_calib().slope_nano == 1_000_000_000 <==> kind == SensorKind::Pt1000
            || kind.on_a_pin(),
        kind.spec_default_calib().offset_milli == (if kind == SensorKind::Mcp9700 {
            155_151int
        } else {
            0
        }),
        kind.spec_default_calib().constant_milli == 0,
{
}

/// What each unit counts: bars in hundredths or tenths, degrees in hundredths, and thousandths and raw
/// counts as they are.
pub proof fn each_unit_has_its_quantity(unit: Unit)
    ensures
        unit.spec_quantity() == Quantity::Pressure <==> unit == Unit::CentiBar || unit
            == Unit::DeciBar,
        unit.spec_quantity() == Quantity::Temperature <==> unit == Unit::CentiCelsius,
        unit.spec_quantity() == Quantity::Ratio <==> unit == Unit::Promille,
        unit.spec_quantity() == Quantity::Raw <==> unit == Unit::RawCounts,
        unit.spec_prefix() == UnitPrefix::Deci <==> unit == Unit::DeciBar,
        unit.spec_prefix() == UnitPrefix::Centi <==> unit == Unit::CentiBar || unit
            == Unit::CentiCelsius,
        unit.spec_prefix() == UnitPrefix::Milli <==> unit == Unit::Promille,
        unit.spec_prefix() == UnitPrefix::Unscaled <==> unit == Unit::RawCounts,
{
}

/// A slot is read from the device of its kind: a thermistor from its pin, whatever the bus, an angle
/// from the encoder on its bus, and the others from the amplifier of that bus and strap. Without a bus,
/// or unused, it is read from nowhere.
pub proof fn a_slot_is_read_from_its_device(slot: SensorSlotConfig, bus: I2cBus)
    ensures
        slot.kind == SensorKind::Unused ==> slot.spec_source() is None,
        slot.kind == SensorKind::Ntc || slot.kind == SensorKind::NtcToSupply ==> slot.spec_source()
            == Some(SensorSource::Analog(slot.analog)) && slot.spec_analog_input() == Some(
            slot.analog,
        ),
        slot.kind != SensorKind::Ntc && slot.kind != SensorKind::NtcToSupply
            ==> slot.spec_analog_input() is None,
        slot.kind == SensorKind::Angle && slot.bus == Some(bus) ==> slot.spec_source() == Some(
            SensorSource::Encoder(bus),
        ),
        slot.kind == SensorKind::Pressure || slot.kind == SensorKind::Pt1000 || slot.kind
            == SensorKind::Mcp9700 ==> (slot.bus == Some(bus) ==> (
        slot.spec_source() matches Some(SensorSource::Adc(at)) && at.position() == 9
            * bus.position() + slot.amplifier.position())),
        slot.kind != SensorKind::Ntc && slot.kind != SensorKind::NtcToSupply && slot.bus is None
            ==> slot.spec_source() is None,
{
    crate::index::an_adc_slot_stands_behind_its_bus(bus, slot.amplifier);
}

/// A slot made for a kind names its device and nothing else, and is broadcast on no channel.
pub proof fn a_new_slot_names_its_device(
    kind: SensorKind,
    bus: I2cBus,
    amplifier: AmplifierId,
    analog: AnalogInput,
)
    ensures
        ({
            let slot = SensorSlotConfig::spec_from_kind(kind, bus, amplifier);
            &&& slot.kind == kind && slot.bus == Some(bus) && slot.amplifier == amplifier
            &&& slot.unit == kind.spec_natural_unit() && slot.calib == kind.spec_default_calib()
            &&& slot.pdo_channel is None
        }),
        ({
            let slot = SensorSlotConfig::spec_ntc_wired(kind, analog);
            &&& slot.kind == kind && slot.bus is None && slot.analog == analog
            &&& slot.unit == kind.spec_natural_unit() && slot.calib == kind.spec_default_calib()
            &&& slot.pdo_channel is None
        }),
{
}

} // verus!
