//! What is fitted to a valve slot: which outputs drive it, how far and how fast it travels, and
//! what it should do when the master stops talking.
use crate::arith::{trunc_div, truncating_div};
use crate::index::{HcoId, HcoPair, SensorSlot};
use vstd::prelude::*;

pub use crate::proto::valve::PROMILLE_MAX;

verus! {

/// Number of valve slots.
pub const NUM_VALVES: usize = 4;

/// Number of high current outputs.
pub const NUM_HCO: usize = 4;

#[derive(Clone, Copy, PartialEq, Eq, Debug, Structural)]
pub enum ValveKind {
    /// No valve fitted on this slot. Commands to it are rejected.
    Unfitted,
    /// On/off coil on a single output. Any non-zero promille energises it.
    Solenoid,
    /// Servo on a PWM output, optionally with a separate power output.
    Servo,
}

impl ValveKind {
    pub fn from_u8(v: u8) -> (r: Option<Self>)
        ensures
            r is Some <==> v < 3,
            r matches Some(kind) ==> kind as int == v,
    {
        match v {
            0 => Some(Self::Unfitted),
            1 => Some(Self::Solenoid),
            2 => Some(Self::Servo),
            _ => None,
        }
    }
}

/// What a valve should do when a fallback stage fires.
#[derive(Clone, Copy, PartialEq, Eq, Debug, Structural)]
pub struct FallbackAction {
    pub position: u16,
    /// Drop the power output once the position is reached and the settle time has elapsed.
    pub unpower: bool,
}

#[derive(Clone, Copy, PartialEq, Eq, Debug, Structural)]
pub struct ValveConfig {
    pub kind: ValveKind,
    /// Output that powers the valve, if it has a separate one.
    pub power_hco: Option<HcoId>,
    /// Output carrying the signal: PWM for a servo, the coil for a solenoid. A valve with no
    /// signal output is unmapped.
    pub signal_hco: Option<HcoId>,
    pub closed_us: u16,
    pub open_us: u16,
    /// Time for a full sweep from closed to open.
    pub travel_ms: u16,
    /// Rail current above which a moving valve counts as stalled. 0 disables stall detection.
    pub stall_ma: u16,
    pub stall_ms: u16,
    /// How long to keep driving after arriving before an unpower is allowed.
    pub settle_ms: u16,
    pub min_promille: u16,
    pub max_promille: u16,
    /// Sensor slot reporting where this valve actually is, in promille, if one is fitted.
    pub position_sensor: Option<SensorSlot>,
    pub fallback_a: FallbackAction,
    pub fallback_b: FallbackAction,
}

impl ValveConfig {
    /// Nothing fitted.
    pub open spec fn spec_unmapped() -> Self {
        ValveConfig {
            kind: ValveKind::Unfitted,
            power_hco: None,
            signal_hco: None,
            closed_us: 2000,
            open_us: 1000,
            travel_ms: 1000,
            stall_ma: 0,
            stall_ms: 500,
            settle_ms: 500,
            min_promille: 0,
            max_promille: PROMILLE_MAX,
            position_sensor: None,
            fallback_a: FallbackAction { position: 0, unpower: true },
            fallback_b: FallbackAction { position: PROMILLE_MAX, unpower: true },
        }
    }

    /// Whether something is fitted and has an output to be driven by.
    pub open spec fn mapped(self) -> bool {
        self.kind != ValveKind::Unfitted && self.signal_hco is Some
    }

    /// Whether one of the valve's two outputs is this one.
    pub open spec fn drives(self, hco: HcoId) -> bool {
        self.signal_hco == Some(hco) || self.power_hco == Some(hco)
    }

    /// The pulse width that holds the valve at a position: linear between the two stops, rounded
    /// toward the closed one.
    pub open spec fn pulse_width(self, promille: int) -> int {
        let at = if promille > 1000 {
            1000
        } else {
            promille
        };
        self.closed_us + trunc_div((self.open_us - self.closed_us) * at, 1000)
    }

    /// The upper end of the range that commands are clamped to.
    pub open spec fn upper_limit(self) -> u16 {
        if self.max_promille < PROMILLE_MAX {
            self.max_promille
        } else {
            PROMILLE_MAX
        }
    }

    /// A commanded position brought into the valve's own range.
    pub open spec fn clamped(self, promille: u16) -> u16 {
        if promille < self.min_promille {
            self.min_promille
        } else if promille > self.upper_limit() {
            self.upper_limit()
        } else {
            promille
        }
    }

    pub fn unmapped() -> (r: Self)
        ensures
            r == Self::spec_unmapped(),
    {
        Self {
            kind: ValveKind::Unfitted,
            power_hco: None,
            signal_hco: None,
            closed_us: 2000,
            open_us: 1000,
            travel_ms: 1000,
            stall_ma: 0,
            stall_ms: 500,
            settle_ms: 500,
            min_promille: 0,
            max_promille: PROMILLE_MAX,
            position_sensor: None,
            fallback_a: FallbackAction { position: 0, unpower: true },
            fallback_b: FallbackAction { position: PROMILLE_MAX, unpower: true },
        }
    }

    /// A servo on an output pair, wired the way the harness does it: the lower output of the pair
    /// carries power, the upper one the signal.
    pub fn servo_on_pair(pair: HcoPair, closed_us: u16, open_us: u16, travel_ms: u16) -> (r: Self)
        ensures
            r == (ValveConfig {
                kind: ValveKind::Servo,
                power_hco: Some(pair.spec_power()),
                signal_hco: Some(pair.spec_signal()),
                closed_us,
                open_us,
                travel_ms,
                ..Self::spec_unmapped()
            }),
    {
        Self {
            kind: ValveKind::Servo,
            power_hco: Some(pair.power()),
            signal_hco: Some(pair.signal()),
            closed_us,
            open_us,
            travel_ms,
            ..Self::unmapped()
        }
    }

    pub fn solenoid_on(hco: HcoId) -> (r: Self)
        ensures
            r == (ValveConfig {
                kind: ValveKind::Solenoid,
                power_hco: None,
                signal_hco: Some(hco),
                ..Self::spec_unmapped()
            }),
    {
        Self {
            kind: ValveKind::Solenoid,
            power_hco: None,
            signal_hco: Some(hco),
            ..Self::unmapped()
        }
    }

    /// Closes the loop on this valve with a position sensor.
    pub fn with_position_sensor(self, slot: SensorSlot) -> (r: Self)
        ensures
            r == (ValveConfig { position_sensor: Some(slot), ..self }),
    {
        Self { position_sensor: Some(slot), ..self }
    }

    /// Linear interpolation from promille open to servo pulse width. Positions past fully open
    /// count as fully open; `open_us` may lie below `closed_us`.
    pub fn pulse_width_us(&self, promille: u16) -> (r: u16)
        ensures
            r == self.pulse_width(promille as int),
            self.closed_us <= r <= self.open_us || self.open_us <= r <= self.closed_us,
    {
        let at: i32 = if promille > PROMILLE_MAX {
            1000
        } else {
            promille as i32
        };
        let closed: i32 = self.closed_us as i32;
        let delta: i32 = self.open_us as i32 - closed;
        proof {
            assert(-65535 * 1000 <= delta * at <= 65535 * 1000) by (nonlinear_arith)
                requires
                    -65535 <= delta <= 65535,
                    0 <= at <= 1000,
            ;
            if delta >= 0 {
                assert(0 <= delta * at <= delta * 1000) by (nonlinear_arith)
                    requires
                        0 <= delta,
                        0 <= at <= 1000,
                ;
            } else {
                assert(delta * 1000 <= delta * at <= 0) by (nonlinear_arith)
                    requires
                        delta < 0,
                        0 <= at <= 1000,
                ;
            }
        }
        let offset: i64 = truncating_div((delta * at) as i64, 1000);
        assert(delta >= 0 ==> 0 <= offset <= delta);
        assert(delta < 0 ==> delta <= offset <= 0);
        (closed as i64 + offset) as u16
    }

    /// Brings a commanded position into the valve's configured range.
    pub fn clamp(&self, promille: u16) -> (r: u16)
        requires
            self.min_promille <= self.upper_limit(),
        ensures
            r == self.clamped(promille),
            self.min_promille <= r <= self.upper_limit(),
            self.min_promille <= promille <= self.upper_limit() ==> r == promille,
    {
        let upper: u16 = if self.max_promille < PROMILLE_MAX {
            self.max_promille
        } else {
            PROMILLE_MAX
        };
        if promille < self.min_promille {
            self.min_promille
        } else if promille > upper {
            upper
        } else {
            promille
        }
    }

    pub fn is_mapped(&self) -> (r: bool)
        ensures
            r == self.mapped(),
    {
        self.kind != ValveKind::Unfitted && self.signal_hco.is_some()
    }

    /// Whether the valve uses this output, for its signal or for its power.
    pub fn uses(&self, hco: HcoId) -> (r: bool)
        ensures
            r == self.drives(hco),
    {
        let signal = match self.signal_hco {
            Some(out) => out == hco,
            None => false,
        };
        let power = match self.power_hco {
            Some(out) => out == hco,
            None => false,
        };
        signal || power
    }
}

/// True when two valves would drive any of the same outputs, and so fight each other every
/// control tick.
pub(super) fn shares_output(a: &ValveConfig, b: &ValveConfig) -> (r: bool)
    ensures
        r == exists|hco: HcoId| a.drives(hco) && b.drives(hco),
{
    let signal = match a.signal_hco {
        Some(out) => b.uses(out),
        None => false,
    };
    let power = match a.power_hco {
        Some(out) => b.uses(out),
        None => false,
    };
    proof {
        if signal {
            assert(a.drives(a.signal_hco->0) && b.drives(a.signal_hco->0));
        }
        if power {
            assert(a.drives(a.power_hco->0) && b.drives(a.power_hco->0));
        }
    }
    signal || power
}

/// The two stops of a servo are exactly its configured pulse widths.
pub proof fn pulse_width_meets_both_stops(valve: ValveConfig, promille: int)
    requires
        promille >= 1000,
    ensures
        valve.pulse_width(0) == valve.closed_us,
        valve.pulse_width(promille) == valve.open_us,
{
    let delta = valve.open_us - valve.closed_us;
    assert(delta * 0 == 0 && trunc_div(delta * 1000, 1000) == delta);
}

/// Opening further never moves a servo back toward its closed stop, whichever way it turns.
pub proof fn pulse_width_is_monotone(valve: ValveConfig, p: int, q: int)
    requires
        0 <= p <= q,
    ensures
        valve.closed_us <= valve.open_us ==> valve.pulse_width(p) <= valve.pulse_width(q),
        valve.open_us <= valve.closed_us ==> valve.pulse_width(q) <= valve.pulse_width(p),
{
    let a = if p > 1000 {
        1000
    } else {
        p
    };
    let b = if q > 1000 {
        1000
    } else {
        q
    };
    let delta = valve.open_us - valve.closed_us;
    assert(delta >= 0 ==> delta * a <= delta * b) by (nonlinear_arith)
        requires
            a <= b,
    ;
    assert(delta <= 0 ==> delta * b <= delta * a) by (nonlinear_arith)
        requires
            a <= b,
    ;
    assert(delta >= 0 ==> 0 <= delta * a) by (nonlinear_arith)
        requires
            0 <= a,
    ;
    assert(delta <= 0 ==> delta * a <= 0) by (nonlinear_arith)
        requires
            0 <= a,
    ;
}

/// A servo's pulse width is linear in the position: what it adds to the closed width is the position's
/// share of the way to the open one, rounded toward the closed stop.
pub proof fn a_pulse_width_is_the_positions_share(valve: ValveConfig, promille: int)
    requires
        0 <= promille <= 1000,
    ensures
        ({
            let moved = valve.pulse_width(promille) - valve.closed_us;
            let span = valve.open_us - valve.closed_us;
            &&& span >= 0 ==> moved * 1000 <= span * promille < (moved + 1) * 1000
            &&& span <= 0 ==> (moved - 1) * 1000 < span * promille <= moved * 1000
        }),
{
    let span = valve.open_us - valve.closed_us;
    assert(span >= 0 ==> span * promille >= 0) by (nonlinear_arith)
        requires
            promille >= 0,
    ;
    assert(span <= 0 ==> span * promille <= 0) by (nonlinear_arith)
        requires
            promille >= 0,
    ;
    crate::arith::a_quotient_is_rounded_toward_zero(span * promille, 1000);
}

/// A position is brought into the valve's range by the nearer end; the range ends at fully open.
pub proof fn a_position_is_kept_in_range(valve: ValveConfig, promille: u16)
    ensures
        valve.upper_limit() == if valve.max_promille <= 1000 {
            valve.max_promille
        } else {
            1000
        },
        promille < valve.min_promille ==> valve.clamped(promille) == valve.min_promille,
        valve.min_promille <= promille <= valve.upper_limit() ==> valve.clamped(promille)
            == promille,
        valve.min_promille <= promille && promille > valve.upper_limit() ==> valve.clamped(promille)
            == valve.upper_limit(),
{
}

/// A valve is mapped exactly if something is fitted and has a signal output, and drives exactly its
/// signal and its power output.
pub proof fn a_valve_has_two_outputs(valve: ValveConfig, hco: HcoId)
    ensures
        valve.mapped() <==> valve.kind != ValveKind::Unfitted && valve.signal_hco is Some,
        valve.drives(hco) <==> valve.signal_hco == Some(hco) || valve.power_hco == Some(hco),
{
}

} // verus!
