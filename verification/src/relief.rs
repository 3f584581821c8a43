//! Local overpressure relief, controlled by the node itself.
//!
//! Relief overrides everything but an output that was taken over by hand in raw debug mode.
use crate::config::ReliefConfig;
use crate::proto::od::SENSOR_INVALID;
use crate::time::{Duration, Instant};
use vstd::prelude::*;

verus! {

/// Object 0x2015. The order of the variants is the wire encoding.
#[derive(Clone, Copy, PartialEq, Eq, Debug, Structural)]
pub enum ReliefState {
    /// Watching, not intervening.
    Idle,
    /// Holding the valve open to bleed pressure.
    Relieving,
    /// Pulse finished; letting the reading settle before re-arming.
    Cooldown,
    /// Configured, but the watched slot has no valid reading, so it cannot act.
    Inhibited,
    /// Not configured on this node.
    Disabled,
}

pub struct Relief {
    state: ReliefState,
    /// When the current `Relieving` or `Cooldown` phase ends.
    until: Instant,
}

impl Relief {
    pub closed spec fn phase(self) -> ReliefState {
        self.state
    }

    /// When the current pulse or cooldown ends, in ticks.
    pub closed spec fn ends(self) -> int {
        self.until.ticks as int
    }

    /// Whether a pulse is under way.
    pub open spec fn pulsing(self, now: Instant) -> bool {
        self.phase() == ReliefState::Relieving && now.ticks < self.ends()
    }

    /// Whether a cooldown is under way.
    pub open spec fn cooling(self, now: Instant) -> bool {
        self.phase() == ReliefState::Cooldown && now.ticks < self.ends()
    }

    /// Where one tick leads: a pulse or a cooldown under way is finished first, the end of a pulse
    /// begins a cooldown, a slot without a reading inhibits the loop, and a reading above the
    /// threshold begins a pulse.
    pub open spec fn phase_after(self, cfg: ReliefConfig, reading: i16, now: Instant) -> ReliefState {
        if !cfg.armed() {
            ReliefState::Disabled
        } else if self.pulsing(now) {
            ReliefState::Relieving
        } else if reading == SENSOR_INVALID {
            ReliefState::Inhibited
        } else if self.phase() == ReliefState::Relieving || self.cooling(now) {
            ReliefState::Cooldown
        } else if reading > cfg.threshold {
            ReliefState::Relieving
        } else {
            ReliefState::Idle
        }
    }

    /// When the phase that one tick leads to ends.
    pub open spec fn ends_after(self, cfg: ReliefConfig, reading: i16, now: Instant) -> int {
        let next = self.phase_after(cfg, reading, now);
        if next == ReliefState::Relieving && !self.pulsing(now) {
            now.ticks + cfg.pulse_ms * 1000
        } else if next == ReliefState::Cooldown && self.phase() == ReliefState::Relieving {
            now.ticks + cfg.cooldown_ms * 1000
        } else {
            self.ends()
        }
    }

    pub fn new() -> (r: Self)
        ensures
            r.phase() == ReliefState::Disabled,
            r.ends() == 0,
    {
        Self { state: ReliefState::Disabled, until: Instant::from_ticks(0) }
    }

    pub fn state(&self) -> (r: ReliefState)
        ensures
            r == self.phase(),
    {
        self.state
    }

    /// True while relief is overriding normal control.
    pub fn is_active(&self) -> (r: bool)
        ensures
            r == (self.phase() == ReliefState::Relieving),
    {
        self.state == ReliefState::Relieving
    }

    /// Advances one tick and reports the position to force, if any.
    ///
    /// `reading` is the current value of the watched sensor slot, in that slot's own unit. A slot
    /// with no valid reading inhibits relief rather than triggering it; a pulse in flight is
    /// finished first.
    pub fn update(&mut self, cfg: &ReliefConfig, reading: i16, now: Instant) -> (r: Option<u16>)
        requires
            old(self).ends_after(*cfg, reading, now) <= u64::MAX,
        ensures
            final(self).phase() == old(self).phase_after(*cfg, reading, now),
            final(self).ends() == old(self).ends_after(*cfg, reading, now),
            r == if final(self).phase() == ReliefState::Relieving {
                Some(cfg.position)
            } else {
                None
            },
    {
        if !cfg.is_armed() {
            self.state = ReliefState::Disabled;
            return None;
        }
        if reading == SENSOR_INVALID {
            if self.state == ReliefState::Relieving && now.ticks < self.until.ticks {
                return Some(cfg.position);
            }
            self.state = ReliefState::Inhibited;
            return None;
        }
        match self.state {
            ReliefState::Relieving => {
                if now.ticks < self.until.ticks {
                    return Some(cfg.position);
                }
                self.state = ReliefState::Cooldown;
                self.until = now.plus(Duration::from_millis(cfg.cooldown_ms as u64));
                return None;
            },
            ReliefState::Cooldown => {
                if now.ticks < self.until.ticks {
                    return None;
                }
            },
            _ => {},
        }
        if reading > cfg.threshold {
            self.state = ReliefState::Relieving;
            self.until = now.plus(Duration::from_millis(cfg.pulse_ms as u64));
            Some(cfg.position)
        } else {
            self.state = ReliefState::Idle;
            None
        }
    }
}

impl Default for Relief {
    fn default() -> (r: Self)
        ensures
            r.phase() == ReliefState::Disabled,
            r.ends() == 0,
    {
        Self::new()
    }
}

/// Far enough from the end of the clock, whatever a tick begins ends on it.
pub proof fn a_phase_ends_on_the_clock(relief: Relief, cfg: ReliefConfig, reading: i16, now: Instant)
    requires
        now.ticks + 65_535_000 <= u64::MAX,
    ensures
        relief.ends_after(cfg, reading, now) <= u64::MAX,
{
}

/// A slot without a valid reading never begins a pulse.
pub proof fn no_reading_never_vents(relief: Relief, cfg: ReliefConfig, now: Instant)
    requires
        relief.phase_after(cfg, SENSOR_INVALID, now) == ReliefState::Relieving,
    ensures
        relief.pulsing(now),
{
}

/// A loop that is switched off, or has no valve, never vents, whatever it was doing.
pub proof fn a_disabled_loop_never_vents(relief: Relief, cfg: ReliefConfig, reading: i16, now: Instant)
    requires
        !cfg.armed(),
    ensures
        relief.phase_after(cfg, reading, now) == ReliefState::Disabled,
{
}

/// A pulse that has begun is held for exactly its configured time: whatever is read meanwhile, the
/// loop stays open before the end and is not open at the first tick after it.
pub proof fn a_pulse_lasts_its_time(
    relief: Relief,
    after: Relief,
    cfg: ReliefConfig,
    reading: i16,
    later: i16,
    start: Instant,
    now: Instant,
)
    requires
        cfg.armed(),
        !relief.pulsing(start),
        relief.phase_after(cfg, reading, start) == ReliefState::Relieving,
        after.phase() == ReliefState::Relieving,
        after.ends() == relief.ends_after(cfg, reading, start),
    ensures
        (after.phase_after(cfg, later, now) == ReliefState::Relieving) == (now.ticks < start.ticks
            + cfg.pulse_ms * 1000),
        now.ticks < start.ticks + cfg.pulse_ms * 1000 ==> after.ends_after(cfg, later, now)
            == after.ends(),
{
}

/// However often the loop is ticked during a pulse, and whatever is read, the valve stays open until
/// the pulse's time is up; the first tick after that closes it, into a cooldown, or inhibited if
/// there is no reading.
pub proof fn a_pulse_outlasts_every_reading(
    states: Seq<Relief>,
    cfg: ReliefConfig,
    readings: Seq<i16>,
    times: Seq<Instant>,
)
    requires
        cfg.armed(),
        readings.len() == times.len(),
        states.len() == times.len() + 1,
        times.len() >= 1,
        forall|i: int|
            0 <= i < times.len() ==> (#[trigger] states[i + 1]).phase() == states[i].phase_after(
                cfg,
                readings[i],
                times[i],
            ) && states[i + 1].ends() == states[i].ends_after(cfg, readings[i], times[i]),
        !states[0].pulsing(times[0]),
        states[1].phase() == ReliefState::Relieving,
        forall|i: int|
            1 <= i < times.len() ==> (#[trigger] times[i]).ticks < times[0].ticks + cfg.pulse_ms
                * 1000,
    ensures
        forall|i: int|
            1 <= i < states.len() ==> (#[trigger] states[i]).phase() == ReliefState::Relieving
                && states[i].ends() == times[0].ticks + cfg.pulse_ms * 1000,
        forall|reading: i16, now: Instant|
            now.ticks >= times[0].ticks + cfg.pulse_ms * 1000 ==> #[trigger] states.last().phase_after(
                cfg,
                reading,
                now,
            ) == if reading == SENSOR_INVALID {
                ReliefState::Inhibited
            } else {
                ReliefState::Cooldown
            },
    decreases times.len(),
{
    let n = times.len();
    assert(states[0int + 1].ends() == states[0].ends_after(cfg, readings[0], times[0]));
    if n > 1 {
        let earlier = states.drop_last();
        let (r, t) = (readings.drop_last(), times.drop_last());
        assert forall|i: int| 0 <= i < t.len() implies (#[trigger] earlier[i + 1]).phase()
            == earlier[i].phase_after(cfg, r[i], t[i]) && earlier[i + 1].ends()
            == earlier[i].ends_after(cfg, r[i], t[i]) by {
            assert(states[i + 1].ends() == states[i].ends_after(cfg, readings[i], times[i]));
        }
        assert forall|i: int| 1 <= i < t.len() implies (#[trigger] t[i]).ticks < t[0].ticks
            + cfg.pulse_ms * 1000 by {
            assert(times[i].ticks < times[0].ticks + cfg.pulse_ms * 1000);
        }
        a_pulse_outlasts_every_reading(earlier, cfg, r, t);
        assert(earlier[n - 1].phase() == ReliefState::Relieving);
        assert(states[(n - 1) + 1].ends() == states[n - 1].ends_after(
            cfg,
            readings[n - 1],
            times[n - 1],
        ));
        assert(times[n - 1].ticks < times[0].ticks + cfg.pulse_ms * 1000);
        assert forall|i: int| 1 <= i < states.len() implies (#[trigger] states[i]).phase()
            == ReliefState::Relieving && states[i].ends() == times[0].ticks + cfg.pulse_ms * 1000 by {
            if i < n {
                assert(earlier[i].phase() == ReliefState::Relieving);
            }
        }
    }
}

/// Between two pulses lies a cooldown: after a pulse has ended on a valid reading, no valid reading
/// begins another one before the cooldown is over.
pub proof fn pulses_are_kept_apart(
    relief: Relief,
    after: Relief,
    cfg: ReliefConfig,
    reading: i16,
    later: i16,
    end: Instant,
    now: Instant,
)
    requires
        cfg.armed(),
        relief.phase() == ReliefState::Relieving,
        relief.phase_after(cfg, reading, end) == ReliefState::Cooldown,
        after.phase() == ReliefState::Cooldown,
        after.ends() == relief.ends_after(cfg, reading, end),
        later != SENSOR_INVALID,
        now.ticks < end.ticks + cfg.cooldown_ms * 1000,
    ensures
        after.phase_after(cfg, later, now) == ReliefState::Cooldown,
        after.ends_after(cfg, later, now) == after.ends(),
{
}

/// A pulse begins only above the threshold, and an unreachable threshold is never exceeded.
pub proof fn a_pulse_needs_a_reading_above_the_threshold(
    relief: Relief,
    cfg: ReliefConfig,
    reading: i16,
    now: Instant,
)
    requires
        !relief.pulsing(now),
        relief.phase_after(cfg, reading, now) == ReliefState::Relieving,
    ensures
        reading > cfg.threshold,
        reading != SENSOR_INVALID,
        cfg.threshold < i16::MAX,
{
}

/// Every valid reading above the threshold opens the valve of a loop that is enabled and has one,
/// unless a pulse has not been answered by its cooldown yet or the cooldown is not over. It makes no
/// difference whether the loop was idle, without a reading, switched off or past a cooldown, and the
/// pulse ends its configured time later.
pub proof fn a_reading_above_the_threshold_vents(
    relief: Relief,
    cfg: ReliefConfig,
    reading: i16,
    now: Instant,
)
    requires
        cfg.enabled,
        cfg.valve is Some,
        reading != SENSOR_INVALID,
        reading > cfg.threshold,
        relief.phase() != ReliefState::Relieving,
        relief.phase() == ReliefState::Cooldown ==> now.ticks >= relief.ends(),
    ensures
        relief.phase_after(cfg, reading, now) == ReliefState::Relieving,
        relief.ends_after(cfg, reading, now) == now.ticks + 1000 * cfg.pulse_ms,
{
}

/// Every valid reading at or below the threshold leaves such a loop idle.
pub proof fn a_reading_within_the_threshold_does_not_vent(
    relief: Relief,
    cfg: ReliefConfig,
    reading: i16,
    now: Instant,
)
    requires
        cfg.enabled,
        cfg.valve is Some,
        reading != SENSOR_INVALID,
        reading <= cfg.threshold,
        relief.phase() != ReliefState::Relieving,
        relief.phase() == ReliefState::Cooldown ==> now.ticks >= relief.ends(),
    ensures
        relief.phase_after(cfg, reading, now) == ReliefState::Idle,
{
}

/// Whether a pulse begins is decided by the reading and the threshold alone: two loops that are
/// both free to open do the same.
pub proof fn free_loops_agree(
    a: Relief,
    b: Relief,
    cfg: ReliefConfig,
    reading: i16,
    now: Instant,
)
    requires
        a.phase() != ReliefState::Relieving && a.phase() != ReliefState::Cooldown,
        b.phase() != ReliefState::Relieving && b.phase() != ReliefState::Cooldown,
    ensures
        a.phase_after(cfg, reading, now) == b.phase_after(cfg, reading, now),
{
}

/// A pulse whose time is up ends in a cooldown of the configured length, whatever valid value is
/// read, even one still above the threshold.
pub proof fn a_pulse_ends_in_a_cooldown(
    relief: Relief,
    cfg: ReliefConfig,
    reading: i16,
    now: Instant,
)
    requires
        cfg.enabled,
        cfg.valve is Some,
        reading != SENSOR_INVALID,
        relief.phase() == ReliefState::Relieving,
        now.ticks >= relief.ends(),
    ensures
        relief.phase_after(cfg, reading, now) == ReliefState::Cooldown,
        relief.ends_after(cfg, reading, now) == now.ticks + 1000 * cfg.cooldown_ms,
{
}

/// A phase under way keeps its end: a pulse for every reading, a cooldown for every valid one.
pub proof fn a_phase_under_way_runs_on(
    relief: Relief,
    cfg: ReliefConfig,
    reading: i16,
    now: Instant,
)
    requires
        cfg.enabled,
        cfg.valve is Some,
        now.ticks < relief.ends(),
        relief.phase() == ReliefState::Relieving || (relief.phase() == ReliefState::Cooldown
            && reading != SENSOR_INVALID),
    ensures
        relief.phase_after(cfg, reading, now) == relief.phase(),
        relief.ends_after(cfg, reading, now) == relief.ends(),
{
}

/// Without a reading the loop is inhibited, in whatever phase it is, unless a pulse is under way.
pub proof fn without_a_reading_the_loop_is_inhibited(relief: Relief, cfg: ReliefConfig, now: Instant)
    requires
        cfg.enabled,
        cfg.valve is Some,
        relief.phase() == ReliefState::Relieving ==> now.ticks >= relief.ends(),
    ensures
        relief.phase_after(cfg, SENSOR_INVALID, now) == ReliefState::Inhibited,
{
}

/// The loop is switched off exactly by the configuration: when it is not enabled or has no valve to
/// open.
pub proof fn only_the_configuration_switches_the_loop_off(
    relief: Relief,
    cfg: ReliefConfig,
    reading: i16,
    now: Instant,
)
    ensures
        relief.phase_after(cfg, reading, now) == ReliefState::Disabled <==> !(cfg.enabled
            && cfg.valve is Some),
{
}

} // verus!
