//! Processor utilization, measured by accounting for idle time rather than for work.
//!
//! All the slack in the system ends up in the idle loop's sleep, so timing that sleep and
//! subtracting it from wall-clock time gives whole-system utilization. The worst of a few windows
//! is published, because a board that is saturated for a tenth of a second at a time has a problem
//! that an average would hide.
use crate::errors::{bump, Counters, ErrorCounter};
use crate::time::{Duration, Instant};
use vstd::prelude::*;

pub use crate::proto::od::CPU_LOAD_UNKNOWN;

verus! {

/// One measurement window, in milliseconds.
pub const WINDOW_MS: u64 = 100;

/// Windows per published value.
pub const WINDOWS_PER_REPORT: u32 = 5;

/// Highest utilization that can be reported.
pub const PERMILLE_FULL: u64 = 1000;

/// The idle account, and the last published values.
pub struct CpuLoad {
    /// Time asleep since the last window rollover, in ticks.
    idle_ticks: u32,
    /// Last published utilization, permille, or [`CPU_LOAD_UNKNOWN`] before the first report.
    load_permille: u16,
    /// Last published worst loop iteration, microseconds.
    peak_tick_us: u16,
}

impl CpuLoad {
    pub closed spec fn idle(self) -> u32 {
        self.idle_ticks
    }

    pub closed spec fn load(self) -> u16 {
        self.load_permille
    }

    pub closed spec fn peak(self) -> u16 {
        self.peak_tick_us
    }

    pub fn new() -> (r: Self)
        ensures
            r.idle() == 0,
            r.load() == CPU_LOAD_UNKNOWN,
            r.peak() == 0,
    {
        Self { idle_ticks: 0, load_permille: CPU_LOAD_UNKNOWN, peak_tick_us: 0 }
    }
}

impl Default for CpuLoad {
    fn default() -> (r: Self)
        ensures
            r.idle() == 0,
            r.load() == CPU_LOAD_UNKNOWN,
            r.peak() == 0,
    {
        Self::new()
    }
}

/// The most recent utilization estimate, permille, or `None` before the first report completes.
pub fn load_permille(load: &CpuLoad) -> (r: Option<u16>)
    ensures
        r == if load.load() == CPU_LOAD_UNKNOWN {
            None
        } else {
            Some(load.load())
        },
{
    if load.load_permille == CPU_LOAD_UNKNOWN {
        None
    } else {
        Some(load.load_permille)
    }
}

/// The same value in its wire form, sentinel included.
pub fn load_word(load: &CpuLoad) -> (r: u16)
    ensures
        r == load.load(),
{
    load.load_permille
}

/// Worst loop iteration of the last reporting period, microseconds.
pub fn peak_tick_us(load: &CpuLoad) -> (r: u16)
    ensures
        r == load.peak(),
{
    load.peak_tick_us
}

/// The idle account after a span of sleep: as much of it as the account can hold at once, and the
/// account wraps.
pub open spec fn idle_with(idle: u32, span: Duration) -> int {
    (idle + (if span.ticks > u32::MAX {
        u32::MAX as int
    } else {
        span.ticks as int
    })) % 0x1_0000_0000
}

/// Charges a span of sleep to the idle account.
pub fn record_idle(load: &mut CpuLoad, idle: Duration)
    ensures
        final(load).idle() == (old(load).idle() + (if idle.ticks > u32::MAX {
            u32::MAX as int
        } else {
            idle.ticks as int
        })) % 0x1_0000_0000,
        final(load).idle() == idle_with(old(load).idle(), idle),
        final(load).load() == old(load).load(),
        final(load).peak() == old(load).peak(),
{
    let ticks: u32 = if idle.as_ticks() > u32::MAX as u64 {
        u32::MAX
    } else {
        idle.as_ticks() as u32
    };
    load.idle_ticks = load.idle_ticks.wrapping_add(ticks);
}

/// The larger of two words.
pub open spec fn larger(a: u16, b: int) -> u16 {
    if b > a {
        b as u16
    } else {
        a
    }
}

/// A span in microseconds, as large as a word can say.
pub open spec fn micros_word(span: Duration) -> int {
    if span.ticks > u16::MAX {
        u16::MAX as int
    } else {
        span.ticks as int
    }
}

/// How much of a window was spent awake, in permille, rounded down. More sleep than time counts as
/// all of it.
pub open spec fn busy_permille(total: int, idle: int) -> int {
    if idle >= total {
        0
    } else {
        (total - idle) * 1000 / total
    }
}

/// Rolls the measurement windows up and publishes the result. Owned by the control loop.
pub struct CpuMonitor {
    /// The deadline one iteration of the owning loop is expected to meet.
    deadline: Duration,
    window_start: Instant,
    /// Completed windows since the last report.
    windows: u32,
    peak_permille: u16,
    peak_tick_us: u16,
}

impl CpuMonitor {
    pub closed spec fn limit(self) -> Duration {
        self.deadline
    }

    pub closed spec fn opened(self) -> Instant {
        self.window_start
    }

    pub closed spec fn completed(self) -> u32 {
        self.windows
    }

    /// The worst utilization of the windows completed since the last report.
    pub closed spec fn worst_permille(self) -> u16 {
        self.peak_permille
    }

    /// The worst iteration since the last report, in microseconds.
    pub closed spec fn worst_us(self) -> u16 {
        self.peak_tick_us
    }

    /// A report is due before the window count reaches the reporting period.
    pub open spec fn wf(self) -> bool {
        self.completed() < WINDOWS_PER_REPORT
    }

    /// How long the current window has lasted, in ticks.
    pub open spec fn elapsed(self, now: Instant) -> int {
        if now.ticks >= self.opened().ticks {
            now.ticks - self.opened().ticks
        } else {
            0
        }
    }

    /// `deadline` is the owning loop's tick period.
    pub fn new(now: Instant, deadline: Duration) -> (r: Self)
        ensures
            r.wf(),
            r.limit() == deadline,
            r.opened() == now,
            r.completed() == 0,
            r.worst_permille() == 0,
            r.worst_us() == 0,
    {
        Self { deadline, window_start: now, windows: 0, peak_permille: 0, peak_tick_us: 0 }
    }

    /// Call once per iteration of the owning loop, with how long that iteration's work took.
    ///
    /// An iteration past the deadline is counted. Once a window has run its time it is closed: its
    /// utilization is measured against the time it really took, the idle account is emptied, and
    /// the next window starts where this one ended. The last window of a reporting period
    /// publishes the worst values of the period and starts over.
    pub fn update(
        &mut self,
        load: &mut CpuLoad,
        counters: &mut Counters,
        work: Duration,
        now: Instant,
    )
        requires
            old(self).wf(),
            old(self).elapsed(now) * 1000 <= u64::MAX,
        ensures
            final(self).wf(),
            final(self).limit() == old(self).limit(),
            final(counters).moved() == (old(counters).moved() || work.ticks > old(self).limit().ticks),
            forall|which: ErrorCounter| #[trigger]
                final(counters).reading(which) == if which == ErrorCounter::ControlTickOverrun
                    && work.ticks > old(self).limit().ticks {
                    crate::errors::wrapped_sum(old(counters).reading(which), 1)
                } else {
                    old(counters).reading(which)
                },
            ({
                let elapsed = old(self).elapsed(now);
                let worst_us = larger(old(self).worst_us(), micros_word(work));
                let worst = larger(
                    old(self).worst_permille(),
                    busy_permille(elapsed, old(load).idle() as int),
                );
                if elapsed < 100_000 {
                    &&& final(self).opened() == old(self).opened()
                    &&& final(self).completed() == old(self).completed()
                    &&& final(self).worst_permille() == old(self).worst_permille()
                    &&& final(self).worst_us() == worst_us
                    &&& *final(load) == *old(load)
                } else if old(self).completed() + 1 < WINDOWS_PER_REPORT {
                    &&& final(self).opened() == now
                    &&& final(self).completed() == old(self).completed() + 1
                    &&& final(self).worst_permille() == worst
                    &&& final(self).worst_us() == worst_us
                    &&& final(load).idle() == 0
                    &&& final(load).load() == old(load).load()
                    &&& final(load).peak() == old(load).peak()
                } else {
                    &&& final(self).opened() == now
                    &&& final(self).completed() == 0
                    &&& final(self).worst_permille() == 0
                    &&& final(self).worst_us() == 0
                    &&& final(load).idle() == 0
                    &&& final(load).load() == worst
                    &&& final(load).peak() == worst_us
                }
            }),
            rolled(*old(self), *old(load), work, now, *final(self), *final(load)),
    {
        if work.as_ticks() > self.deadline.as_ticks() {
            bump(counters, ErrorCounter::ControlTickOverrun);
        }
        let micros: u64 = work.as_micros();
        let micros: u16 = if micros > u16::MAX as u64 {
            u16::MAX
        } else {
            micros as u16
        };
        if micros > self.peak_tick_us {
            self.peak_tick_us = micros;
        }
        let elapsed = now.saturating_duration_since(self.window_start);
        if elapsed.as_ticks() < Duration::from_millis(WINDOW_MS).as_ticks() {
            return ;
        }
        self.window_start = self.window_start.plus(elapsed);
        let total: u64 = elapsed.as_ticks();
        let idle: u64 = load.idle_ticks as u64;
        load.idle_ticks = 0;
        let busy: u64 = if idle >= total {
            0
        } else {
            total - idle
        };
        assert(0 <= busy * 1000 / total as int <= 1000) by (nonlinear_arith)
            requires
                0 <= busy <= total,
                total > 0,
        ;
        let permille: u16 = (busy * PERMILLE_FULL / total) as u16;
        proof {
            assert(0int * 1000 / total as int == 0) by (nonlinear_arith)
                requires
                    total > 0,
            ;
        }
        if permille > self.peak_permille {
            self.peak_permille = permille;
        }
        self.windows = self.windows + 1;
        if self.windows >= WINDOWS_PER_REPORT {
            load.load_permille = self.peak_permille;
            load.peak_tick_us = self.peak_tick_us;
            self.peak_permille = 0;
            self.peak_tick_us = 0;
            self.windows = 0;
        }
    }
}

/// What one iteration of the owning loop does to the windows and to what is published.
pub open spec fn rolled(
    before: CpuMonitor,
    idle_before: CpuLoad,
    work: Duration,
    now: Instant,
    after: CpuMonitor,
    idle_after: CpuLoad,
) -> bool {
    let elapsed = before.elapsed(now);
    let worst_us = larger(before.worst_us(), micros_word(work));
    let worst = larger(before.worst_permille(), busy_permille(elapsed, idle_before.idle() as int));
    &&& after.limit() == before.limit()
    &&& if elapsed < 100_000 {
        &&& after.opened() == before.opened()
        &&& after.completed() == before.completed()
        &&& after.worst_permille() == before.worst_permille()
        &&& after.worst_us() == worst_us
        &&& idle_after == idle_before
    } else if before.completed() + 1 < WINDOWS_PER_REPORT {
        &&& after.opened() == now
        &&& after.completed() == before.completed() + 1
        &&& after.worst_permille() == worst
        &&& after.worst_us() == worst_us
        &&& idle_after.idle() == 0
        &&& idle_after.load() == idle_before.load()
        &&& idle_after.peak() == idle_before.peak()
    } else {
        &&& after.opened() == now
        &&& after.completed() == 0
        &&& after.worst_permille() == 0
        &&& after.worst_us() == 0
        &&& idle_after.idle() == 0
        &&& idle_after.load() == worst
        &&& idle_after.peak() == worst_us
    }
}

/// Utilization is a promille: a board that never sleeps reads full, one that sleeps throughout
/// reads idle, and so does one that claims to have slept for longer than the window lasted.
pub proof fn utilization_is_a_promille(total: int, idle: int)
    requires
        total > 0,
        idle >= 0,
    ensures
        0 <= busy_permille(total, idle) <= 1000,
        idle == 0 ==> busy_permille(total, idle) == 1000,
        idle >= total ==> busy_permille(total, idle) == 0,
{
    if idle < total {
        assert(0 <= (total - idle) * 1000 / total <= 1000) by (nonlinear_arith)
            requires
                0 <= idle < total,
        ;
    }
    assert(total * 1000 / total == 1000) by (nonlinear_arith)
        requires
            total > 0,
    ;
}

/// More sleep is never more load.
pub proof fn more_sleep_is_no_more_load(total: int, a: int, b: int)
    requires
        total > 0,
        0 <= a <= b,
    ensures
        busy_permille(total, b) <= busy_permille(total, a),
{
    if b < total {
        assert((total - b) * 1000 / total <= (total - a) * 1000 / total) by (nonlinear_arith)
            requires
                total > 0,
                a <= b,
        ;
    } else if a < total {
        assert(0 <= (total - a) * 1000 / total) by (nonlinear_arith)
            requires
                a < total,
                0 <= a,
        ;
    }
}

/// Utilization is the share of the window spent awake, in thousandths rounded down: the permille
/// reported fit into the waking time, and one more would not.
pub proof fn utilization_is_the_share_awake(total: int, idle: int)
    requires
        0 <= idle < total,
    ensures
        busy_permille(total, idle) * total <= 1000 * (total - idle) < (busy_permille(total, idle)
            + 1) * total,
{
    let n = (total - idle) * 1000;
    let q = n / total;
    vstd::arithmetic::div_mod::lemma_fundamental_div_mod(n, total);
    assert(q * total <= n < (q + 1) * total) by (nonlinear_arith)
        requires
            n == total * q + n % total,
            0 <= n % total < total,
    ;
}

/// The worst of two values is one of them and no less than either, and a span that a word cannot say
/// is given as the longest that it can.
pub proof fn the_worst_is_kept(a: u16, b: u16, span: Duration)
    ensures
        larger(a, b as int) >= a,
        larger(a, b as int) >= b,
        larger(a, b as int) == a || larger(a, b as int) == b,
        span.ticks <= 65535 ==> micros_word(span) == span.ticks,
        span.ticks >= 65535 ==> micros_word(span) == 65535,
{
}

/// A window lasts as long as the clock has moved on since it opened, and not at all if it has not.
pub proof fn a_window_lasts_since_it_opened(monitor: CpuMonitor, now: Instant)
    ensures
        now.ticks >= monitor.opened().ticks ==> monitor.elapsed(now) == now.ticks
            - monitor.opened().ticks,
        now.ticks <= monitor.opened().ticks ==> monitor.elapsed(now) == 0,
{
}

/// A window is closed by the first iteration a tenth of a second or more after it opened, and the next
/// one opens then with an empty idle account; before that nothing is measured and nothing published.
pub proof fn a_window_lasts_a_tenth_of_a_second(
    before: CpuMonitor,
    idle_before: CpuLoad,
    work: Duration,
    now: Instant,
    after: CpuMonitor,
    idle_after: CpuLoad,
)
    requires
        before.wf(),
        before.opened().ticks <= now.ticks,
        rolled(before, idle_before, work, now, after, idle_after),
    ensures
        now.ticks < before.opened().ticks + 100_000 ==> after.opened() == before.opened()
            && after.completed() == before.completed() && idle_after == idle_before
            && after.worst_permille() == before.worst_permille(),
        now.ticks >= before.opened().ticks + 100_000 ==> after.opened() == now && idle_after.idle()
            == 0,
{
}

/// Every fifth window publishes the worst of its period and starts over: a load no lower than that of
/// the window just closed nor than the worst before, and one of the two, and the longest iteration
/// likewise. The other four publish nothing and keep the worst.
pub proof fn the_fifth_window_publishes_the_worst(
    before: CpuMonitor,
    idle_before: CpuLoad,
    work: Duration,
    now: Instant,
    after: CpuMonitor,
    idle_after: CpuLoad,
)
    requires
        before.wf(),
        now.ticks >= before.opened().ticks + 100_000,
        rolled(before, idle_before, work, now, after, idle_after),
    ensures
        ({
            let busy = busy_permille(
                now.ticks - before.opened().ticks,
                idle_before.idle() as int,
            );
            if before.completed() == 4 {
                &&& after.completed() == 0 && after.worst_permille() == 0 && after.worst_us() == 0
                &&& idle_after.load() >= busy && idle_after.load() >= before.worst_permille()
                &&& idle_after.load() == busy || idle_after.load() == before.worst_permille()
                &&& idle_after.peak() >= before.worst_us()
                &&& work.ticks <= 65535 ==> idle_after.peak() >= work.ticks
                &&& work.ticks <= 65535 ==> idle_after.peak() == work.ticks || idle_after.peak()
                    == before.worst_us()
            } else {
                &&& after.completed() == before.completed() + 1
                &&& idle_after.load() == idle_before.load() && idle_after.peak()
                    == idle_before.peak()
                &&& after.worst_permille() >= busy && after.worst_permille()
                    >= before.worst_permille()
                &&& after.worst_permille() == busy || after.worst_permille()
                    == before.worst_permille()
            }
        }),
{
    utilization_is_a_promille(now.ticks - before.opened().ticks, idle_before.idle() as int);
}

/// The longest iteration of a period is kept from one iteration to the next until it is published.
pub proof fn the_longest_iteration_is_kept(
    before: CpuMonitor,
    idle_before: CpuLoad,
    work: Duration,
    now: Instant,
    after: CpuMonitor,
    idle_after: CpuLoad,
)
    requires
        before.wf(),
        rolled(before, idle_before, work, now, after, idle_after),
        before.elapsed(now) < 100_000 || before.completed() < 4,
        work.ticks <= 65535,
    ensures
        after.worst_us() >= before.worst_us(),
        after.worst_us() >= work.ticks,
        after.worst_us() == before.worst_us() || after.worst_us() == work.ticks,
{
}

/// Sleep adds up: the account grows by every span, as long as it can hold the sum.
pub proof fn sleep_adds_up(idle: u32, a: Duration, b: Duration)
    requires
        idle + a.ticks + b.ticks <= u32::MAX,
    ensures
        idle_with(idle, a) == idle + a.ticks,
        idle_with(idle_with(idle, a) as u32, b) == idle + a.ticks + b.ticks,
{
}

} // verus!
