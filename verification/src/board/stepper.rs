//! The clock/direction pulse train: one or two actuators on one timer.
//!
//! One timer period is one step, and the update event at the end of each period is what counts it.
//! The actuators share the period, so while both move they move at the slower of their two rates;
//! everything else about them is independent.
use crate::index::{Id, Per, PerStepper, StepperId};
use core::ops::IndexMut;
use vstd::prelude::*;

verus! {

/// Timer tick rate, so a period is a number of microseconds.
pub const TICK_HZ: u32 = 1_000_000;

/// Clock pulse width, in microseconds.
pub const PULSE_US: u16 = 5;

/// Slowest pulse rate the hardware can express; slower requests are brought up to it.
pub const MIN_STEP_HZ: u32 = 20;

/// Fastest pulse rate that is emitted.
pub const MAX_STEP_HZ: u32 = 20_000;

/// Where an actuator should go, and how fast.
#[derive(Clone, Copy, PartialEq, Eq, Debug, Structural)]
pub struct StepCommand {
    pub target_steps: i32,
    pub step_hz: u32,
}

impl StepCommand {
    /// Stay put.
    pub fn hold() -> (r: Self)
        ensures
            r == (StepCommand { target_steps: 0, step_hz: 0 }),
    {
        Self { target_steps: 0, step_hz: 0 }
    }
}

/// Where the shafts are, and what they still owe.
#[derive(Clone, Copy)]
pub struct StepCounters {
    /// Pulses emitted since boot, direction-signed.
    position: PerStepper<i32>,
    /// Pulses still owed on the current move. Nonzero means that the channel is pulsing.
    remaining: PerStepper<u32>,
    /// Whether a pulse counts up, matching the level on the actuator's direction pin.
    forward: PerStepper<bool>,
}

/// A step counter, one pulse further; it wraps at the ends of its range.
pub open spec fn stepped(position: i32, forward: bool) -> i32 {
    if forward {
        if position == i32::MAX {
            i32::MIN
        } else {
            (position + 1) as i32
        }
    } else {
        if position == i32::MIN {
            i32::MAX
        } else {
            (position - 1) as i32
        }
    }
}

fn step_on(position: i32, forward: bool) -> (r: i32)
    ensures
        r == stepped(position, forward),
{
    if forward {
        if position == i32::MAX {
            i32::MIN
        } else {
            position + 1
        }
    } else {
        if position == i32::MIN {
            i32::MAX
        } else {
            position - 1
        }
    }
}

impl StepCounters {
    pub closed spec fn at(self, id: StepperId) -> i32 {
        self.position.at(id)
    }

    pub closed spec fn owed(self, id: StepperId) -> u32 {
        self.remaining.at(id)
    }

    pub closed spec fn heads_up(self, id: StepperId) -> bool {
        self.forward.at(id)
    }

    /// Where the current move of an actuator ends.
    pub open spec fn bound_for(self, id: StepperId) -> int {
        if self.heads_up(id) {
            self.at(id) + self.owed(id)
        } else {
            self.at(id) - self.owed(id)
        }
    }

    pub fn new() -> (r: Self)
        ensures
            forall|id: StepperId| #[trigger] r.at(id) == 0,
            forall|id: StepperId| #[trigger] r.owed(id) == 0,
            forall|id: StepperId| #[trigger] r.heads_up(id),
    {
        Self { position: Per::splat(0), remaining: Per::splat(0), forward: Per::splat(true) }
    }

    pub fn position_steps(&self, id: StepperId) -> (r: i32)
        ensures
            r == self.at(id),
    {
        self.position[id]
    }

    fn set_position(&mut self, id: StepperId, steps: i32)
        ensures
            forall|other: StepperId| #[trigger]
                final(self).at(other) == if other == id {
                    steps
                } else {
                    old(self).at(other)
                },
            forall|other: StepperId| #[trigger] final(self).owed(other) == old(self).owed(other),
            forall|other: StepperId| #[trigger]
                final(self).heads_up(other) == old(self).heads_up(other),
    {
        broadcast use crate::index::per_len;

        let ghost before = self.position;
        *self.position.index_mut(id) = steps;
        proof {
            assert forall|other: StepperId| #[trigger]
                self.at(other) == if other == id {
                    steps
                } else {
                    before.at(other)
                } by {
                crate::index::writing_one_entry_keeps_the_others(
                    before,
                    self.position,
                    id,
                    steps,
                    other,
                );
            }
        }
    }

    fn set_owed(&mut self, id: StepperId, pulses: u32)
        ensures
            forall|other: StepperId| #[trigger]
                final(self).owed(other) == if other == id {
                    pulses
                } else {
                    old(self).owed(other)
                },
            forall|other: StepperId| #[trigger] final(self).at(other) == old(self).at(other),
            forall|other: StepperId| #[trigger]
                final(self).heads_up(other) == old(self).heads_up(other),
    {
        broadcast use crate::index::per_len;

        let ghost before = self.remaining;
        *self.remaining.index_mut(id) = pulses;
        proof {
            assert forall|other: StepperId| #[trigger]
                self.owed(other) == if other == id {
                    pulses
                } else {
                    before.at(other)
                } by {
                crate::index::writing_one_entry_keeps_the_others(
                    before,
                    self.remaining,
                    id,
                    pulses,
                    other,
                );
            }
        }
    }

    fn set_forward(&mut self, id: StepperId, forward: bool)
        ensures
            forall|other: StepperId| #[trigger]
                final(self).heads_up(other) == if other == id {
                    forward
                } else {
                    old(self).heads_up(other)
                },
            forall|other: StepperId| #[trigger] final(self).at(other) == old(self).at(other),
            forall|other: StepperId| #[trigger] final(self).owed(other) == old(self).owed(other),
    {
        broadcast use crate::index::per_len;

        let ghost before = self.forward;
        *self.forward.index_mut(id) = forward;
        proof {
            assert forall|other: StepperId| #[trigger]
                self.heads_up(other) == if other == id {
                    forward
                } else {
                    before.at(other)
                } by {
                crate::index::writing_one_entry_keeps_the_others(
                    before,
                    self.forward,
                    id,
                    forward,
                    other,
                );
            }
        }
    }
}

/// What a completed pulse does to an actuator: one step of what it owes, the way that it heads.
pub open spec fn pulse_counted(before: StepCounters, after: StepCounters, id: StepperId) -> bool {
    &&& after.at(id) == if before.owed(id) > 0 {
        stepped(before.at(id), before.heads_up(id))
    } else {
        before.at(id)
    }
    &&& after.owed(id) == if before.owed(id) > 0 {
        (before.owed(id) - 1) as u32
    } else {
        0
    }
    &&& after.heads_up(id) == before.heads_up(id)
}

/// What a completed pulse leaves to do.
#[derive(Clone, Copy, PartialEq, Eq, Debug, Structural)]
pub struct PulseOutcome {
    /// Whether anything is still owed; if not, the timer is stopped.
    pub still_owed: bool,
    /// Whether each channel has just finished and is parked low.
    pub park0: bool,
    pub park1: bool,
}

/// Accounts for one completed pulse on one channel, if it was still owed one. Returns whether it
/// has just finished.
fn count_pulse(counters: &mut StepCounters, id: StepperId) -> (r: bool)
    ensures
        r == (old(counters).owed(id) == 1),
        forall|other: StepperId| #[trigger]
            final(counters).at(other) == if other == id && old(counters).owed(id) > 0 {
                stepped(old(counters).at(id), old(counters).heads_up(id))
            } else {
                old(counters).at(other)
            },
        forall|other: StepperId| #[trigger]
            final(counters).owed(other) == if other == id && old(counters).owed(id) > 0 {
                (old(counters).owed(id) - 1) as u32
            } else {
                old(counters).owed(other)
            },
        forall|other: StepperId| #[trigger]
            final(counters).heads_up(other) == old(counters).heads_up(other),
{
    let remaining: u32 = counters.remaining[id];
    if remaining == 0 {
        return false;
    }
    let position: i32 = counters.position[id];
    let forward = counters.forward[id];
    counters.set_position(id, step_on(position, forward));
    counters.set_owed(id, remaining - 1);
    remaining == 1
}

/// Accounts for one completed pulse on every channel that was still owed one, and says which
/// channels have just finished and whether anything is still owed.
pub fn service_completed_pulse(counters: &mut StepCounters) -> (r: PulseOutcome)
    ensures
        forall|id: StepperId| #[trigger]
            final(counters).at(id) == if old(counters).owed(id) > 0 {
                stepped(old(counters).at(id), old(counters).heads_up(id))
            } else {
                old(counters).at(id)
            },
        forall|id: StepperId| #[trigger]
            final(counters).owed(id) == if old(counters).owed(id) > 0 {
                (old(counters).owed(id) - 1) as u32
            } else {
                0
            },
        forall|id: StepperId| #[trigger]
            final(counters).heads_up(id) == old(counters).heads_up(id),
        forall|id: StepperId| #[trigger] pulse_counted(*old(counters), *final(counters), id),
        r.park0 == (old(counters).owed(StepperId::Stepper0) == 1),
        r.park1 == (old(counters).owed(StepperId::Stepper1) == 1),
        r.still_owed == (final(counters).owed(StepperId::Stepper0) > 0 || final(counters).owed(
            StepperId::Stepper1,
        ) > 0),
{
    let park0 = count_pulse(counters, StepperId::Stepper0);
    let park1 = count_pulse(counters, StepperId::Stepper1);
    let still_owed = counters.remaining[StepperId::Stepper0] > 0
        || counters.remaining[StepperId::Stepper1] > 0;
    PulseOutcome { still_owed, park0, park1 }
}

/// What the timer is loaded with to start a move.
#[derive(Clone, Copy, PartialEq, Eq, Debug, Structural)]
pub struct StepStart {
    /// The period, less one.
    pub arr: u16,
    /// Where in the period the pulse begins.
    pub ccr: u16,
    /// Which channels pulse.
    pub armed0: bool,
    pub armed1: bool,
}

/// The rate that a requested rate is brought to.
pub open spec fn rate_in_range(step_hz: u32) -> u32 {
    if step_hz < MIN_STEP_HZ {
        MIN_STEP_HZ
    } else if step_hz > MAX_STEP_HZ {
        MAX_STEP_HZ
    } else {
        step_hz
    }
}

/// What the timer is loaded with for a rate: the period in microseconds, less one, and the pulse at its
/// tail.
pub open spec fn started_at(step_hz: u32, armed0: bool, armed1: bool) -> StepStart {
    let arr = 1_000_000int / rate_in_range(step_hz) as int - 1;
    StepStart { arr: arr as u16, ccr: (arr - 4) as u16, armed0, armed1 }
}

/// The timer values of a rate: the period in microseconds, and the pulse at its tail.
pub fn start_values(step_hz: u32, armed0: bool, armed1: bool) -> (r: StepStart)
    ensures
        r.arr == 1_000_000int / rate_in_range(step_hz) as int - 1,
        r.ccr == r.arr - 4,
        r.armed0 == armed0,
        r.armed1 == armed1,
        49 <= r.arr <= 49_999,
        r == started_at(step_hz, armed0, armed1),
{
    let hz: u32 = if step_hz < MIN_STEP_HZ {
        MIN_STEP_HZ
    } else if step_hz > MAX_STEP_HZ {
        MAX_STEP_HZ
    } else {
        step_hz
    };
    assert(50 <= 1_000_000int / hz as int <= 50_000) by (nonlinear_arith)
        requires
            20 <= hz <= 20_000,
    ;
    let period_us: u32 = TICK_HZ / hz;
    let arr: u16 = (period_us - 1) as u16;
    let ccr: u16 = arr.saturating_sub(PULSE_US - 1);
    StepStart { arr, ccr, armed0, armed1 }
}

/// One or two step clocks on one timer, apart from its registers.
pub struct StepperPort {
    counters: StepCounters,
    /// Which actuators this build has.
    fitted: PerStepper<bool>,
    running: bool,
    /// The commands currently being executed, so that an unchanged pair can be skipped.
    last: Option<(StepCommand, StepCommand)>,
}

/// What a new pair of commands asks of the timer and the direction pins.
#[derive(Clone, Copy, PartialEq, Eq, Debug, Structural)]
pub struct StepPlan {
    /// The level for each direction pin that has to change: high to count up.
    pub direction0: Option<bool>,
    pub direction1: Option<bool>,
    /// How to start the timer; `None` if nothing moves.
    pub start: Option<StepStart>,
}

/// Whether a command moves an actuator from where it is.
pub open spec fn moves(fitted: bool, cmd: StepCommand, position: i32) -> bool {
    fitted && cmd.step_hz != 0 && cmd.target_steps != position
}

/// The rate that two moves share: the slower one, or that of the only one.
pub open spec fn shared_rate(moves0: bool, hz0: u32, moves1: bool, hz1: u32) -> Option<u32> {
    if moves0 && moves1 {
        Some(
            if hz1 < hz0 {
                hz1
            } else {
                hz0
            },
        )
    } else if moves0 {
        Some(hz0)
    } else if moves1 {
        Some(hz1)
    } else {
        None
    }
}

impl StepperPort {
    pub closed spec fn steps(self) -> StepCounters {
        self.counters
    }

    /// Which actuators this build has.
    pub closed spec fn fitting(self) -> PerStepper<bool> {
        self.fitted
    }

    pub open spec fn has(self, id: StepperId) -> bool {
        self.fitting().at(id)
    }

    pub closed spec fn is_running(self) -> bool {
        self.running
    }

    pub closed spec fn executing(self) -> Option<(StepCommand, StepCommand)> {
        self.last
    }

    pub fn new(fitted: PerStepper<bool>) -> (r: Self)
        ensures
            r.fitting() == fitted,
            forall|id: StepperId| #[trigger] r.steps().at(id) == 0,
            forall|id: StepperId| #[trigger] r.steps().owed(id) == 0,
            forall|id: StepperId| #[trigger] r.steps().heads_up(id),
            !r.is_running(),
            r.executing() is None,
    {
        Self { counters: StepCounters::new(), fitted, running: false, last: None }
    }

    pub fn position_steps(&self, id: StepperId) -> (r: i32)
        ensures
            r == self.steps().at(id),
    {
        self.counters.position_steps(id)
    }

    /// A completed pulse, from the update interrupt.
    pub fn pulse(&mut self) -> (r: PulseOutcome)
        ensures
            forall|id: StepperId| #[trigger]
                final(self).steps().at(id) == if old(self).steps().owed(id) > 0 {
                    stepped(old(self).steps().at(id), old(self).steps().heads_up(id))
                } else {
                    old(self).steps().at(id)
                },
            forall|id: StepperId| #[trigger]
                final(self).steps().owed(id) == if old(self).steps().owed(id) > 0 {
                    (old(self).steps().owed(id) - 1) as u32
                } else {
                    0
                },
            forall|id: StepperId| #[trigger]
                final(self).steps().heads_up(id) == old(self).steps().heads_up(id),
            forall|id: StepperId| #[trigger]
                pulse_counted(old(self).steps(), final(self).steps(), id),
            final(self).fitting() == old(self).fitting(),
            final(self).is_running() == old(self).is_running(),
            final(self).executing() == old(self).executing(),
            r.park0 == (old(self).steps().owed(StepperId::Stepper0) == 1),
            r.park1 == (old(self).steps().owed(StepperId::Stepper1) == 1),
            r.still_owed == (final(self).steps().owed(StepperId::Stepper0) > 0 || final(self).steps().owed(StepperId::Stepper1) > 0),
    {
        service_completed_pulse(&mut self.counters)
    }

    /// The timer has been stopped. `completed` says that a pulse finished on the way down without
    /// its interrupt: it physically happened, so it is counted. Whatever else was owed is dropped.
    pub fn stopped(&mut self, completed: bool)
        ensures
            forall|id: StepperId| #[trigger]
                final(self).steps().at(id) == if completed && old(self).steps().owed(id) > 0 {
                    stepped(old(self).steps().at(id), old(self).steps().heads_up(id))
                } else {
                    old(self).steps().at(id)
                },
            forall|id: StepperId| #[trigger] final(self).steps().owed(id) == 0,
            forall|id: StepperId| #[trigger]
                final(self).steps().heads_up(id) == old(self).steps().heads_up(id),
            final(self).fitting() == old(self).fitting(),
            !final(self).is_running(),
            final(self).executing() == old(self).executing(),
    {
        if completed {
            let _ = service_completed_pulse(&mut self.counters);
        }
        self.counters.set_owed(StepperId::Stepper0, 0);
        self.counters.set_owed(StepperId::Stepper1, 0);
        self.running = false;
        proof {
            assert forall|id: StepperId| #[trigger] self.steps().owed(id) == 0 by {
                assert(id == StepperId::Stepper0 || id == StepperId::Stepper1);
            }
        }
    }

    /// Declares where a shaft is. Whatever was under way ends here: nothing is owed any more, and the
    /// timer is to be stopped first (see [`Self::stopped`]).
    pub fn set_position_steps(&mut self, id: StepperId, steps: i32)
        ensures
            forall|other: StepperId| #[trigger]
                final(self).steps().at(other) == if other == id {
                    steps
                } else {
                    old(self).steps().at(other)
                },
            forall|other: StepperId| #[trigger] final(self).steps().owed(other) == 0,
            forall|other: StepperId| #[trigger]
                final(self).steps().heads_up(other) == old(self).steps().heads_up(other),
            final(self).fitting() == old(self).fitting(),
            !final(self).is_running(),
            final(self).executing() is None,
    {
        self.stopped(false);
        let ghost halted = *self;
        self.counters.set_position(id, steps);
        self.last = None;
        proof {
            assert forall|other: StepperId| #[trigger] self.steps().owed(other) == 0 by {
                assert(halted.steps().owed(other) == 0);
            }
            assert forall|other: StepperId| #[trigger]
                self.steps().heads_up(other) == old(self).steps().heads_up(other) by {
                assert(halted.steps().heads_up(other) == old(self).steps().heads_up(other));
            }
            assert forall|other: StepperId| #[trigger] self.steps().at(other) == if other == id {
                steps
            } else {
                old(self).steps().at(other)
            } by {
                assert(halted.steps().at(other) == old(self).steps().at(other));
            }
        }
    }

    /// Whether a pair of commands is what is already being executed, so that nothing is to be
    /// restarted.
    pub fn is_repeat(&self, cmd0: StepCommand, cmd1: StepCommand) -> (r: bool)
        ensures
            r == (self.is_running() && self.executing() == Some((cmd0, cmd1))),
    {
        match self.last {
            Some((last0, last1)) => self.running && last0 == cmd0 && last1 == cmd1,
            None => false,
        }
    }

    /// Plans a new pair of commands, with the timer stopped: each actuator that has somewhere to
    /// go is armed for its own distance and direction, and both share the slower rate.
    pub fn command(&mut self, cmd0: StepCommand, cmd1: StepCommand) -> (r: StepPlan)
        requires
            forall|id: StepperId| #[trigger] old(self).steps().owed(id) == 0,
            !old(self).is_running(),
        ensures
            final(self).executing() == Some((cmd0, cmd1)),
            final(self).fitting() == old(self).fitting(),
            forall|id: StepperId| #[trigger] final(self).steps().at(id) == old(self).steps().at(id),
            ({
                let (id0, id1) = (StepperId::Stepper0, StepperId::Stepper1);
                let moves0 = moves(old(self).has(id0), cmd0, old(self).steps().at(id0));
                let moves1 = moves(old(self).has(id1), cmd1, old(self).steps().at(id1));
                let rate = shared_rate(moves0, cmd0.step_hz, moves1, cmd1.step_hz);
                &&& moves0 ==> final(self).steps().bound_for(id0) == cmd0.target_steps
                &&& moves1 ==> final(self).steps().bound_for(id1) == cmd1.target_steps
                &&& !moves0 ==> final(self).steps().owed(id0) == 0
                &&& !moves1 ==> final(self).steps().owed(id1) == 0
                &&& final(self).steps().heads_up(id0) == heading_of(
                    old(self).steps(),
                    id0,
                    moves0,
                    cmd0,
                )
                &&& final(self).steps().heads_up(id1) == heading_of(
                    old(self).steps(),
                    id1,
                    moves1,
                    cmd1,
                )
                &&& armed_for(old(self).steps(), old(self).has(id0), cmd0, final(self).steps(), id0)
                &&& armed_for(old(self).steps(), old(self).has(id1), cmd1, final(self).steps(), id1)
                &&& r.direction0 == turn_of(old(self).steps(), id0, moves0, cmd0)
                &&& r.direction1 == turn_of(old(self).steps(), id1, moves1, cmd1)
                &&& r.start is Some <==> rate is Some
                &&& r.start matches Some(start) ==> {
                    &&& start.arr == 1_000_000int / rate_in_range(rate->0) as int - 1
                    &&& start.ccr == start.arr - 4
                    &&& start.armed0 == moves0
                    &&& start.armed1 == moves1
                    &&& start == started_at(rate->0, moves0, moves1)
                }
                &&& final(self).is_running() == (rate is Some)
            }),
    {
        self.last = Some((cmd0, cmd1));
        let (moves0, direction0) = self.arm(StepperId::Stepper0, cmd0);
        let (moves1, direction1) = self.arm(StepperId::Stepper1, cmd1);
        let rate: Option<u32> = if moves0 && moves1 {
            Some(
                if cmd1.step_hz < cmd0.step_hz {
                    cmd1.step_hz
                } else {
                    cmd0.step_hz
                },
            )
        } else if moves0 {
            Some(cmd0.step_hz)
        } else if moves1 {
            Some(cmd1.step_hz)
        } else {
            None
        };
        let start = match rate {
            Some(rate) => {
                self.running = true;
                Some(start_values(rate, moves0, moves1))
            },
            None => None,
        };
        StepPlan { direction0, direction1, start }
    }

    /// Arms one actuator for a command. Returns whether it moves, and the level for its direction
    /// pin if that changes.
    fn arm(&mut self, id: StepperId, cmd: StepCommand) -> (r: (bool, Option<bool>))
        requires
            old(self).steps().owed(id) == 0,
        ensures
            r.0 == moves(old(self).has(id), cmd, old(self).steps().at(id)),
            r.1 == turn_of(old(self).steps(), id, r.0, cmd),
            r.0 ==> final(self).steps().bound_for(id) == cmd.target_steps,
            !r.0 ==> final(self).steps().owed(id) == 0,
            final(self).steps().heads_up(id) == heading_of(old(self).steps(), id, r.0, cmd),
            forall|other: StepperId| #[trigger]
                final(self).steps().at(other) == old(self).steps().at(other),
            forall|other: StepperId| other != id ==> #[trigger] final(self).steps().owed(other)
                == old(self).steps().owed(other),
            forall|other: StepperId| other != id ==> #[trigger] final(self).steps().heads_up(other)
                == old(self).steps().heads_up(other),
            final(self).fitting() == old(self).fitting(),
            final(self).is_running() == old(self).is_running(),
            final(self).executing() == old(self).executing(),
    {
        if !self.fitted[id] {
            return (false, None);
        }
        let delta: i64 = cmd.target_steps as i64 - self.counters.position_steps(id) as i64;
        if cmd.step_hz == 0 || delta == 0 {
            return (false, None);
        }
        let forward = delta > 0;
        let distance: u32 = if forward {
            delta as u32
        } else {
            (-delta) as u32
        };
        let turned = if self.counters.forward[id] == forward {
            None
        } else {
            self.counters.set_forward(id, forward);
            Some(forward)
        };
        self.counters.set_owed(id, distance);
        (true, turned)
    }
}

/// What a new command does to an actuator: it owes the distance to its target, the way that it lies, or
/// nothing if it does not move.
pub open spec fn armed_for(
    before: StepCounters,
    fitted: bool,
    cmd: StepCommand,
    after: StepCounters,
    id: StepperId,
) -> bool {
    let moving = moves(fitted, cmd, before.at(id));
    &&& after.at(id) == before.at(id)
    &&& moving ==> after.bound_for(id) == cmd.target_steps
    &&& !moving ==> after.owed(id) == 0
    &&& after.heads_up(id) == heading_of(before, id, moving, cmd)
}

/// The level for a direction pin, if a move needs it to change.
pub open spec fn turn_of(steps: StepCounters, id: StepperId, moves: bool, cmd: StepCommand) -> Option<
    bool,
> {
    let forward = cmd.target_steps > steps.at(id);
    if moves && steps.heads_up(id) != forward {
        Some(forward)
    } else {
        None
    }
}

/// Which way an actuator counts once a command is planned: the way that it moves, and the way that it
/// counted before if it does not.
pub open spec fn heading_of(steps: StepCounters, id: StepperId, moves: bool, cmd: StepCommand) -> bool {
    if moves {
        cmd.target_steps > steps.at(id)
    } else {
        steps.heads_up(id)
    }
}

/// The direction pin shows which way an actuator counts: a pin that showed it before a command is
/// planned shows it afterwards, once it has been put to the level that the plan asks for.
pub proof fn the_pin_shows_the_heading(
    steps: StepCounters,
    id: StepperId,
    moves: bool,
    cmd: StepCommand,
    pin: bool,
)
    requires
        pin == steps.heads_up(id),
    ensures
        heading_of(steps, id, moves, cmd) == match turn_of(steps, id, moves, cmd) {
            Some(level) => level,
            None => pin,
        },
{
}

/// The counts and the shafts stay in agreement: a completed pulse brings the counter one step
/// closer to where its move ends and leaves that end where it was, and a move whose pulses are all
/// counted is at its end.
pub proof fn a_pulse_keeps_the_destination(before: StepCounters, after: StepCounters, id: StepperId)
    requires
        i32::MIN <= before.bound_for(id) <= i32::MAX,
        after.at(id) == if before.owed(id) > 0 {
            stepped(before.at(id), before.heads_up(id))
        } else {
            before.at(id)
        },
        after.owed(id) == if before.owed(id) > 0 {
            (before.owed(id) - 1) as u32
        } else {
            0
        },
        after.heads_up(id) == before.heads_up(id),
    ensures
        after.bound_for(id) == before.bound_for(id),
        after.owed(id) == 0 ==> after.at(id) == before.bound_for(id),
        before.owed(id) > 0 ==> after.owed(id) == before.owed(id) - 1,
{
}

/// Two actuators that move together move at the slower of their two rates, and one that moves alone
/// at its own.
pub proof fn neither_actuator_is_rushed(hz0: u32, hz1: u32)
    ensures
        shared_rate(true, hz0, true, hz1) matches Some(hz) && hz <= hz0 && hz <= hz1,
        shared_rate(true, hz0, false, hz1) == Some(hz0),
        shared_rate(false, hz0, true, hz1) == Some(hz1),
{
}

/// A direction change has time to settle: the first pulse edge lies at least 35 microseconds after
/// the timer starts, at every rate.
pub proof fn a_direction_change_settles(arr: u16, ccr: u16)
    requires
        49 <= arr,
        ccr == arr - 4,
    ensures
        ccr >= 35,
{
}

/// A pulse counts one step the way that the shaft turns, and the counter wraps from one end of its
/// range to the other.
pub proof fn a_pulse_counts_one_step(position: i32)
    ensures
        position < i32::MAX ==> stepped(position, true) == position + 1,
        position > i32::MIN ==> stepped(position, false) == position - 1,
        stepped(i32::MAX, true) == i32::MIN,
        stepped(i32::MIN, false) == i32::MAX,
        stepped(stepped(position, true), false) == position,
        stepped(stepped(position, false), true) == position,
{
}

/// A move ends as many steps away as are owed, upwards or downwards.
pub proof fn a_move_ends_what_is_owed_away(steps: StepCounters, id: StepperId)
    ensures
        steps.heads_up(id) ==> steps.bound_for(id) - steps.at(id) == steps.owed(id),
        !steps.heads_up(id) ==> steps.at(id) - steps.bound_for(id) == steps.owed(id),
{
}

/// An actuator moves exactly if it is fitted, has a rate and is not where it should be.
pub proof fn an_actuator_moves_only_with_somewhere_to_go(cmd: StepCommand, position: i32)
    ensures
        !moves(false, cmd, position),
        cmd.step_hz == 0 ==> !moves(true, cmd, position),
        cmd.target_steps == position ==> !moves(true, cmd, position),
        cmd.step_hz > 0 && cmd.target_steps != position ==> moves(true, cmd, position),
{
}

/// A moving actuator heads for its target: up if that lies above, down if below. Its pin is put to
/// that level exactly when it was at the other one, and a resting actuator's pin is left alone.
pub proof fn an_actuator_heads_for_its_target(steps: StepCounters, id: StepperId, cmd: StepCommand)
    ensures
        cmd.target_steps > steps.at(id) ==> heading_of(steps, id, true, cmd),
        cmd.target_steps < steps.at(id) ==> !heading_of(steps, id, true, cmd),
        heading_of(steps, id, false, cmd) == steps.heads_up(id),
        turn_of(steps, id, false, cmd) is None,
        cmd.target_steps > steps.at(id) ==> turn_of(steps, id, true, cmd) == if steps.heads_up(id) {
            None
        } else {
            Some(true)
        },
        cmd.target_steps < steps.at(id) ==> turn_of(steps, id, true, cmd) == if steps.heads_up(id) {
            Some(false)
        } else {
            None
        },
{
}

/// The shared rate is one of the two that are asked for, and there is none without a move.
pub proof fn the_shared_rate_is_one_of_the_two(hz0: u32, hz1: u32)
    ensures
        shared_rate(true, hz0, true, hz1) == Some(hz0) || shared_rate(true, hz0, true, hz1) == Some(
            hz1,
        ),
        shared_rate(true, hz0, true, hz1) == shared_rate(true, hz1, true, hz0),
        shared_rate(false, hz0, false, hz1) is None,
{
}

/// A rate is brought between 20 and 20000 steps a second by the nearer end.
pub proof fn a_rate_is_kept_in_range(hz: u32)
    ensures
        20 <= rate_in_range(hz) <= 20_000,
        20 <= hz <= 20_000 ==> rate_in_range(hz) == hz,
        hz <= 20 ==> rate_in_range(hz) == 20,
        hz >= 20_000 ==> rate_in_range(hz) == 20_000,
{
}

/// The timer keeps the rate: its period is the longest in whole microseconds at which as many steps
/// as are asked for, between 20 and 20000, still fit into a second. The pulse takes the last five
/// microseconds of it, so that a direction change has at least 35 to settle in.
pub proof fn the_timer_keeps_the_rate(hz: u32, armed0: bool, armed1: bool)
    requires
        20 <= hz <= 20_000,
    ensures
        ({
            let start = started_at(hz, armed0, armed1);
            &&& (start.arr + 1) * hz <= 1_000_000 < (start.arr + 2) * hz
            &&& start.arr + 1 - start.ccr == 5
            &&& start.ccr >= 35
            &&& start.armed0 == armed0
            &&& start.armed1 == armed1
        }),
        forall|slow: u32|
            slow <= 20 ==> #[trigger] started_at(slow, armed0, armed1) == started_at(
                20,
                armed0,
                armed1,
            ),
        forall|fast: u32|
            fast >= 20_000 ==> #[trigger] started_at(fast, armed0, armed1) == started_at(
                20_000,
                armed0,
                armed1,
            ),
{
    let period = 1_000_000int / hz as int;
    assert(period * hz <= 1_000_000 < (period + 1) * hz && 50 <= period <= 50_000) by (
    nonlinear_arith)
        requires
            20 <= hz <= 20_000,
            period == 1_000_000int / hz as int,
    ;
}

/// A pulse brings the shaft one step closer to where its move ends, and an actuator that owes nothing
/// stays where it is.
pub proof fn a_pulse_goes_one_step_closer(before: StepCounters, after: StepCounters, id: StepperId)
    requires
        pulse_counted(before, after, id),
        i32::MIN <= before.bound_for(id) <= i32::MAX,
    ensures
        before.owed(id) > 0 && before.heads_up(id) ==> after.at(id) == before.at(id) + 1,
        before.owed(id) > 0 && !before.heads_up(id) ==> after.at(id) == before.at(id) - 1,
        before.owed(id) > 0 ==> after.owed(id) + 1 == before.owed(id),
        before.owed(id) == 0 ==> after.at(id) == before.at(id) && after.owed(id) == 0,
        after.bound_for(id) == before.bound_for(id),
{
}

/// A command is carried out in as many pulses as the target is steps away: right after it that many are
/// owed, towards the target, and an actuator that is not fitted, has no rate or is there already owes
/// none.
pub proof fn a_command_owes_the_distance(
    before: StepCounters,
    fitted: bool,
    cmd: StepCommand,
    after: StepCounters,
    id: StepperId,
)
    requires
        armed_for(before, fitted, cmd, after, id),
    ensures
        after.at(id) == before.at(id),
        fitted && cmd.step_hz > 0 && cmd.target_steps >= before.at(id) ==> after.owed(id)
            == cmd.target_steps - before.at(id),
        fitted && cmd.step_hz > 0 && cmd.target_steps <= before.at(id) ==> after.owed(id)
            == before.at(id) - cmd.target_steps,
        fitted && cmd.step_hz > 0 && cmd.target_steps > before.at(id) ==> after.heads_up(id),
        fitted && cmd.step_hz > 0 && cmd.target_steps < before.at(id) ==> !after.heads_up(id),
        !fitted || cmd.step_hz == 0 ==> after.owed(id) == 0,
{
}

/// After a command and as many pulses as it owes, the shaft is at the target.
pub proof fn a_command_ends_at_its_target(
    start: StepCounters,
    fitted: bool,
    cmd: StepCommand,
    states: Seq<StepCounters>,
    id: StepperId,
)
    requires
        fitted,
        cmd.step_hz > 0,
        states.len() >= 1,
        armed_for(start, fitted, cmd, states[0], id),
        forall|i: int|
            0 <= i < states.len() - 1 ==> pulse_counted(
                #[trigger] states[i],
                states[i + 1],
                id,
            ),
        states.len() - 1 >= states[0].owed(id),
    ensures
        states.last().at(id) == cmd.target_steps,
        states.last().owed(id) == 0,
{
    a_command_owes_the_distance(start, fitted, cmd, states[0], id);
    pulses_wear_down_what_is_owed(states, id, cmd.target_steps as int, states.len() - 1);
}

/// Pulse by pulse less is owed, and the end of the move stays where it is.
proof fn pulses_wear_down_what_is_owed(states: Seq<StepCounters>, id: StepperId, target: int, n: int)
    requires
        0 <= n < states.len(),
        i32::MIN <= target <= i32::MAX,
        states[0].bound_for(id) == target,
        forall|i: int|
            0 <= i < states.len() - 1 ==> pulse_counted(
                #[trigger] states[i],
                states[i + 1],
                id,
            ),
    ensures
        states[n].bound_for(id) == target,
        states[n].owed(id) == if states[0].owed(id) > n {
            states[0].owed(id) - n
        } else {
            0
        },
    decreases n,
{
    if n > 0 {
        pulses_wear_down_what_is_owed(states, id, target, n - 1);
        assert(pulse_counted(states[n - 1], states[n - 1 + 1], id));
    }
}

} // verus!
