//! Master liveness and the two-stage fallback.
//!
//! - Stage A, after 3 s by default: make the vehicle safe. Every valve closes.
//! - Stage B, after 5 minutes by default: the master is not coming back. Every valve opens.
//!
//! The timers run from boot, not from the first heartbeat. Raw debug mode suspends all of this.
use crate::config::{Config, FallbackAction, ValveConfig};
use crate::index::{Id, Per, PerValve, ValveId};
use crate::proto::valve::{released_at, unpowered_at};
use crate::store::LinkState;
use crate::time::Instant;
use core::ops::IndexMut;
use vstd::prelude::*;

verus! {

/// When the master was last heard.
pub struct Heartbeat {
    /// Milliseconds since boot at which the last heartbeat arrived; wraps after 49 days.
    last_ms: u32,
    seen: bool,
}

/// Milliseconds since boot, wrapped to what a heartbeat records.
pub open spec fn wrapped_ms(now: Instant) -> u32 {
    (now.ticks / 1000 % 0x1_0000_0000) as u32
}

fn millis_word(now: Instant) -> (r: u32)
    ensures
        r == wrapped_ms(now),
{
    (now.as_millis() % 0x1_0000_0000) as u32
}

impl Heartbeat {
    pub closed spec fn heard_at(self) -> u32 {
        self.last_ms
    }

    pub closed spec fn heard(self) -> bool {
        self.seen
    }

    pub fn new() -> (r: Self)
        ensures
            r.heard_at() == 0,
            !r.heard(),
    {
        Self { last_ms: 0, seen: false }
    }
}

impl Default for Heartbeat {
    fn default() -> (r: Self)
        ensures
            r.heard_at() == 0,
            !r.heard(),
    {
        Self::new()
    }
}

/// Notes that a heartbeat from the configured master arrived.
pub fn note_master_heartbeat(heartbeat: &mut Heartbeat, now: Instant)
    ensures
        final(heartbeat).heard(),
        final(heartbeat).heard_at() == wrapped_ms(now),
        forall|later: Instant| #[trigger]
            silence(*final(heartbeat), later) == (wrapped_ms(later) - wrapped_ms(now)) % 0x1_0000_0000,
{
    heartbeat.last_ms = millis_word(now);
    heartbeat.seen = true;
}

/// How long the master has been silent, in milliseconds; without a heartbeat, since boot.
pub open spec fn silence(heartbeat: Heartbeat, now: Instant) -> int {
    (wrapped_ms(now) - heartbeat.heard_at()) % 0x1_0000_0000
}

/// Milliseconds since the last master heartbeat, or since boot if there has never been one.
pub fn since_last_heartbeat(heartbeat: &Heartbeat, now: Instant) -> (r: u32)
    ensures
        r == (wrapped_ms(now) - heartbeat.heard_at()) % 0x1_0000_0000,
        r == silence(*heartbeat, now),
{
    millis_word(now).wrapping_sub(heartbeat.last_ms)
}

pub fn master_ever_seen(heartbeat: &Heartbeat) -> (r: bool)
    ensures
        r == heartbeat.heard(),
{
    heartbeat.seen
}

/// The state of the link after some silence.
pub open spec fn link_after(cfg: Config, raw_debug: bool, seen: bool, since_ms: u32) -> LinkState {
    if seen && since_ms < cfg.fallback_a_ms {
        LinkState::Alive
    } else if raw_debug || !cfg.fallback_enabled {
        LinkState::Suspended
    } else if since_ms >= cfg.fallback_b_ms {
        LinkState::FallbackB
    } else if since_ms >= cfg.fallback_a_ms {
        LinkState::FallbackA
    } else {
        LinkState::NeverSeen
    }
}

/// Classifies the link from the elapsed time.
pub fn evaluate(cfg: &Config, raw_debug: bool, seen: bool, since_ms: u32) -> (r: LinkState)
    ensures
        r == link_after(*cfg, raw_debug, seen, since_ms),
{
    if seen && since_ms < cfg.fallback_a_ms {
        return LinkState::Alive;
    }
    if raw_debug || !cfg.fallback_enabled {
        return LinkState::Suspended;
    }
    if since_ms >= cfg.fallback_b_ms {
        LinkState::FallbackB
    } else if since_ms >= cfg.fallback_a_ms {
        LinkState::FallbackA
    } else {
        LinkState::NeverSeen
    }
}

/// The action that a link state calls for.
pub open spec fn fallback_action(link: LinkState, cfg: ValveConfig) -> Option<FallbackAction> {
    if link == LinkState::FallbackA {
        Some(cfg.fallback_a)
    } else if link == LinkState::FallbackB {
        Some(cfg.fallback_b)
    } else {
        None
    }
}

/// Which fallback action applies in a given link state, if any.
pub fn action_for(link: LinkState, cfg: &ValveConfig) -> (r: Option<FallbackAction>)
    ensures
        r == fallback_action(link, *cfg),
{
    match link {
        LinkState::FallbackA => Some(cfg.fallback_a),
        LinkState::FallbackB => Some(cfg.fallback_b),
        LinkState::Alive | LinkState::NeverSeen | LinkState::Suspended => None,
    }
}

/// Per-valve latch recording that a fallback stage has already released this valve.
///
/// Without it a valve would oscillate: once its target says released, the settling that justified
/// the release stops holding, and the next tick would drive it back to the fallback position.
#[derive(Clone, Copy, Debug)]
pub struct FallbackLatch {
    stage: LinkState,
    unpowered: PerValve<bool>,
}

impl FallbackLatch {
    pub closed spec fn current(self) -> LinkState {
        self.stage
    }

    /// Whether the current stage has released a valve.
    pub closed spec fn has_released(self, valve: ValveId) -> bool {
        self.unpowered.at(valve)
    }

    pub fn new() -> (r: Self)
        ensures
            r.current() == LinkState::NeverSeen,
            forall|valve: ValveId| !#[trigger] r.has_released(valve),
    {
        Self { stage: LinkState::NeverSeen, unpowered: Per::splat(false) }
    }

    /// Notes the current stage, clearing the per-valve latches whenever it changes, so that
    /// entering stage B re-drives valves that stage A had already released.
    pub fn enter(&mut self, stage: LinkState) -> (r: bool)
        ensures
            r == (old(self).current() != stage),
            final(self).current() == stage,
            forall|valve: ValveId| #[trigger]
                final(self).has_released(valve) == (!r && old(self).has_released(valve)),
    {
        if self.stage == stage {
            return false;
        }
        self.stage = stage;
        self.unpowered = Per::splat(false);
        true
    }

    /// A fresh command from the master takes a valve out of its released state.
    pub fn rearm(&mut self, valve: ValveId)
        ensures
            final(self).current() == old(self).current(),
            forall|other: ValveId| #[trigger]
                final(self).has_released(other) == (other != valve && old(self).has_released(other)),
    {
        self.latch(valve, false);
    }

    fn latch(&mut self, valve: ValveId, released: bool)
        ensures
            final(self).current() == old(self).current(),
            forall|other: ValveId| #[trigger]
                final(self).has_released(other) == if other == valve {
                    released
                } else {
                    old(self).has_released(other)
                },
    {
        broadcast use crate::index::per_len;

        let ghost before = self.unpowered;
        *self.unpowered.index_mut(valve) = released;
        proof {
            assert forall|other: ValveId| #[trigger]
                self.has_released(other) == if other == valve {
                    released
                } else {
                    before.at(other)
                } by {
                crate::index::writing_one_entry_keeps_the_others(
                    before,
                    self.unpowered,
                    valve,
                    released,
                    other,
                );
            }
        }
    }

    /// Resolves the target for one valve under an active fallback action.
    ///
    /// `settled` is whether the valve has reached the fallback position and held it for its settle
    /// time; only then is it safe to drop the drive. The word keeps the fallback position even
    /// once released.
    pub fn target(&mut self, valve: ValveId, action: FallbackAction, settled: bool) -> (r: u16)
        ensures
            r == if final(self).has_released(valve) {
                released_at(action.position)
            } else {
                action.position
            },
            final(self).has_released(valve) == (old(self).has_released(valve) || (action.unpower
                && settled)),
            final(self).current() == old(self).current(),
            forall|other: ValveId| other != valve ==> #[trigger]
                final(self).has_released(other) == old(self).has_released(other),
    {
        if self.unpowered[valve] {
            return unpowered_at(action.position);
        }
        if action.unpower && settled {
            self.latch(valve, true);
            return unpowered_at(action.position);
        }
        action.position
    }
}

impl Default for FallbackLatch {
    fn default() -> (r: Self)
        ensures
            r.current() == LinkState::NeverSeen,
            forall|valve: ValveId| !#[trigger] r.has_released(valve),
    {
        Self::new()
    }
}

/// How far the fallback has gone.
pub open spec fn fallback_stage(link: LinkState) -> int {
    match link {
        LinkState::FallbackA => 1,
        LinkState::FallbackB => 2,
        _ => 0,
    }
}

/// A longer silence never takes the fallback back a stage.
pub proof fn silence_only_escalates(cfg: Config, raw_debug: bool, seen: bool, a: u32, b: u32)
    requires
        a <= b,
    ensures
        fallback_stage(link_after(cfg, raw_debug, seen, a)) <= fallback_stage(
            link_after(cfg, raw_debug, seen, b),
        ),
{
}

/// The stages fire exactly at their timeouts, whether or not a master was ever heard.
pub proof fn stages_fire_at_their_timeouts(cfg: Config, seen: bool, since_ms: u32)
    requires
        cfg.fallback_enabled,
        cfg.fallback_a_ms < cfg.fallback_b_ms,
    ensures
        fallback_stage(link_after(cfg, false, seen, since_ms)) == if since_ms < cfg.fallback_a_ms {
            0int
        } else if since_ms < cfg.fallback_b_ms {
            1
        } else {
            2
        },
{
}

/// Raw debug mode, or a fallback that is switched off, never moves a valve.
pub proof fn a_suspended_fallback_never_acts(
    cfg: Config,
    raw_debug: bool,
    seen: bool,
    since_ms: u32,
    valve: ValveConfig,
)
    requires
        raw_debug || !cfg.fallback_enabled,
    ensures
        fallback_action(link_after(cfg, raw_debug, seen, since_ms), valve) is None,
{
}

/// The silence since a heartbeat is the time that has passed, as long as that fits the record.
pub proof fn the_silence_is_the_time_passed(heard: Instant, now: Instant)
    requires
        heard.ticks <= now.ticks,
        now.ticks / 1000 - heard.ticks / 1000 < 0x1_0000_0000,
    ensures
        (wrapped_ms(now) - wrapped_ms(heard)) % 0x1_0000_0000 == now.ticks / 1000 - heard.ticks
            / 1000,
{
    let m = 0x1_0000_0000int;
    let a = now.ticks as int / 1000;
    let b = heard.ticks as int / 1000;
    vstd::arithmetic::div_mod::lemma_sub_mod_noop(a, b, m);
    vstd::arithmetic::div_mod::lemma_small_mod((a - b) as nat, m as nat);
}

/// The state of the link, told by the clock: alive while a master that was heard has been silent for
/// less than the first timeout. Past that, and before any master was heard, nothing acts in raw debug
/// mode or with the fallback switched off; otherwise the second stage acts from its timeout on, the
/// first from its own, and before both the node is still waiting for its master.
pub proof fn the_link_is_told_by_the_silence(cfg: Config, raw_debug: bool, seen: bool, since_ms: u32)
    ensures
        ({
            let link = link_after(cfg, raw_debug, seen, since_ms);
            &&& link == LinkState::Alive <==> seen && since_ms < cfg.fallback_a_ms
            &&& link == LinkState::Suspended <==> !(seen && since_ms < cfg.fallback_a_ms) && (
            raw_debug || !cfg.fallback_enabled)
            &&& link == LinkState::FallbackB <==> !(seen && since_ms < cfg.fallback_a_ms)
                && !raw_debug && cfg.fallback_enabled && since_ms >= cfg.fallback_b_ms
            &&& link == LinkState::FallbackA <==> !raw_debug && cfg.fallback_enabled && since_ms
                >= cfg.fallback_a_ms && since_ms < cfg.fallback_b_ms
            &&& link == LinkState::NeverSeen ==> !seen
        }),
{
}

/// A heartbeat brings the link back: right after it the link is alive, whatever it was, as long as
/// there is a timeout at all.
pub proof fn a_heartbeat_revives_the_link(cfg: Config, raw_debug: bool)
    requires
        cfg.fallback_a_ms > 0,
    ensures
        link_after(cfg, raw_debug, true, 0) == LinkState::Alive,
{
}

/// Each stage has its own action, and no other state of the link has one.
pub proof fn each_stage_has_its_own_action(cfg: ValveConfig)
    ensures
        fallback_action(LinkState::FallbackA, cfg) == Some(cfg.fallback_a),
        fallback_action(LinkState::FallbackB, cfg) == Some(cfg.fallback_b),
        fallback_action(LinkState::Alive, cfg) is None,
        fallback_action(LinkState::NeverSeen, cfg) is None,
        fallback_action(LinkState::Suspended, cfg) is None,
{
}

/// A heartbeat is recorded in milliseconds, a thousand ticks each, and the record wraps after the
/// last that fits it.
pub proof fn a_heartbeat_is_recorded_in_milliseconds(now: Instant)
    ensures
        now.ticks < 4_294_967_296_000 ==> 1000 * wrapped_ms(now) <= now.ticks < 1000 * wrapped_ms(
            now,
        ) + 1000,
        now.ticks + 4_294_967_296_000 <= u64::MAX ==> wrapped_ms(
            Instant { ticks: (now.ticks + 4_294_967_296_000) as u64 },
        ) == wrapped_ms(now),
{
    let ms = now.ticks as int / 1000;
    if now.ticks + 4_294_967_296_000 <= u64::MAX {
        let later = now.ticks + 4_294_967_296_000;
        assert(later / 1000 == ms + 0x1_0000_0000);
        vstd::arithmetic::div_mod::lemma_mod_add_multiples_vanish(ms, 0x1_0000_0000);
    }
}

/// After a heartbeat the silence is the time that has passed since, in whole milliseconds, until it no
/// longer fits the record.
pub proof fn silence_counts_from_the_heartbeat(heartbeat: Heartbeat, heard: Instant, now: Instant)
    requires
        1000 * heartbeat.heard_at() <= heard.ticks < 1000 * heartbeat.heard_at() + 1000,
        heard.ticks <= now.ticks,
        now.ticks / 1000 - heard.ticks / 1000 < 0x1_0000_0000,
    ensures
        silence(heartbeat, now) == now.ticks / 1000 - heard.ticks / 1000,
        1000 * silence(heartbeat, now) < now.ticks - heard.ticks + 1000,
        now.ticks - heard.ticks < 1000 * silence(heartbeat, now) + 1000,
{
    the_silence_is_the_time_passed(heard, now);
}

} // verus!
