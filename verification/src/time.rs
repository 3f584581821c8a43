//! Points in time and spans of it, counted in ticks of the board's clock.
use vstd::prelude::*;

verus! {

/// Ticks per second of the clock.
pub const TICK_HZ: u64 = 1_000_000;

/// The most milliseconds that a span can hold.
pub const MAX_MILLIS: u64 = 18_446_744_073_709_551;

/// Calls [`embassy_time::Duration::from_millis`]. At the clock's rate a millisecond is a thousand
/// ticks; spans that do not fit are left out.
#[verifier::external_body]
fn ticks_in_millis(millis: u64) -> (r: u64)
    requires
        millis <= MAX_MILLIS,
    ensures
        r == millis * 1000,
{
    embassy_time::Duration::from_millis(millis).as_ticks()
}

/// Calls [`embassy_time::Duration::as_micros`]. At the clock's rate a tick is a microsecond.
#[verifier::external_body]
fn micros_in_ticks(ticks: u64) -> (r: u64)
    ensures
        r == ticks,
{
    embassy_time::Duration::from_ticks(ticks).as_micros()
}

/// Calls [`embassy_time::Duration::as_millis`], which rounds down.
#[verifier::external_body]
fn millis_in_ticks(ticks: u64) -> (r: u64)
    ensures
        r == ticks / 1000,
{
    embassy_time::Duration::from_ticks(ticks).as_millis()
}

/// Calls [`embassy_time::Instant::from_millis`]. At the clock's rate a millisecond is a thousand
/// ticks; instants that do not fit are left out.
#[verifier::external_body]
fn ticks_at_millis(millis: u64) -> (r: u64)
    requires
        millis <= MAX_MILLIS,
    ensures
        r == millis * 1000,
{
    embassy_time::Instant::from_millis(millis).as_ticks()
}

/// Calls [`embassy_time::Instant::as_millis`], which rounds down.
#[verifier::external_body]
fn millis_at_ticks(ticks: u64) -> (r: u64)
    ensures
        r == ticks / 1000,
{
    embassy_time::Instant::from_ticks(ticks).as_millis()
}

/// A span of time.
#[derive(Clone, Copy, PartialEq, Eq, PartialOrd, Ord, Debug, Structural)]
pub struct Duration {
    pub ticks: u64,
}

impl Duration {
    pub fn from_ticks(ticks: u64) -> (r: Self)
        ensures
            r.ticks == ticks,
    {
        Self { ticks }
    }

    pub fn from_millis(millis: u64) -> (r: Self)
        requires
            millis <= MAX_MILLIS,
        ensures
            r.ticks == millis * 1000,
    {
        Self { ticks: ticks_in_millis(millis) }
    }

    pub fn as_ticks(&self) -> (r: u64)
        ensures
            r == self.ticks,
    {
        self.ticks
    }

    pub fn as_micros(&self) -> (r: u64)
        ensures
            r == self.ticks,
    {
        micros_in_ticks(self.ticks)
    }

    /// Whole milliseconds, rounded down.
    pub fn as_millis(&self) -> (r: u64)
        ensures
            r == self.ticks / 1000,
    {
        millis_in_ticks(self.ticks)
    }
}

/// A point in time since startup.
#[derive(Clone, Copy, PartialEq, Eq, PartialOrd, Ord, Debug, Structural)]
pub struct Instant {
    pub ticks: u64,
}

impl Instant {
    pub fn from_ticks(ticks: u64) -> (r: Self)
        ensures
            r.ticks == ticks,
    {
        Self { ticks }
    }

    pub fn from_millis(millis: u64) -> (r: Self)
        requires
            millis <= MAX_MILLIS,
        ensures
            r.ticks == millis * 1000,
    {
        Self { ticks: ticks_at_millis(millis) }
    }

    pub fn as_ticks(&self) -> (r: u64)
        ensures
            r == self.ticks,
    {
        self.ticks
    }

    /// Whole milliseconds since startup, rounded down.
    pub fn as_millis(&self) -> (r: u64)
        ensures
            r == self.ticks / 1000,
    {
        millis_at_ticks(self.ticks)
    }

    /// The point a span later.
    pub fn plus(self, span: Duration) -> (r: Self)
        requires
            self.ticks + span.ticks <= u64::MAX,
        ensures
            r.ticks == self.ticks + span.ticks,
    {
        Self { ticks: self.ticks + span.ticks }
    }

    /// The span since an earlier point, and none since a later one.
    pub fn saturating_duration_since(&self, earlier: Instant) -> (r: Duration)
        ensures
            r.ticks == if self.ticks >= earlier.ticks {
                self.ticks - earlier.ticks
            } else {
                0
            },
    {
        if self.ticks >= earlier.ticks {
            Duration { ticks: self.ticks - earlier.ticks }
        } else {
            Duration { ticks: 0 }
        }
    }
}

} // verus!
