//! What keeps a valve warm: which outputs switch its heating pads, and which sensor slot the
//! thermostat regulates on.
//!
//! The temperature comes from an ordinary sensor slot, so the setpoint is written in the unit
//! that the slot already reports and the master sees exactly what the node acts on.
use crate::index::{HcoId, Id, PerHco, SensorSlot};
use vstd::prelude::*;

verus! {

/// A set of high current outputs.
#[derive(Clone, Copy, PartialEq, Eq, Debug)]
pub struct HcoSet {
    members: PerHco<bool>,
}

impl HcoSet {
    /// Whether an output belongs to the set.
    pub closed spec fn has(self, hco: HcoId) -> bool {
        self.members.at(hco)
    }

    /// No output at all.
    pub fn empty() -> (r: Self)
        ensures
            forall|hco: HcoId| !#[trigger] r.has(hco),
    {
        Self { members: PerHco::splat(false) }
    }

    /// The set with one output added.
    pub fn with(self, hco: HcoId) -> (r: Self)
        ensures
            forall|other: HcoId| #[trigger] r.has(other) <==> other == hco || self.has(other),
    {
        broadcast use crate::index::per_len;

        let r = Self { members: self.members.with_at(hco.index(), true) };
        proof {
            assert forall|other: HcoId| #[trigger]
                r.has(other) <==> other == hco || self.has(other) by {
                crate::index::writing_one_entry_keeps_the_others(
                    self.members,
                    r.members,
                    hco,
                    true,
                    other,
                );
            }
        }
        r
    }

    pub fn contains(&self, hco: HcoId) -> (r: bool)
        ensures
            r == self.has(hco),
    {
        self.members[hco]
    }

    /// Whether two sets have an output in common.
    pub fn intersects(&self, other: HcoSet) -> (r: bool)
        ensures
            r == exists|hco: HcoId| #[trigger] self.has(hco) && other.has(hco),
    {
        let mut i: usize = 0;
        while i < 4
            invariant
                i <= 4,
                forall|hco: HcoId|
                    hco.position() < i ==> !(#[trigger] self.has(hco) && other.has(hco)),
            decreases 4 - i,
        {
            let hco = HcoId::ALL[i];
            if self.contains(hco) && other.contains(hco) {
                return true;
            }
            proof {
                assert forall|h: HcoId| h.position() < i + 1 implies !(#[trigger] self.has(h)
                    && other.has(h)) by {
                    if h.position() == i {
                        h.nth_inverts_position();
                    }
                }
            }
            i += 1;
        }
        proof {
            assert forall|hco: HcoId| !(#[trigger] self.has(hco) && other.has(hco)) by {
                hco.position_in_range();
            }
        }
        false
    }
}

/// The heating pad on one valve. See [`crate::heating`] for the thermostat itself.
#[derive(Clone, Copy, PartialEq, Eq, Debug)]
pub struct ValveHeatingConfig {
    /// Whether the thermostat runs.
    pub enabled: bool,
    /// The output that switches the pad. `None` means no pad on this valve.
    pub hco: Option<HcoId>,
    /// Further outputs switched together with `hco`.
    pub also: HcoSet,
    /// The slot reporting the pad's temperature. `None` means no pad on this valve.
    pub sensor: Option<SensorSlot>,
    /// Temperature to hold, in the sensor slot's own unit.
    pub setpoint: i16,
    /// Half-width of the dead band, in the same unit.
    pub hysteresis: u16,
}

impl ValveHeatingConfig {
    /// One degree either side of the setpoint, for a slot reporting centicelsius.
    pub const DEFAULT_HYSTERESIS: u16 = 100;

    /// An output to switch and a slot to watch.
    pub open spec fn fitted(self) -> bool {
        self.hco is Some && self.sensor is Some
    }

    /// Fitted and switched on.
    pub open spec fn armed(self) -> bool {
        self.enabled && self.fitted()
    }

    /// Whether an output is one of those that the thermostat switches.
    pub open spec fn heats_through(self, hco: HcoId) -> bool {
        self.hco == Some(hco) || self.also.has(hco)
    }

    /// No pad on this valve: switched off, no wiring, and a setpoint that no reading is below.
    pub open spec fn is_none(self) -> bool {
        &&& !self.enabled
        &&& self.hco is None
        &&& self.sensor is None
        &&& self.setpoint == i16::MIN
        &&& self.hysteresis == 100
        &&& forall|hco: HcoId| !#[trigger] self.also.has(hco)
    }

    /// No pad on this valve. The setpoint is the lowest representable, so that a slot which is
    /// switched on before it is configured asks for no heat at all.
    pub fn none() -> (r: Self)
        ensures
            r.is_none(),
    {
        Self {
            enabled: false,
            hco: None,
            also: HcoSet::empty(),
            sensor: None,
            setpoint: i16::MIN,
            hysteresis: Self::DEFAULT_HYSTERESIS,
        }
    }

    /// A pad on `hco`, held at `setpoint` as reported by `sensor`, in that slot's own unit.
    pub fn new(hco: HcoId, sensor: SensorSlot, setpoint: i16) -> (r: Self)
        ensures
            r.enabled,
            r.hco == Some(hco),
            r.sensor == Some(sensor),
            r.setpoint == setpoint,
            r.hysteresis == 100,
            forall|other: HcoId| #[trigger] r.heats_through(other) <==> other == hco,
    {
        Self { enabled: true, hco: Some(hco), sensor: Some(sensor), setpoint, ..Self::none() }
    }

    /// Switches one more output together with the pad's own.
    pub fn also_on(self, hco: HcoId) -> (r: Self)
        ensures
            r == (ValveHeatingConfig { also: r.also, ..self }),
            forall|other: HcoId|
                #[trigger] r.heats_through(other) <==> other == hco || self.heats_through(other),
    {
        Self { also: self.also.with(hco), ..self }
    }

    /// Widens or narrows the dead band, in the sensor slot's unit.
    pub fn with_hysteresis(self, hysteresis: u16) -> (r: Self)
        ensures
            r == (ValveHeatingConfig { hysteresis, ..self }),
    {
        Self { hysteresis, ..self }
    }

    /// Fitted but not switched on.
    pub fn disabled(self) -> (r: Self)
        ensures
            r == (ValveHeatingConfig { enabled: false, ..self }),
    {
        Self { enabled: false, ..self }
    }

    /// Whether a pad is wired up at all: an output to switch and a slot to watch.
    pub fn is_fitted(&self) -> (r: bool)
        ensures
            r == self.fitted(),
    {
        self.hco.is_some() && self.sensor.is_some()
    }

    /// Whether the thermostat should run this tick.
    pub fn is_armed(&self) -> (r: bool)
        ensures
            r == self.armed(),
    {
        self.enabled && self.is_fitted()
    }

    /// Whether `hco` is an output this pad switches.
    pub fn switches(&self, hco: HcoId) -> (r: bool)
        ensures
            r == self.heats_through(hco),
    {
        let own = match self.hco {
            Some(out) => out == hco,
            None => false,
        };
        own || self.also.contains(hco)
    }

    /// Every output this pad switches.
    pub fn outputs(&self) -> (r: HcoSet)
        ensures
            forall|hco: HcoId| #[trigger] r.has(hco) <==> self.heats_through(hco),
    {
        match self.hco {
            Some(out) => self.also.with(out),
            None => self.also,
        }
    }
}

/// Two sets with the same members are the same set.
pub proof fn a_set_is_its_members(a: HcoSet, b: HcoSet)
    requires
        forall|hco: HcoId| #[trigger] a.has(hco) == b.has(hco),
    ensures
        a == b,
{
    broadcast use crate::index::per_len;

    assert forall|i: int| 0 <= i < 4 implies a.members@[i] == b.members@[i] by {
        HcoId::position_inverts_nth(i);
        assert(a.has(HcoId::nth(i)) == b.has(HcoId::nth(i)));
    }
    crate::index::per_is_its_entries(a.members, b.members);
}

} // verus!
