//! The single write point for the four high current outputs, used by valve control, which owns the
//! outputs named in the valve mapping, and by direct control, which owns everything else.
use crate::hco::{servo_safe, HcoControl, HcoState, Level, PwmMicros, State};
use crate::index::{HcoId, Id, Per, PerHco};
use core::ops::IndexMut;
use vstd::prelude::*;

verus! {

pub struct Outputs<C: HcoControl> {
    ctl: C,
    /// Per-output override installed by a direct write in raw debug mode. `None` means that the
    /// normal owner decides.
    raw_override: PerHco<Option<State>>,
    /// Last state pushed to hardware, so a tick that changes nothing costs nothing.
    last: HcoState,
}

/// Output states with overrides laid over them.
pub open spec fn overlaid(desired: Seq<State>, overrides: Seq<Option<State>>) -> Seq<State> {
    Seq::new(
        4,
        |i: int|
            match overrides[i] {
                Some(state) => state,
                None => desired[i],
            },
    )
}

/// No output overridden.
pub open spec fn no_overrides() -> Seq<Option<State>> {
    Seq::new(4, |i: int| None)
}

/// Every output off.
pub open spec fn all_low() -> Seq<State> {
    Seq::new(4, |i: int| State::Digital(Level::Low))
}

impl<C: HcoControl> Outputs<C> {
    pub closed spec fn overrides(self) -> Seq<Option<State>> {
        self.raw_override@
    }

    /// The state on the hardware.
    pub closed spec fn pushed(self) -> Seq<State> {
        self.last@
    }

    pub closed spec fn controller(self) -> C {
        self.ctl
    }

    /// What was last pushed is what the hardware shows.
    pub open spec fn wf(self) -> bool {
        &&& self.pushed() == self.controller().shown()
        &&& self.pushed().len() == 4
        &&& self.overrides().len() == 4
    }

    pub fn new(ctl: C) -> (r: Self)
        ensures
            r.wf(),
            r.controller() == ctl,
            r.overrides() == no_overrides(),
    {
        broadcast use crate::index::per_len;

        let last = ctl.get_state();
        let r = Self { ctl, raw_override: Per::splat(None), last };
        assert(r.overrides() =~= no_overrides());
        r
    }

    /// Records a direct write made in raw debug mode, so that it survives the next control tick.
    pub fn install_override(&mut self, hco: HcoId, state: State)
        requires
            old(self).wf(),
        ensures
            final(self).wf(),
            final(self).overrides() == old(self).overrides().update(hco.position(), Some(state)),
            final(self).pushed() == old(self).pushed(),
            final(self).controller() == old(self).controller(),
    {
        *self.raw_override.index_mut(hco) = Some(state);
    }

    /// Hands an output back to its normal owner.
    pub fn release_override(&mut self, hco: HcoId)
        requires
            old(self).wf(),
        ensures
            final(self).wf(),
            final(self).overrides() == old(self).overrides().update(hco.position(), None),
            final(self).pushed() == old(self).pushed(),
            final(self).controller() == old(self).controller(),
    {
        *self.raw_override.index_mut(hco) = None;
    }

    /// Drops every override.
    pub fn clear_overrides(&mut self)
        requires
            old(self).wf(),
        ensures
            final(self).wf(),
            final(self).overrides() == no_overrides(),
            final(self).pushed() == old(self).pushed(),
            final(self).controller() == old(self).controller(),
    {
        self.raw_override = Per::splat(None);
        assert(self.overrides() =~= no_overrides());
    }

    pub fn has_overrides(&self) -> (r: bool)
        requires
            self.wf(),
        ensures
            r == (self.overrides() != no_overrides()),
    {
        let mut i: usize = 0;
        while i < 4
            invariant
                i <= 4,
                self.wf(),
                forall|j: int| 0 <= j < i ==> (#[trigger] self.overrides()[j]) is None,
            decreases 4 - i,
        {
            if self.raw_override.as_array()[i].is_some() {
                assert(self.overrides()[i as int] != no_overrides()[i as int]);
                return true;
            }
            i += 1;
        }
        assert(self.overrides() =~= no_overrides());
        false
    }

    /// Pushes a fully resolved set of output states, with any overrides laid over it. Hardware is
    /// only written when something changes.
    pub fn drive(&mut self, desired: HcoState)
        requires
            old(self).wf(),
        ensures
            final(self).wf(),
            final(self).pushed() == overlaid(desired@, old(self).overrides()),
            final(self).overrides() == old(self).overrides(),
            final(self).pushed() == old(self).pushed() ==> final(self).controller() == old(self).controller(),
    {
        broadcast use crate::index::per_len;

        let ghost wanted = desired@;
        let mut desired = desired;
        let mut i: usize = 0;
        while i < 4
            invariant
                i <= 4,
                desired@.len() == 4,
                wanted.len() == 4,
                self.wf(),
                *self == *old(self),
                forall|j: int|
                    0 <= j < i ==> #[trigger] desired@[j] == overlaid(wanted, self.overrides())[j],
                forall|j: int| i <= j < 4 ==> #[trigger] desired@[j] == wanted[j],
            decreases 4 - i,
        {
            if let Some(state) = self.raw_override.as_array()[i] {
                *desired.index_mut(HcoId::ALL[i]) = state;
            }
            i += 1;
        }
        assert(desired@ =~= overlaid(wanted, self.overrides()));
        if !same_state(&desired, &self.last) {
            self.ctl.set_state(desired);
            self.last = desired;
        }
    }

    /// The state currently on the hardware.
    pub fn current(&self) -> (r: HcoState)
        ensures
            r@ == self.pushed(),
    {
        self.last
    }

    /// De-energizes everything that is not overridden.
    pub fn all_off(&mut self)
        requires
            old(self).wf(),
        ensures
            final(self).wf(),
            final(self).pushed() == overlaid(all_low(), old(self).overrides()),
            final(self).overrides() == old(self).overrides(),
            final(self).pushed() == old(self).pushed() ==> final(self).controller() == old(self).controller(),
    {
        self.drive(Per::splat(State::Digital(Level::Low)));
    }
}

fn same_state(a: &HcoState, b: &HcoState) -> (r: bool)
    ensures
        r == (a@ == b@),
{
    broadcast use crate::index::per_len;

    let mut i: usize = 0;
    while i < 4
        invariant
            i <= 4,
            forall|j: int| 0 <= j < i ==> a@[j] == b@[j],
        decreases 4 - i,
    {
        if a.as_array()[i] != b.as_array()[i] {
            return false;
        }
        i += 1;
    }
    assert(a@ =~= b@);
    true
}

/// Digital level a direct write asks for.
pub fn digital(level: bool) -> (r: State)
    ensures
        r == State::Digital(
            if level {
                Level::High
            } else {
                Level::Low
            },
        ),
{
    State::Digital(Level::from(level))
}

/// Pulse width a direct write or a servo asks for, brought into the servo-safe range.
pub fn pwm(micros: u16) -> (r: State)
    ensures
        r == State::Pwm(PwmMicros::of(servo_safe(micros))),
{
    State::Pwm(PwmMicros::from_u16_clamped(micros))
}

/// An override outranks the owner of its output and leaves every other output alone.
pub proof fn an_override_outranks_the_owner(
    desired: Seq<State>,
    overrides: Seq<Option<State>>,
    hco: HcoId,
)
    requires
        desired.len() == 4,
        overrides.len() == 4,
    ensures
        overrides[hco.position()] matches Some(state) ==> overlaid(
            desired,
            overrides,
        )[hco.position()] == state,
        overrides[hco.position()] is None ==> overlaid(desired, overrides)[hco.position()]
            == desired[hco.position()],
{
    hco.position_in_range();
}

/// Without overrides the owners decide everything.
pub proof fn without_overrides_the_owners_decide(desired: Seq<State>)
    requires
        desired.len() == 4,
    ensures
        overlaid(desired, no_overrides()) == desired,
{
    assert(overlaid(desired, no_overrides()) =~= desired);
}

} // verus!
