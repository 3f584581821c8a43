//! Rail current and voltage.
use crate::index::PerRail;
use vstd::prelude::*;

verus! {

/// A snapshot of the three rails.
#[derive(Clone, Copy)]
pub struct Rails {
    pub current_ma: PerRail<u16>,
    pub voltage_mv: PerRail<u16>,
}

/// A board without on-board sensing.
pub struct NoRails;

impl NoRails {
    /// There is never a snapshot.
    pub fn read(&self) -> (r: Option<Rails>)
        ensures
            r is None,
    {
        None
    }
}

} // verus!
