//! What the board's drivers decide, apart from the registers they write it to.
use vstd::prelude::*;

pub mod on_board_sens;
pub mod pwm;
pub mod stepper;

verus! {

/// Levels of the four outputs.
#[derive(Clone, Copy, PartialEq, Eq, Debug, Structural)]
pub struct HcOutputsState {
    pub out1: bool,
    pub out2: bool,
    pub out3: bool,
    pub out4: bool,
}

impl vstd::std_specs::convert::FromSpecImpl<[bool; 4]> for HcOutputsState {
    open spec fn obeys_from_spec() -> bool {
        true
    }

    open spec fn from_spec(value: [bool; 4]) -> Self {
        HcOutputsState { out1: value[0], out2: value[1], out3: value[2], out4: value[3] }
    }
}

impl From<[bool; 4]> for HcOutputsState {
    fn from(value: [bool; 4]) -> Self {
        HcOutputsState { out1: value[0], out2: value[1], out3: value[2], out4: value[3] }
    }
}

} // verus!
