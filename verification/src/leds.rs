//! The status LED state.
use vstd::prelude::*;

verus! {

#[derive(Clone, Copy, PartialEq, Eq, Debug, Structural)]
pub struct LedsState {
    pub red: bool,
    pub yellow: bool,
    pub white: bool,
}

pub open spec fn bit(on: bool) -> int {
    if on {
        1
    } else {
        0
    }
}

impl LedsState {
    /// The byte that stands for the LEDs.
    pub open spec fn encoded(self) -> int {
        bit(self.red) + 2 * bit(self.yellow) + 4 * bit(self.white)
    }

    /// The wire encoding of object 0x2030: red is bit 0, yellow bit 1, white bit 2.
    pub fn as_byte(self) -> (r: u8)
        ensures
            r == bit(self.red) + 2 * bit(self.yellow) + 4 * bit(self.white),
            r == self.encoded(),
    {
        let red: u8 = if self.red {
            1
        } else {
            0
        };
        let yellow: u8 = if self.yellow {
            2
        } else {
            0
        };
        let white: u8 = if self.white {
            4
        } else {
            0
        };
        red + yellow + white
    }
}

impl Default for LedsState {
    fn default() -> (r: Self)
        ensures
            r == (LedsState { red: false, yellow: false, white: false }),
    {
        Self { red: false, yellow: false, white: false }
    }
}

impl vstd::std_specs::convert::FromSpecImpl<[bool; 3]> for LedsState {
    open spec fn obeys_from_spec() -> bool {
        true
    }

    open spec fn from_spec(value: [bool; 3]) -> Self {
        LedsState { red: value[0], yellow: value[1], white: value[2] }
    }
}

impl From<[bool; 3]> for LedsState {
    fn from(value: [bool; 3]) -> Self {
        Self { red: value[0], yellow: value[1], white: value[2] }
    }
}

/// Each LED has a bit of its own, set while it is lit: red the lowest, then yellow, then white.
pub proof fn each_led_has_its_own_bit(leds: LedsState)
    ensures
        leds.encoded() < 8,
        leds.encoded() % 2 == 1 <==> leds.red,
        leds.encoded() / 2 % 2 == 1 <==> leds.yellow,
        leds.encoded() / 4 == 1 <==> leds.white,
        bit(true) == 1,
        bit(false) == 0,
{
}

} // verus!
