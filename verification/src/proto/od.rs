//! Constants of the object dictionary that a listener cannot work without.
use crate::index::{Id, Per};
use vstd::prelude::*;

verus! {

/// What a sensor value reads as when there is no reading behind it.
pub const SENSOR_INVALID: i16 = 32767;

/// What a raw converter word reads as when there is no reading behind it.
pub const RAW_INVALID: u16 = 65535;

/// What a temperature reads as when there is no reading behind it.
pub const TEMPERATURE_INVALID: i32 = -2147483648;

/// What the processor load reads as before the first window has closed.
pub const CPU_LOAD_UNKNOWN: u16 = 65535;

/// One of the error counters that a node reports.
#[derive(Clone, Copy, PartialEq, Eq, PartialOrd, Ord, Debug, Structural)]
pub enum ErrorCounter {
    I2cTimeout,
    ValveStall,
    CanRxOverrun,
    CanRxDropped,
    CanRxError,
    ControlTickOverrun,
}

impl ErrorCounter {
    /// Every id of this domain, in index order.
    pub const ALL: [Self; 6] = [
        Self::I2cTimeout,
        Self::ValveStall,
        Self::CanRxOverrun,
        Self::CanRxDropped,
        Self::CanRxError,
        Self::ControlTickOverrun,
    ];

    pub const COUNT: usize = 6;

    /// Position in a [`Per`] over this domain.
    pub fn index(self) -> (r: usize)
        ensures
            r == self.position(),
            r < 6,
    {
        self as usize
    }

    pub fn from_index(index: usize) -> (r: Option<Self>)
        ensures
            r is Some <==> index < 6,
            r matches Some(id) ==> id.position() == index,
    {
        if index < 6 {
            Some(Self::ALL[index])
        } else {
            None
        }
    }

    /// Converts a wire or flash byte. `None` means that the message or record is rejected.
    pub fn from_u8(value: u8) -> (r: Option<Self>)
        ensures
            r is Some <==> value < 6,
            r matches Some(id) ==> id.position() == value,
    {
        Self::from_index(value as usize)
    }

    pub fn as_u8(self) -> (r: u8)
        ensures
            r == self.position(),
            r < 6,
    {
        self as u8
    }
}

impl ErrorCounter {
    /// The sub-index of this counter in the dictionary, counted from one.
    pub fn sub(self) -> (r: u8)
        ensures
            r == self.position() + 1,
    {
        self.as_u8() + 1
    }
}

impl Id for ErrorCounter {
    const COUNT: usize = 6;

    open spec fn size() -> nat {
        6
    }

    open spec fn position(self) -> int {
        self as int
    }

    open spec fn nth(i: int) -> Self {
        Self::ALL[i]
    }

    proof fn position_in_range(self) {
    }

    proof fn nth_inverts_position(self) {
    }

    proof fn position_inverts_nth(i: int) {
    }

    fn index(self) -> usize {
        self as usize
    }

    fn from_index(index: usize) -> Option<Self> {
        ErrorCounter::from_index(index)
    }
}

/// An array with one entry per [`ErrorCounter`].
pub type PerErrorCounter<T> = Per<ErrorCounter, T, 6>;

} // verus!
