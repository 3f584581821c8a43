//! Typed indices for the board's fixed-size domains, and the arrays they index.
use core::ops::{Index, IndexMut};
use vstd::prelude::*;
use vstd::std_specs::iter::IteratorSpec;

verus! {

/// A fixed domain of indices, dense from zero.
pub trait Id: Copy + Sized {
    const COUNT: usize;

    /// How many ids the domain has.
    spec fn size() -> nat;

    /// Where this id stands in its domain.
    spec fn position(self) -> int;

    /// The id at a position; the inverse of [`Id::position`].
    spec fn nth(i: int) -> Self;

    /// Every id lies inside its domain.
    proof fn position_in_range(self)
        ensures
            0 <= self.position() < Self::size(),
    ;

    /// Ids are told apart by their positions.
    proof fn nth_inverts_position(self)
        ensures
            Self::nth(self.position()) == self,
    ;

    /// Every position of the domain is taken.
    proof fn position_inverts_nth(i: int)
        requires
            0 <= i < Self::size(),
        ensures
            Self::nth(i).position() == i,
    ;

    fn index(self) -> (r: usize)
        ensures
            r == self.position(),
            r < Self::size(),
    ;

    /// The boundary check: `None` for anything past the end of the domain.
    fn from_index(index: usize) -> (r: Option<Self>)
        ensures
            r is Some <==> index < Self::size(),
            r matches Some(id) ==> id.position() == index && id == Self::nth(index as int),
    ;
}

/// One of the four high current outputs, counted from zero.
///
/// The board silkscreen and the wire both count from one; [`HcoId::silkscreen`] is the only
/// place where the two conventions meet.
#[derive(Clone, Copy, PartialEq, Eq, PartialOrd, Ord, Debug, Structural)]
pub enum HcoId {
    Hco0,
    Hco1,
    Hco2,
    Hco3,
}

impl HcoId {
    /// Every id of this domain, in index order.
    pub const ALL: [Self; 4] = [
        Self::Hco0,
        Self::Hco1,
        Self::Hco2,
        Self::Hco3,
    ];

    pub const COUNT: usize = 4;

    /// Position in a [`Per`] over this domain.
    pub fn index(self) -> (r: usize)
        ensures
            r == self.position(),
            r < 4,
    {
        self as usize
    }

    pub fn from_index(index: usize) -> (r: Option<Self>)
        ensures
            r is Some <==> index < 4,
            r matches Some(id) ==> id.position() == index,
    {
        if index < 4 {
            Some(Self::ALL[index])
        } else {
            None
        }
    }

    /// Converts a wire or flash byte. `None` means that the message or record is rejected.
    pub fn from_u8(value: u8) -> (r: Option<Self>)
        ensures
            r is Some <==> value < 4,
            r matches Some(id) ==> id.position() == value,
    {
        Self::from_index(value as usize)
    }

    pub fn as_u8(self) -> (r: u8)
        ensures
            r == self.position(),
            r < 4,
    {
        self as u8
    }
}

impl Id for HcoId {
    const COUNT: usize = 4;

    open spec fn size() -> nat {
        4
    }

    open spec fn position(self) -> int {
        self as int
    }

    open spec fn nth(i: int) -> Self {
        Self::ALL[i]
    }

    proof fn position_in_range(self) {
    }

    proof fn nth_inverts_position(self) {
    }

    proof fn position_inverts_nth(i: int) {
    }

    fn index(self) -> usize {
        self as usize
    }

    fn from_index(index: usize) -> Option<Self> {
        HcoId::from_index(index)
    }
}

/// An array with one entry per [`HcoId`].
pub type PerHco<T> = Per<HcoId, T, 4>;

/// One of the four valve slots.
#[derive(Clone, Copy, PartialEq, Eq, PartialOrd, Ord, Debug, Structural)]
pub enum ValveId {
    Valve0,
    Valve1,
    Valve2,
    Valve3,
}

impl ValveId {
    /// Every id of this domain, in index order.
    pub const ALL: [Self; 4] = [
        Self::Valve0,
        Self::Valve1,
        Self::Valve2,
        Self::Valve3,
    ];

    pub const COUNT: usize = 4;

    /// Position in a [`Per`] over this domain.
    pub fn index(self) -> (r: usize)
        ensures
            r == self.position(),
            r < 4,
    {
        self as usize
    }

    pub fn from_index(index: usize) -> (r: Option<Self>)
        ensures
            r is Some <==> index < 4,
            r matches Some(id) ==> id.position() == index,
    {
        if index < 4 {
            Some(Self::ALL[index])
        } else {
            None
        }
    }

    /// Converts a wire or flash byte. `None` means that the message or record is rejected.
    pub fn from_u8(value: u8) -> (r: Option<Self>)
        ensures
            r is Some <==> value < 4,
            r matches Some(id) ==> id.position() == value,
    {
        Self::from_index(value as usize)
    }

    pub fn as_u8(self) -> (r: u8)
        ensures
            r == self.position(),
            r < 4,
    {
        self as u8
    }
}

impl Id for ValveId {
    const COUNT: usize = 4;

    open spec fn size() -> nat {
        4
    }

    open spec fn position(self) -> int {
        self as int
    }

    open spec fn nth(i: int) -> Self {
        Self::ALL[i]
    }

    proof fn position_in_range(self) {
    }

    proof fn nth_inverts_position(self) {
    }

    proof fn position_inverts_nth(i: int) {
    }

    fn index(self) -> usize {
        self as usize
    }

    fn from_index(index: usize) -> Option<Self> {
        ValveId::from_index(index)
    }
}

/// An array with one entry per [`ValveId`].
pub type PerValve<T> = Per<ValveId, T, 4>;

/// One of the eight configurable sensor slots (object 0x2004 / 0x3020..).
#[derive(Clone, Copy, PartialEq, Eq, PartialOrd, Ord, Debug, Structural)]
pub enum SensorSlot {
    Slot0,
    Slot1,
    Slot2,
    Slot3,
    Slot4,
    Slot5,
    Slot6,
    Slot7,
}

impl SensorSlot {
    /// Every id of this domain, in index order.
    pub const ALL: [Self; 8] = [
        Self::Slot0,
        Self::Slot1,
        Self::Slot2,
        Self::Slot3,
        Self::Slot4,
        Self::Slot5,
        Self::Slot6,
        Self::Slot7,
    ];

    pub const COUNT: usize = 8;

    /// Position in a [`Per`] over this domain.
    pub fn index(self) -> (r: usize)
        ensures
            r == self.position(),
            r < 8,
    {
        self as usize
    }

    pub fn from_index(index: usize) -> (r: Option<Self>)
        ensures
            r is Some <==> index < 8,
            r matches Some(id) ==> id.position() == index,
    {
        if index < 8 {
            Some(Self::ALL[index])
        } else {
            None
        }
    }

    /// Converts a wire or flash byte. `None` means that the message or record is rejected.
    pub fn from_u8(value: u8) -> (r: Option<Self>)
        ensures
            r is Some <==> value < 8,
            r matches Some(id) ==> id.position() == value,
    {
        Self::from_index(value as usize)
    }

    pub fn as_u8(self) -> (r: u8)
        ensures
            r == self.position(),
            r < 8,
    {
        self as u8
    }
}

impl Id for SensorSlot {
    const COUNT: usize = 8;

    open spec fn size() -> nat {
        8
    }

    open spec fn position(self) -> int {
        self as int
    }

    open spec fn nth(i: int) -> Self {
        Self::ALL[i]
    }

    proof fn position_in_range(self) {
    }

    proof fn nth_inverts_position(self) {
    }

    proof fn position_inverts_nth(i: int) {
    }

    fn index(self) -> usize {
        self as usize
    }

    fn from_index(index: usize) -> Option<Self> {
        SensorSlot::from_index(index)
    }
}

/// An array with one entry per [`SensorSlot`].
pub type PerSensorSlot<T> = Per<SensorSlot, T, 8>;

/// One of the twelve broadcast channels that a sensor slot can be published on.
#[derive(Clone, Copy, PartialEq, Eq, PartialOrd, Ord, Debug, Structural)]
pub enum PdoSensorChannel {
    Ch0,
    Ch1,
    Ch2,
    Ch3,
    Ch4,
    Ch5,
    Ch6,
    Ch7,
    Ch8,
    Ch9,
    Ch10,
    Ch11,
}

impl PdoSensorChannel {
    /// Every id of this domain, in index order.
    pub const ALL: [Self; 12] = [
        Self::Ch0,
        Self::Ch1,
        Self::Ch2,
        Self::Ch3,
        Self::Ch4,
        Self::Ch5,
        Self::Ch6,
        Self::Ch7,
        Self::Ch8,
        Self::Ch9,
        Self::Ch10,
        Self::Ch11,
    ];

    pub const COUNT: usize = 12;

    /// Position in a [`Per`] over this domain.
    pub fn index(self) -> (r: usize)
        ensures
            r == self.position(),
            r < 12,
    {
        self as usize
    }

    pub fn from_index(index: usize) -> (r: Option<Self>)
        ensures
            r is Some <==> index < 12,
            r matches Some(id) ==> id.position() == index,
    {
        if index < 12 {
            Some(Self::ALL[index])
        } else {
            None
        }
    }

    /// Converts a wire or flash byte. `None` means that the message or record is rejected.
    pub fn from_u8(value: u8) -> (r: Option<Self>)
        ensures
            r is Some <==> value < 12,
            r matches Some(id) ==> id.position() == value,
    {
        Self::from_index(value as usize)
    }

    pub fn as_u8(self) -> (r: u8)
        ensures
            r == self.position(),
            r < 12,
    {
        self as u8
    }
}

impl Id for PdoSensorChannel {
    const COUNT: usize = 12;

    open spec fn size() -> nat {
        12
    }

    open spec fn position(self) -> int {
        self as int
    }

    open spec fn nth(i: int) -> Self {
        Self::ALL[i]
    }

    proof fn position_in_range(self) {
    }

    proof fn nth_inverts_position(self) {
    }

    proof fn position_inverts_nth(i: int) {
    }

    fn index(self) -> usize {
        self as usize
    }

    fn from_index(index: usize) -> Option<Self> {
        PdoSensorChannel::from_index(index)
    }
}

/// An array with one entry per [`PdoSensorChannel`].
pub type PerPdoChannel<T> = Per<PdoSensorChannel, T, 12>;

/// One of the two I2C buses.
#[derive(Clone, Copy, PartialEq, Eq, PartialOrd, Ord, Debug, Structural)]
pub enum I2cBus {
    Bus0,
    Bus1,
}

impl I2cBus {
    /// Every id of this domain, in index order.
    pub const ALL: [Self; 2] = [
        Self::Bus0,
        Self::Bus1,
    ];

    pub const COUNT: usize = 2;

    /// Position in a [`Per`] over this domain.
    pub fn index(self) -> (r: usize)
        ensures
            r == self.position(),
            r < 2,
    {
        self as usize
    }

    pub fn from_index(index: usize) -> (r: Option<Self>)
        ensures
            r is Some <==> index < 2,
            r matches Some(id) ==> id.position() == index,
    {
        if index < 2 {
            Some(Self::ALL[index])
        } else {
            None
        }
    }

    /// Converts a wire or flash byte. `None` means that the message or record is rejected.
    pub fn from_u8(value: u8) -> (r: Option<Self>)
        ensures
            r is Some <==> value < 2,
            r matches Some(id) ==> id.position() == value,
    {
        Self::from_index(value as usize)
    }

    pub fn as_u8(self) -> (r: u8)
        ensures
            r == self.position(),
            r < 2,
    {
        self as u8
    }
}

impl Id for I2cBus {
    const COUNT: usize = 2;

    open spec fn size() -> nat {
        2
    }

    open spec fn position(self) -> int {
        self as int
    }

    open spec fn nth(i: int) -> Self {
        Self::ALL[i]
    }

    proof fn position_in_range(self) {
    }

    proof fn nth_inverts_position(self) {
    }

    proof fn position_inverts_nth(i: int) {
    }

    fn index(self) -> usize {
        self as usize
    }

    fn from_index(index: usize) -> Option<Self> {
        I2cBus::from_index(index)
    }
}

/// An array with one entry per [`I2cBus`].
pub type PerI2cBus<T> = Per<I2cBus, T, 2>;

/// An index into [`crate::config::sensors::AMPLIFIER_ADDRESSES`]: an address strap
/// combination, never a raw I2C address.
#[derive(Clone, Copy, PartialEq, Eq, PartialOrd, Ord, Debug, Structural)]
pub enum AmplifierId {
    Amp0,
    Amp1,
    Amp2,
    Amp3,
    Amp4,
    Amp5,
    Amp6,
    Amp7,
    Amp8,
}

impl AmplifierId {
    /// Every id of this domain, in index order.
    pub const ALL: [Self; 9] = [
        Self::Amp0,
        Self::Amp1,
        Self::Amp2,
        Self::Amp3,
        Self::Amp4,
        Self::Amp5,
        Self::Amp6,
        Self::Amp7,
        Self::Amp8,
    ];

    pub const COUNT: usize = 9;

    /// Position in a [`Per`] over this domain.
    pub fn index(self) -> (r: usize)
        ensures
            r == self.position(),
            r < 9,
    {
        self as usize
    }

    pub fn from_index(index: usize) -> (r: Option<Self>)
        ensures
            r is Some <==> index < 9,
            r matches Some(id) ==> id.position() == index,
    {
        if index < 9 {
            Some(Self::ALL[index])
        } else {
            None
        }
    }

    /// Converts a wire or flash byte. `None` means that the message or record is rejected.
    pub fn from_u8(value: u8) -> (r: Option<Self>)
        ensures
            r is Some <==> value < 9,
            r matches Some(id) ==> id.position() == value,
    {
        Self::from_index(value as usize)
    }

    pub fn as_u8(self) -> (r: u8)
        ensures
            r == self.position(),
            r < 9,
    {
        self as u8
    }
}

impl Id for AmplifierId {
    const COUNT: usize = 9;

    open spec fn size() -> nat {
        9
    }

    open spec fn position(self) -> int {
        self as int
    }

    open spec fn nth(i: int) -> Self {
        Self::ALL[i]
    }

    proof fn position_in_range(self) {
    }

    proof fn nth_inverts_position(self) {
    }

    proof fn position_inverts_nth(i: int) {
    }

    fn index(self) -> usize {
        self as usize
    }

    fn from_index(index: usize) -> Option<Self> {
        AmplifierId::from_index(index)
    }
}

/// An array with one entry per [`AmplifierId`].
pub type PerAmplifier<T> = Per<AmplifierId, T, 9>;

/// One of the four analog connector pins wired to the microcontroller's own converter.
#[derive(Clone, Copy, PartialEq, Eq, PartialOrd, Ord, Debug, Structural)]
pub enum AnalogInput {
    Com5Pin1,
    Com5Pin2,
    Com6Pin1,
    Com6Pin2,
}

impl AnalogInput {
    /// Every id of this domain, in index order.
    pub const ALL: [Self; 4] = [
        Self::Com5Pin1,
        Self::Com5Pin2,
        Self::Com6Pin1,
        Self::Com6Pin2,
    ];

    pub const COUNT: usize = 4;

    /// Position in a [`Per`] over this domain.
    pub fn index(self) -> (r: usize)
        ensures
            r == self.position(),
            r < 4,
    {
        self as usize
    }

    pub fn from_index(index: usize) -> (r: Option<Self>)
        ensures
            r is Some <==> index < 4,
            r matches Some(id) ==> id.position() == index,
    {
        if index < 4 {
            Some(Self::ALL[index])
        } else {
            None
        }
    }

    /// Converts a wire or flash byte. `None` means that the message or record is rejected.
    pub fn from_u8(value: u8) -> (r: Option<Self>)
        ensures
            r is Some <==> value < 4,
            r matches Some(id) ==> id.position() == value,
    {
        Self::from_index(value as usize)
    }

    pub fn as_u8(self) -> (r: u8)
        ensures
            r == self.position(),
            r < 4,
    {
        self as u8
    }
}

impl Id for AnalogInput {
    const COUNT: usize = 4;

    open spec fn size() -> nat {
        4
    }

    open spec fn position(self) -> int {
        self as int
    }

    open spec fn nth(i: int) -> Self {
        Self::ALL[i]
    }

    proof fn position_in_range(self) {
    }

    proof fn nth_inverts_position(self) {
    }

    proof fn position_inverts_nth(i: int) {
    }

    fn index(self) -> usize {
        self as usize
    }

    fn from_index(index: usize) -> Option<Self> {
        AnalogInput::from_index(index)
    }
}

/// An array with one entry per [`AnalogInput`].
pub type PerAnalogInput<T> = Per<AnalogInput, T, 4>;

/// One of the three on-board shunt/divider rails.
///
/// One shunt covers outputs 1 and 2 and one covers outputs 3 and 4, so a stall is only
/// attributable to a valve that owns a whole [`HcoPair`].
#[derive(Clone, Copy, PartialEq, Eq, PartialOrd, Ord, Debug, Structural)]
pub enum RailId {
    Logic,
    Hco12,
    Hco34,
}

impl RailId {
    /// Every id of this domain, in index order.
    pub const ALL: [Self; 3] = [
        Self::Logic,
        Self::Hco12,
        Self::Hco34,
    ];

    pub const COUNT: usize = 3;

    /// Position in a [`Per`] over this domain.
    pub fn index(self) -> (r: usize)
        ensures
            r == self.position(),
            r < 3,
    {
        self as usize
    }

    pub fn from_index(index: usize) -> (r: Option<Self>)
        ensures
            r is Some <==> index < 3,
            r matches Some(id) ==> id.position() == index,
    {
        if index < 3 {
            Some(Self::ALL[index])
        } else {
            None
        }
    }

    /// Converts a wire or flash byte. `None` means that the message or record is rejected.
    pub fn from_u8(value: u8) -> (r: Option<Self>)
        ensures
            r is Some <==> value < 3,
            r matches Some(id) ==> id.position() == value,
    {
        Self::from_index(value as usize)
    }

    pub fn as_u8(self) -> (r: u8)
        ensures
            r == self.position(),
            r < 3,
    {
        self as u8
    }
}

impl Id for RailId {
    const COUNT: usize = 3;

    open spec fn size() -> nat {
        3
    }

    open spec fn position(self) -> int {
        self as int
    }

    open spec fn nth(i: int) -> Self {
        Self::ALL[i]
    }

    proof fn position_in_range(self) {
    }

    proof fn nth_inverts_position(self) {
    }

    proof fn position_inverts_nth(i: int) {
    }

    fn index(self) -> usize {
        self as usize
    }

    fn from_index(index: usize) -> Option<Self> {
        RailId::from_index(index)
    }
}

/// An array with one entry per [`RailId`].
pub type PerRail<T> = Per<RailId, T, 3>;

/// One of the two stepper ports.
#[derive(Clone, Copy, PartialEq, Eq, PartialOrd, Ord, Debug, Structural)]
pub enum StepperId {
    Stepper0,
    Stepper1,
}

impl StepperId {
    /// Every id of this domain, in index order.
    pub const ALL: [Self; 2] = [
        Self::Stepper0,
        Self::Stepper1,
    ];

    pub const COUNT: usize = 2;

    /// Position in a [`Per`] over this domain.
    pub fn index(self) -> (r: usize)
        ensures
            r == self.position(),
            r < 2,
    {
        self as usize
    }

    pub fn from_index(index: usize) -> (r: Option<Self>)
        ensures
            r is Some <==> index < 2,
            r matches Some(id) ==> id.position() == index,
    {
        if index < 2 {
            Some(Self::ALL[index])
        } else {
            None
        }
    }

    /// Converts a wire or flash byte. `None` means that the message or record is rejected.
    pub fn from_u8(value: u8) -> (r: Option<Self>)
        ensures
            r is Some <==> value < 2,
            r matches Some(id) ==> id.position() == value,
    {
        Self::from_index(value as usize)
    }

    pub fn as_u8(self) -> (r: u8)
        ensures
            r == self.position(),
            r < 2,
    {
        self as u8
    }
}

impl Id for StepperId {
    const COUNT: usize = 2;

    open spec fn size() -> nat {
        2
    }

    open spec fn position(self) -> int {
        self as int
    }

    open spec fn nth(i: int) -> Self {
        Self::ALL[i]
    }

    proof fn position_in_range(self) {
    }

    proof fn nth_inverts_position(self) {
    }

    proof fn position_inverts_nth(i: int) {
    }

    fn index(self) -> usize {
        self as usize
    }

    fn from_index(index: usize) -> Option<Self> {
        StepperId::from_index(index)
    }
}

/// An array with one entry per [`StepperId`].
pub type PerStepper<T> = Per<StepperId, T, 2>;

/// One of the two on-board temperature sensors.
#[derive(Clone, Copy, PartialEq, Eq, PartialOrd, Ord, Debug, Structural)]
pub enum TempSensorId {
    Board,
    Mcu,
}

impl TempSensorId {
    /// Every id of this domain, in index order.
    pub const ALL: [Self; 2] = [
        Self::Board,
        Self::Mcu,
    ];

    pub const COUNT: usize = 2;

    /// Position in a [`Per`] over this domain.
    pub fn index(self) -> (r: usize)
        ensures
            r == self.position(),
            r < 2,
    {
        self as usize
    }

    pub fn from_index(index: usize) -> (r: Option<Self>)
        ensures
            r is Some <==> index < 2,
            r matches Some(id) ==> id.position() == index,
    {
        if index < 2 {
            Some(Self::ALL[index])
        } else {
            None
        }
    }

    /// Converts a wire or flash byte. `None` means that the message or record is rejected.
    pub fn from_u8(value: u8) -> (r: Option<Self>)
        ensures
            r is Some <==> value < 2,
            r matches Some(id) ==> id.position() == value,
    {
        Self::from_index(value as usize)
    }

    pub fn as_u8(self) -> (r: u8)
        ensures
            r == self.position(),
            r < 2,
    {
        self as u8
    }
}

impl Id for TempSensorId {
    const COUNT: usize = 2;

    open spec fn size() -> nat {
        2
    }

    open spec fn position(self) -> int {
        self as int
    }

    open spec fn nth(i: int) -> Self {
        Self::ALL[i]
    }

    proof fn position_in_range(self) {
    }

    proof fn nth_inverts_position(self) {
    }

    proof fn position_inverts_nth(i: int) {
    }

    fn index(self) -> usize {
        self as usize
    }

    fn from_index(index: usize) -> Option<Self> {
        TempSensorId::from_index(index)
    }
}

/// An array with one entry per [`TempSensorId`].
pub type PerTemp<T> = Per<TempSensorId, T, 2>;

/// A pair of high current outputs sharing one current shunt.
///
/// The harness wires each servo across a whole pair, the lower output carrying power and the
/// upper one the signal, so that a shunt reading belongs to one valve.
#[derive(Clone, Copy, PartialEq, Eq, Debug, Structural)]
pub enum HcoPair {
    /// Outputs 1 and 2.
    A,
    /// Outputs 3 and 4.
    B,
}

impl HcoPair {
    pub const ALL: [Self; 2] = [Self::A, Self::B];

    /// The output that carries servo power.
    pub open spec fn spec_power(self) -> HcoId {
        match self {
            HcoPair::A => HcoId::Hco0,
            HcoPair::B => HcoId::Hco2,
        }
    }

    /// The output that carries the servo signal.
    pub open spec fn spec_signal(self) -> HcoId {
        match self {
            HcoPair::A => HcoId::Hco1,
            HcoPair::B => HcoId::Hco3,
        }
    }

    /// The shunt that both outputs of the pair run through.
    pub open spec fn spec_rail(self) -> RailId {
        match self {
            HcoPair::A => RailId::Hco12,
            HcoPair::B => RailId::Hco34,
        }
    }

    /// The lower output of the pair, which the harness uses for servo power.
    pub fn power(self) -> (r: HcoId)
        ensures
            r == self.spec_power(),
    {
        match self {
            Self::A => HcoId::Hco0,
            Self::B => HcoId::Hco2,
        }
    }

    /// The upper output of the pair, which carries the servo signal.
    pub fn signal(self) -> (r: HcoId)
        ensures
            r == self.spec_signal(),
    {
        match self {
            Self::A => HcoId::Hco1,
            Self::B => HcoId::Hco3,
        }
    }

    /// The shunt covering this pair.
    pub fn rail(self) -> (r: RailId)
        ensures
            r == self.spec_rail(),
    {
        match self {
            Self::A => RailId::Hco12,
            Self::B => RailId::Hco34,
        }
    }
}

impl HcoId {
    /// The pair whose power or signal output this is.
    pub open spec fn spec_pair(self) -> HcoPair {
        if self.position() < 2 {
            HcoPair::A
        } else {
            HcoPair::B
        }
    }

    /// Which shunt pair this output sits on.
    pub fn pair(self) -> (r: HcoPair)
        ensures
            r == self.spec_pair(),
    {
        match self {
            Self::Hco0 | Self::Hco1 => HcoPair::A,
            Self::Hco2 | Self::Hco3 => HcoPair::B,
        }
    }

    /// The number silkscreened on the board, counted from one.
    pub fn silkscreen(self) -> (r: u8)
        ensures
            r == self.position() + 1,
    {
        self.as_u8() + 1
    }
}

/// Each pair owns exactly two outputs, and both of them name it as their pair.
pub proof fn a_pair_owns_its_two_outputs(pair: HcoPair, hco: HcoId)
    ensures
        hco.spec_pair() == pair <==> hco == pair.spec_power() || hco == pair.spec_signal(),
        pair.spec_power() != pair.spec_signal(),
{
}

/// One probe-able amplifier position: a bus and an address strap.
///
/// Flattened as `bus * 9 + amplifier`, which is the layout of the raw converter array at
/// 0x2000/0x2001.
#[derive(Clone, Copy, PartialEq, Eq, Debug, Structural)]
pub struct AdcSlot {
    bus: I2cBus,
    amplifier: AmplifierId,
}

impl AdcSlot {
    pub const COUNT: usize = 18;

    pub closed spec fn spec_bus(self) -> I2cBus {
        self.bus
    }

    pub closed spec fn spec_amplifier(self) -> AmplifierId {
        self.amplifier
    }

    pub closed spec fn spec_new(bus: I2cBus, amplifier: AmplifierId) -> Self {
        AdcSlot { bus, amplifier }
    }

    pub fn new(bus: I2cBus, amplifier: AmplifierId) -> (r: Self)
        ensures
            r == Self::spec_new(bus, amplifier),
            r.spec_bus() == bus,
            r.spec_amplifier() == amplifier,
    {
        Self { bus, amplifier }
    }

    pub fn bus(self) -> (r: I2cBus)
        ensures
            r == self.spec_bus(),
    {
        self.bus
    }

    pub fn amplifier(self) -> (r: AmplifierId)
        ensures
            r == self.spec_amplifier(),
    {
        self.amplifier
    }

    pub fn index(self) -> (r: usize)
        ensures
            r == self.position(),
            r == self.spec_bus().position() * 9 + self.spec_amplifier().position(),
            r < 18,
    {
        self.bus.index() * 9 + self.amplifier.index()
    }

    pub fn from_index(index: usize) -> (r: Option<Self>)
        ensures
            r is Some <==> index < 18,
            r matches Some(slot) ==> slot.position() == index && slot == Self::nth(index as int)
                && slot.spec_bus().position() == index / 9
                && slot.spec_amplifier().position() == index % 9,
    {
        match (I2cBus::from_index(index / 9), AmplifierId::from_index(index % 9)) {
            (Some(bus), Some(amplifier)) => Some(Self { bus, amplifier }),
            _ => None,
        }
    }

    /// Every slot, in index order: the first bus's nine straps, then the second bus's.
    pub fn all() -> (r: [Self; 18])
        ensures
            forall|i: int| 0 <= i < 18 ==> (#[trigger] r@[i]).position() == i,
    {
        let mut all = [Self { bus: I2cBus::Bus0, amplifier: AmplifierId::Amp0 };18];
        let mut i: usize = 0;
        while i < 18
            invariant
                i <= 18,
                forall|j: int| 0 <= j < i ==> (#[trigger] all@[j]).position() == j,
            decreases 18 - i,
        {
            all[i] = Self { bus: I2cBus::ALL[i / 9], amplifier: AmplifierId::ALL[i % 9] };
            i += 1;
        }
        all
    }
}

impl Id for AdcSlot {
    const COUNT: usize = 18;

    open spec fn size() -> nat {
        18
    }

    closed spec fn position(self) -> int {
        self.bus.position() * 9 + self.amplifier.position()
    }

    closed spec fn nth(i: int) -> Self {
        AdcSlot { bus: I2cBus::nth(i / 9), amplifier: AmplifierId::nth(i % 9) }
    }

    proof fn position_in_range(self) {
    }

    proof fn nth_inverts_position(self) {
    }

    proof fn position_inverts_nth(i: int) {
    }

    fn index(self) -> usize {
        AdcSlot::index(self)
    }

    fn from_index(index: usize) -> Option<Self> {
        AdcSlot::from_index(index)
    }
}

/// Splitting a slot into its halves and putting it together again gives the same slot.
pub proof fn an_adc_slot_is_its_two_halves(slot: AdcSlot)
    ensures
        AdcSlot::spec_new(slot.spec_bus(), slot.spec_amplifier()) == slot,
        slot.position() == slot.spec_bus().position() * 9 + slot.spec_amplifier().position(),
{
}

/// An array with one entry per [`AdcSlot`]: both buses, all nine straps.
pub type PerAdcSlot<T> = Per<AdcSlot, T, 18>;

/// A fixed array holding one `T` per `I`, indexable only by `I`.
///
/// `N` is the size of the domain `I`; the `PerX<T>` aliases keep the two in step.
#[derive(Clone, Copy, PartialEq, Eq, Debug)]
pub struct Per<I, T, const N: usize> {
    items: [T; N],
    /// Nothing is stored of the domain: it only says what may index the array.
    domain: [I; 0],
}

impl<I, T, const N: usize> View for Per<I, T, N> {
    type V = Seq<T>;

    closed spec fn view(&self) -> Seq<T> {
        self.items@
    }
}

/// Calls [`core::array::from_fn`], which builds an array by calling `f` once for each index in
/// turn. The contract claims that each entry is a result that `f` may give for its index.
pub assume_specification<T, const N: usize, F>[ core::array::from_fn::<T, N, F> ](f: F) -> (r: [T; N])
    where F: FnMut(usize) -> T
    requires
        forall|i: usize| i < N ==> #[trigger] f.requires((i,)),
    ensures
        forall|i: int| 0 <= i < N ==> f.ensures((i as usize,), #[trigger] r@[i]),
;

impl<I, T, const N: usize> Per<I, T, N> {
    pub fn new(items: [T; N]) -> (r: Self)
        ensures
            r@ == items@,
    {
        Per { items, domain: [] }
    }

    /// The same value in every slot.
    pub fn splat(value: T) -> (r: Self) where T: Copy
        ensures
            r@ == Seq::new(N as nat, |i: int| value),
    {
        let r = Self::new([value;N]);
        assert(r@ =~= Seq::new(N as nat, |i: int| value));
        r
    }

    /// The flat array, for the wire and flash boundaries. Everywhere else, index by id.
    pub fn as_array(&self) -> (r: &[T; N])
        ensures
            r@ == self@,
    {
        &self.items
    }

    pub fn into_array(self) -> (r: [T; N])
        ensures
            r@ == self@,
    {
        self.items
    }

    pub fn as_slice(&self) -> (r: &[T])
        ensures
            r@ == self@,
    {
        self.items.as_slice()
    }

    /// The array with one slot replaced.
    pub fn with_at(self, index: usize, value: T) -> (r: Self) where T: Copy
        requires
            index < N,
        ensures
            r@ == self@.update(index as int, value),
    {
        let mut items = self.items;
        items[index] = value;
        Per { items, domain: [] }
    }
}

/// Two arrays over one domain that hold the same entries are the same array.
pub proof fn per_is_its_entries<I, T, const N: usize>(a: Per<I, T, N>, b: Per<I, T, N>)
    requires
        a@ =~= b@,
    ensures
        a == b,
{
    assert(a.items =~= b.items);
    assert(a.domain =~= b.domain);
}

/// An array has one entry for each id of its domain.
pub broadcast proof fn per_len<I, T, const N: usize>(per: Per<I, T, N>)
    ensures
        (#[trigger] per@).len() == N,
{
}

impl<I: Id, T, const N: usize> Per<I, T, N> {
    /// The entry of one id.
    pub open spec fn at(self, id: I) -> T {
        self@[id.position()]
    }

    /// Builds the array from a function of the id.
    pub fn from_fn(f: impl Fn(I) -> T) -> (r: Self)
        requires
            I::size() == N,
            forall|id: I| f.requires((id,)),
        ensures
            forall|i: int| 0 <= i < N ==> f.ensures((I::nth(i),), #[trigger] r@[i]),
            forall|id: I| f.ensures((id,), #[trigger] r.at(id)),
    {
        let call = &f;
        let g = |i: usize| -> (value: T)
            requires
                i < N,
            ensures
                call_ensures(*call, (I::nth(i as int),), value),
            {
                match I::from_index(i) {
                    Some(id) => call(id),
                    None => vstd::pervasive::unreached(),
                }
            };
        let items: [T; N] = core::array::from_fn(g);
        let r = Self::new(items);
        proof {
            assert forall|id: I| f.ensures((id,), #[trigger] r.at(id)) by {
                id.position_in_range();
                id.nth_inverts_position();
            }
        }
        r
    }

    /// Ids paired with their values, in index order.
    pub fn iter(&self) -> (r: Vec<(I, &T)>)
        requires
            I::size() == N,
        ensures
            r@.len() == N,
            forall|i: int|
                0 <= i < N ==> (#[trigger] r@[i]).0 == I::nth(i) && r@[i].0.position() == i
                    && *r@[i].1 == self@[i],
    {
        let mut r: Vec<(I, &T)> = Vec::new();
        let mut i: usize = 0;
        while i < N
            invariant
                i <= N,
                I::size() == N,
                r@.len() == i,
                forall|j: int|
                    0 <= j < i ==> (#[trigger] r@[j]).0 == I::nth(j) && r@[j].0.position() == j
                        && *r@[j].1 == self@[j],
            decreases N - i,
        {
            if let Some(id) = I::from_index(i) {
                r.push((id, &self.items[i]));
            }
            i += 1;
        }
        r
    }

    pub fn values(&self) -> (r: core::slice::Iter<'_, T>)
        ensures
            r.remaining() == self@.as_ref(),
    {
        self.items.as_slice().iter()
    }

    /// The entries in index order, to be written through.
    pub fn values_mut(&mut self) -> (r: &mut [T; N])
        ensures
            r@ == old(self)@,
            final(self)@ == final(r)@,
    {
        &mut self.items
    }
}

impl<I: Id, T, const N: usize> vstd::std_specs::core::IndexSpecImpl<I> for Per<I, T, N> {
    open spec fn index_req(&self, id: &I) -> bool {
        I::size() <= N
    }
}

impl<I: Id, T, const N: usize> Index<I> for Per<I, T, N> {
    type Output = T;

    fn index(&self, id: I) -> (r: &T)
        ensures
            *r == self.at(id),
    {
        let i: usize = id.index();
        &self.items[i]
    }
}

impl<I: Id, T, const N: usize> IndexMut<I> for Per<I, T, N> {
    fn index_mut(&mut self, id: I) -> (r: &mut T)
        requires
            I::size() <= N,
        ensures
            *r == old(self).at(id),
            final(self)@ == old(self)@.update(id.position(), *final(r)),
    {
        let i: usize = id.index();
        &mut self.items[i]
    }
}

/// Writing the entry of one id leaves every other id's entry as it was.
pub proof fn writing_one_entry_keeps_the_others<I: Id, T, const N: usize>(
    before: Per<I, T, N>,
    after: Per<I, T, N>,
    written: I,
    value: T,
    read: I,
)
    requires
        I::size() == N,
        after@ == before@.update(written.position(), value),
    ensures
        after.at(read) == if read == written {
            value
        } else {
            before.at(read)
        },
{
    written.position_in_range();
    read.position_in_range();
    written.nth_inverts_position();
    read.nth_inverts_position();
}

impl<I, const N: usize> Per<I, bool, N> {
    /// True when any slot is set.
    pub fn any(&self) -> (r: bool)
        ensures
            r == exists|i: int| 0 <= i < N && #[trigger] self@[i],
    {
        let mut i: usize = 0;
        while i < N
            invariant
                i <= N,
                forall|j: int| 0 <= j < i ==> !#[trigger] self@[j],
            decreases N - i,
        {
            if self.items[i] {
                assert(self@[i as int]);
                return true;
            }
            i += 1;
        }
        false
    }
}

impl<I, T: Copy + Default, const N: usize> Default for Per<I, T, N> {
    fn default() -> (r: Self)
        ensures
            exists|value: T|
                #[trigger] call_ensures(T::default, (), value) && r@ == Seq::new(
                    N as nat,
                    |i: int| value,
                ),
    {
        Self::splat(T::default())
    }
}

/// A converter stands nine places further for every bus before its own, and its strap's places behind
/// that; it is made of the bus and the strap that it gives back.
pub proof fn an_adc_slot_stands_behind_its_bus(bus: I2cBus, amplifier: AmplifierId)
    ensures
        AdcSlot::spec_new(bus, amplifier).spec_bus() == bus,
        AdcSlot::spec_new(bus, amplifier).spec_amplifier() == amplifier,
        AdcSlot::spec_new(bus, amplifier).position() == 9 * bus.position() + amplifier.position(),
{
}

/// The first pair is outputs 1 and 2 on the second rail, the second pair outputs 3 and 4 on the third;
/// power is the lower output of each.
pub proof fn each_pair_has_its_outputs_and_its_rail()
    ensures
        HcoPair::A.spec_power() == HcoId::Hco0 && HcoPair::A.spec_signal() == HcoId::Hco1,
        HcoPair::B.spec_power() == HcoId::Hco2 && HcoPair::B.spec_signal() == HcoId::Hco3,
        HcoPair::A.spec_rail() == RailId::Hco12 && HcoPair::B.spec_rail() == RailId::Hco34,
        RailId::Hco12.position() == 1 && RailId::Hco34.position() == 2,
        HcoId::Hco0.spec_pair() == HcoPair::A && HcoId::Hco1.spec_pair() == HcoPair::A,
        HcoId::Hco2.spec_pair() == HcoPair::B && HcoId::Hco3.spec_pair() == HcoPair::B,
{
}

} // verus!
