use vstd::prelude::*;

verus! {

/// The state of a line as the kernel reports it: a set of bits.
#[derive(Clone, Copy, Debug, PartialEq, Eq, Structural)]
pub struct Flags {
    pub bits: u32,
}

/// The mode in which a line is requested: a set of bits.
#[derive(Clone, Copy, Debug, PartialEq, Eq, Structural)]
pub struct RequestFlags {
    pub bits: u32,
}

/// The edges on which an event handle reports: a set of bits.
#[derive(Clone, Copy, Debug, PartialEq, Eq, Structural)]
pub struct EventRequestFlags {
    pub bits: u32,
}

/// Line is used by the kernel.
pub const LINE_KERNEL: u32 = 0b00001;
/// Line is in output mode (unset: input mode).
pub const LINE_OUTPUT: u32 = 0b00010;
/// Line is active-low.
pub const LINE_ACTIVE_LOW: u32 = 0b00100;
/// Line is open-drain.
pub const LINE_OPEN_DRAIN: u32 = 0b01000;
/// Line is open-source.
pub const LINE_OPEN_SOURCE: u32 = 0b10000;

/// Request input mode.
pub const REQUEST_INPUT: u32 = 0b00001;
/// Request output mode.
pub const REQUEST_OUTPUT: u32 = 0b00010;
/// Request active-low.
pub const REQUEST_ACTIVE_LOW: u32 = 0b00100;
/// Request open-drain mode.
pub const REQUEST_OPEN_DRAIN: u32 = 0b01000;
/// Request open-source mode.
pub const REQUEST_OPEN_SOURCE: u32 = 0b10000;

/// Report rising edges.
pub const EVENT_RISING_EDGE: u32 = 0b01;
/// Report falling edges.
pub const EVENT_FALLING_EDGE: u32 = 0b10;
/// Report both edges.
pub const EVENT_BOTH_EDGES: u32 = 0b11;

impl Flags {
    pub fn from_bits(bits: u32) -> (r: Flags)
        ensures
            r.bits == bits,
    {
        Flags { bits }
    }

    pub fn bits(&self) -> (r: u32)
        ensures
            r == self.bits,
    {
        self.bits
    }

    /// Whether every bit of `other` is set in `self`.
    pub fn contains(&self, other: Flags) -> (r: bool)
        ensures
            r == (self.bits & other.bits == other.bits),
    {
        self.bits & other.bits == other.bits
    }
}

impl RequestFlags {
    pub fn from_bits(bits: u32) -> (r: RequestFlags)
        ensures
            r.bits == bits,
    {
        RequestFlags { bits }
    }

    pub fn bits(&self) -> (r: u32)
        ensures
            r == self.bits,
    {
        self.bits
    }

    /// The set of the bits of both.
    pub fn union(self, other: RequestFlags) -> (r: RequestFlags)
        ensures
            r.bits == self.bits | other.bits,
    {
        RequestFlags { bits: self.bits | other.bits }
    }

    /// Whether every bit of `other` is set in `self`.
    pub fn contains(&self, other: RequestFlags) -> (r: bool)
        ensures
            r == (self.bits & other.bits == other.bits),
    {
        self.bits & other.bits == other.bits
    }
}

impl EventRequestFlags {
    pub fn from_bits(bits: u32) -> (r: EventRequestFlags)
        ensures
            r.bits == bits,
    {
        EventRequestFlags { bits }
    }

    pub fn bits(&self) -> (r: u32)
        ensures
            r == self.bits,
    {
        self.bits
    }

    /// The set of the bits of both.
    pub fn union(self, other: EventRequestFlags) -> (r: EventRequestFlags)
        ensures
            r.bits == self.bits | other.bits,
    {
        EventRequestFlags { bits: self.bits | other.bits }
    }

    /// Whether every bit of `other` is set in `self`.
    pub fn contains(&self, other: EventRequestFlags) -> (r: bool)
        ensures
            r == (self.bits & other.bits == other.bits),
    {
        self.bits & other.bits == other.bits
    }
}

} // verus!
