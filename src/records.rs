use vstd::prelude::*;

use crate::flags::Flags;

verus! {

/// What the kernel reports of one line.
#[derive(Clone, Debug)]
pub struct LineInfo {
    /// The line's index on its chip.
    pub gpio: u32,
    /// The line's name, possibly empty.
    pub name: String,
    /// The name of the line's consumer, possibly empty.
    pub consumer: String,
    /// The line's state.
    pub flags: Flags,
}

/// The edge that an event reports.
#[allow(non_camel_case_types)]
#[derive(Clone, Copy, Debug, PartialEq, Eq, Structural)]
pub enum EventId {
    /// The line changed from low to high.
    RISING_EDGE,
    /// The line changed from high to low.
    FALLING_EDGE,
}

/// The code of each edge in an event record.
pub open spec fn event_code(id: EventId) -> u32 {
    match id {
        EventId::RISING_EDGE => 1,
        EventId::FALLING_EDGE => 2,
    }
}

impl EventId {
    /// The code of this edge in an event record.
    pub fn code(&self) -> (r: u32)
        ensures
            r == event_code(*self),
    {
        match self {
            EventId::RISING_EDGE => 1,
            EventId::FALLING_EDGE => 2,
        }
    }
}

/// An edge event read from an event handle.
#[derive(Clone, Copy, Debug, PartialEq, Eq, Structural)]
pub struct GpioEvent {
    /// When the edge happened, in nanoseconds.
    pub timestamp: u64,
    /// Which edge it was.
    pub id: EventId,
}

/// The values of the lines of a handle, by position, as one record.
#[allow(non_camel_case_types)]
#[derive(Clone, Debug)]
pub struct gpiohandle_data {
    pub values: Vec<u8>,
}

} // verus!
