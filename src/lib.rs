//! Access to Linux gpiochip character devices.
//!
//! This library holds the part of a gpiochip client that decides and
//! computes: the byte layout of the kernel's ioctl records, the decoding
//! of their fixed-size text fields, the checks made before a request
//! reaches the kernel, and the bitmap of an event wait. The calls into the
//! kernel stand outside it and hand it plain values.

pub mod abi;
pub mod error;
pub mod flags;
pub mod records;
pub mod text;
pub mod wait;

pub use error::{from_nix_error, from_nix_result, GpioError};
pub use flags::{EventRequestFlags, Flags, RequestFlags};
pub use records::{gpiohandle_data, EventId, GpioEvent, LineInfo};
