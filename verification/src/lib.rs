//! Control core of a fan-speed daemon: the temperature-to-speed step policy,
//! the single-frame control protocol, the poll-step hysteresis rule and the
//! singleton service lock, all stated and proved; the hardware bus, the
//! sensor file and the socket endpoints live outside this crate.

pub mod config;
pub mod message;
pub mod policy;
pub mod service;

use vstd::prelude::*;

verus! {

/// The largest speed a fan command may carry.
pub const MAX_SPEED: u8 = 100;

} // verus!
