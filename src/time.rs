//! Time units.
use vstd::prelude::*;

verus! {

/// A frequency in hertz.
#[derive(Clone, Copy, Debug, PartialEq, Eq, Structural)]
pub struct Hertz(pub u32);

/// A baud rate in bits per second.
#[derive(Clone, Copy, Debug, PartialEq, Eq, Structural)]
pub struct Bps(pub u32);

} // verus!
