//! Frozen clock frequencies.
use vstd::prelude::*;
use crate::time::Hertz;

verus! {

/// Frozen clock frequencies.
///
/// The value is a snapshot: nothing changes it once it is made.
#[derive(Clone, Copy)]
pub struct Clocks {
    aclk: Hertz,
    apb0: Hertz,
    apb1: Hertz,
}

impl Clocks {
    /// The CPU frequency in the snapshot.
    pub closed spec fn cpu_hz(&self) -> int {
        self.aclk.0 as int
    }

    /// The APB0 frequency in the snapshot.
    pub closed spec fn apb0_hz(&self) -> int {
        self.apb0.0 as int
    }

    /// The APB1 frequency in the snapshot.
    pub closed spec fn apb1_hz(&self) -> int {
        self.apb1.0 as int
    }

    /// The frequencies the boot configuration leaves: a 390 MHz CPU clock and
    /// both APB buses at half of it.
    pub fn new() -> (r: Self)
        ensures
            r.cpu_hz() == 390_000_000,
            r.apb0_hz() == 195_000_000,
            r.apb1_hz() == 195_000_000,
    {
        Clocks {
            aclk: Hertz(390_000_000),
            apb0: Hertz(195_000_000),
            apb1: Hertz(195_000_000),
        }
    }

    /// A snapshot of the given frequencies.
    pub fn from_frequencies(aclk: Hertz, apb0: Hertz, apb1: Hertz) -> (r: Self)
        ensures
            r.cpu_hz() == aclk.0,
            r.apb0_hz() == apb0.0,
            r.apb1_hz() == apb1.0,
    {
        Clocks { aclk, apb0, apb1 }
    }

    /// Returns the CPU frequency.
    pub fn cpu(&self) -> (r: Hertz)
        ensures
            r.0 == self.cpu_hz(),
    {
        Hertz(self.aclk.0)
    }

    /// Returns the APB0 frequency.
    pub fn apb0(&self) -> (r: Hertz)
        ensures
            r.0 == self.apb0_hz(),
    {
        self.apb0
    }

    /// Returns the APB1 frequency.
    pub fn apb1(&self) -> (r: Hertz)
        ensures
            r.0 == self.apb1_hz(),
    {
        self.apb1
    }
}

} // verus!
