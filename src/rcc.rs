//! The parts of the reset and clock control block that the timers need.
use vstd::prelude::*;

use crate::time::Hertz;

verus! {

/// Frozen clock configuration: the APB1 bus clock and the APB1 prescaler ratio.
#[derive(Clone, Copy, Debug, PartialEq, Eq, Structural)]
pub struct Clocks {
    pub pclk1: Hertz,
    pub ppre1: u8,
}

impl Clocks {
    /// Frequency of the clock that drives the APB1 timers: the bus clock, doubled
    /// whenever the bus prescaler divides by more than one.
    pub open spec fn timer_clock(self) -> int {
        self.pclk1.0 * (if self.ppre1 == 1 { 1int } else { 2int })
    }

    pub fn new(pclk1: Hertz, ppre1: u8) -> (r: Clocks)
        ensures
            r.pclk1 == pclk1,
            r.ppre1 == ppre1,
    {
        Clocks { pclk1, ppre1 }
    }

    /// The APB1 bus clock.
    pub fn pclk1(&self) -> (r: Hertz)
        ensures
            r == self.pclk1,
    {
        self.pclk1
    }

    /// The APB1 prescaler ratio.
    pub fn ppre1(&self) -> (r: u8)
        ensures
            r == self.ppre1,
    {
        self.ppre1
    }

    /// Frequency of the timer clock, in ticks per second.
    pub fn timer_clock_hz(&self) -> (r: u64)
        ensures
            r == self.timer_clock(),
    {
        let mult: u64 = if self.ppre1 == 1 { 1 } else { 2 };
        self.pclk1.0 as u64 * mult
    }
}

/// The APB1 clock-enable and reset registers, shared by the peripherals on the bus.
#[derive(Clone, Copy, Debug, PartialEq, Eq, Structural)]
pub struct Apb1 {
    /// Clock-enable bits (`APB1ENR`).
    pub enr: u32,
    /// Reset bits (`APB1RSTR`).
    pub rstr: u32,
}

impl Apb1 {
    /// Turns on the peripheral clock selected by `mask`, then pulses its reset line:
    /// the reset bit is set and cleared again.
    pub fn enable_and_reset(&mut self, mask: u32)
        ensures
            final(self).enr == old(self).enr | mask,
            final(self).rstr == old(self).rstr & !mask,
    {
        let rstr = self.rstr;
        self.enr = self.enr | mask;
        self.rstr = rstr | mask;
        self.rstr = self.rstr & !mask;
        assert((rstr | mask) & !mask == rstr & !mask) by (bit_vector);
    }
}

} // verus!
