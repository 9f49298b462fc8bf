use vstd::prelude::*;
use crate::memory::Memory;

verus! {

/// The timer block; of its registers only the divider (0xFF04) is emulated.
/// The divider is the high byte of a 16-bit counter that counts clock cycles.
#[derive(Debug, PartialEq, Eq, Structural, Clone, Copy)]
pub struct Timer {
    pub counter: u16,
}

pub const DIV_ADDR: u16 = 0xFF04;

impl Timer {
    pub fn init() -> (r: Timer)
        ensures
            r.counter == 0,
    {
        Timer { counter: 0 }
    }

    /// Counts `cpu_clock_cycles` more cycles.
    pub fn run_cycles(&mut self, cpu_clock_cycles: u32)
        ensures
            final(self).counter == (old(self).counter + cpu_clock_cycles) % 65536,
    {
        self.counter = ((self.counter as u64 + cpu_clock_cycles as u64) % 65536) as u16;
    }
}

impl Memory for Timer {
    open spec fn inv(&self) -> bool {
        true
    }

    open spec fn mapped(addr: u16) -> bool {
        addr == DIV_ADDR
    }

    open spec fn peek(&self, addr: u16) -> u8 {
        (self.counter / 256) as u8
    }

    open spec fn written(&self, addr: u16, data: u8, post: Timer) -> bool {
        post.counter == data * 256
    }

    fn read8(&self, _addr: u16) -> (r: u8) {
        (self.counter / 256) as u8
    }

    fn write8(&mut self, _addr: u16, data: u8) {
        self.counter = data as u16 * 256;
    }
}

} // verus!
