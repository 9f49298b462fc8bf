use vstd::prelude::*;

verus! {

/// The sources that can ask the CPU for service.
#[derive(Debug, PartialEq, Eq, Structural, Clone, Copy)]
pub enum InterruptKind {
    VerticalBlank,
    DisplayStatus,
    Timer,
    Serial,
    Joypad,
}

/// The bit of the request and enable bytes that belongs to `kind`.
pub open spec fn interrupt_bit(kind: InterruptKind) -> u8 {
    match kind {
        InterruptKind::VerticalBlank => 0x01,
        InterruptKind::DisplayStatus => 0x02,
        InterruptKind::Timer => 0x04,
        InterruptKind::Serial => 0x08,
        InterruptKind::Joypad => 0x10,
    }
}

/// The interrupt controller: a request byte (0xFF0F) and an enable byte (0xFFFF).
#[derive(Debug, PartialEq, Eq, Structural, Clone, Copy)]
pub struct Interrupts {
    pub requested: u8,
    pub enabled: u8,
}

impl Interrupts {
    pub fn init() -> (r: Interrupts)
        ensures
            r.requested == 0,
            r.enabled == 0,
    {
        Interrupts { requested: 0, enabled: 0 }
    }

    /// Raises the request bit of `kind`; the enable byte is left alone.
    pub fn request(&mut self, kind: InterruptKind)
        ensures
            final(self).requested == old(self).requested | interrupt_bit(kind),
            final(self).enabled == old(self).enabled,
    {
        let bit: u8 = match kind {
            InterruptKind::VerticalBlank => 0x01,
            InterruptKind::DisplayStatus => 0x02,
            InterruptKind::Timer => 0x04,
            InterruptKind::Serial => 0x08,
            InterruptKind::Joypad => 0x10,
        };
        self.requested = self.requested | bit;
    }
}

} // verus!
