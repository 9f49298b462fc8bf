use vstd::prelude::*;
use crate::memory::Memory;

verus! {

/// The serial-link unit. None of its registers is emulated yet, so it decodes no address.
pub struct SerialCable {}

impl SerialCable {
    pub fn init() -> SerialCable {
        SerialCable {}
    }
}

impl Memory for SerialCable {
    open spec fn inv(&self) -> bool {
        true
    }

    open spec fn mapped(addr: u16) -> bool {
        false
    }

    open spec fn peek(&self, addr: u16) -> u8 {
        0xFF
    }

    open spec fn written(&self, addr: u16, data: u8, post: SerialCable) -> bool {
        true
    }

    fn read8(&self, _addr: u16) -> (r: u8) {
        0xFF
    }

    fn write8(&mut self, _addr: u16, _data: u8) {
    }
}

} // verus!
