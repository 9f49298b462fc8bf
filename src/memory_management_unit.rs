use vstd::prelude::*;
use crate::apu::Apu;
use crate::cartridge::{Cartridge, CartridgeView, is_cartridge_addr};
use crate::gpu::{Gpu, GpuView, is_gpu_register, enters_vblank, initial_gpu};
use crate::interrupts::{InterruptKind, Interrupts, interrupt_bit};
use crate::joypad::Joypad;
use crate::memory::{Memory, word, low_byte, high_byte, zeroed};
use crate::serial_cable::SerialCable;
use crate::timer::Timer;

verus! {

pub const WORK_RAM_BANK_SIZE: usize = 4096;
pub const HRAM_SIZE: usize = 128;

/// The addresses the bus decodes. Video RAM, object memory, the sound, input
/// and serial registers and the other I/O registers are not emulated: an access
/// there is a fault.
pub open spec fn bus_mapped(addr: u16) -> bool {
    ||| is_cartridge_addr(addr)
    ||| (0xC000 <= addr && addr <= 0xFDFF)
    ||| addr == 0xFF04
    ||| addr == 0xFF0F
    ||| is_gpu_register(addr)
    ||| 0xFF80 <= addr
}

/// Everything the bus can reach.
pub struct BusView {
    pub cartridge: CartridgeView,
    pub gpu: GpuView,
    pub timer: Timer,
    pub interrupts: Interrupts,
    pub work_ram_c000: Seq<u8>,
    pub work_ram_d000: Seq<u8>,
    pub hram: Seq<u8>,
}

impl BusView {
    pub open spec fn inv(&self) -> bool {
        &&& self.cartridge.inv()
        &&& self.gpu.inv()
        &&& self.work_ram_c000.len() == WORK_RAM_BANK_SIZE
        &&& self.work_ram_d000.len() == WORK_RAM_BANK_SIZE
        &&& self.hram.len() == HRAM_SIZE
    }

    /// A read; 0xE000..=0xFDFF mirrors 0xC000..=0xDDFF.
    #[verifier::opaque]
    pub open spec fn read(&self, addr: u16) -> u8 {
        if is_cartridge_addr(addr) {
            self.cartridge.read(addr)
        } else if 0xC000 <= addr && addr <= 0xCFFF {
            self.work_ram_c000[addr - 0xC000]
        } else if 0xD000 <= addr && addr <= 0xDFFF {
            self.work_ram_d000[addr - 0xD000]
        } else if 0xE000 <= addr && addr <= 0xEFFF {
            self.work_ram_c000[addr - 0xE000]
        } else if 0xF000 <= addr && addr <= 0xFDFF {
            self.work_ram_d000[addr - 0xF000]
        } else if addr == 0xFF04 {
            (self.timer.counter / 256) as u8
        } else if addr == 0xFF0F {
            self.interrupts.requested
        } else if is_gpu_register(addr) {
            self.gpu.read(addr)
        } else if 0xFF80 <= addr && addr <= 0xFFFE {
            self.hram[addr - 0xFF80]
        } else {
            self.interrupts.enabled
        }
    }

    #[verifier::opaque]
    pub open spec fn write(&self, addr: u16, data: u8) -> BusView {
        if is_cartridge_addr(addr) {
            BusView { cartridge: self.cartridge.write(addr, data), ..*self }
        } else if 0xC000 <= addr && addr <= 0xCFFF {
            BusView { work_ram_c000: self.work_ram_c000.update(addr - 0xC000, data), ..*self }
        } else if 0xD000 <= addr && addr <= 0xDFFF {
            BusView { work_ram_d000: self.work_ram_d000.update(addr - 0xD000, data), ..*self }
        } else if 0xE000 <= addr && addr <= 0xEFFF {
            BusView { work_ram_c000: self.work_ram_c000.update(addr - 0xE000, data), ..*self }
        } else if 0xF000 <= addr && addr <= 0xFDFF {
            BusView { work_ram_d000: self.work_ram_d000.update(addr - 0xF000, data), ..*self }
        } else if addr == 0xFF04 {
            BusView { timer: Timer { counter: (data * 256) as u16 }, ..*self }
        } else if addr == 0xFF0F {
            BusView { interrupts: Interrupts { requested: data, ..self.interrupts }, ..*self }
        } else if is_gpu_register(addr) {
            BusView { gpu: self.gpu.write(addr, data), ..*self }
        } else if 0xFF80 <= addr && addr <= 0xFFFE {
            BusView { hram: self.hram.update(addr - 0xFF80, data), ..*self }
        } else {
            BusView { interrupts: Interrupts { enabled: data, ..self.interrupts }, ..*self }
        }
    }

    /// The bus after `cycles` clock cycles: the timer counts them, the display
    /// unit advances and may request the vertical-blank interrupt.
    pub open spec fn advance(&self, cycles: nat) -> BusView {
        BusView {
            timer: Timer { counter: ((self.timer.counter + cycles) % 65536) as u16 },
            gpu: self.gpu.advance(cycles),
            interrupts: if enters_vblank(self.gpu.dot, cycles) {
                Interrupts {
                    requested: self.interrupts.requested | interrupt_bit(
                        InterruptKind::VerticalBlank,
                    ),
                    ..self.interrupts
                }
            } else {
                self.interrupts
            },
            ..*self
        }
    }
}

/// The bus at power-up around a cartridge: RAM cleared, peripherals in their start state.
pub open spec fn power_on_bus(cartridge: CartridgeView) -> BusView {
    BusView {
        cartridge: cartridge,
        gpu: initial_gpu(),
        timer: Timer { counter: 0 },
        interrupts: Interrupts { requested: 0, enabled: 0 },
        work_ram_c000: Seq::new(WORK_RAM_BANK_SIZE as nat, |i: int| 0u8),
        work_ram_d000: Seq::new(WORK_RAM_BANK_SIZE as nat, |i: int| 0u8),
        hram: Seq::new(HRAM_SIZE as nat, |i: int| 0u8),
    }
}

/// `addr` and `addr + 1` are backed by adjacent bytes of one RAM block.
pub open spec fn same_ram_block(addr: u16) -> bool {
    ||| (0xC000 <= addr && addr < 0xCFFF)
    ||| (0xD000 <= addr && addr < 0xDFFF)
    ||| (0xE000 <= addr && addr < 0xEFFF)
    ||| (0xF000 <= addr && addr < 0xFDFF)
    ||| (0xFF80 <= addr && addr < 0xFFFE)
}

/// The memory bus: decodes each address to the block that owns it.
pub struct MemoryManagementUnit {
    cartridge: Cartridge,
    apu: Apu,
    gpu: Gpu,
    joypad: Joypad,
    serial_cable: SerialCable,
    timer: Timer,
    interrupts: Interrupts,
    work_ram_c000: Vec<u8>,
    work_ram_d000: Vec<u8>,
    hram: Vec<u8>,
}

impl View for MemoryManagementUnit {
    type V = BusView;

    closed spec fn view(&self) -> BusView {
        BusView {
            cartridge: self.cartridge@,
            gpu: self.gpu@,
            timer: self.timer,
            interrupts: self.interrupts,
            work_ram_c000: self.work_ram_c000@,
            work_ram_d000: self.work_ram_d000@,
            hram: self.hram@,
        }
    }
}

impl MemoryManagementUnit {
    /// A bus around `cartridge`, with cleared RAM and peripherals in their start state.
    pub fn init(cartridge: Cartridge) -> (r: MemoryManagementUnit)
        requires
            cartridge.inv(),
        ensures
            r@.inv(),
            r@ == power_on_bus(cartridge@),
    {
        MemoryManagementUnit {
            cartridge,
            apu: Apu::init(),
            gpu: Gpu::init(),
            joypad: Joypad::init(),
            serial_cable: SerialCable::init(),
            timer: Timer::init(),
            interrupts: Interrupts::init(),
            work_ram_c000: zeroed(WORK_RAM_BANK_SIZE),
            work_ram_d000: zeroed(WORK_RAM_BANK_SIZE),
            hram: zeroed(HRAM_SIZE),
        }
    }

    /// Whether the bus decodes `addr`.
    pub fn is_mapped(addr: u16) -> (r: bool)
        ensures
            r == bus_mapped(addr),
    {
        (addr <= 0x7FFF) || (0xA000 <= addr && addr <= 0xBFFF) || (0xC000 <= addr && addr <= 0xFDFF)
            || addr == 0xFF04 || addr == 0xFF0F || (0xFF40 <= addr && addr <= 0xFF45) || (0xFF48
            <= addr && addr <= 0xFF4B) || 0xFF80 <= addr
    }

    /// Forwards elapsed clock cycles to the time-driven blocks.
    pub fn run_cycles(&mut self, cpu_clock_cycles: u32)
        requires
            old(self)@.inv(),
        ensures
            final(self)@ == old(self)@.advance(cpu_clock_cycles as nat),
            final(self)@.inv(),
    {
        self.timer.run_cycles(cpu_clock_cycles);
        self.gpu.run_cycles(cpu_clock_cycles, &mut self.interrupts);
    }

    pub fn cartridge(&self) -> (r: &Cartridge)
        ensures
            r@ == self@.cartridge,
    {
        &self.cartridge
    }

    pub fn gpu(&self) -> (r: &Gpu)
        ensures
            r@ == self@.gpu,
    {
        &self.gpu
    }
}

impl Memory for MemoryManagementUnit {
    open spec fn inv(&self) -> bool {
        self@.inv()
    }

    open spec fn mapped(addr: u16) -> bool {
        bus_mapped(addr)
    }

    open spec fn peek(&self, addr: u16) -> u8 {
        self@.read(addr)
    }

    open spec fn written(&self, addr: u16, data: u8, post: MemoryManagementUnit) -> bool {
        post@ == self@.write(addr, data)
    }

    fn read8(&self, addr: u16) -> (r: u8) {
        reveal(BusView::read);
        match addr {
            0x0000..=0x7FFF => self.cartridge.read8(addr),
            0xA000..=0xBFFF => self.cartridge.read8(addr),
            0xC000..=0xCFFF => self.work_ram_c000[(addr - 0xC000) as usize],
            0xD000..=0xDFFF => self.work_ram_d000[(addr - 0xD000) as usize],
            0xE000..=0xEFFF => self.work_ram_c000[(addr - 0xE000) as usize],
            0xF000..=0xFDFF => self.work_ram_d000[(addr - 0xF000) as usize],
            0xFF00 => self.joypad.read8(addr),
            0xFF01 | 0xFF02 => self.serial_cable.read8(addr),
            0xFF04..=0xFF07 => self.timer.read8(addr),
            0xFF0F => self.interrupts.requested,
            0xFF10..=0xFF26 => self.apu.read8(addr),
            0xFF40..=0xFF4B => self.gpu.read8(addr),
            0xFF80..=0xFFFE => self.hram[(addr - 0xFF80) as usize],
            _ => self.interrupts.enabled,
        }
    }

    fn write8(&mut self, addr: u16, data: u8) {
        reveal(BusView::write);
        match addr {
            0x0000..=0x7FFF => self.cartridge.write8(addr, data),
            0xA000..=0xBFFF => self.cartridge.write8(addr, data),
            0xC000..=0xCFFF => self.work_ram_c000.set((addr - 0xC000) as usize, data),
            0xD000..=0xDFFF => self.work_ram_d000.set((addr - 0xD000) as usize, data),
            0xE000..=0xEFFF => self.work_ram_c000.set((addr - 0xE000) as usize, data),
            0xF000..=0xFDFF => self.work_ram_d000.set((addr - 0xF000) as usize, data),
            0xFF00 => self.joypad.write8(addr, data),
            0xFF01 | 0xFF02 => self.serial_cable.write8(addr, data),
            0xFF04..=0xFF07 => self.timer.write8(addr, data),
            0xFF0F => self.interrupts.requested = data,
            0xFF10..=0xFF26 => self.apu.write8(addr, data),
            0xFF40..=0xFF4B => self.gpu.write8(addr, data),
            0xFF80..=0xFFFE => self.hram.set((addr - 0xFF80) as usize, data),
            _ => self.interrupts.enabled = data,
        }
    }
}

/// Writing a 16-bit value and reading it back gives the value, low byte at
/// `addr` and high byte at `addr + 1`, wherever both bytes fall in one RAM block.
pub proof fn lemma_write16_read16(
    m0: MemoryManagementUnit,
    m1: MemoryManagementUnit,
    m2: MemoryManagementUnit,
    addr: u16,
    v: u16,
)
    requires
        m0.inv(),
        same_ram_block(addr),
        m0.written(addr, low_byte(v), m1),
        m1.written((addr + 1) as u16, high_byte(v), m2),
    ensures
        m2.peek(addr) == low_byte(v),
        m2.peek((addr + 1) as u16) == high_byte(v),
        word(m2.peek(addr), m2.peek((addr + 1) as u16)) == v,
{
    reveal(BusView::read);
    reveal(BusView::write);
}

} // verus!
