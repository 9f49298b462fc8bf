use vstd::prelude::*;
use crate::interrupts::{InterruptKind, Interrupts, interrupt_bit};
use crate::memory::Memory;

verus! {

pub const WIDTH: usize = 160;
pub const HEIGHT: usize = 144;
pub const DOTS_PER_HLINE: u32 = 456;
pub const SCANLINES: u32 = 154;
pub const DOTS_PER_VBLANK: u32 = 4560;
pub const DOTS_PER_FRAME: u32 = 70224;
pub const DOTS_BEFORE_VBLANK: u32 = 65664;

/// What the display controller is doing at a given dot.
#[derive(Debug, PartialEq, Eq, Structural, Clone, Copy)]
pub enum Mode {
    HorizontalBlank,
    VerticalBlank,
    OamScan,
    DrawingPixels,
}

/// The mode at dot `dot` of a frame.
pub open spec fn mode_at(dot: nat) -> Mode {
    if dot >= DOTS_BEFORE_VBLANK {
        Mode::VerticalBlank
    } else if dot % (DOTS_PER_HLINE as nat) < 80 {
        Mode::OamScan
    } else if dot % (DOTS_PER_HLINE as nat) < 252 {
        Mode::DrawingPixels
    } else {
        Mode::HorizontalBlank
    }
}

/// Advancing from `dot` by `cycles` crosses into vertical blank.
pub open spec fn enters_vblank(dot: nat, cycles: nat) -> bool {
    dot < DOTS_BEFORE_VBLANK && dot + cycles >= DOTS_BEFORE_VBLANK
}

fn will_enter_vblank(current_dot: u32, cycles_to_run: u32) -> (r: bool)
    ensures
        r == enters_vblank(current_dot as nat, cycles_to_run as nat),
{
    current_dot < DOTS_BEFORE_VBLANK && (current_dot as u64 + cycles_to_run as u64)
        >= DOTS_BEFORE_VBLANK as u64
}

/// The display timing state: the dot within the frame and the display registers.
pub struct GpuView {
    pub dot: nat,
    pub lcd_control: u8,
    pub lcd_status: u8,
    pub scroll_y: u8,
    pub scroll_x: u8,
    pub ly_compare: u8,
    pub obj_palette_0_data: u8,
    pub obj_palette_1_data: u8,
    pub window_pos_y: u8,
    pub window_pos_x: u8,
}

/// The register addresses this unit decodes.
pub open spec fn is_gpu_register(addr: u16) -> bool {
    (0xFF40 <= addr && addr <= 0xFF45) || (0xFF48 <= addr && addr <= 0xFF4B)
}

impl GpuView {
    pub open spec fn inv(&self) -> bool {
        self.dot < DOTS_PER_FRAME
    }

    /// The scanline register (0xFF44), derived from the dot counter.
    pub open spec fn scanline(&self) -> nat {
        self.dot / (DOTS_PER_HLINE as nat)
    }

    pub open spec fn mode(&self) -> Mode {
        mode_at(self.dot)
    }

    pub open spec fn read(&self, addr: u16) -> u8 {
        if addr == 0xFF40 {
            self.lcd_control
        } else if addr == 0xFF41 {
            self.lcd_status
        } else if addr == 0xFF42 {
            self.scroll_y
        } else if addr == 0xFF43 {
            self.scroll_x
        } else if addr == 0xFF44 {
            self.scanline() as u8
        } else if addr == 0xFF45 {
            self.ly_compare
        } else if addr == 0xFF48 {
            self.obj_palette_0_data
        } else if addr == 0xFF49 {
            self.obj_palette_1_data
        } else if addr == 0xFF4A {
            self.window_pos_y
        } else {
            self.window_pos_x
        }
    }

    /// A write: the low three status bits are read-only, and a write to the
    /// scanline register restarts the frame instead of storing the byte.
    pub open spec fn write(&self, addr: u16, data: u8) -> GpuView {
        if addr == 0xFF40 {
            GpuView { lcd_control: data, ..*self }
        } else if addr == 0xFF41 {
            GpuView { lcd_status: (self.lcd_status & 0x07) | (data & 0xF8), ..*self }
        } else if addr == 0xFF42 {
            GpuView { scroll_y: data, ..*self }
        } else if addr == 0xFF43 {
            GpuView { scroll_x: data, ..*self }
        } else if addr == 0xFF44 {
            GpuView { dot: 0, ..*self }
        } else if addr == 0xFF45 {
            GpuView { ly_compare: data, ..*self }
        } else if addr == 0xFF48 {
            GpuView { obj_palette_0_data: data, ..*self }
        } else if addr == 0xFF49 {
            GpuView { obj_palette_1_data: data, ..*self }
        } else if addr == 0xFF4A {
            GpuView { window_pos_y: data, ..*self }
        } else {
            GpuView { window_pos_x: data, ..*self }
        }
    }

    /// The state after `cycles` more dots.
    pub open spec fn advance(&self, cycles: nat) -> GpuView {
        GpuView { dot: (self.dot + cycles) % (DOTS_PER_FRAME as nat), ..*self }
    }
}

/// The state at power-up: dot 0, registers cleared, object palettes all 0xFF.
pub open spec fn initial_gpu() -> GpuView {
    GpuView {
        dot: 0,
        lcd_control: 0,
        lcd_status: 0,
        scroll_y: 0,
        scroll_x: 0,
        ly_compare: 0,
        obj_palette_0_data: 0xFF,
        obj_palette_1_data: 0xFF,
        window_pos_y: 0,
        window_pos_x: 0,
    }
}

pub struct Gpu {
    current_dot: u32,
    lcd_control: u8,
    lcd_status: u8,
    scroll_y: u8,
    scroll_x: u8,
    ly_compare: u8,
    obj_palette_0_data: u8,
    obj_palette_1_data: u8,
    window_pos_y: u8,
    window_pos_x: u8,
}

impl View for Gpu {
    type V = GpuView;

    closed spec fn view(&self) -> GpuView {
        GpuView {
            dot: self.current_dot as nat,
            lcd_control: self.lcd_control,
            lcd_status: self.lcd_status,
            scroll_y: self.scroll_y,
            scroll_x: self.scroll_x,
            ly_compare: self.ly_compare,
            obj_palette_0_data: self.obj_palette_0_data,
            obj_palette_1_data: self.obj_palette_1_data,
            window_pos_y: self.window_pos_y,
            window_pos_x: self.window_pos_x,
        }
    }
}

impl Gpu {
    pub fn init() -> (r: Gpu)
        ensures
            r@ == initial_gpu(),
    {
        Gpu {
            current_dot: 0,
            lcd_control: 0x00,
            lcd_status: 0x00,
            scroll_y: 0x00,
            scroll_x: 0x00,
            ly_compare: 0x00,
            obj_palette_0_data: 0xFF,
            obj_palette_1_data: 0xFF,
            window_pos_y: 0,
            window_pos_x: 0,
        }
    }

    /// Advances the dot counter by `cpu_clock_cycles`, requesting the vertical-blank
    /// interrupt when the advance crosses into vertical blank.
    pub fn run_cycles(&mut self, cpu_clock_cycles: u32, interrupts: &mut Interrupts)
        requires
            old(self)@.inv(),
        ensures
            final(self)@ == old(self)@.advance(cpu_clock_cycles as nat),
            final(self)@.inv(),
            final(interrupts).enabled == old(interrupts).enabled,
            final(interrupts).requested == if enters_vblank(
                old(self)@.dot,
                cpu_clock_cycles as nat,
            ) {
                old(interrupts).requested | interrupt_bit(InterruptKind::VerticalBlank)
            } else {
                old(interrupts).requested
            },
    {
        if will_enter_vblank(self.current_dot, cpu_clock_cycles) {
            interrupts.request(InterruptKind::VerticalBlank);
        }
        self.current_dot = ((self.current_dot as u64 + cpu_clock_cycles as u64)
            % DOTS_PER_FRAME as u64) as u32;
    }

    /// The dot within the current frame.
    pub fn current_dot(&self) -> (r: u32)
        ensures
            r as nat == self@.dot,
    {
        self.current_dot
    }

    /// The current scanline, 0 to 153.
    pub fn scanline(&self) -> (r: u8)
        requires
            self@.inv(),
        ensures
            r as nat == self@.scanline(),
    {
        (self.current_dot / DOTS_PER_HLINE) as u8
    }

    /// The current mode, derived from the dot counter.
    pub fn mode(&self) -> (r: Mode)
        ensures
            r == self@.mode(),
    {
        if self.current_dot >= DOTS_BEFORE_VBLANK {
            Mode::VerticalBlank
        } else if self.current_dot % DOTS_PER_HLINE < 80 {
            Mode::OamScan
        } else if self.current_dot % DOTS_PER_HLINE < 252 {
            Mode::DrawingPixels
        } else {
            Mode::HorizontalBlank
        }
    }

    /// No frame is rendered yet, so there is never a new image.
    pub fn get_updated_image(&mut self) -> (r: Option<[[u8; 160]; 144]>)
        ensures
            r is None,
            final(self)@ == old(self)@,
    {
        None
    }

    pub fn is_in_vblank(&self) -> (r: bool)
        requires
            self@.inv(),
        ensures
            r == (self@.mode() == Mode::VerticalBlank),
    {
        let ly = self.current_dot / DOTS_PER_HLINE;
        144 <= ly && ly <= 153
    }
}

impl Memory for Gpu {
    open spec fn inv(&self) -> bool {
        self@.inv()
    }

    open spec fn mapped(addr: u16) -> bool {
        is_gpu_register(addr)
    }

    open spec fn peek(&self, addr: u16) -> u8 {
        self@.read(addr)
    }

    open spec fn written(&self, addr: u16, data: u8, post: Gpu) -> bool {
        post@ == self@.write(addr, data)
    }

    fn read8(&self, addr: u16) -> (r: u8) {
        match addr {
            0xFF40 => self.lcd_control,
            0xFF41 => self.lcd_status,
            0xFF42 => self.scroll_y,
            0xFF43 => self.scroll_x,
            0xFF44 => (self.current_dot / DOTS_PER_HLINE) as u8,
            0xFF45 => self.ly_compare,
            0xFF48 => self.obj_palette_0_data,
            0xFF49 => self.obj_palette_1_data,
            0xFF4A => self.window_pos_y,
            _ => self.window_pos_x,
        }
    }

    fn write8(&mut self, addr: u16, data: u8) {
        match addr {
            0xFF40 => self.lcd_control = data,
            0xFF41 => self.lcd_status = (self.lcd_status & 0x07) | (data & 0xF8),
            0xFF42 => self.scroll_y = data,
            0xFF43 => self.scroll_x = data,
            0xFF44 => self.current_dot = 0,
            0xFF45 => self.ly_compare = data,
            0xFF48 => self.obj_palette_0_data = data,
            0xFF49 => self.obj_palette_1_data = data,
            0xFF4A => self.window_pos_y = data,
            _ => self.window_pos_x = data,
        }
    }
}

} // verus!
