pub mod memory;
pub mod cartridge;
pub mod interrupts;
pub mod apu;
pub mod joypad;
pub mod serial_cable;
pub mod timer;
pub mod palette;
pub mod gpu;
pub mod memory_management_unit;
pub mod cpu;
pub mod main_board;
