use rustyboy::cartridge::{self, Cartridge, CartridgeError, Mbc1, NoMbc};
use rustyboy::cpu::{Cpu, Fault, Flag};
use rustyboy::gpu::{Gpu, Mode};
use rustyboy::interrupts::{InterruptKind, Interrupts};
use rustyboy::main_board::MainBoard;
use rustyboy::memory::Memory;
use rustyboy::memory_management_unit::MemoryManagementUnit;
use rustyboy::palette::{PaletteData, PaletteDataColor};

/// A 32 KiB image without a bank controller whose bytes follow their offsets.
fn flat_rom() -> Vec<u8> {
    let mut rom: Vec<u8> = (0..0x8000usize).map(|i| (i % 251) as u8).collect();
    rom[0x0147] = 0x00;
    rom[0x0149] = 0x00;
    rom
}

/// A flat image with `program` at the entry point 0x0100.
fn rom_with_program(program: &[u8]) -> Vec<u8> {
    let mut rom = flat_rom();
    rom[0x0100..0x0100 + program.len()].copy_from_slice(program);
    rom
}

fn board_with_program(program: &[u8]) -> MainBoard {
    MainBoard::init(rom_with_program(program)).unwrap()
}

/// A 64 KiB MBC1 image: every byte holds its bank number in the high nibble.
fn banked_rom() -> Vec<u8> {
    let mut rom: Vec<u8> = (0..0x10000usize).map(|i| ((i / 16384) * 16 + i % 13) as u8).collect();
    rom[0x0147] = 0x01;
    rom[0x0149] = 0x02;
    rom
}

#[test]
fn display_timing_enters_vblank_and_wraps() {
    let mut gpu = Gpu::init();
    let mut interrupts = Interrupts::init();
    assert_eq!(gpu.mode(), Mode::OamScan);
    gpu.run_cycles(65664, &mut interrupts);
    assert_eq!(gpu.mode(), Mode::VerticalBlank);
    assert!(gpu.is_in_vblank());
    assert_eq!(gpu.scanline(), 144);
    assert_eq!(interrupts.requested & 0x01, 0x01);
    gpu.run_cycles(4560, &mut interrupts);
    assert_eq!(gpu.current_dot(), 0);
    assert_eq!(gpu.scanline(), 0);
    assert_eq!(gpu.mode(), Mode::OamScan);
    assert!(!gpu.is_in_vblank());
}

#[test]
fn display_timing_modes_within_a_line() {
    let mut gpu = Gpu::init();
    let mut interrupts = Interrupts::init();
    gpu.run_cycles(79, &mut interrupts);
    assert_eq!(gpu.mode(), Mode::OamScan);
    gpu.run_cycles(1, &mut interrupts);
    assert_eq!(gpu.mode(), Mode::DrawingPixels);
    gpu.run_cycles(172, &mut interrupts);
    assert_eq!(gpu.mode(), Mode::HorizontalBlank);
    gpu.run_cycles(204, &mut interrupts);
    assert_eq!(gpu.scanline(), 1);
    assert_eq!(gpu.mode(), Mode::OamScan);
    assert_eq!(interrupts.requested, 0);
}

#[test]
fn vblank_interrupt_requested_once_per_frame() {
    let mut gpu = Gpu::init();
    let mut interrupts = Interrupts::init();
    gpu.run_cycles(65663, &mut interrupts);
    assert_eq!(interrupts.requested, 0);
    gpu.run_cycles(1, &mut interrupts);
    assert_eq!(interrupts.requested, 0x01);
    interrupts.requested = 0;
    gpu.run_cycles(100, &mut interrupts);
    assert_eq!(interrupts.requested, 0);
}

#[test]
fn interrupt_request_sets_the_kind_bit() {
    let mut interrupts = Interrupts::init();
    interrupts.request(InterruptKind::Timer);
    interrupts.request(InterruptKind::Joypad);
    assert_eq!(interrupts.requested, 0x14);
    assert_eq!(interrupts.enabled, 0);
}

#[test]
fn bank_controller_selects_switchable_bank() {
    let rom = banked_rom();
    let mut cart = cartridge::init(rom.clone()).unwrap();
    assert_eq!(cart.read8(0x4000), rom[16384]);
    cart.write8(0x2000, 2);
    assert_eq!(cart.read8(0x4000), rom[2 * 16384]);
    assert_eq!(cart.read8(0x4000) >> 4, 2);
    assert_eq!(cart.read8(0x7FFF), rom[2 * 16384 + 0x3FFF]);
    cart.write8(0x2000, 0);
    assert_eq!(cart.read8(0x4000), rom[16384]);
    assert_eq!(cart.read8(0x0123), rom[0x0123]);
}

#[test]
fn bank_controller_wraps_bank_past_the_image() {
    let rom = banked_rom();
    let mut cart = cartridge::init(rom.clone()).unwrap();
    cart.write8(0x2000, 5);
    assert_eq!(cart.read8(0x4000), rom[16384]);
}

#[test]
fn bank_controller_ram_gated_by_enable() {
    let mut cart = cartridge::init(banked_rom()).unwrap();
    assert_eq!(cart.read8(0xA000), 0xFF);
    cart.write8(0xA000, 0x42);
    cart.write8(0x0000, 0x0A);
    assert_eq!(cart.read8(0xA000), 0x00);
    cart.write8(0xA000, 0x42);
    assert_eq!(cart.read8(0xA000), 0x42);
    cart.write8(0x0000, 0x00);
    assert_eq!(cart.read8(0xA000), 0xFF);
}

#[test]
fn no_controller_reads_image_and_ignores_writes() {
    let rom = flat_rom();
    let mut cart = cartridge::init(rom.clone()).unwrap();
    for addr in 0..0x8000u16 {
        assert_eq!(cart.read8(addr), rom[addr as usize]);
    }
    for addr in (0..0x8000u16).step_by(97) {
        cart.write8(addr, !rom[addr as usize]);
    }
    for addr in 0..0x8000u16 {
        assert_eq!(cart.read8(addr), rom[addr as usize]);
    }
    assert_eq!(cart.read8(0xA000), 0xFF);
}

#[test]
fn cartridge_variants_built_directly() {
    let flat = NoMbc::init(flat_rom());
    assert_eq!(flat.read8(0x0200), flat_rom()[0x0200]);
    let banked = Mbc1::init(banked_rom());
    assert_eq!(banked.read8(0x4000), banked_rom()[16384]);
}

#[test]
fn cartridge_errors() {
    assert!(matches!(cartridge::init(vec![0u8; 0x7FFF]), Err(CartridgeError::Truncated)));
    assert!(matches!(cartridge::check_header(&vec![0u8; 0x7FFF]), Err(CartridgeError::Truncated)));
    let mut rom = flat_rom();
    rom[0x0147] = 0x05;
    assert!(matches!(cartridge::check_header(&rom), Err(CartridgeError::UnknownType(0x05))));
    let mut rom = banked_rom();
    rom[0x0149] = 0x09;
    assert!(matches!(cartridge::check_header(&rom), Err(CartridgeError::UnknownRamSize(0x09))));
    assert!(cartridge::check_header(&flat_rom()).is_ok());
    assert!(cartridge::check_header(&banked_rom()).is_ok());
}

#[test]
fn cartridge_type_and_title() {
    let mut rom = flat_rom();
    rom[0x0134..0x0144].copy_from_slice(b"TETRIS\0\0\0\0\0\0\0\0\0\0");
    let cart = cartridge::init(rom).unwrap();
    assert_eq!(cart.get_type(), "NoMbc");
    assert_eq!(cart.get_title(), b"TETRIS".to_vec());
    let banked = cartridge::init(banked_rom()).unwrap();
    assert_eq!(banked.get_type(), "Mbc1");
}

#[test]
fn title_limited_on_colour_cartridges() {
    let mut rom = flat_rom();
    rom[0x0134..0x0144].copy_from_slice(b"ABCDEFGHIJKLMNOP");
    let cart = cartridge::init(rom.clone()).unwrap();
    assert_eq!(cart.get_title(), b"ABCDEFGHIJKLMNOP".to_vec());
    rom[0x0143] = 0x80;
    let cart = cartridge::init(rom).unwrap();
    assert_eq!(cart.get_title(), b"ABCDEFGHIJK".to_vec());
}

#[test]
fn bus_word_round_trip_little_endian() {
    let cart = cartridge::init(flat_rom()).unwrap();
    let mut mmu = MemoryManagementUnit::init(cart);
    mmu.write16(0xC000, 0xBEEF);
    assert_eq!(mmu.read16(0xC000), 0xBEEF);
    assert_eq!(mmu.read8(0xC000), 0xEF);
    assert_eq!(mmu.read8(0xC001), 0xBE);
    assert_eq!(mmu.read16(0xE000), 0xBEEF);
    mmu.write16(0xFF80, 0x1234);
    assert_eq!(mmu.read16(0xFF80), 0x1234);
    mmu.write16(0xDFFE, 0xA55A);
    assert_eq!(mmu.read16(0xDFFE), 0xA55A);
    assert_eq!(mmu.read16(0xFDFE), mmu.read16(0xDDFE));
}

#[test]
fn bus_mirror_and_registers() {
    let cart = cartridge::init(flat_rom()).unwrap();
    let mut mmu = MemoryManagementUnit::init(cart);
    mmu.write8(0xF123, 0x77);
    assert_eq!(mmu.read8(0xD123), 0x77);
    mmu.write8(0xFF41, 0xFF);
    assert_eq!(mmu.read8(0xFF41), 0xF8);
    mmu.write8(0xFF04, 0x12);
    assert_eq!(mmu.read8(0xFF04), 0x12);
    mmu.write8(0xFFFF, 0x1F);
    assert_eq!(mmu.read8(0xFFFF), 0x1F);
    assert_eq!(mmu.read8(0xFF48), 0xFF);
    assert!(MemoryManagementUnit::is_mapped(0xC000));
    assert!(!MemoryManagementUnit::is_mapped(0x8000));
    assert!(!MemoryManagementUnit::is_mapped(0xFF00));
}

#[test]
fn bus_forwards_cycles_to_display() {
    let cart = cartridge::init(flat_rom()).unwrap();
    let mut mmu = MemoryManagementUnit::init(cart);
    mmu.run_cycles(456 * 3);
    assert_eq!(mmu.read8(0xFF44), 3);
    mmu.run_cycles(65664 - 456 * 3);
    assert_eq!(mmu.read8(0xFF0F) & 0x01, 0x01);
    assert_eq!(mmu.gpu().mode(), Mode::VerticalBlank);
    mmu.write8(0xFF44, 0x99);
    assert_eq!(mmu.read8(0xFF44), 0);
}

#[test]
fn absolute_jump_end_to_end() {
    let mut board = board_with_program(&[0xC3, 0x50, 0x01]);
    assert_eq!(board.emulate_cpu_operation(), Ok(16));
    assert_eq!(board.cpu.pc, 0x0150);
    assert_eq!(board.mmu.gpu().current_dot(), 16);
}

#[test]
fn post_boot_registers() {
    let cpu = Cpu::init();
    assert_eq!(cpu.pc, 0x0100);
    assert_eq!(cpu.sp, 0xFFFE);
    assert_eq!(cpu.a, 0xFF);
    assert_eq!(cpu.flags(), 0x80);
    assert!(cpu.is_set(Flag::Z));
    assert!(!cpu.is_set(Flag::C));
}

#[test]
fn set_flag_changes_one_bit() {
    let mut cpu = Cpu::init();
    cpu.set_flag(Flag::C, true);
    cpu.set_flag(Flag::Z, false);
    assert_eq!(cpu.flags(), 0x10);
}

#[test]
fn increment_then_decrement_keeps_value_and_carry() {
    // SCF; INC B; DEC B; DEC C; INC C
    let mut board = board_with_program(&[0x37, 0x04, 0x05, 0x0D, 0x0C]);
    let b = board.cpu.b;
    let c = board.cpu.c;
    assert_eq!(board.emulate_cpu_operation(), Ok(4));
    assert!(board.cpu.carry);
    assert_eq!(board.emulate_cpu_operation(), Ok(4));
    assert_eq!(board.cpu.b, b.wrapping_add(1));
    assert!(board.cpu.carry);
    assert_eq!(board.emulate_cpu_operation(), Ok(4));
    assert_eq!(board.cpu.b, b);
    assert!(board.cpu.carry);
    assert_eq!(board.emulate_cpu_operation(), Ok(4));
    assert_eq!(board.emulate_cpu_operation(), Ok(4));
    assert_eq!(board.cpu.c, c);
    assert!(board.cpu.carry);
}

#[test]
fn increment_wraps_and_sets_flags() {
    // LD B,0xFF; INC B; DEC B
    let mut board = board_with_program(&[0x06, 0xFF, 0x04, 0x05]);
    assert_eq!(board.emulate_cpu_operation(), Ok(8));
    assert_eq!(board.emulate_cpu_operation(), Ok(4));
    assert_eq!(board.cpu.b, 0x00);
    assert!(board.cpu.zero);
    assert!(board.cpu.half_carry);
    assert!(!board.cpu.subtract);
    assert_eq!(board.emulate_cpu_operation(), Ok(4));
    assert_eq!(board.cpu.b, 0xFF);
    assert!(board.cpu.subtract);
    assert!(board.cpu.half_carry);
}

#[test]
fn compare_keeps_accumulator() {
    // CP A; CP 0x10
    let mut board = board_with_program(&[0xBF, 0xFE, 0x10]);
    assert_eq!(board.emulate_cpu_operation(), Ok(4));
    assert_eq!(board.cpu.a, 0xFF);
    assert!(board.cpu.zero);
    assert!(!board.cpu.carry);
    assert!(board.cpu.subtract);
    assert_eq!(board.emulate_cpu_operation(), Ok(8));
    assert_eq!(board.cpu.a, 0xFF);
    assert!(!board.cpu.zero);
    assert!(!board.cpu.carry);
}

#[test]
fn relative_jump_zero_offset() {
    let mut board = board_with_program(&[0x18, 0x00]);
    assert_eq!(board.emulate_cpu_operation(), Ok(12));
    assert_eq!(board.cpu.pc, 0x0102);
    // Z is set after boot: JR NZ is not taken, JR Z is.
    let mut board = board_with_program(&[0x20, 0x00, 0x28, 0x00]);
    assert_eq!(board.emulate_cpu_operation(), Ok(8));
    assert_eq!(board.cpu.pc, 0x0102);
    assert_eq!(board.emulate_cpu_operation(), Ok(12));
    assert_eq!(board.cpu.pc, 0x0104);
}

#[test]
fn relative_jump_backwards() {
    let mut board = board_with_program(&[0x18, 0xFE]);
    assert_eq!(board.emulate_cpu_operation(), Ok(12));
    assert_eq!(board.cpu.pc, 0x0100);
}

#[test]
fn call_and_return() {
    let mut rom = rom_with_program(&[0xCD, 0x00, 0x02]);
    rom[0x0200] = 0xC9;
    let mut board = MainBoard::init(rom).unwrap();
    assert_eq!(board.emulate_cpu_operation(), Ok(24));
    assert_eq!(board.cpu.pc, 0x0200);
    assert_eq!(board.cpu.sp, 0xFFFC);
    assert_eq!(board.mmu.read16(0xFFFC), 0x0103);
    assert_eq!(board.emulate_cpu_operation(), Ok(16));
    assert_eq!(board.cpu.pc, 0x0103);
    assert_eq!(board.cpu.sp, 0xFFFE);
}

#[test]
fn push_and_pop_pairs() {
    // LD BC,0x1234; PUSH BC; POP DE; PUSH AF; POP HL
    let mut board = board_with_program(&[0x01, 0x34, 0x12, 0xC5, 0xD1, 0xF5, 0xE1]);
    assert_eq!(board.emulate_cpu_operation(), Ok(12));
    assert_eq!(board.emulate_cpu_operation(), Ok(16));
    assert_eq!(board.mmu.read8(0xFFFD), 0x12);
    assert_eq!(board.mmu.read8(0xFFFC), 0x34);
    assert_eq!(board.emulate_cpu_operation(), Ok(12));
    assert_eq!((board.cpu.d, board.cpu.e), (0x12, 0x34));
    assert_eq!(board.emulate_cpu_operation(), Ok(16));
    assert_eq!(board.emulate_cpu_operation(), Ok(12));
    assert_eq!((board.cpu.h, board.cpu.l), (0xFF, 0x80));
}

#[test]
fn load_hl_sp_plus_offset() {
    // LD HL,SP-2
    let mut board = board_with_program(&[0xF8, 0xFE]);
    assert_eq!(board.emulate_cpu_operation(), Ok(12));
    assert_eq!((board.cpu.h, board.cpu.l), (0xFF, 0xFC));
    assert!(!board.cpu.zero);
    assert!(board.cpu.carry);
    assert!(board.cpu.half_carry);
}

#[test]
fn high_page_load_and_store() {
    // LD A,0x5A; LDH (0x80),A; LD A,0x00; LDH A,(0x80)
    let mut board = board_with_program(&[0x3E, 0x5A, 0xE0, 0x80, 0x3E, 0x00, 0xF0, 0x80]);
    assert_eq!(board.emulate_cpu_operation(), Ok(8));
    assert_eq!(board.emulate_cpu_operation(), Ok(12));
    assert_eq!(board.mmu.read8(0xFF80), 0x5A);
    assert_eq!(board.emulate_cpu_operation(), Ok(8));
    assert_eq!(board.emulate_cpu_operation(), Ok(12));
    assert_eq!(board.cpu.a, 0x5A);
}

#[test]
fn add_immediate_sets_all_carries() {
    // ADD A,0x01 with A = 0xFF
    let mut board = board_with_program(&[0xC6, 0x01]);
    assert_eq!(board.emulate_cpu_operation(), Ok(8));
    assert_eq!(board.cpu.a, 0x00);
    assert!(board.cpu.zero);
    assert!(board.cpu.half_carry);
    assert!(board.cpu.carry);
}

#[test]
fn prefixed_swap_and_bit_ops() {
    // LD A,0xF1; SWAP A; BIT 7,A; RES 0,A; SET 7,A
    let mut board = board_with_program(&[0x3E, 0xF1, 0xCB, 0x37, 0xCB, 0x7F, 0xCB, 0x87, 0xCB, 0xFF]);
    assert_eq!(board.emulate_cpu_operation(), Ok(8));
    assert_eq!(board.emulate_cpu_operation(), Ok(8));
    assert_eq!(board.cpu.a, 0x1F);
    assert_eq!(board.emulate_cpu_operation(), Ok(8));
    assert!(board.cpu.zero);
    assert!(board.cpu.half_carry);
    assert_eq!(board.emulate_cpu_operation(), Ok(8));
    assert_eq!(board.cpu.a, 0x1E);
    assert_eq!(board.emulate_cpu_operation(), Ok(8));
    assert_eq!(board.cpu.a, 0x9E);
}

#[test]
fn prefixed_operation_on_memory_costs_sixteen() {
    // LD HL,0xC000; LD (HL),0x81; RLC (HL)
    let mut board = board_with_program(&[0x21, 0x00, 0xC0, 0x36, 0x81, 0xCB, 0x06]);
    assert_eq!(board.emulate_cpu_operation(), Ok(12));
    assert_eq!(board.emulate_cpu_operation(), Ok(12));
    assert_eq!(board.emulate_cpu_operation(), Ok(16));
    assert_eq!(board.mmu.read8(0xC000), 0x03);
    assert!(board.cpu.carry);
}

#[test]
fn rotate_accumulator_clears_zero() {
    // XOR A; RLCA
    let mut board = board_with_program(&[0xAF, 0x07]);
    assert_eq!(board.emulate_cpu_operation(), Ok(4));
    assert!(board.cpu.zero);
    assert_eq!(board.emulate_cpu_operation(), Ok(4));
    assert_eq!(board.cpu.a, 0);
    assert!(!board.cpu.zero);
}

#[test]
fn unimplemented_opcode_is_reported_before_execution() {
    let mut board = board_with_program(&[0x00, 0xD3]);
    assert_eq!(board.cpu.unimplemented_opcode(&board.mmu), None);
    assert_eq!(board.emulate_cpu_operation(), Ok(4));
    assert_eq!(board.cpu.unimplemented_opcode(&board.mmu), Some(0xD3));
    let before = board.cpu;
    assert_eq!(board.emulate_frame(), Err(Fault::UnimplementedOpcode(0xD3)));
    assert_eq!(board.cpu, before);
}

#[test]
fn unmapped_address_is_a_fault() {
    // LD A,(0x8000): video RAM is not emulated
    let mut board = board_with_program(&[0xFA, 0x00, 0x80]);
    let before = board.cpu;
    assert_eq!(board.emulate_cpu_operation(), Err(Fault::UnmappedAddress(0x8000)));
    assert_eq!(board.cpu, before);
    assert_eq!(board.mmu.gpu().current_dot(), 0);
}

#[test]
fn palette_decodes_two_bit_colours() {
    let palette = PaletteData::init(0b1110_0100);
    assert_eq!(palette.index_0_color, PaletteDataColor::White);
    assert_eq!(palette.index_1_color, PaletteDataColor::LightGray);
    assert_eq!(palette.index_2_color, PaletteDataColor::DarkGray);
    assert_eq!(palette.index_3_color, PaletteDataColor::Black);
    assert_eq!(palette.read(), 0xE4);
}

#[test]
fn display_has_no_image_yet() {
    let mut gpu = Gpu::init();
    assert!(gpu.get_updated_image().is_none());
}

#[test]
fn cartridge_enum_reads_through_variant() {
    let cart = Cartridge::NoMbc(NoMbc::init(flat_rom()));
    assert_eq!(cart.read8(0x0150), flat_rom()[0x0150]);
}

#[test]
fn frame_runs_a_frame_of_cycles() {
    // JR -2: an endless loop of 12-cycle instructions
    let mut board = board_with_program(&[0x18, 0xFE]);
    let cycles = board.emulate_frame().unwrap();
    assert_eq!(cycles, 70224);
    assert_eq!(board.cpu.pc, 0x0100);
    assert_eq!(board.mmu.gpu().current_dot(), 0);
    assert_eq!(board.mmu.read8(0xFF0F) & 0x01, 0x01);
}

#[test]
fn frame_stops_at_a_fault() {
    let mut board = board_with_program(&[0x00, 0x00, 0xD3]);
    assert_eq!(board.emulate_frame(), Err(Fault::UnimplementedOpcode(0xD3)));
    assert_eq!(board.cpu.pc, 0x0102);
}

#[test]
fn enabled_interrupt_is_serviced_between_instructions() {
    // LD A,1; LDH (0xFF),A; LDH (0x0F),A; EI
    let mut rom = rom_with_program(&[0x3E, 0x01, 0xE0, 0xFF, 0xE0, 0x0F, 0xFB]);
    rom[0x0040] = 0xD9; // RETI
    let mut board = MainBoard::init(rom).unwrap();
    assert_eq!(board.emulate_cpu_operation(), Ok(8));
    assert_eq!(board.emulate_cpu_operation(), Ok(12));
    assert_eq!(board.emulate_cpu_operation(), Ok(12));
    assert_eq!(board.emulate_cpu_operation(), Ok(4));
    assert!(board.cpu.ime);
    assert_eq!(board.emulate_cpu_operation(), Ok(20));
    assert_eq!(board.cpu.pc, 0x0040);
    assert!(!board.cpu.ime);
    assert_eq!(board.cpu.sp, 0xFFFC);
    assert_eq!(board.mmu.read16(0xFFFC), 0x0107);
    assert_eq!(board.mmu.read8(0xFF0F) & 0x1F, 0);
    assert_eq!(board.emulate_cpu_operation(), Ok(16));
    assert_eq!(board.cpu.pc, 0x0107);
    assert!(board.cpu.ime);
}

#[test]
fn disabled_interrupts_are_not_serviced() {
    // LD A,1; LDH (0xFF),A; LDH (0x0F),A; DI; NOP
    let mut board = board_with_program(&[0x3E, 0x01, 0xE0, 0xFF, 0xE0, 0x0F, 0xF3, 0x00]);
    for _ in 0..4 {
        board.emulate_cpu_operation().unwrap();
    }
    assert!(!board.cpu.ime);
    assert_eq!(board.emulate_cpu_operation(), Ok(4));
    assert_eq!(board.cpu.pc, 0x0108);
}

#[test]
fn decimal_adjust_after_add_and_sub() {
    // LD A,0x45; ADD A,0x38; DAA
    let mut board = board_with_program(&[0x3E, 0x45, 0xC6, 0x38, 0x27]);
    for _ in 0..3 {
        board.emulate_cpu_operation().unwrap();
    }
    assert_eq!(board.cpu.a, 0x83);
    assert!(!board.cpu.carry);
    // LD A,0x83; SUB 0x38; DAA
    let mut board = board_with_program(&[0x3E, 0x83, 0xD6, 0x38, 0x27]);
    for _ in 0..3 {
        board.emulate_cpu_operation().unwrap();
    }
    assert_eq!(board.cpu.a, 0x45);
}

#[test]
fn add_signed_offset_to_stack_pointer() {
    let mut board = board_with_program(&[0xE8, 0xFE]);
    assert_eq!(board.emulate_cpu_operation(), Ok(16));
    assert_eq!(board.cpu.sp, 0xFFFC);
    assert!(!board.cpu.zero);
}

#[test]
fn halt_waits_for_a_pending_interrupt() {
    let mut board = board_with_program(&[0x76, 0x00]);
    assert_eq!(board.emulate_cpu_operation(), Ok(4));
    assert!(board.cpu.halted);
    assert_eq!(board.emulate_cpu_operation(), Ok(4));
    assert_eq!(board.cpu.pc, 0x0101);
    board.mmu.write8(0xFFFF, 0x04);
    board.mmu.write8(0xFF0F, 0x04);
    assert_eq!(board.emulate_cpu_operation(), Ok(4));
    assert!(!board.cpu.halted);
    assert_eq!(board.cpu.pc, 0x0102);
}

#[test]
fn divider_counts_clock_cycles() {
    let cart = cartridge::init(flat_rom()).unwrap();
    let mut mmu = MemoryManagementUnit::init(cart);
    assert_eq!(mmu.read8(0xFF04), 0);
    mmu.run_cycles(255);
    assert_eq!(mmu.read8(0xFF04), 0);
    mmu.run_cycles(1);
    assert_eq!(mmu.read8(0xFF04), 1);
    mmu.run_cycles(256 * 255);
    assert_eq!(mmu.read8(0xFF04), 0);
}
