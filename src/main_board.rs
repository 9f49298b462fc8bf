use vstd::prelude::*;
use crate::cartridge::{self, CartridgeError, load_result, header_supported, MIN_ROM_SIZE};
use crate::cpu::{Cpu, Fault, Outcome, post_boot, step, lemma_step_cost, decodes_unimplemented, opcode_implemented};
use crate::memory_management_unit::{BusView, MemoryManagementUnit, power_on_bus};

verus! {

pub const CPU_FREQUENCY: u32 = 4_194_304;

/// Clock cycles in one frame: the clock frequency over the 59.73 Hz refresh rate, rounded down.
pub const CPU_CLOCKS_PER_FRAME: u32 = 70221;

/// One instruction on the board: the CPU steps, then the bus advances by its cost.
pub open spec fn board_step(c: Cpu, m: BusView) -> Outcome {
    match step(c, m) {
        Ok((c1, m1, cycles)) => Ok((c1, m1.advance(cycles as nat), cycles)),
        Err(f) => Err(f),
    }
}

/// Runs instructions on the board from `emulated` clock cycles on, until at
/// least a frame's worth have passed; the registers, the bus and the cycle count
/// at the end, or the first fault.
pub open spec fn run_frame(c: Cpu, m: BusView, emulated: nat) -> Result<(Cpu, BusView, nat), Fault>
    decreases CPU_CLOCKS_PER_FRAME + 24 - emulated via run_frame_decreases
{
    if emulated >= CPU_CLOCKS_PER_FRAME {
        Ok((c, m, emulated))
    } else {
        match board_step(c, m) {
            Ok((c1, m1, cycles)) => run_frame(c1, m1, emulated + cycles as nat),
            Err(f) => Err(f),
        }
    }
}

#[via_fn]
proof fn run_frame_decreases(c: Cpu, m: BusView, emulated: nat) {
    if emulated < CPU_CLOCKS_PER_FRAME {
        lemma_step_cost(c, m);
    }
}

/// The CPU and the bus it drives.
pub struct MainBoard {
    pub cpu: Cpu,
    pub mmu: MemoryManagementUnit,
}

impl MainBoard {
    /// A board at power-up around the cartridge that `rom_bytes` holds.
    pub fn init(rom_bytes: Vec<u8>) -> (r: Result<MainBoard, CartridgeError>)
        requires
            rom_bytes.len() <= usize::MAX / 2,
            rom_bytes.len() >= MIN_ROM_SIZE ==> header_supported(rom_bytes@),
        ensures
            match load_result(rom_bytes@) {
                Ok(v) => r is Ok && r->Ok_0.cpu == post_boot() && r->Ok_0.mmu@ == power_on_bus(v)
                    && r->Ok_0.mmu@.inv(),
                Err(e) => r == Err::<MainBoard, CartridgeError>(e),
            },
    {
        match cartridge::init(rom_bytes) {
            Ok(c) => Ok(MainBoard { cpu: Cpu::init(), mmu: MemoryManagementUnit::init(c) }),
            Err(e) => Err(e),
        }
    }

    /// Executes one instruction and advances the bus by its cost, which is returned.
    /// On a fault nothing is changed.
    pub fn emulate_cpu_operation(&mut self) -> (r: Result<u32, Fault>)
        requires
            old(self).mmu@.inv(),
            !decodes_unimplemented(old(self).cpu, old(self).mmu@),
        ensures
            final(self).mmu@.inv(),
            match board_step(old(self).cpu, old(self).mmu@) {
                Ok((c, m, cycles)) => r == Ok::<u32, Fault>(cycles) && final(self).cpu == c
                    && final(self).mmu@ == m,
                Err(f) => r == Err::<u32, Fault>(f) && final(self).cpu == old(self).cpu
                    && final(self).mmu@ == old(self).mmu@,
            },
    {
        let cycles = match self.cpu.emulate_operation(&mut self.mmu) {
            Ok(cycles) => cycles,
            Err(f) => {
                return Err(f);
            },
        };
        self.mmu.run_cycles(cycles);
        Ok(cycles)
    }

    /// Runs instructions until at least a frame's worth of clock cycles has
    /// passed and returns how many did. A fault, or an opcode this core does
    /// not execute, stops the run before that instruction.
    pub fn emulate_frame(&mut self) -> (r: Result<u32, Fault>)
        requires
            old(self).mmu@.inv(),
        ensures
            final(self).mmu@.inv(),
            match run_frame(old(self).cpu, old(self).mmu@, 0) {
                Ok((c, m, n)) => r == Ok::<u32, Fault>(n as u32) && final(self).cpu == c
                    && final(self).mmu@ == m,
                Err(f) => r == Err::<u32, Fault>(f),
            },
    {
        let mut emulated_cycles: u32 = 0;
        while emulated_cycles < CPU_CLOCKS_PER_FRAME
            invariant
                self.mmu@.inv(),
                emulated_cycles < CPU_CLOCKS_PER_FRAME + 24,
                run_frame(old(self).cpu, old(self).mmu@, 0) == run_frame(
                    self.cpu,
                    self.mmu@,
                    emulated_cycles as nat,
                ),
            decreases CPU_CLOCKS_PER_FRAME + 24 - emulated_cycles,
        {
            proof {
                lemma_step_cost(self.cpu, self.mmu@);
            }
            match self.cpu.unimplemented_opcode(&self.mmu) {
                Some(op) => {
                    proof {
                        reveal(opcode_implemented);
                    }
                    return Err(Fault::UnimplementedOpcode(op));
                },
                None => {},
            }
            match self.emulate_cpu_operation() {
                Ok(cycles) => emulated_cycles = emulated_cycles + cycles,
                Err(f) => {
                    return Err(f);
                },
            }
        }
        Ok(emulated_cycles)
    }
}

} // verus!
