//! The CPU core: owns the clock, the address decoder and the register
//! file, and steps one instruction at a time.

use crate::clocks;
use crate::instructions;
use crate::instructions::step_ok;
use crate::memory;
use crate::pc_state;
use crate::ports;
use vstd::prelude::*;

verus! {

pub struct Constants {}

impl Constants {
    /// The colour clock rate: three times the 1.19 MHz CPU clock.
    pub const CLOCK_HZ: u32 = 3570000;
}

pub struct Core {
    pub clock: clocks::Clock,
    pub memory: memory::Memory,
    pub pc_state: pc_state::PcState,
    pub ports: ports::Ports,
}

impl Core {
    pub const PROGRAM_ENTRY_ADDR: u16 = 0xFFFC;

    pub fn new(
        clock: clocks::Clock,
        memory: memory::Memory,
        pc_state: pc_state::PcState,
        ports: ports::Ports,
    ) -> (r: Self)
        ensures
            r.clock == clock,
            r.memory == memory,
            r.pc_state == pc_state,
            r.ports == ports,
    {
        Self { clock, memory, pc_state, ports }
    }

    /// Loads the program counter from the reset vector at 0xFFFC.
    pub fn reset(&mut self)
        requires
            old(self).memory.wf(),
            old(self).clock.ticks + 12 <= u64::MAX,
        ensures
            final(self).memory.wf(),
            final(self).clock == old(self).clock,
            final(self).ports == old(self).ports,
            final(self).pc_state == old(self).pc_state.with_pc(
                (old(self).memory.spec_read_value(old(self).clock.ticks, 0xFFFC) + 256 * old(
                    self,
                ).memory.spec_after_read(0xFFFC).spec_read_value(
                    old(self).clock.ticks,
                    0xFFFD,
                )) as u16,
            ),
    {
        let entry = self.memory.read16(&self.clock, Self::PROGRAM_ENTRY_ADDR);
        self.pc_state.set_pc(entry);
    }

    /// Fetches the opcode at the program counter (the fetch itself can
    /// switch the cartridge bank) and executes it: the machine ends in the
    /// state the opcode's table entry prescribes, with the clock moved by
    /// its documented cost.
    pub fn step(&mut self)
        requires
            step_ok(old(self).memory, old(self).clock.ticks),
            old(self).clock.ticks <= 0x0000_FFFF_FFFF_0000,
        ensures
            step_ok(final(self).memory, final(self).clock.ticks),
            old(self).clock.ticks <= final(self).clock.ticks <= old(self).clock.ticks + 0x400,
            final(self).ports == old(self).ports,
            ({
                let t0 = old(self).clock.ticks;
                let pc = old(self).pc_state.pc_reg;
                let op = old(self).memory.spec_read_value(t0, pc);
                crate::instructions::spec_execute_rel(
                    op,
                    old(self).memory.spec_after_read(pc),
                    old(self).pc_state,
                    t0,
                    final(self).memory,
                    final(self).pc_state,
                    final(self).clock.ticks,
                )
            }),
    {
        proof {
            reveal(crate::instructions::step_ok);
        }
        let pc = self.pc_state.get_pc();
        let op_code = self.memory.read(&self.clock, pc);
        instructions::Instruction::execute(
            op_code,
            &mut self.clock,
            &mut self.memory,
            &mut self.pc_state,
            &mut self.ports,
        );
    }

    /// True once per frame boundary: the host should present the frame.
    pub fn export(&mut self) -> (r: bool)
        ensures
            r == old(self).memory.stella.is_update_time,
            final(self).memory.stella == (crate::stella::Stella {
                is_update_time: false,
                ..old(self).memory.stella
            }),
            final(self).clock == old(self).clock,
            final(self).pc_state == old(self).pc_state,
            final(self).ports == old(self).ports,
            final(self).memory.cartridge == old(self).memory.cartridge,
            final(self).memory.riot == old(self).memory.riot,
    {
        self.memory.stella.export()
    }

    /// Copies the visible frame into a byte buffer, three bytes per pixel.
    pub fn generate_display(&self, buffer: &mut Vec<u8>)
        requires
            self.memory.stella.wf(),
        ensures
            final(buffer)@ == self.memory.stella.spec_display_bytes(),
    {
        self.memory.stella.generate_display(buffer);
    }
}

} // verus!
