//! The twelve 6507 addressing modes: each knows its operand size, its base
//! cycle cost, and whether an index carry costs an extra cycle.

use crate::clocks;
use crate::memory::Memory;
use crate::pc_state;
use crate::pc_state::wrap_add16;
use vstd::prelude::*;

verus! {

/// Whether an indexed address calculation carried into the high byte.
pub open spec fn spec_crossed_page(base: u16, result: u16) -> bool {
    base as int / 256 != result as int / 256
}

fn did_index_cross_page(base_address: u16, result_address: u16) -> (r: bool)
    ensures
        r == spec_crossed_page(base_address, result_address),
{
    (base_address / 256) != (result_address / 256)
}

/// An addressing mode, with or without the page-cross cycle penalty.
pub enum Addressing {
    Imm,
    Zp,
    Izy,
    IZYPageDelay,
    Izx,
    Zpx,
    Zpy,
    Abs,
    Indirect,
    Aby,
    Abx,
    Accumulator,
    AbyPageDelay,
    AbxPageDelay,
}

impl Addressing {
    /// The operand byte right after the opcode.
    pub open spec fn spec_operand8(m: Memory, t: u64, pc: u16) -> u8 {
        m.spec_read_value(t, wrap_add16(pc, 1))
    }

    /// Memory after fetching the operand byte.
    pub open spec fn spec_mem1(m: Memory, pc: u16) -> Memory {
        m.spec_after_read(wrap_add16(pc, 1))
    }

    /// The 16-bit operand after the opcode, low byte first.
    pub open spec fn spec_operand16(m: Memory, t: u64, pc: u16) -> int {
        m.spec_read_value(t, wrap_add16(pc, 1)) + 256 * Self::spec_mem1(m, pc).spec_read_value(
            t,
            wrap_add16(pc, 2),
        )
    }

    /// Memory after fetching the 16-bit operand.
    pub open spec fn spec_mem2(m: Memory, pc: u16) -> Memory {
        Self::spec_mem1(m, pc).spec_after_read(wrap_add16(pc, 2))
    }

    /// A 16-bit read at an arbitrary pointer, wrapping at the address top.
    pub open spec fn spec_word_at(m: Memory, t: u64, a: u16) -> int {
        m.spec_read_value(t, a) + 256 * m.spec_after_read(a).spec_read_value(t, wrap_add16(a, 1))
    }

    /// Memory after a 16-bit read at `a`.
    pub open spec fn spec_mem_word(m: Memory, a: u16) -> Memory {
        m.spec_after_read(a).spec_after_read(wrap_add16(a, 1))
    }

    /// The effective address each mode computes from the operand bytes, the
    /// index registers and, for indirect modes, a zero-page pointer.
    pub open spec fn spec_address(self, m: Memory, t: u64, ps: pc_state::PcState) -> u16 {
        let pc = ps.pc_reg;
        match self {
            Addressing::Imm => wrap_add16(pc, 1),
            Addressing::Zp => Self::spec_operand8(m, t, pc) as u16,
            Addressing::Zpx => ((Self::spec_operand8(m, t, pc) + ps.x_reg) % 256) as u16,
            Addressing::Zpy => ((Self::spec_operand8(m, t, pc) + ps.y_reg) % 256) as u16,
            Addressing::Izx => {
                let zp = ((Self::spec_operand8(m, t, pc) + ps.x_reg) % 256) as u16;
                Self::spec_word_at(Self::spec_mem1(m, pc), t, zp) as u16
            },
            Addressing::Izy | Addressing::IZYPageDelay => {
                let zp = Self::spec_operand8(m, t, pc) as u16;
                let base = Self::spec_word_at(Self::spec_mem1(m, pc), t, zp) as u16;
                wrap_add16(base, ps.y_reg as int)
            },
            Addressing::Abs => Self::spec_operand16(m, t, pc) as u16,
            Addressing::Indirect => {
                let ptr = Self::spec_operand16(m, t, pc) as u16;
                Self::spec_word_at(Self::spec_mem2(m, pc), t, ptr) as u16
            },
            Addressing::Aby | Addressing::AbyPageDelay => wrap_add16(
                Self::spec_operand16(m, t, pc) as u16,
                ps.y_reg as int,
            ),
            Addressing::Abx | Addressing::AbxPageDelay => wrap_add16(
                Self::spec_operand16(m, t, pc) as u16,
                ps.x_reg as int,
            ),
            Addressing::Accumulator => 0,
        }
    }

    /// The memory state after the mode's operand and pointer fetches.
    pub open spec fn spec_mem_after(self, m: Memory, t: u64, ps: pc_state::PcState) -> Memory {
        let pc = ps.pc_reg;
        match self {
            Addressing::Imm | Addressing::Accumulator => m,
            Addressing::Zp | Addressing::Zpx | Addressing::Zpy => Self::spec_mem1(m, pc),
            Addressing::Izx => {
                let zp = ((Self::spec_operand8(m, t, pc) + ps.x_reg) % 256) as u16;
                Self::spec_mem_word(Self::spec_mem1(m, pc), zp)
            },
            Addressing::Izy | Addressing::IZYPageDelay => {
                let zp = Self::spec_operand8(m, t, pc) as u16;
                Self::spec_mem_word(Self::spec_mem1(m, pc), zp)
            },
            Addressing::Abs | Addressing::Aby | Addressing::AbyPageDelay | Addressing::Abx
                | Addressing::AbxPageDelay => Self::spec_mem2(m, pc),
            Addressing::Indirect => {
                let ptr = Self::spec_operand16(m, t, pc) as u16;
                Self::spec_mem_word(Self::spec_mem2(m, pc), ptr)
            },
        }
    }

    /// Whether the mode charges the page-cross penalty here.
    pub open spec fn spec_page_penalty(self, m: Memory, t: u64, ps: pc_state::PcState) -> bool {
        let pc = ps.pc_reg;
        match self {
            Addressing::IZYPageDelay => {
                let zp = Self::spec_operand8(m, t, pc) as u16;
                let base = Self::spec_word_at(Self::spec_mem1(m, pc), t, zp) as u16;
                spec_crossed_page(base, wrap_add16(base, ps.y_reg as int))
            },
            Addressing::AbyPageDelay => {
                let base = Self::spec_operand16(m, t, pc) as u16;
                spec_crossed_page(base, wrap_add16(base, ps.y_reg as int))
            },
            Addressing::AbxPageDelay => {
                let base = Self::spec_operand16(m, t, pc) as u16;
                spec_crossed_page(base, wrap_add16(base, ps.x_reg as int))
            },
            _ => false,
        }
    }

    /// Computes the effective address, fetching operand bytes and charging
    /// the page-cross penalty where the mode carries one.
    #[verifier::rlimit(100)]
    pub fn address16(
        &self,
        clock: &mut clocks::Clock,
        pc_state: &mut pc_state::PcState,
        memory: &mut Memory,
    ) -> (addr: u16)
        requires
            old(memory).wf(),
            old(clock).ticks + 12 <= u64::MAX,
        ensures
            final(memory).wf(),
            *final(pc_state) == *old(pc_state),
            addr == self.spec_address(*old(memory), old(clock).ticks, *old(pc_state)),
            *final(memory) == self.spec_mem_after(*old(memory), old(clock).ticks, *old(pc_state)),
            final(clock).ticks == old(clock).ticks + (if self.spec_page_penalty(
                *old(memory),
                old(clock).ticks,
                *old(pc_state),
            ) {
                3int
            } else {
                0int
            }),
    {
        match self {
            Addressing::Imm => AllAddressingModes::address_imm(clock, pc_state, memory, false),
            Addressing::Zp => AllAddressingModes::address_zp(clock, pc_state, memory, false),
            Addressing::Izy => AllAddressingModes::address_izy(clock, pc_state, memory, false),
            Addressing::IZYPageDelay => AllAddressingModes::address_izy(
                clock,
                pc_state,
                memory,
                true,
            ),
            Addressing::Izx => AllAddressingModes::address_izx(clock, pc_state, memory, false),
            Addressing::Zpx => AllAddressingModes::address_zpx(clock, pc_state, memory, false),
            Addressing::Zpy => AllAddressingModes::address_zpy(clock, pc_state, memory, false),
            Addressing::Abs => AllAddressingModes::address_abs(clock, pc_state, memory, false),
            Addressing::Indirect => AllAddressingModes::address_indirect(
                clock,
                pc_state,
                memory,
                false,
            ),
            Addressing::Aby => AllAddressingModes::address_aby(clock, pc_state, memory, false),
            Addressing::Abx => AllAddressingModes::address_abx(clock, pc_state, memory, false),
            Addressing::Accumulator => AllAddressingModes::address_accumulator(
                clock,
                pc_state,
                memory,
                false,
            ),
            Addressing::AbyPageDelay => AllAddressingModes::address_aby(
                clock,
                pc_state,
                memory,
                true,
            ),
            Addressing::AbxPageDelay => AllAddressingModes::address_abx(
                clock,
                pc_state,
                memory,
                true,
            ),
        }
    }

    /// The operand bytes the mode occupies after the opcode.
    pub open spec fn spec_size(self) -> u8 {
        match self {
            Addressing::Imm | Addressing::Zp | Addressing::Izy | Addressing::IZYPageDelay
                | Addressing::Izx | Addressing::Zpx | Addressing::Zpy => 1,
            Addressing::Abs | Addressing::Indirect | Addressing::Aby | Addressing::Abx
                | Addressing::AbyPageDelay | Addressing::AbxPageDelay => 2,
            Addressing::Accumulator => 0,
        }
    }

    pub fn get_addressing_size(&self) -> (r: u8)
        ensures
            r == self.spec_size(),
    {
        match self {
            Addressing::Imm => 1,
            Addressing::Zp => 1,
            Addressing::Izy => 1,
            Addressing::IZYPageDelay => 1,
            Addressing::Izx => 1,
            Addressing::Zpx => 1,
            Addressing::Zpy => 1,
            Addressing::Abs => 2,
            Addressing::Indirect => 2,
            Addressing::Aby => 2,
            Addressing::Abx => 2,
            Addressing::Accumulator => 0,
            Addressing::AbyPageDelay => 2,
            Addressing::AbxPageDelay => 2,
        }
    }

    /// The mode's base cycle cost, in colour clocks.
    pub open spec fn spec_time(self) -> u8 {
        match self {
            Addressing::Imm | Addressing::Accumulator => 0,
            Addressing::Zp => 3,
            Addressing::Zpx | Addressing::Zpy => 6,
            Addressing::Izy | Addressing::IZYPageDelay => 9,
            Addressing::Izx => 12,
            Addressing::Abs | Addressing::Aby | Addressing::Abx | Addressing::AbyPageDelay
                | Addressing::AbxPageDelay => 6,
            Addressing::Indirect => 12,
        }
    }

    pub fn get_addressing_time(&self) -> (r: u8)
        ensures
            r == self.spec_time(),
    {
        3 * match self {
            Addressing::Imm => 0,
            Addressing::Zp => 1,
            Addressing::Izy => 3,
            Addressing::IZYPageDelay => 3,
            Addressing::Izx => 4,
            Addressing::Zpx => 2,
            Addressing::Zpy => 2,
            Addressing::Abs => 2,
            Addressing::Indirect => 4,
            Addressing::Aby => 2,
            Addressing::Abx => 2,
            Addressing::Accumulator => 0,
            Addressing::AbyPageDelay => 2,
            Addressing::AbxPageDelay => 2,
        }
    }
}


/// Where an instruction's operand byte comes from.
pub enum ReadData {
    MemoryRead,
    AccumulatorRead,
    NullRead,
}

impl ReadData {
    /// The operand value the kind produces.
    pub open spec fn spec_value(self, m: Memory, t: u64, ps: pc_state::PcState, a: u16) -> u8 {
        match self {
            ReadData::MemoryRead => m.spec_read_value(t, a),
            ReadData::AccumulatorRead => ps.a_reg,
            ReadData::NullRead => 0,
        }
    }

    /// The memory state after the kind's read, if it makes one.
    pub open spec fn spec_mem_after(self, m: Memory, a: u16) -> Memory {
        match self {
            ReadData::MemoryRead => m.spec_after_read(a),
            ReadData::AccumulatorRead | ReadData::NullRead => m,
        }
    }

    pub fn read(
        &self,
        clock: &clocks::Clock,
        pc_state: &pc_state::PcState,
        memory: &mut Memory,
        address: u16,
    ) -> (r: u8)
        requires
            old(memory).wf(),
            clock.ticks + 12 <= u64::MAX,
        ensures
            final(memory).wf(),
            r == self.spec_value(*old(memory), clock.ticks, *pc_state, address),
            *final(memory) == self.spec_mem_after(*old(memory), address),
    {
        match self {
            ReadData::MemoryRead => memory.read(clock, address),
            ReadData::AccumulatorRead => pc_state.get_a(),
            ReadData::NullRead => 0,
        }
    }

    /// The kind's cycle cost, in colour clocks.
    pub open spec fn spec_time(self) -> u8 {
        match self {
            ReadData::MemoryRead | ReadData::AccumulatorRead => 6,
            ReadData::NullRead => 3,
        }
    }

    pub fn get_reading_time(&self) -> (r: u8)
        ensures
            r == self.spec_time(),
    {
        match self {
            ReadData::MemoryRead => 6,
            ReadData::AccumulatorRead => 6,
            ReadData::NullRead => 3,
        }
    }
}

/// Where an instruction's result goes.
pub enum WriteData {
    MemoryWrite,
    AccumulatorWrite,
    RegisterWrite,
    MemoryNull,
}

impl WriteData {
    pub open spec fn is_memory(self) -> bool {
        self is MemoryWrite || self is RegisterWrite
    }

    pub fn write(
        &self,
        clock: &mut clocks::Clock,
        pc_state: &mut pc_state::PcState,
        memory: &mut Memory,
        address: u16,
        data: u8,
    )
        requires
            old(memory).wf(),
            self.is_memory() ==> ({
                &&& old(clock).ticks >= old(memory).stella.screen_start_clock
                &&& old(memory).stella.last_screen_update_clock <= old(clock).ticks + 1
                &&& old(memory).stella.tiasound.last_update_time <= old(clock).ticks
                &&& old(clock).ticks + 0x100000 <= u64::MAX
                &&& old(clock).ticks <= 0x0001_0000_0000_0000
            }),
        ensures
            final(memory).wf(),
            self.is_memory() ==> ({
                &&& *final(pc_state) == *old(pc_state)
                &&& Memory::spec_write_rel(
                    *old(memory),
                    *final(memory),
                    old(clock).ticks,
                    final(clock).ticks,
                    address,
                    data,
                )
                &&& final(clock).ticks >= old(clock).ticks
                &&& final(clock).ticks <= old(clock).ticks + 228
                &&& final(memory).stella.screen_start_clock <= final(clock).ticks
                &&& final(memory).stella.last_screen_update_clock <= final(clock).ticks + 1
                &&& final(memory).stella.tiasound.last_update_time <= final(clock).ticks
            }),
            self is AccumulatorWrite ==> ({
                &&& *final(memory) == *old(memory)
                &&& *final(clock) == *old(clock)
                &&& *final(pc_state) == old(pc_state).with_a(data)
            }),
            self is MemoryNull ==> ({
                &&& *final(memory) == *old(memory)
                &&& *final(clock) == *old(clock)
                &&& *final(pc_state) == *old(pc_state)
            }),
    {
        match self {
            WriteData::MemoryWrite => memory.write(clock, address, data),
            WriteData::AccumulatorWrite => pc_state.set_a(data),
            WriteData::RegisterWrite => memory.write(clock, address, data),
            WriteData::MemoryNull => {},
        }
    }

    /// The kind's cycle cost, in colour clocks.
    pub open spec fn spec_time(self) -> u8 {
        match self {
            WriteData::MemoryWrite => 6,
            WriteData::AccumulatorWrite => 0,
            WriteData::RegisterWrite => 3,
            WriteData::MemoryNull => 0,
        }
    }

    pub fn get_writing_time(&self) -> (r: u8)
        ensures
            r == self.spec_time(),
    {
        match self {
            WriteData::MemoryWrite => 6,
            WriteData::AccumulatorWrite => 0,
            WriteData::RegisterWrite => 3,
            WriteData::MemoryNull => 0,
        }
    }
}

/// The per-mode address calculations; the page-delay flag charges the
/// page-cross penalty on the indexed modes.
pub struct AllAddressingModes {}

impl AllAddressingModes {
    #[verifier::rlimit(100)]
    pub fn address_accumulator(
        clock: &mut clocks::Clock,
        pc_state: &mut pc_state::PcState,
        memory: &mut Memory,
        page_delay: bool,
    ) -> (addr: u16)
        ensures
            *final(clock) == *old(clock),
            *final(pc_state) == *old(pc_state),
            *final(memory) == *old(memory),
            addr == 0,
    {
        0
    }

    #[verifier::rlimit(100)]
    pub fn address_imm(
        clock: &mut clocks::Clock,
        pc_state: &mut pc_state::PcState,
        memory: &mut Memory,
        page_delay: bool,
    ) -> (addr: u16)
        ensures
            *final(clock) == *old(clock),
            *final(pc_state) == *old(pc_state),
            *final(memory) == *old(memory),
            addr == wrap_add16(old(pc_state).pc_reg, 1),
    {
        pc_state.get_pc().wrapping_add(1)
    }

    #[verifier::rlimit(100)]
    pub fn address_zp(
        clock: &mut clocks::Clock,
        pc_state: &mut pc_state::PcState,
        memory: &mut Memory,
        page_delay: bool,
    ) -> (addr: u16)
        requires
            old(memory).wf(),
            old(clock).ticks + 12 <= u64::MAX,
        ensures
            *final(clock) == *old(clock),
            *final(pc_state) == *old(pc_state),
            final(memory).wf(),
            addr == Addressing::spec_operand8(
                *old(memory),
                old(clock).ticks,
                old(pc_state).pc_reg,
            ) as u16,
            *final(memory) == Addressing::spec_mem1(*old(memory), old(pc_state).pc_reg),
    {
        memory.read(clock, pc_state.get_pc().wrapping_add(1)) as u16
    }

    #[verifier::rlimit(100)]
    pub fn address_zpx(
        clock: &mut clocks::Clock,
        pc_state: &mut pc_state::PcState,
        memory: &mut Memory,
        page_delay: bool,
    ) -> (addr: u16)
        requires
            old(memory).wf(),
            old(clock).ticks + 12 <= u64::MAX,
        ensures
            *final(clock) == *old(clock),
            *final(pc_state) == *old(pc_state),
            final(memory).wf(),
            addr == (Addressing::spec_operand8(*old(memory), old(clock).ticks, old(pc_state).pc_reg)
                + old(pc_state).x_reg) % 256,
            *final(memory) == Addressing::spec_mem1(*old(memory), old(pc_state).pc_reg),
    {
        memory.read(clock, pc_state.get_pc().wrapping_add(1)).wrapping_add(pc_state.get_x()) as u16
    }

    #[verifier::rlimit(100)]
    pub fn address_zpy(
        clock: &mut clocks::Clock,
        pc_state: &mut pc_state::PcState,
        memory: &mut Memory,
        page_delay: bool,
    ) -> (addr: u16)
        requires
            old(memory).wf(),
            old(clock).ticks + 12 <= u64::MAX,
        ensures
            *final(clock) == *old(clock),
            *final(pc_state) == *old(pc_state),
            final(memory).wf(),
            addr == (Addressing::spec_operand8(*old(memory), old(clock).ticks, old(pc_state).pc_reg)
                + old(pc_state).y_reg) % 256,
            *final(memory) == Addressing::spec_mem1(*old(memory), old(pc_state).pc_reg),
    {
        memory.read(clock, pc_state.get_pc().wrapping_add(1)).wrapping_add(pc_state.get_y()) as u16
    }

    #[verifier::rlimit(100)]
    pub fn address_izx(
        clock: &mut clocks::Clock,
        pc_state: &mut pc_state::PcState,
        memory: &mut Memory,
        page_delay: bool,
    ) -> (addr: u16)
        requires
            old(memory).wf(),
            old(clock).ticks + 12 <= u64::MAX,
        ensures
            *final(clock) == *old(clock),
            *final(pc_state) == *old(pc_state),
            final(memory).wf(),
            ({
                let zp = ((Addressing::spec_operand8(
                    *old(memory),
                    old(clock).ticks,
                    old(pc_state).pc_reg,
                ) + old(pc_state).x_reg) % 256) as u16;
                let m1 = Addressing::spec_mem1(*old(memory), old(pc_state).pc_reg);
                addr == Addressing::spec_word_at(m1, old(clock).ticks, zp) && *final(memory)
                    == Addressing::spec_mem_word(m1, zp)
            }),
    {
        let tmp8 = memory.read(clock, pc_state.get_pc().wrapping_add(1)).wrapping_add(
            pc_state.get_x(),
        );
        memory.read16(clock, tmp8 as u16)
    }

    #[verifier::rlimit(100)]
    pub fn address_izy(
        clock: &mut clocks::Clock,
        pc_state: &mut pc_state::PcState,
        memory: &mut Memory,
        page_delay: bool,
    ) -> (addr: u16)
        requires
            old(memory).wf(),
            old(clock).ticks + 12 <= u64::MAX,
        ensures
            *final(pc_state) == *old(pc_state),
            final(memory).wf(),
            ({
                let zp = Addressing::spec_operand8(
                    *old(memory),
                    old(clock).ticks,
                    old(pc_state).pc_reg,
                ) as u16;
                let m1 = Addressing::spec_mem1(*old(memory), old(pc_state).pc_reg);
                let base = Addressing::spec_word_at(m1, old(clock).ticks, zp) as u16;
                &&& addr == wrap_add16(base, old(pc_state).y_reg as int)
                &&& *final(memory) == Addressing::spec_mem_word(m1, zp)
                &&& final(clock).ticks == old(clock).ticks + (if page_delay && spec_crossed_page(
                    base,
                    wrap_add16(base, old(pc_state).y_reg as int),
                ) {
                    3int
                } else {
                    0int
                })
            }),
    {
        let tmp8 = memory.read(clock, pc_state.get_pc().wrapping_add(1));
        let address_tmp = memory.read16(clock, tmp8 as u16);
        let tmp16 = address_tmp.wrapping_add(pc_state.get_y() as u16);
        if page_delay && did_index_cross_page(address_tmp, tmp16) {
            clock.increment(3);
        }
        tmp16
    }

    #[verifier::rlimit(100)]
    pub fn address_abs(
        clock: &mut clocks::Clock,
        pc_state: &mut pc_state::PcState,
        memory: &mut Memory,
        page_delay: bool,
    ) -> (addr: u16)
        requires
            old(memory).wf(),
            old(clock).ticks + 12 <= u64::MAX,
        ensures
            *final(clock) == *old(clock),
            *final(pc_state) == *old(pc_state),
            final(memory).wf(),
            addr == Addressing::spec_operand16(
                *old(memory),
                old(clock).ticks,
                old(pc_state).pc_reg,
            ) as u16,
            *final(memory) == Addressing::spec_mem2(*old(memory), old(pc_state).pc_reg),
    {
        memory.read16(clock, pc_state.get_pc().wrapping_add(1))
    }

    #[verifier::rlimit(100)]
    pub fn address_indirect(
        clock: &mut clocks::Clock,
        pc_state: &mut pc_state::PcState,
        memory: &mut Memory,
        page_delay: bool,
    ) -> (addr: u16)
        requires
            old(memory).wf(),
            old(clock).ticks + 12 <= u64::MAX,
        ensures
            *final(clock) == *old(clock),
            *final(pc_state) == *old(pc_state),
            final(memory).wf(),
            ({
                let ptr = Addressing::spec_operand16(
                    *old(memory),
                    old(clock).ticks,
                    old(pc_state).pc_reg,
                ) as u16;
                let m2 = Addressing::spec_mem2(*old(memory), old(pc_state).pc_reg);
                addr == Addressing::spec_word_at(m2, old(clock).ticks, ptr) && *final(memory)
                    == Addressing::spec_mem_word(m2, ptr)
            }),
    {
        let indirect_addr = memory.read16(clock, pc_state.get_pc().wrapping_add(1));
        memory.read16(clock, indirect_addr)
    }

    #[verifier::rlimit(100)]
    pub fn address_aby(
        clock: &mut clocks::Clock,
        pc_state: &mut pc_state::PcState,
        memory: &mut Memory,
        page_delay: bool,
    ) -> (addr: u16)
        requires
            old(memory).wf(),
            old(clock).ticks + 12 <= u64::MAX,
        ensures
            *final(pc_state) == *old(pc_state),
            final(memory).wf(),
            ({
                let base = Addressing::spec_operand16(
                    *old(memory),
                    old(clock).ticks,
                    old(pc_state).pc_reg,
                ) as u16;
                &&& addr == wrap_add16(base, old(pc_state).y_reg as int)
                &&& *final(memory) == Addressing::spec_mem2(*old(memory), old(pc_state).pc_reg)
                &&& final(clock).ticks == old(clock).ticks + (if page_delay && spec_crossed_page(
                    base,
                    wrap_add16(base, old(pc_state).y_reg as int),
                ) {
                    3int
                } else {
                    0int
                })
            }),
    {
        let address_tmp = memory.read16(clock, pc_state.get_pc().wrapping_add(1));
        let tmp16 = address_tmp.wrapping_add(pc_state.get_y() as u16);
        if page_delay && did_index_cross_page(address_tmp, tmp16) {
            clock.increment(3);
        }
        tmp16
    }

    #[verifier::rlimit(100)]
    pub fn address_abx(
        clock: &mut clocks::Clock,
        pc_state: &mut pc_state::PcState,
        memory: &mut Memory,
        page_delay: bool,
    ) -> (addr: u16)
        requires
            old(memory).wf(),
            old(clock).ticks + 12 <= u64::MAX,
        ensures
            *final(pc_state) == *old(pc_state),
            final(memory).wf(),
            ({
                let base = Addressing::spec_operand16(
                    *old(memory),
                    old(clock).ticks,
                    old(pc_state).pc_reg,
                ) as u16;
                &&& addr == wrap_add16(base, old(pc_state).x_reg as int)
                &&& *final(memory) == Addressing::spec_mem2(*old(memory), old(pc_state).pc_reg)
                &&& final(clock).ticks == old(clock).ticks + (if page_delay && spec_crossed_page(
                    base,
                    wrap_add16(base, old(pc_state).x_reg as int),
                ) {
                    3int
                } else {
                    0int
                })
            }),
    {
        let address_tmp = memory.read16(clock, pc_state.get_pc().wrapping_add(1));
        let tmp16 = address_tmp.wrapping_add(pc_state.get_x() as u16);
        if page_delay && did_index_cross_page(address_tmp, tmp16) {
            clock.increment(3);
        }
        tmp16
    }
}

} // verus!
