//! The address decoder: routes each CPU access to the cartridge, the RIOT
//! or the TIA by the 13 connected address lines.

use crate::cartridge;
use crate::clocks;
use crate::pc_state::wrap_add16;
use crate::riot;
use crate::stella;
use vstd::prelude::*;

verus! {

pub struct Memory {
    pub cartridge: cartridge::GenericCartridge,
    pub stella: stella::Stella,
    pub riot: riot::Riot,
}

impl Memory {
    /// A12 set selects the cartridge window.
    pub open spec fn sel_rom(address: u16) -> bool {
        (address as int / 0x1000) % 2 == 1
    }

    /// The stack page physically routes to RIOT RAM.
    pub open spec fn sel_stack(address: u16) -> bool {
        !Self::sel_rom(address) && 0x100 <= address as int % 0x2000 < 0x200
    }

    /// Otherwise A7 set selects the RIOT, clear the TIA.
    pub open spec fn sel_riot(address: u16) -> bool {
        !Self::sel_rom(address) && !Self::sel_stack(address) && (address as int / 0x80) % 2 == 1
    }

    pub open spec fn sel_tia(address: u16) -> bool {
        !Self::sel_rom(address) && !Self::sel_stack(address) && !Self::sel_riot(address)
    }

    pub open spec fn wf(self) -> bool {
        &&& self.cartridge.wf()
        &&& self.riot.wf()
        &&& self.stella.wf()
    }

    /// The byte a read returns, routed by the address lines.
    pub open spec fn spec_read_value(self, ticks: clocks::ClockType, address: u16) -> u8 {
        if Self::sel_rom(address) {
            self.cartridge.read_value(self.cartridge.masked_addr(address))
        } else if Self::sel_stack(address) || Self::sel_riot(address) {
            self.riot.spec_read(ticks, address)
        } else {
            self.stella.spec_read(address)
        }
    }

    /// The cartridge bank selected after an access: a read or write into
    /// the hot-swap range switches it, any other access leaves it.
    pub open spec fn spec_bank_after_read(self, address: u16) -> u8 {
        if Self::sel_rom(address) && !self.cartridge.in_ram_read(
            self.cartridge.masked_addr(address),
        ) {
            self.cartridge.bank_after(self.cartridge.masked_addr(address)) as u8
        } else {
            self.cartridge.current_bank
        }
    }

    /// The memory state after one read: only the cartridge bank can change.
    pub open spec fn spec_after_read(self, address: u16) -> Memory {
        Memory {
            cartridge: cartridge::GenericCartridge {
                current_bank: self.spec_bank_after_read(address),
                ..self.cartridge
            },
            ..self
        }
    }

    pub fn new(
        cartridge: cartridge::GenericCartridge,
        stella: stella::Stella,
        riot: riot::Riot,
    ) -> (r: Self)
        ensures
            r.cartridge == cartridge,
            r.stella == stella,
            r.riot == riot,
    {
        Self { cartridge, stella, riot }
    }

    /// Reads one byte; a ROM read may switch the current bank as a side
    /// effect, nothing else changes.
    pub fn read(&mut self, clock: &clocks::Clock, address: u16) -> (r: u8)
        requires
            old(self).wf(),
            clock.ticks + 12 <= u64::MAX,
        ensures
            final(self).wf(),
            r == old(self).spec_read_value(clock.ticks, address),
            *final(self) == old(self).spec_after_read(address),
    {
        if (address / 0x1000) % 2 == 1 {
            return self.cartridge.read(address);
        }
        let eff = address % 0x2000;
        if 0x100 <= eff && eff < 0x200 {
            return self.riot.read(clock, address);
        }
        if (address / 0x80) % 2 == 1 {
            return self.riot.read(clock, address);
        }
        self.stella.read(clock, address)
    }

    /// Reads a little-endian 16-bit word; the high byte sees any bank
    /// switch the low byte's fetch triggered.
    pub fn read16(&mut self, clock: &clocks::Clock, address: u16) -> (r: u16)
        requires
            old(self).wf(),
            clock.ticks + 12 <= u64::MAX,
        ensures
            final(self).wf(),
            r == old(self).spec_read_value(clock.ticks, address) + 256 * old(self).spec_after_read(
                address,
            ).spec_read_value(clock.ticks, wrap_add16(address, 1)),
            *final(self) == old(self).spec_after_read(address).spec_after_read(
                wrap_add16(address, 1),
            ),
    {
        let lo = self.read(clock, address);
        let hi = self.read(clock, address.wrapping_add(1));
        lo as u16 + ((hi as u16) * 256)
    }

    /// Reads from the stack page.
    pub fn read_sp(&mut self, clock: &clocks::Clock, address: u8) -> (r: u8)
        requires
            old(self).wf(),
            clock.ticks + 12 <= u64::MAX,
        ensures
            final(self).wf(),
            r == old(self).spec_read_value(clock.ticks, (address + 0x100) as u16),
            *final(self) == old(self).spec_after_read((address + 0x100) as u16),
    {
        self.read(clock, address as u16 + 0x100)
    }

    /// What one routed write does: the selected device's write contract,
    /// everything else untouched; only a TIA write can move the clock.
    pub open spec fn spec_write_rel(
        pre: Memory,
        post: Memory,
        t0: u64,
        t1: u64,
        address: u16,
        data: u8,
    ) -> bool {
        &&& Self::sel_rom(address) ==> ({
            &&& t1 == t0
            &&& post.stella == pre.stella
            &&& post.riot == pre.riot
            &&& post.cartridge == (cartridge::GenericCartridge {
                current_bank: pre.cartridge.bank_after(pre.cartridge.masked_addr(address)) as u8,
                ram: post.cartridge.ram,
                ..pre.cartridge
            })
            &&& post.cartridge.ram@ == (if pre.cartridge.in_ram_write(
                pre.cartridge.masked_addr(address),
            ) {
                pre.cartridge.ram@.update(
                    pre.cartridge.masked_addr(address) % pre.cartridge.ram_size as int,
                    data,
                )
            } else {
                pre.cartridge.ram@
            })
        })
        &&& Self::sel_stack(address) || Self::sel_riot(address) ==> ({
            &&& t1 == t0
            &&& post.stella == pre.stella
            &&& post.cartridge == pre.cartridge
            &&& post.riot.input == pre.riot.input
            &&& (riot::Riot::sel_ram(address) ==> post.riot.ram@ == pre.riot.ram@.update(
                riot::Riot::ram_index(address),
                data,
            ) && post.riot.interval == pre.riot.interval && post.riot.expiration_time
                == pre.riot.expiration_time)
            &&& (!riot::Riot::sel_ram(address) ==> post.riot.ram@ == pre.riot.ram@
                && post.riot.interval == pre.riot.spec_interval_after_write(address)
                && post.riot.expiration_time == t0 + 3 * data * post.riot.spec_interval_ticks())
        })
        &&& Self::sel_tia(address) ==> ({
            &&& post.cartridge == pre.cartridge
            &&& post.riot == pre.riot
            &&& stella::Stella::spec_reg_write_rel(
                pre.stella,
                post.stella,
                if pre.stella.is_blank {
                    pre.stella.display_lines@
                } else {
                    pre.stella.spec_scanned_display(t0)
                },
                if pre.stella.is_blank {
                    pre.stella.collision_state
                } else {
                    pre.stella.spec_scanned_collisions(t0)
                },
                if pre.stella.is_blank {
                    pre.stella.last_screen_update_clock
                } else {
                    (t0 + 1) as u64
                },
                t0,
                t1,
                address,
                data,
            )
        })
    }

    /// Writes one byte, routed by the address lines. A TIA write may move
    /// the clock (WSYNC/RSYNC) and triggers the catch-up pass first.
    pub fn write(&mut self, clock: &mut clocks::Clock, address: u16, data: u8)
        requires
            old(self).wf(),
            old(clock).ticks >= old(self).stella.screen_start_clock,
            old(self).stella.last_screen_update_clock <= old(clock).ticks + 1,
            old(self).stella.tiasound.last_update_time <= old(clock).ticks,
            old(clock).ticks + 0x100000 <= u64::MAX,
            old(clock).ticks <= 0x0001_0000_0000_0000,
        ensures
            final(self).wf(),
            Self::spec_write_rel(
                *old(self),
                *final(self),
                old(clock).ticks,
                final(clock).ticks,
                address,
                data,
            ),
            final(clock).ticks >= old(clock).ticks,
            final(self).stella.screen_start_clock <= final(clock).ticks,
            final(self).stella.last_screen_update_clock <= final(clock).ticks + 1,
            final(self).stella.tiasound.last_update_time <= final(clock).ticks,
            final(clock).ticks <= old(clock).ticks + 228,
    {
        if (address / 0x1000) % 2 == 1 {
            self.cartridge.write(address, data);
            return ;
        }
        let eff = address % 0x2000;
        if 0x100 <= eff && eff < 0x200 {
            self.riot.write(clock, address, data);
            return ;
        }
        if (address / 0x80) % 2 == 1 {
            self.riot.write(clock, address, data);
            return ;
        }
        self.stella.write(clock, address, data);
    }

    /// Writes to the stack page.
    pub fn write_sp(&mut self, clock: &mut clocks::Clock, address: u8, data: u8)
        requires
            old(self).wf(),
            clock.ticks + 0x100000 <= u64::MAX,
        ensures
            final(self).wf(),
            *final(clock) == *old(clock),
            final(self).stella == old(self).stella,
            final(self).cartridge == old(self).cartridge,
            final(self).riot.input == old(self).riot.input,
            final(self).riot.interval == old(self).riot.interval,
            final(self).riot.expiration_time == old(self).riot.expiration_time,
            final(self).riot.ram@ == old(self).riot.ram@.update(
                riot::Riot::ram_index((address + 0x100) as u16),
                data,
            ),
    {
        let a = address as u16 + 0x100;
        self.riot.write(clock, a, data);
    }
}

/// A read at a non-ROM address sees the same byte whatever bank an earlier
/// access selected: only the cartridge window depends on the current bank.
pub proof fn lemma_read_value_bank_independent(m: Memory, a_done: u16, t: u64, a: u16)
    requires
        !Memory::sel_rom(a),
    ensures
        m.spec_after_read(a_done).spec_read_value(t, a) == m.spec_read_value(t, a),
{
}

} // verus!
