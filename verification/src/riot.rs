//! The RIOT chip: 128 bytes of RAM, the input ports and the programmable
//! interval timer.

use crate::clocks;
use crate::inputs;
use vstd::prelude::*;

verus! {

/// The four programmable timer intervals, in CPU cycles per count.
#[derive(Clone, Copy, PartialEq, Eq, Structural)]
pub enum Interval {
    Tim1,
    Tim8,
    Tim64,
    Tim1024,
}

impl Interval {
    pub open spec fn spec_ticks(self) -> u16 {
        match self {
            Interval::Tim1 => 1,
            Interval::Tim8 => 8,
            Interval::Tim64 => 64,
            Interval::Tim1024 => 1024,
        }
    }

    fn ticks(self) -> (r: u16)
        ensures
            r == self.spec_ticks(),
    {
        match self {
            Interval::Tim1 => 1,
            Interval::Tim8 => 8,
            Interval::Tim64 => 64,
            Interval::Tim1024 => 1024,
        }
    }
}

/// What a timer-register read returns, given the expiry tick, the read
/// tick and the interval. Before expiry it is the interval-scaled time
/// remaining; after expiry it counts down from 0xFF in single CPU cycles,
/// wrapping every 0x100.
pub open spec fn spec_timer_value(expiration: int, now: int, interval: int) -> u8 {
    if expiration >= now {
        (((expiration - now) / (interval * 3)) % 0x100) as u8
    } else {
        ((0x100 - ((now - expiration) / 3) % 0x100) % 0x100) as u8
    }
}

/// The interrupt register: bit 7 set exactly when the timer has expired.
pub open spec fn spec_interrupt_value(expiration: int, now: int) -> u8 {
    if expiration >= now {
        0
    } else {
        0x80
    }
}

pub struct Riot {
    pub input: inputs::Input,
    pub interval: Interval,
    pub expiration_time: clocks::ClockType,
    pub ram: Vec<u8>,
}

impl Riot {
    /// 128 bytes of RAM, all zero, and a quiet timer far in the future.
    pub fn new() -> (r: Self)
        ensures
            r.wf(),
            r.spec_ram() == Seq::<u8>::new(128, |i: int| 0u8),
            r.spec_interval_ticks() == 1024,
            r.spec_expiration() == 1000000,
            r.spec_input() == inputs::Input::spec_default(),
    {
        let mut ram: Vec<u8> = Vec::new();
        let mut i: u8 = 0;
        while i < 128
            invariant
                i <= 128,
                ram@ == Seq::<u8>::new(i as nat, |j: int| 0u8),
            decreases 128 - i,
        {
            ram.push(0);
            assert(ram@ =~= Seq::<u8>::new((i + 1) as nat, |j: int| 0u8));
            i = i + 1;
        }
        Self {
            input: inputs::Input::new(),
            interval: Interval::Tim1024,
            expiration_time: 1000000,
            ram,
        }
    }

    pub open spec fn wf(self) -> bool {
        self.ram@.len() == 128
    }

    pub open spec fn spec_ram(self) -> Seq<u8> {
        self.ram@
    }

    pub open spec fn spec_input(self) -> inputs::Input {
        self.input
    }

    pub open spec fn spec_interval_ticks(self) -> u16 {
        self.interval.spec_ticks()
    }

    pub open spec fn spec_expiration(self) -> clocks::ClockType {
        self.expiration_time
    }

    /// Address bit 9 low selects the RAM window.
    pub open spec fn sel_ram(address: u16) -> bool {
        (address / 0x200) % 2 == 0
    }

    /// The RAM cell an address reaches: the low seven address lines.
    pub open spec fn ram_index(address: u16) -> int {
        address as int % 128
    }

    /// The register number: the low seven lines with the interrupt-enable
    /// line (bit 3) ignored.
    pub open spec fn reg_select(address: u16) -> int {
        address as int % 128 - (if (address as int / 8) % 2 == 1 {
            8int
        } else {
            0int
        })
    }

    pub open spec fn is_timer_reg(t: int) -> bool {
        t == 0x14 || t == 0x15 || t == 0x16 || t == 0x17 || t == 0x04
    }

    /// The byte a read returns: RAM, an input latch, the timer down-counter
    /// or the interrupt flag; an unmapped register reads 0.
    #[verifier::opaque]
    pub open spec fn spec_read(self, ticks: clocks::ClockType, address: u16) -> u8 {
        if Self::sel_ram(address) {
            self.ram@[Self::ram_index(address)]
        } else {
            let t = Self::reg_select(address);
            if t == 0x00 {
                self.input.swcha
            } else if t == 0x02 {
                self.input.swchb
            } else if Self::is_timer_reg(t) {
                spec_timer_value(
                    self.expiration_time as int,
                    ticks as int,
                    self.interval.spec_ticks() as int,
                )
            } else if t == 0x05 {
                spec_interrupt_value(self.expiration_time as int, ticks as int)
            } else {
                0
            }
        }
    }

    /// Replaces the input latches; only the host calls this.
    pub fn set_inputs(&mut self, inputs: inputs::Input)
        ensures
            final(self).input == inputs,
            final(self).ram@ == old(self).ram@,
            final(self).interval == old(self).interval,
            final(self).expiration_time == old(self).expiration_time,
            final(self).wf() == old(self).wf(),
    {
        self.input = inputs;
    }

    pub fn read(&mut self, clock: &clocks::Clock, address: u16) -> (r: u8)
        requires
            old(self).wf(),
            clock.ticks + 12 <= u64::MAX,
        ensures
            *final(self) == *old(self),
            r == old(self).spec_read(clock.ticks, address),
    {
        proof {
            reveal(Riot::spec_read);
        }
        let now = clock.ticks;
        if (address / 0x200) % 2 == 0 {
            return self.ram[(address % 128) as usize];
        }
        let low = (address % 128) as u8;
        let test = if (low / 8) % 2 == 1 {
            low - 8
        } else {
            low
        };
        if test == 0x00 {
            self.input.swcha
        } else if test == 0x02 {
            self.input.swchb
        } else if test == 0x14 || test == 0x15 || test == 0x16 || test == 0x17 || test == 0x04 {
            let interval = self.interval.ticks() as u64;
            if self.expiration_time >= now {
                (((self.expiration_time - now) / (interval * 3)) % 0x100) as u8
            } else {
                ((0x100 - ((now - self.expiration_time) / 3) % 0x100) % 0x100) as u8
            }
        } else if test == 0x05 {
            if self.expiration_time >= now {
                0
            } else {
                0x80
            }
        } else {
            // An unmapped register: the host reports the stray address.
            0
        }
    }

    /// The timer state a write leaves: the chosen interval (or the previous
    /// one for a non-timer register) and an expiry tick `data` counts away.
    pub open spec fn spec_interval_after_write(self, address: u16) -> Interval {
        let t = address as int % 128;
        if t == 0x14 {
            Interval::Tim1
        } else if t == 0x15 {
            Interval::Tim8
        } else if t == 0x16 {
            Interval::Tim64
        } else if t == 0x17 {
            Interval::Tim1024
        } else {
            self.interval
        }
    }

    pub fn write(&mut self, clock: &clocks::Clock, address: u16, data: u8)
        requires
            old(self).wf(),
            clock.ticks + 0x100000 <= u64::MAX,
        ensures
            final(self).wf(),
            final(self).input == old(self).input,
            Self::sel_ram(address) ==> ({
                &&& final(self).ram@ == old(self).ram@.update(Self::ram_index(address), data)
                &&& final(self).interval == old(self).interval
                &&& final(self).expiration_time == old(self).expiration_time
            }),
            !Self::sel_ram(address) ==> ({
                &&& final(self).ram@ == old(self).ram@
                &&& final(self).interval == old(self).spec_interval_after_write(address)
                &&& final(self).expiration_time == clock.ticks + 3 * data * final(self).spec_interval_ticks()
            }),
    {
        if (address / 0x200) % 2 == 0 {
            let idx = (address % 128) as usize;
            self.ram.set(idx, data);
        } else {
            let test = (address % 128) as u8;
            if test == 0x14 {
                self.interval = Interval::Tim1;
            } else if test == 0x15 {
                self.interval = Interval::Tim8;
            } else if test == 0x16 {
                self.interval = Interval::Tim64;
            } else if test == 0x17 {
                self.interval = Interval::Tim1024;
            }
            // An unmatched register leaves the interval alone; the host
            // reports the stray address.
            let interval = self.interval.ticks() as u64;
            let count: u64 = 3 * (data as u64);
            assert(count * interval <= 765 * 1024) by (nonlinear_arith)
                requires
                    count <= 765 && interval <= 1024,
            ;
            self.expiration_time = clock.ticks + count * interval;
        }
    }
}

/// Timer round trip. Writing `d` to the one-cycle timer at tick `t0` sets
/// expiry at `t0 + 3·d`; a read `k` CPU cycles after `t0` returns `d − k`
/// while `k < d`, then counts down from 0xFF in single cycles, wrapping
/// every 0x100. The interrupt flag reads 0 through `k == d` and 0x80
/// afterwards.
pub proof fn lemma_timer_round_trip(d: u8, k: int, t0: int)
    requires
        0 <= k,
    ensures
        k <= d ==> spec_timer_value(t0 + 3 * d, t0 + 3 * k, 1) == d - k,
        d < k <= d + 0xFF ==> spec_timer_value(t0 + 3 * d, t0 + 3 * k, 1) == 0x100 - (k - d),
        k <= d ==> spec_interrupt_value(t0 + 3 * d, t0 + 3 * k) == 0,
        k > d ==> spec_interrupt_value(t0 + 3 * d, t0 + 3 * k) == 0x80,
{
    if k <= d {
        assert((3 * d - 3 * k) / 3 == d - k);
        assert((d - k) % 0x100 == d - k);
    } else {
        assert((3 * k - 3 * d) / 3 == k - d);
        if k <= d + 0xFF {
            assert((k - d) % 0x100 == k - d);
        }
    }
}

} // verus!
