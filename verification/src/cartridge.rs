//! Bank-switched cartridge ROM with optional on-cart RAM.
//!
//! Any read or write whose masked address falls in the hot-swap range selects
//! a new bank; the access still completes against the newly selected bank.

use vstd::prelude::*;

verus! {

/// The fixed-bank hot-swap cartridge family. Variants differ only in their
/// construction parameters (bank count, hot-swap top address, RAM size,
/// initial bank).
#[derive(Debug, Clone, Copy, PartialEq, Eq, Structural)]
pub enum CartridgeType {
    Default,
    F4,
    F4SC,
    F6,
    F6SC,
    F8,
    F8SC,
    Cbs,
    Super,
}

/// One ROM bank: a flat byte window.
pub struct Bank {
    pub data: Vec<u8>,
}

impl Bank {
    fn new(bank_size: u16) -> (r: Self)
        ensures
            r.data@ == Seq::<u8>::new(bank_size as nat, |i: int| 0u8),
    {
        let mut data: Vec<u8> = Vec::new();
        let mut i: u16 = 0;
        while i < bank_size
            invariant
                i <= bank_size,
                data@ == Seq::<u8>::new(i as nat, |j: int| 0u8),
            decreases bank_size - i,
        {
            data.push(0);
            assert(data@ =~= Seq::<u8>::new((i + 1) as nat, |j: int| 0u8));
            i = i + 1;
        }
        Self { data }
    }
}

pub struct GenericCartridge {
    pub filename: String,
    pub num_banks: u8,
    pub cartridge_banks: Vec<Bank>,
    pub max_banks: u8,
    pub bank_size: u16,
    pub ram_size: u16,
    pub ram: Vec<u8>,
    pub current_bank: u8,
    pub bank_select: u8,
    pub hot_swap: u16,
}

impl GenericCartridge {
    /// Structural validity: the bank list matches the counters, every bank is
    /// at least one masked window long, and the hot-swap range is a genuine
    /// address range.
    pub open spec fn wf(self) -> bool {
        &&& self.num_banks == self.cartridge_banks@.len()
        &&& self.bank_size >= 1
        &&& self.hot_swap < 0xFFFF
        &&& self.hot_swap + 1 >= self.num_banks
        &&& self.ram_size <= 0x4000
        &&& self.ram@.len() == self.ram_size
        &&& (self.num_banks > 0 ==> self.current_bank < self.num_banks)
        &&& forall|i: int|
            0 <= i < self.cartridge_banks@.len() ==> (#[trigger] self.cartridge_banks@[i].data@.len())
                >= self.bank_size
    }

    /// The address as masked down to the bank window.
    pub open spec fn masked_addr(self, address: u16) -> int {
        address as int % self.bank_size as int
    }

    /// Whether a masked address reads the read half of on-cart RAM.
    pub open spec fn in_ram_read(self, a: int) -> bool {
        self.ram_size > 0 && self.ram_size <= a < 2 * self.ram_size
    }

    /// Whether a masked address writes the write half of on-cart RAM.
    pub open spec fn in_ram_write(self, a: int) -> bool {
        self.ram_size > 0 && a < self.ram_size
    }

    /// Whether a masked address falls in the hot-swap range.
    pub open spec fn in_hot_swap(self, a: int) -> bool {
        self.num_banks > 1 && self.hot_swap + 1 - self.num_banks <= a < self.hot_swap + 1
    }

    /// The bank selected by a hot-swap access at masked address `a`.
    pub open spec fn hot_swap_bank(self, a: int) -> int {
        self.num_banks - (self.hot_swap + 1 - a)
    }

    /// The current bank after an access at masked address `a`, for accesses
    /// that reach the hot-swap logic.
    pub open spec fn bank_after(self, a: int) -> int {
        if self.in_hot_swap(a) {
            self.hot_swap_bank(a)
        } else {
            self.current_bank as int
        }
    }

    /// The byte a read returns: on-cart RAM when selected, else the byte of
    /// the (possibly newly selected) bank, or 0 with no banks loaded.
    pub open spec fn read_value(self, a: int) -> u8 {
        if self.in_ram_read(a) {
            self.ram@[a % self.ram_size as int]
        } else if self.num_banks > 0 {
            self.cartridge_banks@[self.bank_after(a)].data@[a]
        } else {
            0
        }
    }

    /// The construction parameters of each cartridge variant:
    /// (max banks, initial bank, bank size, hot-swap top, RAM size).
    pub open spec fn spec_params(t: CartridgeType) -> (u8, u8, u16, u16, u16) {
        match t {
            CartridgeType::Default => (8, 1, 0x1000, 0xFF9, 0),
            CartridgeType::F4 => (8, 0, 0x1000, 0xFFB, 0),
            CartridgeType::F4SC => (8, 0, 0x1000, 0xFFB, 0x80),
            CartridgeType::F8 => (2, 1, 0x1000, 0xFF9, 0),
            CartridgeType::F8SC => (2, 1, 0x1000, 0xFF9, 0x80),
            CartridgeType::F6 => (4, 0, 0x1000, 0xFF9, 0),
            CartridgeType::F6SC => (4, 0, 0x1000, 0xFF9, 0x80),
            CartridgeType::Cbs => (3, 0, 0x1000, 0xFFA, 0x100),
            CartridgeType::Super => (4, 0, 0x1000, 0xFF9, 0),
        }
    }

    pub fn new(
        filename: &str,
        max_banks: u8,
        current_bank: u8,
        bank_size: u16,
        hot_swap: u16,
        ram_size: u16,
    ) -> (r: Self)
        requires
            bank_size >= 1,
            hot_swap < 0xFFFF,
            ram_size <= 0x4000,
        ensures
            r.wf(),
            r.num_banks == 0,
            r.cartridge_banks@.len() == 0,
            r.max_banks == max_banks,
            r.bank_size == bank_size,
            r.ram_size == ram_size,
            r.hot_swap == hot_swap,
            r.current_bank == current_bank,
            r.ram@ == Seq::<u8>::new(ram_size as nat, |i: int| 0u8),
            r.filename@ == filename@,
    {
        let mut ram: Vec<u8> = Vec::new();
        let mut i: u16 = 0;
        while i < ram_size
            invariant
                i <= ram_size,
                ram@ == Seq::<u8>::new(i as nat, |j: int| 0u8),
            decreases ram_size - i,
        {
            ram.push(0);
            assert(ram@ =~= Seq::<u8>::new((i + 1) as nat, |j: int| 0u8));
            i = i + 1;
        }
        Self {
            filename: filename.to_owned(),
            cartridge_banks: Vec::new(),
            ram,
            bank_size,
            max_banks,
            hot_swap,
            ram_size,
            num_banks: 0,
            current_bank,
            bank_select: 0,
        }
    }

    /// Reads a byte. A hot-swap address switches the current bank first and
    /// the read then comes from the new bank; the RAM read half bypasses the
    /// hot-swap logic.
    pub fn read(&mut self, address: u16) -> (r: u8)
        requires
            old(self).wf(),
        ensures
            final(self).wf(),
            r == old(self).read_value(old(self).masked_addr(address)),
            *final(self) == (GenericCartridge {
                current_bank: if !old(self).in_ram_read(old(self).masked_addr(address)) {
                    old(self).bank_after(old(self).masked_addr(address)) as u8
                } else {
                    old(self).current_bank
                },
                ..*old(self)
            }),
    {
        let address = address % self.bank_size;
        if self.ram_size > 0 && address < 2 * self.ram_size && address >= self.ram_size {
            self.ram[(address % self.ram_size) as usize]
        } else {
            if self.num_banks > 1 && ((self.hot_swap + 1) - self.num_banks as u16) <= address
                && (self.hot_swap + 1) > address {
                self.current_bank = self.num_banks - ((self.hot_swap + 1) - address) as u8;
            }
            if self.cartridge_banks.len() > 0 {
                self.cartridge_banks[self.current_bank as usize].data[address as usize]
            } else {
                0
            }
        }
    }

    /// How many bytes the next bank takes from `n` remaining, given the
    /// current window size `bs`. A first bank of exactly 2048 bytes inside a
    /// larger window is a 2K image: the window shrinks to it. A short final
    /// remainder becomes a short window of its own.
    pub open spec fn spec_take(n: int, bs: int, first: bool) -> int {
        if first && n == 2048 && bs >= 2048 {
            2048
        } else if n < bs {
            n
        } else {
            bs
        }
    }

    /// The bank windows cut from a ROM image, at most `max` of them.
    pub open spec fn spec_chunks(src: Seq<u8>, bs: int, first: bool, max: nat) -> Seq<Seq<u8>>
        decreases max,
    {
        if max == 0 || src.len() == 0 {
            Seq::empty()
        } else {
            let t = Self::spec_take(src.len() as int, bs, first);
            seq![src.take(t)] + Self::spec_chunks(src.skip(t), t, false, (max - 1) as nat)
        }
    }

    /// The bytes left over after cutting the bank windows.
    pub open spec fn spec_rest(src: Seq<u8>, bs: int, first: bool, max: nat) -> Seq<u8>
        decreases max,
    {
        if max == 0 || src.len() == 0 {
            src
        } else {
            let t = Self::spec_take(src.len() as int, bs, first);
            Self::spec_rest(src.skip(t), t, false, (max - 1) as nat)
        }
    }

    /// The bank window size after cutting: that of the last bank cut, or the
    /// original when nothing was cut.
    pub open spec fn spec_final_bs(src: Seq<u8>, bs: int, first: bool, max: nat) -> int
        decreases max,
    {
        if max == 0 || src.len() == 0 {
            bs
        } else {
            let t = Self::spec_take(src.len() as int, bs, first);
            Self::spec_final_bs(src.skip(t), t, false, (max - 1) as nat)
        }
    }

    /// One unfolding step of the three chunking functions.
    proof fn lemma_chunks_step(src: Seq<u8>, bs: int, first: bool, max: nat)
        requires
            max > 0,
            src.len() > 0,
        ensures
            Self::spec_chunks(src, bs, first, max) == seq![
                src.take(Self::spec_take(src.len() as int, bs, first)),
            ] + Self::spec_chunks(
                src.skip(Self::spec_take(src.len() as int, bs, first)),
                Self::spec_take(src.len() as int, bs, first),
                false,
                (max - 1) as nat,
            ),
            Self::spec_rest(src, bs, first, max) == Self::spec_rest(
                src.skip(Self::spec_take(src.len() as int, bs, first)),
                Self::spec_take(src.len() as int, bs, first),
                false,
                (max - 1) as nat,
            ),
            Self::spec_final_bs(src, bs, first, max) == Self::spec_final_bs(
                src.skip(Self::spec_take(src.len() as int, bs, first)),
                Self::spec_take(src.len() as int, bs, first),
                false,
                (max - 1) as nat,
            ),
    {
    }

    /// The chunking functions on an empty image, or with no banks left.
    proof fn lemma_chunks_none(src: Seq<u8>, bs: int, first: bool, max: nat)
        requires
            max == 0 || src.len() == 0,
        ensures
            Self::spec_chunks(src, bs, first, max) == Seq::<Seq<u8>>::empty(),
            Self::spec_rest(src, bs, first, max) == src,
            Self::spec_final_bs(src, bs, first, max) == bs,
    {
    }

    /// Cuts one bank from the front of `source`, or nothing when it is empty.
    /// The second component reports the bytes taken, reduced to a byte.
    pub fn load_bank(&mut self, source: &mut Vec<u8>) -> (r: (Option<Bank>, u8))
        requires
            old(self).bank_size >= 1,
            old(self).bank_size <= 0x1000,
        ensures
            *final(self) == (GenericCartridge { bank_size: final(self).bank_size, ..*old(self) }),
            old(source)@.len() == 0 ==> ({
                &&& r.0 is None
                &&& r.1 == 0
                &&& final(self).bank_size == old(self).bank_size
                &&& final(source)@ == old(source)@
            }),
            old(source)@.len() > 0 ==> ({
                let t = Self::spec_take(
                    old(source)@.len() as int,
                    old(self).bank_size as int,
                    old(self).num_banks == 0,
                );
                &&& r.0 matches Some(b) && b.data@ == old(source)@.take(t)
                &&& r.1 == t % 256
                &&& final(self).bank_size == t
                &&& final(source)@ == old(source)@.skip(t)
            }),
    {
        let n = source.len();
        if n == 0 {
            return (None, 0);
        }
        let take: usize = if self.num_banks == 0 && n == 2048 && self.bank_size >= 2048 {
            2048
        } else if n < self.bank_size as usize {
            n
        } else {
            self.bank_size as usize
        };
        let mut data: Vec<u8> = Vec::new();
        let mut i: usize = 0;
        while i < take
            invariant
                i <= take,
                take <= source@.len(),
                data@ == source@.take(i as int),
            decreases take - i,
        {
            data.push(source[i]);
            assert(data@ =~= source@.take(i + 1 as int));
            i = i + 1;
        }
        let mut rest: Vec<u8> = Vec::new();
        let mut j: usize = take;
        while j < n
            invariant
                take <= j <= n,
                n == source@.len(),
                rest@ == source@.subrange(take as int, j as int),
            decreases n - j,
        {
            rest.push(source[j]);
            assert(rest@ =~= source@.subrange(take as int, j + 1 as int));
            j = j + 1;
        }
        assert(rest@ =~= source@.skip(take as int));
        *source = rest;
        self.bank_size = take as u16;
        (Some(Bank { data }), (take % 256) as u8)
    }

    /// Cuts the ROM image into banks, at most `max_banks` of them, growing
    /// the bank list as they are read; leftover bytes stay in `source`. A
    /// default bank index beyond the loaded count falls back to bank 0.
    pub fn load_banks(&mut self, source: &mut Vec<u8>)
        requires
            old(self).wf(),
            old(self).num_banks == 0,
            old(self).cartridge_banks@.len() == 0,
            old(self).bank_size <= 0x1000,
            old(self).hot_swap + 1 >= old(self).max_banks,
        ensures
            final(self).wf(),
            final(self).bank_size <= 0x1000,
            final(self).cartridge_banks@.map(|i: int, b: Bank| b.data@) == Self::spec_chunks(
                old(source)@,
                old(self).bank_size as int,
                true,
                old(self).max_banks as nat,
            ),
            final(self).num_banks == final(self).cartridge_banks@.len(),
            final(self).bank_size == Self::spec_final_bs(
                old(source)@,
                old(self).bank_size as int,
                true,
                old(self).max_banks as nat,
            ),
            final(source)@ == Self::spec_rest(
                old(source)@,
                old(self).bank_size as int,
                true,
                old(self).max_banks as nat,
            ),
            final(self).current_bank == (if old(self).current_bank < final(self).num_banks {
                old(self).current_bank
            } else {
                0
            }),
            *final(self) == (GenericCartridge {
                num_banks: final(self).num_banks,
                cartridge_banks: final(self).cartridge_banks,
                bank_size: final(self).bank_size,
                current_bank: final(self).current_bank,
                ..*old(self)
            }),
    {
        let ghost src0 = source@;
        let ghost bs0 = self.bank_size as int;
        let ghost max = self.max_banks as nat;
        let mut i: u8 = 0;
        while i < self.max_banks
            invariant
                i <= self.max_banks,
                max == self.max_banks as nat,
                1 <= self.bank_size <= 0x1000,
                self.num_banks == self.cartridge_banks@.len(),
                self.num_banks <= i,
                forall|k: int|
                    0 <= k < self.cartridge_banks@.len() ==> (
                #[trigger] self.cartridge_banks@[k].data@.len()) >= self.bank_size,
                Self::spec_chunks(src0, bs0, true, max) == self.cartridge_banks@.map(
                    |k: int, b: Bank| b.data@,
                ) + Self::spec_chunks(
                    source@,
                    self.bank_size as int,
                    self.num_banks == 0,
                    (max - i) as nat,
                ),
                Self::spec_rest(src0, bs0, true, max) == Self::spec_rest(
                    source@,
                    self.bank_size as int,
                    self.num_banks == 0,
                    (max - i) as nat,
                ),
                Self::spec_final_bs(src0, bs0, true, max) == Self::spec_final_bs(
                    source@,
                    self.bank_size as int,
                    self.num_banks == 0,
                    (max - i) as nat,
                ),
                *self == (GenericCartridge {
                    num_banks: self.num_banks,
                    cartridge_banks: self.cartridge_banks,
                    bank_size: self.bank_size,
                    ..*old(self)
                }),
            decreases self.max_banks - i,
        {
            let ghost pre_banks = self.cartridge_banks@.map(|k: int, b: Bank| b.data@);
            let ghost pre_src = source@;
            let ghost pre_bs = self.bank_size as int;
            let ghost pre_first = self.num_banks == 0;
            let (loaded, _n) = self.load_bank(source);
            match loaded {
                Some(bank) => {
                    assert(pre_src.len() > 0);
                    let ghost t = Self::spec_take(pre_src.len() as int, pre_bs, pre_first);
                    self.cartridge_banks.push(bank);
                    self.num_banks = self.num_banks + 1;
                    proof {
                        Self::lemma_chunks_step(pre_src, pre_bs, pre_first, (max - i) as nat);
                        assert(self.cartridge_banks@.map(|k: int, b: Bank| b.data@) =~= pre_banks
                            + seq![pre_src.take(t)]);
                        assert(self.cartridge_banks@.map(|k: int, b: Bank| b.data@)
                            + Self::spec_chunks(
                            source@,
                            self.bank_size as int,
                            self.num_banks == 0,
                            (max - i - 1) as nat,
                        ) =~= pre_banks + Self::spec_chunks(
                            pre_src,
                            pre_bs,
                            pre_first,
                            (max - i) as nat,
                        ));
                    }
                },
                None => {
                    assert(pre_src.len() == 0);
                    proof {
                        Self::lemma_chunks_none(pre_src, pre_bs, pre_first, (max - i) as nat);
                        Self::lemma_chunks_none(pre_src, pre_bs, pre_first, (max - i - 1) as nat);
                    }
                },
            }
            i = i + 1;
        }
        assert(Self::spec_chunks(source@, self.bank_size as int, self.num_banks == 0, 0) =~= Seq::<
            Seq<u8>,
        >::empty());
        assert(self.cartridge_banks@.map(|k: int, b: Bank| b.data@) + Seq::<Seq<u8>>::empty()
            =~= self.cartridge_banks@.map(|k: int, b: Bank| b.data@));
        if self.current_bank >= self.num_banks {
            self.current_bank = 0;
        }
    }

    /// Writes a byte. Only the RAM write half stores data; a hot-swap address
    /// switches the current bank whether or not the write stored anything.
    pub fn write(&mut self, address: u16, data: u8)
        requires
            old(self).wf(),
        ensures
            final(self).wf(),
            *final(self) == (GenericCartridge {
                current_bank: old(self).bank_after(old(self).masked_addr(address)) as u8,
                ram: final(self).ram,
                ..*old(self)
            }),
            final(self).ram@ == (if old(self).in_ram_write(old(self).masked_addr(address)) {
                old(self).ram@.update(
                    old(self).masked_addr(address) % old(self).ram_size as int,
                    data,
                )
            } else {
                old(self).ram@
            }),
    {
        let address = address % self.bank_size;
        if self.ram_size > 0 && address < self.ram_size {
            let idx = (address % self.ram_size) as usize;
            self.ram.set(idx, data);
        }
        if self.num_banks > 1 && ((self.hot_swap + 1) - self.num_banks as u16) <= address && (
        self.hot_swap + 1) > address {
            self.current_bank = self.num_banks - ((self.hot_swap + 1) - address) as u8;
        }
    }
}

/// Builds an empty cartridge shell of the given variant; the ROM image is
/// handed to `load_banks` separately, since reading it is the host's job.
pub fn get_new_cartridge(filename: &str, cartridge_type: &CartridgeType) -> (r: GenericCartridge)
    ensures
        r.wf(),
        r.num_banks == 0,
        r.cartridge_banks@.len() == 0,
        (r.max_banks, r.current_bank, r.bank_size, r.hot_swap, r.ram_size)
            == GenericCartridge::spec_params(*cartridge_type),
        r.bank_size <= 0x1000,
        r.hot_swap + 1 >= r.max_banks,
        r.filename@ == filename@,
        r.ram@ == Seq::<u8>::new(r.ram_size as nat, |i: int| 0u8),
{
    match cartridge_type {
        CartridgeType::Default => GenericCartridge::new(filename, 8, 1, 0x1000, 0xFF9, 0),
        CartridgeType::F4 => GenericCartridge::new(filename, 8, 0, 0x1000, 0xFFB, 0),
        CartridgeType::F4SC => GenericCartridge::new(filename, 8, 0, 0x1000, 0xFFB, 0x80),
        CartridgeType::F8 => GenericCartridge::new(filename, 2, 1, 0x1000, 0xFF9, 0),
        CartridgeType::F8SC => GenericCartridge::new(filename, 2, 1, 0x1000, 0xFF9, 0x80),
        CartridgeType::F6 => GenericCartridge::new(filename, 4, 0, 0x1000, 0xFF9, 0),
        CartridgeType::F6SC => GenericCartridge::new(filename, 4, 0, 0x1000, 0xFF9, 0x80),
        CartridgeType::Cbs => GenericCartridge::new(filename, 3, 0, 0x1000, 0xFFA, 0x100),
        CartridgeType::Super => GenericCartridge::new(filename, 4, 0, 0x1000, 0xFF9, 0),
    }
}

/// Bank selection on a two-bank cartridge whose hot-swap top is 0xFF9 (the
/// F8 scheme): a read or write whose masked address is 0xFF8 selects bank 0
/// and one at 0xFF9 selects bank 1, while any access outside the hot-swap
/// range leaves the current bank where it was — so a selection persists
/// until the next hot-swap access.
pub proof fn lemma_f8_bank_select(cart: GenericCartridge, a: int)
    requires
        cart.wf(),
        cart.num_banks == 2,
        cart.hot_swap == 0xFF9,
    ensures
        cart.in_hot_swap(0xFF8) && cart.bank_after(0xFF8) == 0,
        cart.in_hot_swap(0xFF9) && cart.bank_after(0xFF9) == 1,
        !(0xFF8 <= a <= 0xFF9) ==> cart.bank_after(a) == cart.current_bank,
{
}

} // verus!
