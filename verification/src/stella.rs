//! The TIA ("Stella"): beam-position-aware pixel synthesis, collision
//! latches, and the per-object scan-line generators.
//!
//! Rendering is catch-up driven: a register write first draws every pixel
//! the beam has crossed since the last update, using the register values
//! that were in force before the write, and only then applies the write.

use crate::clocks;
use crate::display;
use crate::inputs;
use crate::tiasound;
use vstd::prelude::*;

verus! {

pub struct Constants {}

impl Constants {
    pub const ATARI2600_WIDTH: u16 = 160;
    pub const ATARI2600_HEIGHT: u16 = 280;
    pub const PIXEL_WIDTH_STRETCH: u8 = 2;
    pub const VSYNC_MASK: u8 = 0x2;
    pub const VSYNC_ON: u8 = 0x2;
    pub const VSYNC_OFF: u8 = 0x0;
}

/// Bit `k` of a byte, counting from the least significant.
pub open spec fn u8_bit(v: u8, k: int) -> bool {
    if k == 0 {
        v as int % 2 == 1
    } else if k == 1 {
        (v as int / 2) % 2 == 1
    } else if k == 2 {
        (v as int / 4) % 2 == 1
    } else if k == 3 {
        (v as int / 8) % 2 == 1
    } else if k == 4 {
        (v as int / 16) % 2 == 1
    } else if k == 5 {
        (v as int / 32) % 2 == 1
    } else if k == 6 {
        (v as int / 64) % 2 == 1
    } else if k == 7 {
        (v as int / 128) % 2 == 1
    } else {
        false
    }
}

pub fn u8_bit_get(v: u8, k: u8) -> (r: bool)
    requires
        k < 8,
    ensures
        r == u8_bit(v, k as int),
{
    if k == 0 {
        v % 2 == 1
    } else if k == 1 {
        (v / 2) % 2 == 1
    } else if k == 2 {
        (v / 4) % 2 == 1
    } else if k == 3 {
        (v / 8) % 2 == 1
    } else if k == 4 {
        (v / 16) % 2 == 1
    } else if k == 5 {
        (v / 32) % 2 == 1
    } else if k == 6 {
        (v / 64) % 2 == 1
    } else {
        (v / 128) % 2 == 1
    }
}

/// The playfield: PF0/PF1/PF2 and CTRLPF form a 20-bit pattern; the left
/// half of the line scales each bit to four pixels, the right half repeats
/// or mirrors it.
pub struct PlayfieldState {
    pub pf0: u8,
    pub pf1: u8,
    pub pf2: u8,
    pub ctrlpf: u8,
    pub pf_lookup: Vec<bool>,
}

/// Bit `i` (0 to 19) of the playfield pattern. PF0 contributes its upper
/// nibble, PF1 its bits in reverse order, PF2 its bits in order.
pub open spec fn pf_pattern_bit(pf0: u8, pf1: u8, pf2: u8, i: int) -> bool {
    if i < 4 {
        u8_bit(pf0, 4 + i)
    } else if i < 12 {
        u8_bit(pf1, 11 - i)
    } else {
        u8_bit(pf2, i - 12)
    }
}

/// The playfield scan at pixel `x` of a line.
pub open spec fn pf_scan_at(pf0: u8, pf1: u8, pf2: u8, ctrlpf: u8, x: int) -> bool {
    if x < 80 {
        pf_pattern_bit(pf0, pf1, pf2, x / 4)
    } else if ctrlpf % 2 == 0 {
        pf_pattern_bit(pf0, pf1, pf2, (x - 80) / 4)
    } else {
        pf_pattern_bit(pf0, pf1, pf2, 19 - (x - 80) / 4)
    }
}

impl PlayfieldState {
    pub open spec fn wf(self) -> bool {
        &&& self.pf_lookup@.len() == 160
        &&& forall|x: int|
            0 <= x < 160 ==> #[trigger] self.pf_lookup@[x] == pf_scan_at(
                self.pf0,
                self.pf1,
                self.pf2,
                self.ctrlpf,
                x,
            )
    }

    pub fn new() -> (r: Self)
        ensures
            r.wf(),
            r.pf0 == 0 && r.pf1 == 0 && r.pf2 == 0 && r.ctrlpf == 0,
    {
        let mut instance = Self { pf0: 0, pf1: 0, pf2: 0, ctrlpf: 0, pf_lookup: Vec::new() };
        instance.update();
        instance
    }

    /// Recomputes the whole 160-pixel scan from the current registers.
    pub fn update(&mut self)
        ensures
            final(self).wf(),
            final(self).pf0 == old(self).pf0,
            final(self).pf1 == old(self).pf1,
            final(self).pf2 == old(self).pf2,
            final(self).ctrlpf == old(self).ctrlpf,
    {
        let mut field: Vec<bool> = Vec::new();
        let mut x: u16 = 0;
        while x < 160
            invariant
                x <= 160,
                field@.len() == x,
                forall|j: int|
                    0 <= j < x ==> #[trigger] field@[j] == pf_scan_at(
                        self.pf0,
                        self.pf1,
                        self.pf2,
                        self.ctrlpf,
                        j,
                    ),
            decreases 160 - x,
        {
            let i: u8 = if x < 80 {
                (x / 4) as u8
            } else if self.ctrlpf % 2 == 0 {
                ((x - 80) / 4) as u8
            } else {
                (19 - (x - 80) / 4) as u8
            };
            let b = if i < 4 {
                u8_bit_get(self.pf0, 4 + i)
            } else if i < 12 {
                u8_bit_get(self.pf1, (11 - i) as u8)
            } else {
                u8_bit_get(self.pf2, (i - 12) as u8)
            };
            field.push(b);
            x = x + 1;
        }
        self.pf_lookup = field;
    }

    pub fn get_playfield_scan(&self) -> (r: Vec<bool>)
        requires
            self.wf(),
        ensures
            r@ == self.pf_lookup@,
    {
        let mut r: Vec<bool> = Vec::new();
        let mut x: usize = 0;
        while x < self.pf_lookup.len()
            invariant
                x <= self.pf_lookup@.len(),
                r@ == self.pf_lookup@.take(x as int),
            decreases self.pf_lookup@.len() - x,
        {
            r.push(self.pf_lookup[x]);
            assert(r@ =~= self.pf_lookup@.take(x + 1 as int));
            x = x + 1;
        }
        assert(r@ =~= self.pf_lookup@);
        r
    }

    pub fn update_pf0(&mut self, data: u8)
        ensures
            final(self).wf(),
            *final(self) == (PlayfieldState {
                pf0: data,
                pf_lookup: final(self).pf_lookup,
                ..*old(self)
            }),
    {
        self.pf0 = data;
        self.update();
    }

    pub fn update_pf1(&mut self, data: u8)
        ensures
            final(self).wf(),
            *final(self) == (PlayfieldState {
                pf1: data,
                pf_lookup: final(self).pf_lookup,
                ..*old(self)
            }),
    {
        self.pf1 = data;
        self.update();
    }

    pub fn update_pf2(&mut self, data: u8)
        ensures
            final(self).wf(),
            *final(self) == (PlayfieldState {
                pf2: data,
                pf_lookup: final(self).pf_lookup,
                ..*old(self)
            }),
    {
        self.pf2 = data;
        self.update();
    }

    pub fn update_ctrlpf(&mut self, data: u8)
        ensures
            final(self).wf(),
            *final(self) == (PlayfieldState {
                ctrlpf: data,
                pf_lookup: final(self).pf_lookup,
                ..*old(self)
            }),
    {
        self.ctrlpf = data;
        self.update();
    }
}

/// The ball: an enable bit (with a vertically delayed copy), a position
/// latch and a width from CTRLPF's top nibble.
pub struct BallState {
    pub enabl: u8,
    pub enabl_old: u8,
    pub vdelbl: u8,
    pub resbl: u8,
    pub ctrlpf: u8,
    pub x_min: u16,
    pub x_max: u16,
    pub enabled: bool,
    pub scan_line: Vec<bool>,
}

impl BallState {
    /// VDELBL selects the current or the delayed enable bit.
    pub open spec fn spec_enabled(self) -> bool {
        if self.vdelbl % 2 == 0 {
            u8_bit(self.enabl, 1)
        } else {
            u8_bit(self.enabl_old, 1)
        }
    }

    /// The ball width: 1, 2, 4 or 8 pixels from CTRLPF bits 4 and 5.
    pub open spec fn spec_width(self) -> int {
        let e = (self.ctrlpf as int / 16) % 4;
        if e == 0 {
            1
        } else if e == 1 {
            2
        } else if e == 2 {
            4
        } else {
            8
        }
    }

    /// The first beam column of the ball, 16-bit wrap of `resbl - 68`.
    pub open spec fn spec_x_min(self) -> int {
        if self.resbl >= 68 {
            self.resbl - 68
        } else {
            self.resbl + 0x10000 - 68
        }
    }

    pub open spec fn spec_x_max(self) -> int {
        (self.spec_x_min() + self.spec_width()) % 0x10000
    }

    /// The ball scan: pixel `j` is lit when some column of the ball's span
    /// lands on it modulo the visible width.
    pub open spec fn scan_at(enabled: bool, x_min: int, x_max: int, j: int) -> bool {
        enabled && exists|x: int| x_min <= x < x_max && #[trigger] (x % 160) == j
    }

    pub open spec fn wf(self) -> bool {
        &&& self.x_min == self.spec_x_min()
        &&& self.x_max == self.spec_x_max()
        &&& self.enabled == self.spec_enabled()
        &&& self.scan_line@.len() == 160
        &&& forall|j: int|
            0 <= j < 160 ==> #[trigger] self.scan_line@[j] == Self::scan_at(
                self.enabled,
                self.x_min as int,
                self.x_max as int,
                j,
            )
    }

    pub fn new() -> (r: Self)
        ensures
            r.wf(),
            r.enabl == 0 && r.enabl_old == 0 && r.vdelbl == 0 && r.resbl == 0 && r.ctrlpf == 0,
    {
        let mut r = Self {
            enabl: 0,
            enabl_old: 0,
            vdelbl: 0,
            resbl: 0,
            ctrlpf: 0,
            x_min: 0,
            x_max: 0,
            enabled: false,
            scan_line: Vec::new(),
        };
        r.update();
        r
    }

    /// Recomputes the derived position, width and the whole scan line.
    pub fn update(&mut self)
        ensures
            final(self).wf(),
            *final(self) == (BallState {
                x_min: final(self).x_min,
                x_max: final(self).x_max,
                enabled: final(self).enabled,
                scan_line: final(self).scan_line,
                ..*old(self)
            }),
    {
        if 0 == (self.vdelbl % 2) {
            self.enabled = 0 != (self.enabl / 2) % 2;
        } else {
            self.enabled = 0 != (self.enabl_old / 2) % 2;
        }
        let e = (self.ctrlpf / 16) % 4;
        let width: u16 = if e == 0 {
            1
        } else if e == 1 {
            2
        } else if e == 2 {
            4
        } else {
            8
        };
        self.x_min = (self.resbl as u16).wrapping_sub(68);
        self.x_max = (self.resbl as u16).wrapping_sub(68).wrapping_add(width);
        self.calc_ball_scan();
    }

    pub fn update_resbl(&mut self, data: u8)
        ensures
            final(self).wf(),
            *final(self) == (BallState {
                resbl: data,
                x_min: final(self).x_min,
                x_max: final(self).x_max,
                enabled: final(self).enabled,
                scan_line: final(self).scan_line,
                ..*old(self)
            }),
    {
        self.resbl = data;
        self.update();
    }

    pub fn update_enabl_old(&mut self, data: u8)
        ensures
            final(self).wf(),
            *final(self) == (BallState {
                enabl_old: data,
                x_min: final(self).x_min,
                x_max: final(self).x_max,
                enabled: final(self).enabled,
                scan_line: final(self).scan_line,
                ..*old(self)
            }),
    {
        self.enabl_old = data;
        self.update();
    }

    pub fn update_enabl(&mut self, data: u8)
        ensures
            final(self).wf(),
            *final(self) == (BallState {
                enabl: data,
                x_min: final(self).x_min,
                x_max: final(self).x_max,
                enabled: final(self).enabled,
                scan_line: final(self).scan_line,
                ..*old(self)
            }),
    {
        self.enabl = data;
        self.update();
    }

    pub fn update_vdelbl(&mut self, data: u8)
        ensures
            final(self).wf(),
            *final(self) == (BallState {
                vdelbl: data,
                x_min: final(self).x_min,
                x_max: final(self).x_max,
                enabled: final(self).enabled,
                scan_line: final(self).scan_line,
                ..*old(self)
            }),
    {
        self.vdelbl = data;
        self.update();
    }

    pub fn update_ctrlpf(&mut self, data: u8)
        ensures
            final(self).wf(),
            *final(self) == (BallState {
                ctrlpf: data,
                x_min: final(self).x_min,
                x_max: final(self).x_max,
                enabled: final(self).enabled,
                scan_line: final(self).scan_line,
                ..*old(self)
            }),
    {
        self.ctrlpf = data;
        self.update();
    }

    /// Fills the scan line for the ball's current span.
    fn calc_ball_scan(&mut self)
        ensures
            final(self).scan_line@.len() == 160,
            forall|j: int|
                0 <= j < 160 ==> #[trigger] final(self).scan_line@[j] == Self::scan_at(
                    final(self).enabled,
                    final(self).x_min as int,
                    final(self).x_max as int,
                    j,
                ),
            *final(self) == (BallState { scan_line: final(self).scan_line, ..*old(self) }),
    {
        let mut scan: Vec<bool> = Vec::new();
        let mut k: u16 = 0;
        while k < 160
            invariant
                k <= 160,
                scan@ == Seq::<bool>::new(k as nat, |j: int| false),
            decreases 160 - k,
        {
            scan.push(false);
            assert(scan@ =~= Seq::<bool>::new((k + 1) as nat, |j: int| false));
            k = k + 1;
        }
        if self.enabled {
            let mut x: u16 = self.x_min;
            while x < self.x_max
                invariant
                    self.x_min <= x,
                    x <= self.x_max || self.x_max < self.x_min,
                    self.x_max < self.x_min ==> x == self.x_min,
                    scan@.len() == 160,
                    self.enabled,
                    forall|j: int|
                        0 <= j < 160 ==> #[trigger] scan@[j] == Self::scan_at(
                            true,
                            self.x_min as int,
                            x as int,
                            j,
                        ),
                decreases self.x_max - x,
            {
                let ghost pre = scan@;
                let j0 = (x % 160) as usize;
                scan.set(j0, true);
                proof {
                    assert((x as int) % 160 == j0);
                    assert(forall|j: int|
                        0 <= j < 160 && j != j0 ==> #[trigger] scan@[j] == Self::scan_at(
                            true,
                            self.x_min as int,
                            x + 1,
                            j,
                        ));
                    assert(Self::scan_at(true, self.x_min as int, x + 1, j0 as int));
                }
                x = x + 1;
            }
            assert(forall|j: int|
                0 <= j < 160 ==> #[trigger] scan@[j] == Self::scan_at(
                    self.enabled,
                    self.x_min as int,
                    self.x_max as int,
                    j,
                ));
        } else {
            assert(forall|j: int|
                0 <= j < 160 ==> #[trigger] scan@[j] == Self::scan_at(
                    self.enabled,
                    self.x_min as int,
                    self.x_max as int,
                    j,
                ));
        }
        self.scan_line = scan;
    }

    pub fn get_ball_scan(&self) -> (r: Vec<bool>)
        ensures
            r@ == self.scan_line@,
    {
        let mut r: Vec<bool> = Vec::new();
        let mut x: usize = 0;
        while x < self.scan_line.len()
            invariant
                x <= self.scan_line@.len(),
                r@ == self.scan_line@.take(x as int),
            decreases self.scan_line@.len() - x,
        {
            r.push(self.scan_line[x]);
            assert(r@ =~= self.scan_line@.take(x + 1 as int));
            x = x + 1;
        }
        assert(r@ =~= self.scan_line@);
        r
    }
}

/// NUSIZ decode: (number of copies, pixel width, gap between copies).
pub open spec fn spec_nusize(nusiz: u8) -> (u8, u8, u8) {
    let s = nusiz as int % 8;
    if s == 0 {
        (1, 1, 0)
    } else if s == 1 {
        (2, 1, 2)
    } else if s == 2 {
        (2, 1, 4)
    } else if s == 3 {
        (3, 1, 2)
    } else if s == 4 {
        (2, 1, 8)
    } else if s == 5 {
        (1, 2, 0)
    } else if s == 6 {
        (3, 1, 4)
    } else {
        (1, 4, 0)
    }
}

pub fn nusize(nusiz: u8) -> (r: (u8, u8, u8))
    ensures
        r == spec_nusize(nusiz),
        1 <= r.0 <= 3,
        1 <= r.1 <= 4,
        r.2 <= 8,
        8 * (r.0 - 1) * r.2 + 8 * r.1 <= 160,
{
    let s = nusiz % 8;
    if s == 0 {
        (1, 1, 0)
    } else if s == 1 {
        (2, 1, 2)
    } else if s == 2 {
        (2, 1, 4)
    } else if s == 3 {
        (3, 1, 2)
    } else if s == 4 {
        (2, 1, 8)
    } else if s == 5 {
        (1, 2, 0)
    } else if s == 6 {
        (3, 1, 4)
    } else {
        (1, 4, 0)
    }
}

/// The beam column of pixel `ii` of missile copy `nn`: positions wrap as
/// 8-bit bytes and then fold into the visible width.
pub open spec fn missile_pos(resm: int, gap: int, nn: int, ii: int) -> int {
    ((ii + resm + 8 * nn * gap - 68) % 256) % 160
}

/// The missile scan: pixel `j` is lit when the missile is enabled and some
/// pixel of some copy lands on it.
pub open spec fn missile_scan_at(
    enam: u8,
    number: u8,
    gap: u8,
    resm: u8,
    width: int,
    j: int,
) -> bool {
    &&& u8_bit(enam, 1)
    &&& exists|nn: int, ii: int|
        0 <= nn < number && 0 <= ii < width && #[trigger] missile_pos(
            resm as int,
            gap as int,
            nn,
            ii,
        ) == j
}

/// A missile: an enable bit, a position latch and NUSIZ-derived copies.
pub struct MissileState {
    pub nusiz: u8,
    pub enam: u8,
    pub resm: u8,
    pub number: u8,
    pub gap: u8,
    pub scan_line: Vec<bool>,
}

impl MissileState {
    /// The missile width: 1, 2, 4 or 8 pixels from NUSIZ bits 4 and 5.
    pub open spec fn spec_width(self) -> int {
        let e = (self.nusiz as int / 16) % 4;
        if e == 0 {
            1
        } else if e == 1 {
            2
        } else if e == 2 {
            4
        } else {
            8
        }
    }

    pub open spec fn wf(self) -> bool {
        &&& self.number == spec_nusize(self.nusiz).0
        &&& self.gap == spec_nusize(self.nusiz).2
        &&& self.resm >= 68
        &&& self.scan_line@.len() == 160
        &&& forall|j: int|
            0 <= j < 160 ==> #[trigger] self.scan_line@[j] == missile_scan_at(
                self.enam,
                self.number,
                self.gap,
                self.resm,
                self.spec_width(),
                j,
            )
    }

    pub fn new() -> (r: Self)
        ensures
            r.wf(),
            r.nusiz == 0 && r.enam == 0 && r.resm == 68,
    {
        let mut r = Self { nusiz: 0, enam: 0, resm: 0, number: 0, gap: 0, scan_line: Vec::new() };
        r.update();
        r
    }

    /// Recomputes the copy count and gap, clamps the position into the
    /// visible span, and rebuilds the scan line.
    pub fn update(&mut self)
        ensures
            final(self).wf(),
            final(self).resm == (if old(self).resm < 68 {
                68
            } else {
                old(self).resm
            }),
            *final(self) == (MissileState {
                resm: final(self).resm,
                number: final(self).number,
                gap: final(self).gap,
                scan_line: final(self).scan_line,
                ..*old(self)
            }),
    {
        let (number, _size, gap) = nusize(self.nusiz);
        self.number = number;
        self.gap = gap;
        if self.resm < 68 {
            self.resm = 68;
        }
        self.calc_missile_scan();
    }

    pub fn update_nusiz(&mut self, data: u8)
        ensures
            final(self).wf(),
            final(self).nusiz == data,
            final(self).enam == old(self).enam,
            final(self).resm == (if old(self).resm < 68 {
                68
            } else {
                old(self).resm
            }),
    {
        self.nusiz = data;
        self.update();
    }

    pub fn update_resm(&mut self, data: u8)
        ensures
            final(self).wf(),
            final(self).nusiz == old(self).nusiz,
            final(self).enam == old(self).enam,
            final(self).resm == (if data < 68 {
                68
            } else {
                data
            }),
    {
        self.resm = data;
        self.update();
    }

    pub fn update_enam(&mut self, data: u8)
        ensures
            final(self).wf(),
            final(self).nusiz == old(self).nusiz,
            final(self).enam == data,
            final(self).resm == (if old(self).resm < 68 {
                68
            } else {
                old(self).resm
            }),
    {
        self.enam = data;
        self.update();
    }

    /// Fills the scan line: each copy paints `width` pixels at its position.
    #[verifier::rlimit(100)]
    fn calc_missile_scan(&mut self)
        requires
            old(self).number == spec_nusize(old(self).nusiz).0,
            old(self).gap == spec_nusize(old(self).nusiz).2,
        ensures
            final(self).scan_line@.len() == 160,
            forall|j: int|
                0 <= j < 160 ==> #[trigger] final(self).scan_line@[j] == missile_scan_at(
                    old(self).enam,
                    old(self).number,
                    old(self).gap,
                    old(self).resm,
                    old(self).spec_width(),
                    j,
                ),
            *final(self) == (MissileState { scan_line: final(self).scan_line, ..*old(self) }),
    {
        let mut scan: Vec<bool> = Vec::new();
        let mut k: u16 = 0;
        while k < 160
            invariant
                k <= 160,
                scan@ == Seq::<bool>::new(k as nat, |j: int| false),
            decreases 160 - k,
        {
            scan.push(false);
            assert(scan@ =~= Seq::<bool>::new((k + 1) as nat, |j: int| false));
            k = k + 1;
        }
        if 0 != (self.enam / 2) % 2 {
            let e = (self.nusiz / 16) % 4;
            let width: u16 = if e == 0 {
                1
            } else if e == 1 {
                2
            } else if e == 2 {
                4
            } else {
                8
            };
            let number = self.number;
            let gap = self.gap as u16;
            let resm = self.resm as u16;
            let mut n: u8 = 0;
            while n < number
                invariant
                    n <= number,
                    number == self.number,
                    number == spec_nusize(self.nusiz).0,
                    gap == self.gap,
                    gap == spec_nusize(self.nusiz).2,
                    resm == self.resm,
                    width == self.spec_width(),
                    u8_bit(self.enam, 1),
                    scan@.len() == 160,
                    forall|j: int|
                        0 <= j < 160 ==> #[trigger] scan@[j] == (exists|nn: int, ii: int|
                            0 <= nn < n && 0 <= ii < self.spec_width() && #[trigger] missile_pos(
                                self.resm as int,
                                self.gap as int,
                                nn,
                                ii,
                            ) == j),
                decreases number - n,
            {
                let mut i: u16 = 0;
                while i < width
                    invariant
                        i <= width,
                        n < number <= 3,
                        number == self.number,
                        gap == self.gap,
                        gap <= 8,
                        width == self.spec_width(),
                        width <= 8,
                        resm == self.resm,
                        scan@.len() == 160,
                        forall|j: int|
                            0 <= j < 160 ==> #[trigger] scan@[j] == (exists|nn: int, ii: int|
                                0 <= nn < number && 0 <= ii < self.spec_width() && (nn < n || (nn
                                    == n && ii < i)) && #[trigger] missile_pos(
                                    self.resm as int,
                                    self.gap as int,
                                    nn,
                                    ii,
                                ) == j),
                    decreases width - i,
                {
                    assert(8 * (n as u16) * gap <= 192) by (nonlinear_arith)
                        requires
                            n <= 3 && gap <= 8,
                    ;
                    let x: u16 = (((i + resm + 8 * (n as u16) * gap + 256) - 68) % 256) % 160;
                    proof {
                        assert(8 * (n as int) * (gap as int) == 8 * (n as u16) * gap);
                        assert(missile_pos(self.resm as int, self.gap as int, n as int, i as int)
                            == ((i + resm + 8 * (n as u16) * gap + 256 - 68) % 256) % 160);
                    }
                    scan.set(x as usize, true);
                    proof {
                        assert(missile_pos(self.resm as int, self.gap as int, n as int, i as int)
                            == x as int);
                    }
                    i = i + 1;
                }
                n = n + 1;
            }
            assert(forall|j: int|
                0 <= j < 160 ==> #[trigger] scan@[j] == missile_scan_at(
                    self.enam,
                    self.number,
                    self.gap,
                    self.resm,
                    self.spec_width(),
                    j,
                ));
        } else {
            assert(forall|j: int|
                0 <= j < 160 ==> #[trigger] scan@[j] == missile_scan_at(
                    self.enam,
                    self.number,
                    self.gap,
                    self.resm,
                    self.spec_width(),
                    j,
                ));
        }
        self.scan_line = scan;
    }

    pub fn get_missile_scan(&self) -> (r: Vec<bool>)
        ensures
            r@ == self.scan_line@,
    {
        let mut r: Vec<bool> = Vec::new();
        let mut x: usize = 0;
        while x < self.scan_line.len()
            invariant
                x <= self.scan_line@.len(),
                r@ == self.scan_line@.take(x as int),
            decreases self.scan_line@.len() - x,
        {
            r.push(self.scan_line[x]);
            assert(r@ =~= self.scan_line@.take(x + 1 as int));
            x = x + 1;
        }
        assert(r@ =~= self.scan_line@);
        r
    }
}

/// Pixel `idx` of one scaled player copy: each graphic bit is `size` pixels
/// wide; `reflect` nonzero draws bit 7 leftmost (the unreflected sprite).
pub open spec fn player_pixel(size: int, reflect: u8, g: u8, idx: int) -> bool {
    if reflect != 0 {
        u8_bit(g, 7 - idx / size)
    } else {
        u8_bit(g, idx / size)
    }
}

/// The unshifted player line built from `n` copies written in order, each
/// over what was there, so the last overlapping copy wins.
pub open spec fn player_unshifted(n: nat, size: int, gap: int, reflect: u8, g: u8, k: int) -> bool
    decreases n,
{
    if n == 0 {
        false
    } else {
        let off = 8 * gap * (n - 1);
        if off <= k < off + 8 * size {
            player_pixel(size, reflect, g, k - off)
        } else {
            player_unshifted((n - 1) as nat, size, gap, reflect, g, k)
        }
    }
}

/// The player scan: the unshifted line rotated so that it starts at the
/// latched position.
pub open spec fn player_scan_at(
    number: u8,
    size: u8,
    gap: u8,
    reflect: u8,
    g: u8,
    pos_start: u16,
    j: int,
) -> bool {
    player_unshifted(
        number as nat,
        size as int,
        gap as int,
        reflect,
        g,
        (j + 320 - pos_start) % 160,
    )
}

/// A player sprite: pattern byte (with a vertically delayed copy), NUSIZ
/// copies, reflection, and a latched start position.
pub struct PlayerState {
    pub nusiz: u8,
    pub p: u8,
    pub p_old: u8,
    pub refp: u8,
    pub resp: u8,
    pub vdelp: u8,
    pub reflect: u8,
    pub grp: u8,
    pub number: u8,
    pub size: u8,
    pub gap: u8,
    pub pos_start: u16,
    pub scan_line: Vec<bool>,
}

impl PlayerState {
    /// VDELP selects the current or the delayed pattern byte.
    pub open spec fn spec_grp(self) -> u8 {
        if self.vdelp % 2 == 0 {
            self.p
        } else {
            self.p_old
        }
    }

    pub open spec fn wf(self) -> bool {
        &&& self.grp == self.spec_grp()
        &&& self.scan_line@.len() == 160
        &&& (self.grp == 0 ==> forall|j: int| 0 <= j < 160 ==> !(#[trigger] self.scan_line@[j]))
        &&& (self.grp != 0 ==> {
            &&& self.number == spec_nusize(self.nusiz).0
            &&& self.size == spec_nusize(self.nusiz).1
            &&& self.gap == spec_nusize(self.nusiz).2
            &&& self.resp >= 68
            &&& self.reflect == (if u8_bit(self.refp, 3) {
                0u8
            } else {
                1u8
            })
            &&& self.pos_start == self.resp - 68 + self.size / 2
            &&& forall|j: int|
                0 <= j < 160 ==> #[trigger] self.scan_line@[j] == player_scan_at(
                    self.number,
                    self.size,
                    self.gap,
                    self.reflect,
                    self.grp,
                    self.pos_start,
                    j,
                )
        })
    }

    pub fn new() -> (r: Self)
        ensures
            r.wf(),
            r.nusiz == 0 && r.p == 0 && r.p_old == 0 && r.refp == 0 && r.resp == 0 && r.vdelp == 0,
    {
        let mut r = Self {
            nusiz: 0,
            p: 0,
            p_old: 0,
            refp: 0,
            resp: 0,
            vdelp: 0,
            reflect: 0,
            grp: 0,
            number: 0,
            size: 0,
            gap: 0,
            pos_start: 0,
            scan_line: Vec::new(),
        };
        r.update();
        r
    }

    /// Recomputes the selected pattern and, for a visible pattern, the
    /// derived copy layout, clamped position and scan line. A zero pattern
    /// clears the scan and leaves the derived state alone.
    pub fn update(&mut self)
        ensures
            final(self).wf(),
            final(self).grp == old(self).spec_grp(),
            final(self).nusiz == old(self).nusiz && final(self).p == old(self).p && final(self).p_old == old(self).p_old && final(self).refp == old(self).refp && final(self).vdelp
                == old(self).vdelp,
            final(self).resp == (if old(self).spec_grp() != 0 && old(self).resp < 68 {
                68
            } else {
                old(self).resp
            }),
    {
        if 0 == (self.vdelp % 2) {
            self.grp = self.p;
        } else {
            self.grp = self.p_old;
        }
        if 0 == self.grp {
            let mut scan: Vec<bool> = Vec::new();
            let mut k: u16 = 0;
            while k < 160
                invariant
                    k <= 160,
                    scan@ == Seq::<bool>::new(k as nat, |j: int| false),
                decreases 160 - k,
            {
                scan.push(false);
                assert(scan@ =~= Seq::<bool>::new((k + 1) as nat, |j: int| false));
                k = k + 1;
            }
            self.scan_line = scan;
        } else {
            let (number, size, gap) = nusize(self.nusiz);
            self.number = number;
            self.size = size;
            self.gap = gap;
            if self.resp < 68 {
                self.resp = 68;
            }
            if (self.refp / 8) % 2 == 0 {
                self.reflect = 1;
            } else {
                self.reflect = 0;
            }
            self.pos_start = (self.resp as u16) - 68 + (self.size as u16) / 2;
            self.calc_player_scan();
        }
    }

    pub fn update_nusiz(&mut self, data: u8)
        ensures
            final(self).wf(),
            final(self).nusiz == data,
            final(self).p == old(self).p && final(self).p_old == old(self).p_old && final(self).refp == old(self).refp && final(self).vdelp == old(self).vdelp,
            final(self).resp == (if old(self).spec_grp() != 0 && old(self).resp < 68 {
                68
            } else {
                old(self).resp
            }),
    {
        self.nusiz = data;
        self.update();
    }

    pub fn update_resp(&mut self, data: u8)
        ensures
            final(self).wf(),
            final(self).nusiz == old(self).nusiz,
            final(self).p == old(self).p && final(self).p_old == old(self).p_old && final(self).refp == old(self).refp && final(self).vdelp == old(self).vdelp,
            final(self).resp == (if old(self).spec_grp() != 0 && data < 68 {
                68
            } else {
                data
            }),
    {
        self.resp = data;
        self.update();
    }

    pub fn update_refp(&mut self, data: u8)
        ensures
            final(self).wf(),
            final(self).nusiz == old(self).nusiz,
            final(self).p == old(self).p && final(self).p_old == old(self).p_old && final(self).refp == data && final(self).vdelp == old(self).vdelp,
            final(self).resp == (if old(self).spec_grp() != 0 && old(self).resp < 68 {
                68
            } else {
                old(self).resp
            }),
    {
        self.refp = data;
        self.update();
    }

    pub fn update_p(&mut self, data: u8)
        ensures
            final(self).wf(),
            final(self).nusiz == old(self).nusiz,
            final(self).p == data && final(self).p_old == old(self).p_old && final(self).refp
                == old(self).refp && final(self).vdelp == old(self).vdelp,
            final(self).resp == (if (if old(self).vdelp % 2 == 0 {
                data
            } else {
                old(self).p_old
            }) != 0 && old(self).resp < 68 {
                68
            } else {
                old(self).resp
            }),
    {
        self.p = data;
        self.update();
    }

    pub fn update_p_old(&mut self, data: u8)
        ensures
            final(self).wf(),
            final(self).nusiz == old(self).nusiz,
            final(self).p == old(self).p && final(self).p_old == data && final(self).refp == old(
                self,
            ).refp && final(self).vdelp == old(self).vdelp,
            final(self).resp == (if (if old(self).vdelp % 2 == 0 {
                old(self).p
            } else {
                data
            }) != 0 && old(self).resp < 68 {
                68
            } else {
                old(self).resp
            }),
    {
        self.p_old = data;
        self.update();
    }

    pub fn update_vdelp(&mut self, data: u8)
        ensures
            final(self).wf(),
            final(self).nusiz == old(self).nusiz,
            final(self).p == old(self).p && final(self).p_old == old(self).p_old && final(self).refp == old(self).refp && final(self).vdelp == data,
            final(self).resp == (if (if data % 2 == 0 {
                old(self).p
            } else {
                old(self).p_old
            }) != 0 && old(self).resp < 68 {
                68
            } else {
                old(self).resp
            }),
    {
        self.vdelp = data;
        self.update();
    }

    /// Builds the unshifted copies and rotates them to the start position.
    fn calc_player_scan(&mut self)
        requires
            old(self).number == spec_nusize(old(self).nusiz).0,
            old(self).size == spec_nusize(old(self).nusiz).1,
            old(self).gap == spec_nusize(old(self).nusiz).2,
            old(self).pos_start <= 320,
        ensures
            final(self).scan_line@.len() == 160,
            forall|j: int|
                0 <= j < 160 ==> #[trigger] final(self).scan_line@[j] == player_scan_at(
                    old(self).number,
                    old(self).size,
                    old(self).gap,
                    old(self).reflect,
                    old(self).grp,
                    old(self).pos_start,
                    j,
                ),
            *final(self) == (PlayerState { scan_line: final(self).scan_line, ..*old(self) }),
    {
        let number = self.number;
        let size = self.size;
        let gap = self.gap;
        let reflect = self.reflect;
        let grp = self.grp;
        let mut un: Vec<bool> = Vec::new();
        let mut k: u16 = 0;
        while k < 160
            invariant
                k <= 160,
                un@ == Seq::<bool>::new(k as nat, |j: int| false),
            decreases 160 - k,
        {
            un.push(false);
            assert(un@ =~= Seq::<bool>::new((k + 1) as nat, |j: int| false));
            k = k + 1;
        }
        assert(forall|kk: int|
            0 <= kk < 160 ==> !(#[trigger] player_unshifted(
                0,
                size as int,
                gap as int,
                reflect,
                grp,
                kk,
            )));
        let mut n: u8 = 0;
        while n < number
            invariant
                n <= number,
                number == spec_nusize(self.nusiz).0,
                size == spec_nusize(self.nusiz).1,
                gap == spec_nusize(self.nusiz).2,
                1 <= number <= 3,
                1 <= size <= 4,
                gap <= 8,
                8 * ((number as int) - 1) * (gap as int) + 8 * (size as int) <= 160,
                reflect == self.reflect,
                grp == self.grp,
                un@.len() == 160,
                forall|kk: int|
                    0 <= kk < 160 ==> #[trigger] un@[kk] == player_unshifted(
                        n as nat,
                        size as int,
                        gap as int,
                        reflect,
                        grp,
                        kk,
                    ),
            decreases number - n,
        {
            proof {
                assert(8 * (gap as int) * (n as int) <= 8 * ((number as int) - 1) * (gap as int)
                    && 8 * ((number as int) - 1) * (gap as int) >= 0) by (nonlinear_arith)
                    requires
                        n < number,
                        1 <= number <= 3,
                        gap <= 8,
                ;
            }
            let off: u16 = 8 * (gap as u16) * (n as u16);
            let len: u16 = 8 * (size as u16);
            let mut i: u16 = 0;
            while i < len
                invariant
                    i <= len,
                    len == 8 * size,
                    off == 8 * (gap as int) * (n as int),
                    off + len <= 160,
                    n < number,
                    size == spec_nusize(self.nusiz).1,
                    1 <= size,
                    reflect == self.reflect,
                    grp == self.grp,
                    un@.len() == 160,
                    forall|kk: int|
                        0 <= kk < 160 ==> #[trigger] un@[kk] == (if off <= kk < off + i {
                            player_pixel(size as int, reflect, grp, kk - off)
                        } else {
                            player_unshifted(n as nat, size as int, gap as int, reflect, grp, kk)
                        }),
                decreases len - i,
            {
                proof {
                    assert((i as int) / (size as int) < 8) by (nonlinear_arith)
                        requires
                            0 <= i as int,
                            (i as int) < 8 * (size as int),
                            1 <= size as int,
                    ;
                }
                let bit_index: u8 = if reflect != 0 {
                    7 - (i / (size as u16)) as u8
                } else {
                    (i / (size as u16)) as u8
                };
                let b = u8_bit_get(grp, bit_index);
                un.set((off + i) as usize, b);
                assert(b == player_pixel(size as int, reflect, grp, i as int));
                i = i + 1;
            }
            proof {
                assert(forall|kk: int|
                    0 <= kk < 160 ==> #[trigger] un@[kk] == player_unshifted(
                        (n + 1) as nat,
                        size as int,
                        gap as int,
                        reflect,
                        grp,
                        kk,
                    ));
            }
            n = n + 1;
        }
        let pos_start = self.pos_start;
        let mut scan: Vec<bool> = Vec::new();
        let mut j: u16 = 0;
        while j < 160
            invariant
                j <= 160,
                pos_start == self.pos_start,
                pos_start <= 320,
                number == self.number,
                size == self.size,
                gap == self.gap,
                reflect == self.reflect,
                grp == self.grp,
                un@.len() == 160,
                forall|kk: int|
                    0 <= kk < 160 ==> #[trigger] un@[kk] == player_unshifted(
                        self.number as nat,
                        self.size as int,
                        self.gap as int,
                        self.reflect,
                        self.grp,
                        kk,
                    ),
                scan@.len() == j,
                forall|jj: int|
                    0 <= jj < j ==> #[trigger] scan@[jj] == player_scan_at(
                        self.number,
                        self.size,
                        self.gap,
                        self.reflect,
                        self.grp,
                        self.pos_start,
                        jj,
                    ),
            decreases 160 - j,
        {
            let idx = ((j + 320) - pos_start) % 160;
            scan.push(un[idx as usize]);
            j = j + 1;
        }
        self.scan_line = scan;
    }

    pub fn get_player_scan(&self) -> (r: Vec<bool>)
        ensures
            r@ == self.scan_line@,
    {
        let mut r: Vec<bool> = Vec::new();
        let mut x: usize = 0;
        while x < self.scan_line.len()
            invariant
                x <= self.scan_line@.len(),
                r@ == self.scan_line@.take(x as int),
            decreases self.scan_line@.len() - x,
        {
            r.push(self.scan_line[x]);
            assert(r@ =~= self.scan_line@.take(x + 1 as int));
            x = x + 1;
        }
        assert(r@ =~= self.scan_line@);
        r
    }
}

/// The register values that apply to the next rendered span: colours,
/// CTRLPF, and the pending horizontal-motion nibbles.
pub struct LineState {
    pub p_colour: (display::Colour, display::Colour),
    pub background_colour: display::Colour,
    pub playfield_colour: display::Colour,
    pub ctrlpf: u8,
    pub hmp: (u8, u8),
    pub hmm: (u8, u8),
    pub hmbl: u8,
}

impl LineState {
    pub open spec fn spec_default() -> LineState {
        LineState {
            p_colour: (display::Colour { r: 0, g: 0, b: 0 }, display::Colour { r: 0, g: 0, b: 0 }),
            background_colour: display::Colour { r: 0, g: 0, b: 0 },
            playfield_colour: display::Colour { r: 0, g: 0, b: 0 },
            ctrlpf: 0,
            hmp: (0, 0),
            hmm: (0, 0),
            hmbl: 0,
        }
    }

    pub fn new() -> (r: Self)
        ensures
            r == Self::spec_default(),
    {
        Self {
            p_colour: (display::Colour::new(0, 0, 0), display::Colour::new(0, 0, 0)),
            background_colour: display::Colour::new(0, 0, 0),
            playfield_colour: display::Colour::new(0, 0, 0),
            ctrlpf: 0,
            hmp: (0, 0),
            hmm: (0, 0),
            hmbl: 0,
        }
    }
}

/// A latch byte after up to two conditional bit-OR steps, applied in order.
pub open spec fn latch_acc2(base: u8, hit1: bool, mask1: u8, hit2: bool, mask2: u8) -> u8 {
    let v1 = if hit1 {
        base | mask1
    } else {
        base
    };
    if hit2 {
        v1 | mask2
    } else {
        v1
    }
}

/// The fifteen sticky collision latches, packed over eight readable bytes
/// that use only bits 7 and 6.
pub struct CollisionState {
    pub cxmp: (u8, u8),
    pub cxpfb: (u8, u8),
    pub cxmfb: (u8, u8),
    pub cxblpf: u8,
    pub cxppmm: u8,
}

/// The latches after one pixel where the given object scans are lit: every
/// coincident pair ORs its bit in, everything else is kept.
pub open spec fn spec_update_collisions(
    c: CollisionState,
    p0: bool,
    p1: bool,
    m0: bool,
    m1: bool,
    bl: bool,
    pf: bool,
) -> CollisionState {
    CollisionState {
        cxmp: (
            latch_acc2(c.cxmp.0, m0 && p1, 0x80, m0 && p0, 0x40),
            latch_acc2(c.cxmp.1, m1 && p0, 0x80, m1 && p1, 0x40),
        ),
        cxpfb: (
            latch_acc2(c.cxpfb.0, bl && p0, 0x40, p0 && pf, 0x80),
            latch_acc2(c.cxpfb.1, bl && p1, 0x40, p1 && pf, 0x80),
        ),
        cxmfb: (
            latch_acc2(c.cxmfb.0, m0 && pf, 0x80, m0 && bl, 0x40),
            latch_acc2(c.cxmfb.1, m1 && pf, 0x80, m1 && bl, 0x40),
        ),
        cxblpf: latch_acc2(c.cxblpf, bl && pf, 0x80, false, 0),
        cxppmm: latch_acc2(c.cxppmm, m0 && m1, 0x40, p0 && p1, 0x80),
    }
}

impl CollisionState {
    pub open spec fn spec_clear() -> CollisionState {
        CollisionState { cxmp: (0, 0), cxpfb: (0, 0), cxmfb: (0, 0), cxblpf: 0, cxppmm: 0 }
    }

    pub fn new() -> (r: Self)
        ensures
            r == Self::spec_clear(),
    {
        Self { cxmp: (0, 0), cxpfb: (0, 0), cxmfb: (0, 0), cxblpf: 0, cxppmm: 0 }
    }

    /// CXCLR: every pair reads 0 again.
    pub fn clear(&mut self)
        ensures
            *final(self) == Self::spec_clear(),
    {
        self.cxmp = (0, 0);
        self.cxpfb = (0, 0);
        self.cxmfb = (0, 0);
        self.cxblpf = 0;
        self.cxppmm = 0;
    }

    /// Latches every pair of objects whose scans are both lit at one pixel.
    pub fn update_collisions(&mut self, p0: bool, p1: bool, m0: bool, m1: bool, bl: bool, pf: bool)
        ensures
            *final(self) == spec_update_collisions(*old(self), p0, p1, m0, m1, bl, pf),
    {
        if m0 {
            if p1 {
                self.cxmp.0 = self.cxmp.0 | 0x80;
            }
            if pf {
                self.cxmfb.0 = self.cxmfb.0 | 0x80;
            }
            if bl {
                self.cxmfb.0 = self.cxmfb.0 | 0x40;
            }
            if m1 {
                self.cxppmm = self.cxppmm | 0x40;
            }
            if p0 {
                self.cxmp.0 = self.cxmp.0 | 0x40;
            }
        }
        if m1 {
            if pf {
                self.cxmfb.1 = self.cxmfb.1 | 0x80;
            }
            if bl {
                self.cxmfb.1 = self.cxmfb.1 | 0x40;
            }
            if p0 {
                self.cxmp.1 = self.cxmp.1 | 0x80;
            }
            if p1 {
                self.cxmp.1 = self.cxmp.1 | 0x40;
            }
        }
        if bl {
            if pf {
                self.cxblpf = self.cxblpf | 0x80;
            }
            if p0 {
                self.cxpfb.0 = self.cxpfb.0 | 0x40;
            }
            if p1 {
                self.cxpfb.1 = self.cxpfb.1 | 0x40;
            }
        }
        if p0 {
            if pf {
                self.cxpfb.0 = self.cxpfb.0 | 0x80;
            }
            if p1 {
                self.cxppmm = self.cxppmm | 0x80;
            }
        }
        if p1 && pf {
            self.cxpfb.1 = self.cxpfb.1 | 0x80;
        }
    }

    pub fn get_cxmp_0(&self) -> (r: u8)
        ensures
            r == self.cxmp.0,
    {
        self.cxmp.0
    }

    pub fn get_cxmp_1(&self) -> (r: u8)
        ensures
            r == self.cxmp.1,
    {
        self.cxmp.1
    }

    pub fn get_cxpfb_0(&self) -> (r: u8)
        ensures
            r == self.cxpfb.0,
    {
        self.cxpfb.0
    }

    pub fn get_cxpfb_1(&self) -> (r: u8)
        ensures
            r == self.cxpfb.1,
    {
        self.cxpfb.1
    }

    pub fn get_cxmfb_0(&self) -> (r: u8)
        ensures
            r == self.cxmfb.0,
    {
        self.cxmfb.0
    }

    pub fn get_cxmfb_1(&self) -> (r: u8)
        ensures
            r == self.cxmfb.1,
    {
        self.cxmfb.1
    }

    pub fn get_cxblpf(&self) -> (r: u8)
        ensures
            r == self.cxblpf,
    {
        self.cxblpf
    }

    pub fn get_cxppmm(&self) -> (r: u8)
        ensures
            r == self.cxppmm,
    {
        self.cxppmm
    }
}

/// One latch byte through its two conditional OR steps: every bit already
/// set survives, a hit ORs its own mask in, and no bit outside the base
/// and the two masks ever appears.
proof fn lemma_latch_acc2_bits(base: u8, h1: bool, m1: u8, h2: bool, m2: u8)
    ensures
        latch_acc2(base, h1, m1, h2, m2) & base == base,
        h1 ==> latch_acc2(base, h1, m1, h2, m2) & m1 == m1,
        h2 ==> latch_acc2(base, h1, m1, h2, m2) & m2 == m2,
        m1 & 0x3F == 0 && m2 & 0x3F == 0 ==> latch_acc2(base, h1, m1, h2, m2) & 0x3F == base
            & 0x3F,
{
    assert(forall|v: u8, w: u8, u: u8|
        ((v & u == u) ==> (#[trigger] ((v | w) & u)) == u)) by (bit_vector);
    assert(forall|v: u8, w: u8| ((#[trigger] ((v | w) & w)) == w) && ((v | w) & v == v)) by (bit_vector);
    assert(forall|v: u8, w: u8|
        w & 0x3F == 0 ==> (#[trigger] ((v | w) & 0x3F)) == v & 0x3F) by (bit_vector);
    assert(base & base == base) by (bit_vector);
}

/// The collision latches are sticky and complete: after CXCLR all fifteen
/// pairs read 0; a pixel where two objects coincide sets the pair's bit in
/// its latch byte; every bit already latched survives any later update, so
/// a pair stays readable until the next CXCLR; and the low six bits of
/// each byte are never set, so the bytes carry only bits 7 and 6.
pub proof fn lemma_collision_sticky(
    c: CollisionState,
    p0: bool,
    p1: bool,
    m0: bool,
    m1: bool,
    bl: bool,
    pf: bool,
)
    ensures
        CollisionState::spec_clear() == (CollisionState {
            cxmp: (0, 0),
            cxpfb: (0, 0),
            cxmfb: (0, 0),
            cxblpf: 0,
            cxppmm: 0,
        }),
        ({
            let n = spec_update_collisions(c, p0, p1, m0, m1, bl, pf);
            &&& n.cxmp.0 & c.cxmp.0 == c.cxmp.0
            &&& n.cxmp.1 & c.cxmp.1 == c.cxmp.1
            &&& n.cxpfb.0 & c.cxpfb.0 == c.cxpfb.0
            &&& n.cxpfb.1 & c.cxpfb.1 == c.cxpfb.1
            &&& n.cxmfb.0 & c.cxmfb.0 == c.cxmfb.0
            &&& n.cxmfb.1 & c.cxmfb.1 == c.cxmfb.1
            &&& n.cxblpf & c.cxblpf == c.cxblpf
            &&& n.cxppmm & c.cxppmm == c.cxppmm
            &&& (m0 && p1 ==> n.cxmp.0 & 0x80 == 0x80)
            &&& (m0 && p0 ==> n.cxmp.0 & 0x40 == 0x40)
            &&& (m1 && p0 ==> n.cxmp.1 & 0x80 == 0x80)
            &&& (m1 && p1 ==> n.cxmp.1 & 0x40 == 0x40)
            &&& (p0 && pf ==> n.cxpfb.0 & 0x80 == 0x80)
            &&& (bl && p0 ==> n.cxpfb.0 & 0x40 == 0x40)
            &&& (p1 && pf ==> n.cxpfb.1 & 0x80 == 0x80)
            &&& (bl && p1 ==> n.cxpfb.1 & 0x40 == 0x40)
            &&& (m0 && pf ==> n.cxmfb.0 & 0x80 == 0x80)
            &&& (m0 && bl ==> n.cxmfb.0 & 0x40 == 0x40)
            &&& (m1 && pf ==> n.cxmfb.1 & 0x80 == 0x80)
            &&& (m1 && bl ==> n.cxmfb.1 & 0x40 == 0x40)
            &&& (bl && pf ==> n.cxblpf & 0x80 == 0x80)
            &&& (p0 && p1 ==> n.cxppmm & 0x80 == 0x80)
            &&& (m0 && m1 ==> n.cxppmm & 0x40 == 0x40)
            &&& n.cxmp.0 & 0x3F == c.cxmp.0 & 0x3F
            &&& n.cxmp.1 & 0x3F == c.cxmp.1 & 0x3F
            &&& n.cxpfb.0 & 0x3F == c.cxpfb.0 & 0x3F
            &&& n.cxpfb.1 & 0x3F == c.cxpfb.1 & 0x3F
            &&& n.cxmfb.0 & 0x3F == c.cxmfb.0 & 0x3F
            &&& n.cxmfb.1 & 0x3F == c.cxmfb.1 & 0x3F
            &&& n.cxblpf & 0x3F == c.cxblpf & 0x3F
            &&& n.cxppmm & 0x3F == c.cxppmm & 0x3F
        }),
{
    assert(0x80u8 & 0x3F == 0 && 0x40u8 & 0x3F == 0 && 0u8 & 0x3F == 0) by (bit_vector);
    lemma_latch_acc2_bits(c.cxmp.0, m0 && p1, 0x80, m0 && p0, 0x40);
    lemma_latch_acc2_bits(c.cxmp.1, m1 && p0, 0x80, m1 && p1, 0x40);
    lemma_latch_acc2_bits(c.cxpfb.0, bl && p0, 0x40, p0 && pf, 0x80);
    lemma_latch_acc2_bits(c.cxpfb.1, bl && p1, 0x40, p1 && pf, 0x80);
    lemma_latch_acc2_bits(c.cxmfb.0, m0 && pf, 0x80, m0 && bl, 0x40);
    lemma_latch_acc2_bits(c.cxmfb.1, m1 && pf, 0x80, m1 && bl, 0x40);
    lemma_latch_acc2_bits(c.cxblpf, bl && pf, 0x80, false, 0);
    lemma_latch_acc2_bits(c.cxppmm, m0 && m1, 0x40, p0 && p1, 0x80);
}

/// The 128-entry palette, indexed by the colour byte's upper seven bits.
pub struct Colours {
    pub colours: Vec<display::Colour>,
}

impl Colours {
    pub const NUM_COLOURS: u8 = 128;

    pub open spec fn wf(self) -> bool {
        self.colours@.len() == 128
    }

    pub fn new() -> (r: Self)
        ensures
            r.wf(),
            forall|i: int|
                0 <= i < 128 ==> #[trigger] r.colours@[i] == (display::Colour { r: 0, g: 0, b: 0 }),
    {
        let mut colours: Vec<display::Colour> = Vec::new();
        let mut i: u8 = 0;
        while i < 128
            invariant
                i <= 128,
                colours@.len() == i,
                forall|j: int|
                    0 <= j < i ==> #[trigger] colours@[j] == (display::Colour {
                        r: 0,
                        g: 0,
                        b: 0,
                    }),
            decreases 128 - i,
        {
            colours.push(display::Colour::new(0, 0, 0));
            i = i + 1;
        }
        Self { colours }
    }

    /// Replaces one palette entry; the loader fills all 128 this way.
    pub fn set_colour(&mut self, index: u8, colour: display::Colour)
        requires
            old(self).wf(),
            index < 128,
        ensures
            final(self).wf(),
            final(self).colours@ == old(self).colours@.update(index as int, colour),
    {
        self.colours.set(index as usize, colour);
    }

    /// The palette entry for a TIA colour byte: its low bit is ignored.
    pub fn get_colour(&self, colour: u8) -> (r: display::Colour)
        requires
            self.wf(),
        ensures
            r == self.colours@[colour as int / 2],
    {
        self.colours[(colour / 2) as usize]
    }
}

/// How many pixels (0, 1 or 2) of the six object scans are lit at pixel `x`.
/// Collisions are latched only where at least two overlap.
pub open spec fn spec_hit_count(p0: bool, p1: bool, m0: bool, m1: bool, bl: bool, pf: bool) -> int {
    (if p0 {
        1int
    } else {
        0int
    }) + (if p1 {
        1int
    } else {
        0int
    }) + (if m0 {
        1int
    } else {
        0int
    }) + (if m1 {
        1int
    } else {
        0int
    }) + (if bl {
        1int
    } else {
        0int
    }) + (if pf {
        1int
    } else {
        0int
    })
}

/// The colour of one pixel. CTRLPF bit 2 gives the playfield and ball
/// priority over the players; ties inside a group go to the group painted
/// last in the chain.
pub open spec fn spec_pixel_colour(
    line: LineState,
    p0: bool,
    p1: bool,
    m0: bool,
    m1: bool,
    bl: bool,
    pf: bool,
) -> display::Colour {
    if (line.ctrlpf as int / 4) % 2 == 0 {
        if p0 || m0 {
            line.p_colour.0
        } else if p1 || m1 {
            line.p_colour.1
        } else if pf || bl {
            line.playfield_colour
        } else {
            line.background_colour
        }
    } else {
        if pf || bl {
            line.playfield_colour
        } else if p0 || m0 {
            line.p_colour.0
        } else if p1 || m1 {
            line.p_colour.1
        } else {
            line.background_colour
        }
    }
}

/// The collision latches after one pixel: updated only where two or more
/// scans overlap.
pub open spec fn spec_pixel_collide(
    c: CollisionState,
    p0: bool,
    p1: bool,
    m0: bool,
    m1: bool,
    bl: bool,
    pf: bool,
) -> CollisionState {
    if spec_hit_count(p0, p1, m0, m1, bl, pf) > 1 {
        spec_update_collisions(c, p0, p1, m0, m1, bl, pf)
    } else {
        c
    }
}

/// The collision latches after folding one row's pixels `x .. x_stop`,
/// left to right, over the six scans.
pub open spec fn spec_row_fold(
    c: CollisionState,
    s_p0: Seq<bool>,
    s_p1: Seq<bool>,
    s_m0: Seq<bool>,
    s_m1: Seq<bool>,
    s_bl: Seq<bool>,
    s_pf: Seq<bool>,
    x: int,
    x_stop: int,
) -> CollisionState
    decreases x_stop - x,
{
    if x >= x_stop {
        c
    } else {
        spec_row_fold(
            spec_pixel_collide(c, s_p0[x], s_p1[x], s_m0[x], s_m1[x], s_bl[x], s_pf[x]),
            s_p0,
            s_p1,
            s_m0,
            s_m1,
            s_bl,
            s_pf,
            x + 1,
            x_stop,
        )
    }
}

/// The collision latches after folding rows `y .. y_stop` inclusive: the
/// first row starts at `x_start`, later rows at 0; the last row stops at
/// `last_x_stop`, earlier rows at 159.
pub open spec fn spec_region_fold(
    c: CollisionState,
    s_p0: Seq<bool>,
    s_p1: Seq<bool>,
    s_m0: Seq<bool>,
    s_m1: Seq<bool>,
    s_bl: Seq<bool>,
    s_pf: Seq<bool>,
    y: int,
    y_stop: int,
    x_start: int,
    last_x_stop: int,
) -> CollisionState
    decreases y_stop + 1 - y,
{
    if y > y_stop {
        c
    } else {
        spec_region_fold(
            spec_row_fold(
                c,
                s_p0,
                s_p1,
                s_m0,
                s_m1,
                s_bl,
                s_pf,
                x_start,
                if y == y_stop {
                    last_x_stop
                } else {
                    159
                },
            ),
            s_p0,
            s_p1,
            s_m0,
            s_m1,
            s_bl,
            s_pf,
            y + 1,
            y_stop,
            0,
            last_x_stop,
        )
    }
}

/// One unfolding step of the row fold.
proof fn lemma_row_fold_step(
    c: CollisionState,
    s_p0: Seq<bool>,
    s_p1: Seq<bool>,
    s_m0: Seq<bool>,
    s_m1: Seq<bool>,
    s_bl: Seq<bool>,
    s_pf: Seq<bool>,
    x: int,
    x_stop: int,
)
    requires
        x < x_stop,
    ensures
        spec_row_fold(c, s_p0, s_p1, s_m0, s_m1, s_bl, s_pf, x, x_stop) == spec_row_fold(
            spec_pixel_collide(c, s_p0[x], s_p1[x], s_m0[x], s_m1[x], s_bl[x], s_pf[x]),
            s_p0,
            s_p1,
            s_m0,
            s_m1,
            s_bl,
            s_pf,
            x + 1,
            x_stop,
        ),
{
}

/// One unfolding step of the region fold.
proof fn lemma_region_fold_step(
    c: CollisionState,
    s_p0: Seq<bool>,
    s_p1: Seq<bool>,
    s_m0: Seq<bool>,
    s_m1: Seq<bool>,
    s_bl: Seq<bool>,
    s_pf: Seq<bool>,
    y: int,
    y_stop: int,
    x_start: int,
    last_x_stop: int,
)
    requires
        y <= y_stop,
    ensures
        spec_region_fold(
            c,
            s_p0,
            s_p1,
            s_m0,
            s_m1,
            s_bl,
            s_pf,
            y,
            y_stop,
            x_start,
            last_x_stop,
        ) == spec_region_fold(
            spec_row_fold(
                c,
                s_p0,
                s_p1,
                s_m0,
                s_m1,
                s_bl,
                s_pf,
                x_start,
                if y == y_stop {
                    last_x_stop
                } else {
                    159
                },
            ),
            s_p0,
            s_p1,
            s_m0,
            s_m1,
            s_bl,
            s_pf,
            y + 1,
            y_stop,
            0,
            last_x_stop,
        ),
{
}

/// The TIA itself: the shared register file, the per-object scan
/// generators, the collision latches, the frame buffer and the sound.
pub struct Stella {
    pub tiasound: tiasound::TiaSound,
    pub input: inputs::Input,
    pub vsync_debug_output_clock: clocks::ClockType,
    pub screen_start_clock: clocks::ClockType,
    pub paddle_start_clock: clocks::ClockType,
    pub last_screen_update_clock: clocks::ClockType,
    pub next_line: LineState,
    pub is_vsync: bool,
    pub is_blank: bool,
    pub is_input_latched: bool,
    pub is_update_time: bool,
    pub colours: Colours,
    pub display_lines: Vec<display::Colour>,
    pub collision_state: CollisionState,
    pub playfield_state: PlayfieldState,
    pub p0_state: PlayerState,
    pub p1_state: PlayerState,
    pub missile0: MissileState,
    pub missile1: MissileState,
    pub ball: BallState,
}

impl Stella {
    pub const FRAME_WIDTH: u16 = 160;

    pub const FRAME_HEIGHT: u16 = 280;

    pub const HORIZONTAL_BLANK: u16 = 68;

    pub const HORIZONTAL_TICKS: clocks::ClockType = 228;

    pub const INPUT_45_LATCH_MASK: u8 = 0x40;

    pub const BLANK_PADDLE_RECHARGE: u8 = 0x80;

    pub const BLANK_MASK: u8 = 0x2;

    pub const BLANK_ON: u8 = 0x2;

    pub const BLANK_OFF: u8 = 0x0;

    pub const PF_PRIORITY: u8 = 0x4;

    pub const VBLANK_LINES: u16 = 37;

    pub const OVERSCAN_LINES: u16 = 30;

    pub const START_DRAW_Y: u16 = 0;

    pub const END_DRAW_Y: u16 = 347;

    pub open spec fn wf(self) -> bool {
        &&& self.tiasound.wf()
        &&& self.colours.wf()
        &&& self.playfield_state.wf()
        &&& self.ball.wf()
        &&& self.missile0.wf()
        &&& self.missile1.wf()
        &&& self.p0_state.wf()
        &&& self.p1_state.wf()
        &&& self.display_lines@.len() == 348 * 160
        &&& self.screen_start_clock <= self.last_screen_update_clock
    }

    pub open spec fn s_p0(self) -> Seq<bool> {
        self.p0_state.scan_line@
    }

    pub open spec fn s_p1(self) -> Seq<bool> {
        self.p1_state.scan_line@
    }

    pub open spec fn s_m0(self) -> Seq<bool> {
        self.missile0.scan_line@
    }

    pub open spec fn s_m1(self) -> Seq<bool> {
        self.missile1.scan_line@
    }

    pub open spec fn s_bl(self) -> Seq<bool> {
        self.ball.scan_line@
    }

    pub open spec fn s_pf(self) -> Seq<bool> {
        self.playfield_state.pf_lookup@
    }

    pub open spec fn spec_get_colour(self, c: u8) -> display::Colour {
        self.colours.colours@[c as int / 2]
    }

    /// Whether the catch-up pass running at tick `ticks` paints row `y`,
    /// pixel `x`: the beam positions between the last update and one pixel
    /// past "now", excluding horizontal blank and the final pixel column.
    pub open spec fn spec_drawn(self, ticks: u64, y: int, x: int) -> bool {
        let lp = self.last_screen_update_clock - self.screen_start_clock;
        let sp = ticks + 1 - self.screen_start_clock;
        let y_start = lp / 228;
        let y_stop = sp / 228;
        let x_start0 = if lp % 228 >= 68 {
            lp % 228 - 68
        } else {
            0
        };
        let lxs = if sp % 228 >= 68 {
            sp % 228 - 68
        } else {
            0
        };
        &&& y_stop < 347
        &&& y_start <= y <= y_stop
        &&& x >= (if y == y_start {
            x_start0
        } else {
            0
        })
        &&& x < (if y == y_stop {
            lxs
        } else {
            159
        })
    }

    /// The frame buffer after the catch-up pass at tick `ticks`: every
    /// painted pixel takes the colour the current line state and scans give
    /// it, everything else is kept.
    pub open spec fn spec_scanned_display(self, ticks: u64) -> Seq<display::Colour> {
        Seq::new(
            (348 * 160) as nat,
            |idx: int|
                {
                    let y = idx / 160;
                    let x = idx % 160;
                    if self.spec_drawn(ticks, y, x) {
                        spec_pixel_colour(
                            self.next_line,
                            self.s_p0()[x],
                            self.s_p1()[x],
                            self.s_m0()[x],
                            self.s_m1()[x],
                            self.s_bl()[x],
                            self.s_pf()[x],
                        )
                    } else {
                        self.display_lines@[idx]
                    }
                },
        )
    }

    /// Pre-write catch-up, pixel by pixel: a register write first runs the
    /// catch-up pass, so every beam position the beam has already crossed
    /// (the painted region up to "now") shows the colour computed from the
    /// line state and scans in force before the write, and every position
    /// past the beam is left for a later pass, which sees the written
    /// values.
    pub proof fn lemma_catch_up_pre_write(s: Stella, t: u64, y: int, x: int)
        requires
            0 <= y < 348,
            0 <= x < 160,
        ensures
            s.spec_drawn(t, y, x) ==> s.spec_scanned_display(t)[y * 160 + x] == spec_pixel_colour(
                s.next_line,
                s.s_p0()[x],
                s.s_p1()[x],
                s.s_m0()[x],
                s.s_m1()[x],
                s.s_bl()[x],
                s.s_pf()[x],
            ),
            !s.spec_drawn(t, y, x) ==> s.spec_scanned_display(t)[y * 160 + x]
                == s.display_lines@[y * 160 + x],
    {
        assert((y * 160 + x) / 160 == y && (y * 160 + x) % 160 == x);
        assert(0 <= y * 160 + x < 55680);
    }

    /// The collision latches after the catch-up pass at tick `ticks`: the
    /// painted region folded row-major over the six scans.
    pub open spec fn spec_scanned_collisions(self, ticks: u64) -> CollisionState {
        let lp = self.last_screen_update_clock - self.screen_start_clock;
        let sp = ticks + 1 - self.screen_start_clock;
        let y_start = lp / 228;
        let y_stop = sp / 228;
        let x_start0 = if lp % 228 >= 68 {
            lp % 228 - 68
        } else {
            0
        };
        let lxs = if sp % 228 >= 68 {
            sp % 228 - 68
        } else {
            0
        };
        if y_stop < 347 {
            spec_region_fold(
                self.collision_state,
                self.s_p0(),
                self.s_p1(),
                self.s_m0(),
                self.s_m1(),
                self.s_bl(),
                self.s_pf(),
                y_start as int,
                y_stop as int,
                x_start0 as int,
                lxs as int,
            )
        } else {
            self.collision_state
        }
    }

    /// A fresh TIA around a loaded palette: blanked, unsynced, all object
    /// state at its reset values. `realtime` arms the sound channels; a
    /// passive TIA generates no samples.
    pub fn new(realtime: bool, colours: Colours) -> (r: Self)
        requires
            colours.wf(),
        ensures
            r.wf(),
            r.colours == colours,
            r.screen_start_clock == 0 && r.last_screen_update_clock == 0,
            r.is_vsync == false && r.is_blank == true && r.is_input_latched == false
                && r.is_update_time == false,
            r.next_line == LineState::spec_default(),
            r.collision_state == CollisionState::spec_clear(),
            r.tiasound.wf() && r.tiasound.last_update_time == 0,
            r.tiasound.realtime == realtime,
            r.input == inputs::Input::spec_default(),
            forall|i: int|
                0 <= i < 348 * 160 ==> #[trigger] r.display_lines@[i] == (display::Colour {
                    r: 0,
                    g: 0,
                    b: 0,
                }),
    {
        let mut display_lines: Vec<display::Colour> = Vec::new();
        let mut i: u32 = 0;
        while i < 55680
            invariant
                i <= 55680,
                display_lines@.len() == i,
                forall|j: int|
                    0 <= j < i ==> #[trigger] display_lines@[j] == (display::Colour {
                        r: 0,
                        g: 0,
                        b: 0,
                    }),
            decreases 55680 - i,
        {
            display_lines.push(display::Colour::new(0, 0, 0));
            i = i + 1;
        }
        Self {
            tiasound: tiasound::TiaSound::new(realtime),
            input: inputs::Input::new(),
            vsync_debug_output_clock: 0,
            screen_start_clock: 0,
            paddle_start_clock: 0,
            last_screen_update_clock: 0,
            next_line: LineState::new(),
            is_vsync: false,
            is_blank: true,
            is_input_latched: false,
            is_update_time: false,
            colours,
            display_lines,
            collision_state: CollisionState::new(),
            playfield_state: PlayfieldState::new(),
            p0_state: PlayerState::new(),
            p1_state: PlayerState::new(),
            missile0: MissileState::new(),
            missile1: MissileState::new(),
            ball: BallState::new(),
        }
    }

    /// What a TIA register read returns: the collision latches on 0x0
    /// through 0x7; offsets 0xB and 0xC both read the latched fire-button
    /// byte; the remaining offsets read 0.
    #[verifier::opaque]
    pub open spec fn spec_read(self, address: u16) -> u8 {
        let t = address as int % 16;
        if t == 0x0 {
            self.collision_state.cxmp.0
        } else if t == 0x1 {
            self.collision_state.cxmp.1
        } else if t == 0x2 {
            self.collision_state.cxpfb.0
        } else if t == 0x3 {
            self.collision_state.cxpfb.1
        } else if t == 0x4 {
            self.collision_state.cxmfb.0
        } else if t == 0x5 {
            self.collision_state.cxmfb.1
        } else if t == 0x6 {
            self.collision_state.cxblpf
        } else if t == 0x7 {
            self.collision_state.cxppmm
        } else if t == 0xB || t == 0xC {
            self.input.input4
        } else {
            0
        }
    }

    pub fn read(&mut self, clock: &clocks::Clock, address: u16) -> (r: u8)
        ensures
            *final(self) == *old(self),
            r == old(self).spec_read(address),
    {
        proof {
            reveal(Stella::spec_read);
        }
        let t = (address % 16) as u8;
        if t == 0x0 {
            self.collision_state.get_cxmp_0()
        } else if t == 0x1 {
            self.collision_state.get_cxmp_1()
        } else if t == 0x2 {
            self.collision_state.get_cxpfb_0()
        } else if t == 0x3 {
            self.collision_state.get_cxpfb_1()
        } else if t == 0x4 {
            self.collision_state.get_cxmfb_0()
        } else if t == 0x5 {
            self.collision_state.get_cxmfb_1()
        } else if t == 0x6 {
            self.collision_state.get_cxblpf()
        } else if t == 0x7 {
            self.collision_state.get_cxppmm()
        } else if t == 0xB || t == 0xC {
            self.input.input4
        } else {
            // An unmapped TIA read: the host reports the stray address.
            0
        }
    }

    /// Replaces the input latches; only the host calls this.
    pub fn set_inputs(&mut self, inputs: inputs::Input)
        ensures
            *final(self) == (Stella { input: inputs, ..*old(self) }),
    {
        self.input = inputs;
    }

    /// True once per VSYNC-off edge: the frame is ready to present.
    pub fn export(&mut self) -> (r: bool)
        ensures
            r == old(self).is_update_time,
            *final(self) == (Stella { is_update_time: false, ..*old(self) }),
    {
        let result = self.is_update_time;
        self.is_update_time = false;
        result
    }

    /// The clock after a WSYNC write: advanced to the next line boundary,
    /// unless the beam is within three ticks past one.
    pub open spec fn spec_wsync_ticks(screen_start: u64, t: u64) -> u64 {
        if (t - screen_start) % 228 > 3 {
            (t + 228 - (t - screen_start) % 228) as u64
        } else {
            t
        }
    }

    /// The clock after an RSYNC write: realigned with a three-tick offset.
    pub open spec fn spec_rsync_ticks(screen_start: u64, t: u64) -> u64 {
        if t - screen_start > 3 {
            (t + 228 - (t - screen_start + 3) % 228) as u64
        } else {
            t
        }
    }

    /// The position a RES latch captures: the current beam column, a fixed
    /// pipeline delay ahead.
    pub open spec fn spec_res_pos(t: u64, screen_start: u64, delay: u64) -> u8 {
        ((t + delay - screen_start) % 228) as u8
    }

    /// The signed pixel shift held in a horizontal-motion nibble.
    pub open spec fn spec_hmove_clocks(hm: u8) -> int {
        if hm >= 128 {
            hm / 16 - 16
        } else {
            hm as int / 16
        }
    }

    /// A RES latch after HMOVE: the shift subtracted byte-wide, folded into
    /// a line.
    pub open spec fn spec_hmove_pos(res: u8, hm: u8) -> u8 {
        ((((res - Self::spec_hmove_clocks(hm)) % 256 + 256) % 256) % 228) as u8
    }

    /// A latched position clamped into the visible span when `c` holds.
    pub open spec fn spec_clamp68(v: u8, c: bool) -> u8 {
        if c && v < 68 {
            68
        } else {
            v
        }
    }

    /// The pattern byte a player shows given its registers.
    pub open spec fn spec_grp_of(p: u8, p_old: u8, vdelp: u8) -> u8 {
        if vdelp % 2 == 0 {
            p
        } else {
            p_old
        }
    }

    /// What one TIA register write does, register by register. `pre` is the
    /// state after the catch-up pass; `base_*` are the frame buffer,
    /// collision latches and catch-up tick that pass left behind; `t0` and
    /// `t1` are the clock before and after the write.
    pub open spec fn spec_reg_write_rel(
        pre: Stella,
        post: Stella,
        base_display: Seq<display::Colour>,
        base_coll: CollisionState,
        base_last: u64,
        t0: u64,
        t1: u64,
        address: u16,
        data: u8,
    ) -> bool {
        let reg = address as int % 64;
        let vsync_off = reg == 0x00 && pre.is_vsync && (data as int / 2) % 2 == 0;
        let vsync_on = reg == 0x00 && !pre.is_vsync && (data as int / 2) % 2 == 1;
        let sound_after = pre.tiasound.spec_sound_state_after(t0);
        &&& post.display_lines@ == base_display
        &&& post.collision_state == (if reg == 0x2C {
            CollisionState::spec_clear()
        } else {
            base_coll
        })
        &&& post.last_screen_update_clock == (if vsync_off {
            t0
        } else {
            base_last
        })
        &&& post.screen_start_clock == (if vsync_off {
            t0
        } else {
            pre.screen_start_clock
        })
        &&& post.vsync_debug_output_clock == (if vsync_off {
            t0
        } else {
            pre.vsync_debug_output_clock
        })
        &&& post.is_vsync == (if vsync_on {
            true
        } else if vsync_off {
            false
        } else {
            pre.is_vsync
        })
        &&& post.is_update_time == (if vsync_on {
            true
        } else {
            pre.is_update_time
        })
        &&& post.is_blank == (if reg == 0x01 {
            (data as int / 2) % 2 == 1
        } else {
            pre.is_blank
        })
        &&& post.is_input_latched == (if reg == 0x01 {
            (data as int / 64) % 2 == 1
        } else {
            pre.is_input_latched
        })
        &&& post.paddle_start_clock == (if reg == 0x01 && (data as int / 128) % 2 == 1 {
            t0
        } else {
            pre.paddle_start_clock
        })
        &&& t1 == (if reg == 0x02 {
            Self::spec_wsync_ticks(pre.screen_start_clock, t0)
        } else if reg == 0x03 {
            Self::spec_rsync_ticks(pre.screen_start_clock, t0)
        } else {
            t0
        })
        &&& post.input == pre.input
        &&& post.colours == pre.colours
        &&& post.next_line == (LineState {
            p_colour: (
                if reg == 0x06 {
                    pre.spec_get_colour(data)
                } else {
                    pre.next_line.p_colour.0
                },
                if reg == 0x07 {
                    pre.spec_get_colour(data)
                } else {
                    pre.next_line.p_colour.1
                },
            ),
            playfield_colour: if reg == 0x08 {
                pre.spec_get_colour(data)
            } else {
                pre.next_line.playfield_colour
            },
            background_colour: if reg == 0x09 {
                pre.spec_get_colour(data)
            } else {
                pre.next_line.background_colour
            },
            ctrlpf: if reg == 0x0A {
                data
            } else {
                pre.next_line.ctrlpf
            },
            hmp: (
                if reg == 0x20 {
                    data
                } else if reg == 0x2B {
                    0
                } else {
                    pre.next_line.hmp.0
                },
                if reg == 0x21 {
                    data
                } else if reg == 0x2B {
                    0
                } else {
                    pre.next_line.hmp.1
                },
            ),
            hmm: (
                if reg == 0x22 {
                    data
                } else if reg == 0x2B {
                    0
                } else {
                    pre.next_line.hmm.0
                },
                if reg == 0x23 {
                    data
                } else if reg == 0x2B {
                    0
                } else {
                    pre.next_line.hmm.1
                },
            ),
            hmbl: if reg == 0x24 {
                data
            } else if reg == 0x2B {
                0
            } else {
                pre.next_line.hmbl
            },
        })
        &&& post.playfield_state.wf()
        &&& post.playfield_state.pf0 == (if reg == 0x0D {
            data
        } else {
            pre.playfield_state.pf0
        })
        &&& post.playfield_state.pf1 == (if reg == 0x0E {
            data
        } else {
            pre.playfield_state.pf1
        })
        &&& post.playfield_state.pf2 == (if reg == 0x0F {
            data
        } else {
            pre.playfield_state.pf2
        })
        &&& post.playfield_state.ctrlpf == (if reg == 0x0A {
            data
        } else {
            pre.playfield_state.ctrlpf
        })
        &&& post.ball.wf()
        &&& post.ball.enabl == (if reg == 0x1F {
            data
        } else {
            pre.ball.enabl
        })
        &&& post.ball.enabl_old == (if reg == 0x1C {
            pre.ball.enabl
        } else {
            pre.ball.enabl_old
        })
        &&& post.ball.vdelbl == (if reg == 0x27 {
            data
        } else {
            pre.ball.vdelbl
        })
        &&& post.ball.ctrlpf == (if reg == 0x0A {
            data
        } else {
            pre.ball.ctrlpf
        })
        &&& post.ball.resbl == (if reg == 0x14 {
            Self::spec_res_pos(t0, pre.screen_start_clock, 4)
        } else if reg == 0x2A {
            Self::spec_hmove_pos(pre.ball.resbl, pre.next_line.hmbl)
        } else {
            pre.ball.resbl
        })
        &&& post.p0_state.wf()
        &&& post.p0_state.nusiz == (if reg == 0x04 {
            data
        } else {
            pre.p0_state.nusiz
        })
        &&& post.p0_state.p == (if reg == 0x1B {
            data
        } else {
            pre.p0_state.p
        })
        &&& post.p0_state.p_old == (if reg == 0x1C {
            pre.p0_state.p
        } else {
            pre.p0_state.p_old
        })
        &&& post.p0_state.refp == (if reg == 0x0B {
            data
        } else {
            pre.p0_state.refp
        })
        &&& post.p0_state.vdelp == (if reg == 0x25 {
            data
        } else {
            pre.p0_state.vdelp
        })
        &&& post.p0_state.resp == (if reg == 0x04 || reg == 0x0B || reg == 0x1B || reg == 0x1C
            || reg == 0x25 {
            Self::spec_clamp68(
                pre.p0_state.resp,
                Self::spec_grp_of(post.p0_state.p, post.p0_state.p_old, post.p0_state.vdelp) != 0,
            )
        } else if reg == 0x10 {
            Self::spec_clamp68(
                Self::spec_res_pos(t0, pre.screen_start_clock, 5),
                Self::spec_grp_of(pre.p0_state.p, pre.p0_state.p_old, pre.p0_state.vdelp) != 0,
            )
        } else if reg == 0x2A {
            Self::spec_clamp68(
                Self::spec_hmove_pos(pre.p0_state.resp, pre.next_line.hmp.0),
                Self::spec_grp_of(pre.p0_state.p, pre.p0_state.p_old, pre.p0_state.vdelp) != 0,
            )
        } else {
            pre.p0_state.resp
        })
        &&& post.p1_state.wf()
        &&& post.p1_state.nusiz == (if reg == 0x05 {
            data
        } else {
            pre.p1_state.nusiz
        })
        &&& post.p1_state.p == (if reg == 0x1C {
            data
        } else {
            pre.p1_state.p
        })
        &&& post.p1_state.p_old == (if reg == 0x1B {
            pre.p1_state.p
        } else {
            pre.p1_state.p_old
        })
        &&& post.p1_state.refp == (if reg == 0x0C {
            data
        } else {
            pre.p1_state.refp
        })
        &&& post.p1_state.vdelp == (if reg == 0x26 {
            data
        } else {
            pre.p1_state.vdelp
        })
        &&& post.p1_state.resp == (if reg == 0x05 || reg == 0x0C || reg == 0x1B || reg == 0x1C
            || reg == 0x26 {
            Self::spec_clamp68(
                pre.p1_state.resp,
                Self::spec_grp_of(post.p1_state.p, post.p1_state.p_old, post.p1_state.vdelp) != 0,
            )
        } else if reg == 0x11 {
            Self::spec_clamp68(
                Self::spec_res_pos(t0, pre.screen_start_clock, 5),
                Self::spec_grp_of(pre.p1_state.p, pre.p1_state.p_old, pre.p1_state.vdelp) != 0,
            )
        } else if reg == 0x2A {
            Self::spec_clamp68(
                Self::spec_hmove_pos(pre.p1_state.resp, pre.next_line.hmp.1),
                Self::spec_grp_of(pre.p1_state.p, pre.p1_state.p_old, pre.p1_state.vdelp) != 0,
            )
        } else {
            pre.p1_state.resp
        })
        &&& post.missile0.wf()
        &&& post.missile0.nusiz == (if reg == 0x04 {
            data
        } else {
            pre.missile0.nusiz
        })
        &&& post.missile0.enam == (if reg == 0x1D {
            data
        } else {
            pre.missile0.enam
        })
        &&& post.missile0.resm == (if reg == 0x04 || reg == 0x1D {
            Self::spec_clamp68(pre.missile0.resm, true)
        } else if reg == 0x12 {
            Self::spec_clamp68(Self::spec_res_pos(t0, pre.screen_start_clock, 4), true)
        } else if reg == 0x2A {
            Self::spec_clamp68(Self::spec_hmove_pos(pre.missile0.resm, pre.next_line.hmm.0), true)
        } else {
            pre.missile0.resm
        })
        &&& post.missile1.wf()
        &&& post.missile1.nusiz == (if reg == 0x05 {
            data
        } else {
            pre.missile1.nusiz
        })
        &&& post.missile1.enam == (if reg == 0x1E {
            data
        } else {
            pre.missile1.enam
        })
        &&& post.missile1.resm == (if reg == 0x05 || reg == 0x1E {
            Self::spec_clamp68(pre.missile1.resm, true)
        } else if reg == 0x13 {
            Self::spec_clamp68(Self::spec_res_pos(t0, pre.screen_start_clock, 4), true)
        } else if reg == 0x2A {
            Self::spec_clamp68(Self::spec_hmove_pos(pre.missile1.resm, pre.next_line.hmm.1), true)
        } else {
            pre.missile1.resm
        })
        &&& (if 0x15 <= reg <= 0x1A {
            &&& post.tiasound.poly4state@ == sound_after.0
            &&& post.tiasound.poly5state@ == sound_after.1
            &&& post.tiasound.freq_pos@ == sound_after.2
            &&& post.tiasound.working_stream@ == sound_after.3
            &&& post.tiasound.last_update_time == sound_after.4
            &&& post.tiasound.realtime == pre.tiasound.realtime
            &&& post.tiasound.wave_form@ == (if reg == 0x15 {
                pre.tiasound.wave_form@.update(0, data)
            } else if reg == 0x16 {
                pre.tiasound.wave_form@.update(1, data)
            } else {
                pre.tiasound.wave_form@
            })
            &&& post.tiasound.freq@ == (if reg == 0x17 {
                pre.tiasound.freq@.update(0, data & 0x1F)
            } else if reg == 0x18 {
                pre.tiasound.freq@.update(1, data & 0x1F)
            } else {
                pre.tiasound.freq@
            })
            &&& post.tiasound.volume@ == (if reg == 0x19 {
                pre.tiasound.volume@.update(0, data)
            } else if reg == 0x1A {
                pre.tiasound.volume@.update(1, data)
            } else {
                pre.tiasound.volume@
            })
        } else {
            post.tiasound == pre.tiasound
        })
    }

    /// VSYNC is two-phase: switching it on marks the frame ready; switching
    /// it off starts a new frame at the current tick.
    pub fn write_vsync(&mut self, clock: &mut clocks::Clock, address: u16, data: u8)
        ensures
            *final(clock) == *old(clock),
            *final(self) == (if !old(self).is_vsync {
                if (data as int / 2) % 2 == 1 {
                    Stella { is_update_time: true, is_vsync: true, ..*old(self) }
                } else {
                    *old(self)
                }
            } else {
                if (data as int / 2) % 2 == 0 {
                    Stella {
                        is_vsync: false,
                        vsync_debug_output_clock: old(clock).ticks,
                        screen_start_clock: old(clock).ticks,
                        last_screen_update_clock: old(clock).ticks,
                        ..*old(self)
                    }
                } else {
                    *old(self)
                }
            }),
    {
        if !self.is_vsync {
            if (data / 2) % 2 == 1 {
                self.is_update_time = true;
                self.is_vsync = true;
            }
        } else {
            if (data / 2) % 2 == 0 {
                self.is_vsync = false;
                self.vsync_debug_output_clock = clock.ticks;
                self.screen_start_clock = clock.ticks;
                self.last_screen_update_clock = clock.ticks;
            }
        }
    }

    /// VBLANK: bit 1 blanks the beam, bit 6 latches the inputs, bit 7
    /// starts the paddle recharge.
    pub fn write_vblank(&mut self, clock: &mut clocks::Clock, address: u16, data: u8)
        ensures
            *final(clock) == *old(clock),
            *final(self) == (Stella {
                is_input_latched: (data as int / 64) % 2 == 1,
                paddle_start_clock: if (data as int / 128) % 2 == 1 {
                    old(clock).ticks
                } else {
                    old(self).paddle_start_clock
                },
                is_blank: (data as int / 2) % 2 == 1,
                ..*old(self)
            }),
    {
        if (data / 64) % 2 == 1 {
            self.is_input_latched = true;
        } else {
            self.is_input_latched = false;
        }
        if (data / 128) % 2 == 1 {
            self.paddle_start_clock = clock.ticks;
        }
        if (data / 2) % 2 == 1 {
            self.is_blank = true;
        } else {
            self.is_blank = false;
        }
    }

    /// WSYNC: stalls the CPU to the start of the next scanline.
    pub fn write_wsync(&mut self, clock: &mut clocks::Clock, address: u16, data: u8)
        requires
            old(clock).ticks >= old(self).screen_start_clock,
            old(clock).ticks + 228 <= u64::MAX,
        ensures
            *final(self) == *old(self),
            final(clock).ticks == Self::spec_wsync_ticks(
                old(self).screen_start_clock,
                old(clock).ticks,
            ),
    {
        if (clock.ticks - self.screen_start_clock) % 228 > 3 {
            clock.ticks = clock.ticks + (228 - (clock.ticks - self.screen_start_clock) % 228);
        }
    }

    /// RSYNC: realigns the beam with a three-tick offset.
    pub fn write_rsync(&mut self, clock: &mut clocks::Clock, address: u16, data: u8)
        requires
            old(clock).ticks >= old(self).screen_start_clock,
            old(clock).ticks + 228 <= u64::MAX,
        ensures
            *final(self) == *old(self),
            final(clock).ticks == Self::spec_rsync_ticks(
                old(self).screen_start_clock,
                old(clock).ticks,
            ),
    {
        let fudge: u64 = 3;
        if clock.ticks - self.screen_start_clock > 3 {
            clock.ticks = clock.ticks + (228 - (clock.ticks - self.screen_start_clock + fudge)
                % 228);
        }
    }

    /// WSYNC alignment: once the beam is more than three ticks into a line,
    /// the stall leaves the clock exactly on a line boundary relative to the
    /// screen start; a clock already aligned is left aligned.
    pub proof fn lemma_wsync_aligns(screen_start: u64, t: u64)
        requires
            screen_start <= t,
            t + 228 <= u64::MAX,
        ensures
            (t - screen_start) % 228 > 3 || (t - screen_start) % 228 == 0 ==> (
            Self::spec_wsync_ticks(screen_start, t) - screen_start) % 228 == 0,
    {
        let d = t - screen_start;
        if d % 228 > 3 {
            assert(d == 228 * (d / 228) + d % 228);
            assert(d + 228 - d % 228 == 228 * (d / 228 + 1));
            assert((228 * (d / 228 + 1)) % 228 == 0) by (nonlinear_arith);
        }
    }

    pub fn write_nusiz0(&mut self, clock: &mut clocks::Clock, address: u16, data: u8)
        ensures
            *final(clock) == *old(clock),
            *final(self) == (Stella {
                p0_state: final(self).p0_state,
                missile0: final(self).missile0,
                ..*old(self)
            }),
            final(self).p0_state.wf() && final(self).missile0.wf(),
            final(self).p0_state.nusiz == data && final(self).p0_state.p == old(self).p0_state.p
                && final(self).p0_state.p_old == old(self).p0_state.p_old && final(self).p0_state.refp == old(self).p0_state.refp && final(self).p0_state.vdelp == old(
                self,
            ).p0_state.vdelp,
            final(self).p0_state.resp == Self::spec_clamp68(
                old(self).p0_state.resp,
                old(self).p0_state.spec_grp() != 0,
            ),
            final(self).missile0.nusiz == data && final(self).missile0.enam == old(
                self,
            ).missile0.enam,
            final(self).missile0.resm == Self::spec_clamp68(old(self).missile0.resm, true),
    {
        self.p0_state.update_nusiz(data);
        self.missile0.update_nusiz(data);
    }

    pub fn write_nusiz1(&mut self, clock: &mut clocks::Clock, address: u16, data: u8)
        ensures
            *final(clock) == *old(clock),
            *final(self) == (Stella {
                p1_state: final(self).p1_state,
                missile1: final(self).missile1,
                ..*old(self)
            }),
            final(self).p1_state.wf() && final(self).missile1.wf(),
            final(self).p1_state.nusiz == data && final(self).p1_state.p == old(self).p1_state.p
                && final(self).p1_state.p_old == old(self).p1_state.p_old && final(self).p1_state.refp == old(self).p1_state.refp && final(self).p1_state.vdelp == old(
                self,
            ).p1_state.vdelp,
            final(self).p1_state.resp == Self::spec_clamp68(
                old(self).p1_state.resp,
                old(self).p1_state.spec_grp() != 0,
            ),
            final(self).missile1.nusiz == data && final(self).missile1.enam == old(
                self,
            ).missile1.enam,
            final(self).missile1.resm == Self::spec_clamp68(old(self).missile1.resm, true),
    {
        self.p1_state.update_nusiz(data);
        self.missile1.update_nusiz(data);
    }

    pub fn write_colump0(&mut self, clock: &mut clocks::Clock, address: u16, data: u8)
        requires
            old(self).colours.wf(),
        ensures
            *final(clock) == *old(clock),
            *final(self) == (Stella {
                next_line: LineState {
                    p_colour: (old(self).spec_get_colour(data), old(self).next_line.p_colour.1),
                    ..old(self).next_line
                },
                ..*old(self)
            }),
    {
        self.next_line.p_colour.0 = self.colours.get_colour(data);
    }

    pub fn write_colump1(&mut self, clock: &mut clocks::Clock, address: u16, data: u8)
        requires
            old(self).colours.wf(),
        ensures
            *final(clock) == *old(clock),
            *final(self) == (Stella {
                next_line: LineState {
                    p_colour: (old(self).next_line.p_colour.0, old(self).spec_get_colour(data)),
                    ..old(self).next_line
                },
                ..*old(self)
            }),
    {
        self.next_line.p_colour.1 = self.colours.get_colour(data);
    }

    pub fn write_colupf(&mut self, clock: &mut clocks::Clock, address: u16, data: u8)
        requires
            old(self).colours.wf(),
        ensures
            *final(clock) == *old(clock),
            *final(self) == (Stella {
                next_line: LineState {
                    playfield_colour: old(self).spec_get_colour(data),
                    ..old(self).next_line
                },
                ..*old(self)
            }),
    {
        self.next_line.playfield_colour = self.colours.get_colour(data);
    }

    pub fn write_colubk(&mut self, clock: &mut clocks::Clock, address: u16, data: u8)
        requires
            old(self).colours.wf(),
        ensures
            *final(clock) == *old(clock),
            *final(self) == (Stella {
                next_line: LineState {
                    background_colour: old(self).spec_get_colour(data),
                    ..old(self).next_line
                },
                ..*old(self)
            }),
    {
        self.next_line.background_colour = self.colours.get_colour(data);
    }

    pub fn write_ctrlpf(&mut self, clock: &mut clocks::Clock, address: u16, data: u8)
        ensures
            *final(clock) == *old(clock),
            *final(self) == (Stella {
                next_line: (LineState { ctrlpf: data, ..old(self).next_line }),
                playfield_state: final(self).playfield_state,
                ball: final(self).ball,
                ..*old(self)
            }),
            final(self).playfield_state.wf() && final(self).ball.wf(),
            final(self).playfield_state == (PlayfieldState {
                ctrlpf: data,
                pf_lookup: final(self).playfield_state.pf_lookup,
                ..old(self).playfield_state
            }),
            final(self).ball == (BallState {
                ctrlpf: data,
                x_min: final(self).ball.x_min,
                x_max: final(self).ball.x_max,
                enabled: final(self).ball.enabled,
                scan_line: final(self).ball.scan_line,
                ..old(self).ball
            }),
    {
        self.next_line.ctrlpf = data;
        self.playfield_state.update_ctrlpf(data);
        self.ball.update_ctrlpf(data);
    }

    pub fn write_refp0(&mut self, clock: &mut clocks::Clock, address: u16, data: u8)
        ensures
            *final(clock) == *old(clock),
            *final(self) == (Stella { p0_state: final(self).p0_state, ..*old(self) }),
            final(self).p0_state.wf(),
            final(self).p0_state.nusiz == old(self).p0_state.nusiz && final(self).p0_state.p
                == old(self).p0_state.p && final(self).p0_state.p_old == old(self).p0_state.p_old
                && final(self).p0_state.refp == data && final(self).p0_state.vdelp == old(
                self,
            ).p0_state.vdelp,
            final(self).p0_state.resp == Self::spec_clamp68(
                old(self).p0_state.resp,
                old(self).p0_state.spec_grp() != 0,
            ),
    {
        self.p0_state.update_refp(data);
    }

    pub fn write_refp1(&mut self, clock: &mut clocks::Clock, address: u16, data: u8)
        ensures
            *final(clock) == *old(clock),
            *final(self) == (Stella { p1_state: final(self).p1_state, ..*old(self) }),
            final(self).p1_state.wf(),
            final(self).p1_state.nusiz == old(self).p1_state.nusiz && final(self).p1_state.p
                == old(self).p1_state.p && final(self).p1_state.p_old == old(self).p1_state.p_old
                && final(self).p1_state.refp == data && final(self).p1_state.vdelp == old(
                self,
            ).p1_state.vdelp,
            final(self).p1_state.resp == Self::spec_clamp68(
                old(self).p1_state.resp,
                old(self).p1_state.spec_grp() != 0,
            ),
    {
        self.p1_state.update_refp(data);
    }

    pub fn write_pf0(&mut self, clock: &mut clocks::Clock, address: u16, data: u8)
        ensures
            *final(clock) == *old(clock),
            *final(self) == (Stella { playfield_state: final(self).playfield_state, ..*old(self) }),
            final(self).playfield_state.wf(),
            final(self).playfield_state == (PlayfieldState {
                pf0: data,
                pf_lookup: final(self).playfield_state.pf_lookup,
                ..old(self).playfield_state
            }),
    {
        self.playfield_state.update_pf0(data);
    }

    pub fn write_pf1(&mut self, clock: &mut clocks::Clock, address: u16, data: u8)
        ensures
            *final(clock) == *old(clock),
            *final(self) == (Stella { playfield_state: final(self).playfield_state, ..*old(self) }),
            final(self).playfield_state.wf(),
            final(self).playfield_state == (PlayfieldState {
                pf1: data,
                pf_lookup: final(self).playfield_state.pf_lookup,
                ..old(self).playfield_state
            }),
    {
        self.playfield_state.update_pf1(data);
    }

    pub fn write_pf2(&mut self, clock: &mut clocks::Clock, address: u16, data: u8)
        ensures
            *final(clock) == *old(clock),
            *final(self) == (Stella { playfield_state: final(self).playfield_state, ..*old(self) }),
            final(self).playfield_state.wf(),
            final(self).playfield_state == (PlayfieldState {
                pf2: data,
                pf_lookup: final(self).playfield_state.pf_lookup,
                ..old(self).playfield_state
            }),
    {
        self.playfield_state.update_pf2(data);
    }

    pub fn write_resp0(&mut self, clock: &mut clocks::Clock, address: u16, data: u8)
        requires
            old(clock).ticks >= old(self).screen_start_clock,
            old(clock).ticks + 5 <= u64::MAX,
        ensures
            *final(clock) == *old(clock),
            *final(self) == (Stella { p0_state: final(self).p0_state, ..*old(self) }),
            final(self).p0_state.wf(),
            final(self).p0_state.nusiz == old(self).p0_state.nusiz && final(self).p0_state.p
                == old(self).p0_state.p && final(self).p0_state.p_old == old(self).p0_state.p_old
                && final(self).p0_state.refp == old(self).p0_state.refp && final(self).p0_state.vdelp == old(self).p0_state.vdelp,
            final(self).p0_state.resp == Self::spec_clamp68(
                Self::spec_res_pos(old(clock).ticks, old(self).screen_start_clock, 5),
                old(self).p0_state.spec_grp() != 0,
            ),
    {
        self.p0_state.update_resp((((clock.ticks + 5) - self.screen_start_clock) % 228) as u8);
    }

    pub fn write_resp1(&mut self, clock: &mut clocks::Clock, address: u16, data: u8)
        requires
            old(clock).ticks >= old(self).screen_start_clock,
            old(clock).ticks + 5 <= u64::MAX,
        ensures
            *final(clock) == *old(clock),
            *final(self) == (Stella { p1_state: final(self).p1_state, ..*old(self) }),
            final(self).p1_state.wf(),
            final(self).p1_state.nusiz == old(self).p1_state.nusiz && final(self).p1_state.p
                == old(self).p1_state.p && final(self).p1_state.p_old == old(self).p1_state.p_old
                && final(self).p1_state.refp == old(self).p1_state.refp && final(self).p1_state.vdelp == old(self).p1_state.vdelp,
            final(self).p1_state.resp == Self::spec_clamp68(
                Self::spec_res_pos(old(clock).ticks, old(self).screen_start_clock, 5),
                old(self).p1_state.spec_grp() != 0,
            ),
    {
        self.p1_state.update_resp((((clock.ticks + 5) - self.screen_start_clock) % 228) as u8);
    }

    pub fn write_resm0(&mut self, clock: &mut clocks::Clock, address: u16, data: u8)
        requires
            old(clock).ticks >= old(self).screen_start_clock,
            old(clock).ticks + 4 <= u64::MAX,
        ensures
            *final(clock) == *old(clock),
            *final(self) == (Stella { missile0: final(self).missile0, ..*old(self) }),
            final(self).missile0.wf(),
            final(self).missile0.nusiz == old(self).missile0.nusiz && final(self).missile0.enam
                == old(self).missile0.enam,
            final(self).missile0.resm == Self::spec_clamp68(
                Self::spec_res_pos(old(clock).ticks, old(self).screen_start_clock, 4),
                true,
            ),
    {
        self.missile0.update_resm((((clock.ticks + 4) - self.screen_start_clock) % 228) as u8);
    }

    pub fn write_resm1(&mut self, clock: &mut clocks::Clock, address: u16, data: u8)
        requires
            old(clock).ticks >= old(self).screen_start_clock,
            old(clock).ticks + 4 <= u64::MAX,
        ensures
            *final(clock) == *old(clock),
            *final(self) == (Stella { missile1: final(self).missile1, ..*old(self) }),
            final(self).missile1.wf(),
            final(self).missile1.nusiz == old(self).missile1.nusiz && final(self).missile1.enam
                == old(self).missile1.enam,
            final(self).missile1.resm == Self::spec_clamp68(
                Self::spec_res_pos(old(clock).ticks, old(self).screen_start_clock, 4),
                true,
            ),
    {
        self.missile1.update_resm((((clock.ticks + 4) - self.screen_start_clock) % 228) as u8);
    }

    pub fn write_resbl(&mut self, clock: &mut clocks::Clock, address: u16, data: u8)
        requires
            old(clock).ticks >= old(self).screen_start_clock,
            old(clock).ticks + 4 <= u64::MAX,
        ensures
            *final(clock) == *old(clock),
            *final(self) == (Stella { ball: final(self).ball, ..*old(self) }),
            final(self).ball.wf(),
            final(self).ball == (BallState {
                resbl: Self::spec_res_pos(old(clock).ticks, old(self).screen_start_clock, 4),
                x_min: final(self).ball.x_min,
                x_max: final(self).ball.x_max,
                enabled: final(self).ball.enabled,
                scan_line: final(self).ball.scan_line,
                ..old(self).ball
            }),
    {
        self.ball.update_resbl((((clock.ticks + 4) - self.screen_start_clock) % 228) as u8);
    }

    pub fn write_grp0(&mut self, clock: &mut clocks::Clock, address: u16, data: u8)
        ensures
            *final(clock) == *old(clock),
            *final(self) == (Stella {
                p0_state: final(self).p0_state,
                p1_state: final(self).p1_state,
                ..*old(self)
            }),
            final(self).p0_state.wf() && final(self).p1_state.wf(),
            final(self).p0_state.nusiz == old(self).p0_state.nusiz && final(self).p0_state.p
                == data && final(self).p0_state.p_old == old(self).p0_state.p_old && final(self).p0_state.refp == old(self).p0_state.refp && final(self).p0_state.vdelp == old(
                self,
            ).p0_state.vdelp,
            final(self).p0_state.resp == Self::spec_clamp68(
                old(self).p0_state.resp,
                Self::spec_grp_of(data, old(self).p0_state.p_old, old(self).p0_state.vdelp) != 0,
            ),
            final(self).p1_state.nusiz == old(self).p1_state.nusiz && final(self).p1_state.p
                == old(self).p1_state.p && final(self).p1_state.p_old == old(self).p1_state.p
                && final(self).p1_state.refp == old(self).p1_state.refp && final(self).p1_state.vdelp == old(self).p1_state.vdelp,
            final(self).p1_state.resp == Self::spec_clamp68(
                old(self).p1_state.resp,
                Self::spec_grp_of(
                    old(self).p1_state.p,
                    old(self).p1_state.p,
                    old(self).p1_state.vdelp,
                ) != 0,
            ),
    {
        self.p0_state.update_p(data);
        let p1 = self.p1_state.p;
        self.p1_state.update_p_old(p1);
    }

    pub fn write_grp1(&mut self, clock: &mut clocks::Clock, address: u16, data: u8)
        ensures
            *final(clock) == *old(clock),
            *final(self) == (Stella {
                p0_state: final(self).p0_state,
                p1_state: final(self).p1_state,
                ball: final(self).ball,
                ..*old(self)
            }),
            final(self).p0_state.wf() && final(self).p1_state.wf() && final(self).ball.wf(),
            final(self).p1_state.nusiz == old(self).p1_state.nusiz && final(self).p1_state.p
                == data && final(self).p1_state.p_old == old(self).p1_state.p_old && final(self).p1_state.refp == old(self).p1_state.refp && final(self).p1_state.vdelp == old(
                self,
            ).p1_state.vdelp,
            final(self).p1_state.resp == Self::spec_clamp68(
                old(self).p1_state.resp,
                Self::spec_grp_of(data, old(self).p1_state.p_old, old(self).p1_state.vdelp) != 0,
            ),
            final(self).p0_state.nusiz == old(self).p0_state.nusiz && final(self).p0_state.p
                == old(self).p0_state.p && final(self).p0_state.p_old == old(self).p0_state.p
                && final(self).p0_state.refp == old(self).p0_state.refp && final(self).p0_state.vdelp == old(self).p0_state.vdelp,
            final(self).p0_state.resp == Self::spec_clamp68(
                old(self).p0_state.resp,
                Self::spec_grp_of(
                    old(self).p0_state.p,
                    old(self).p0_state.p,
                    old(self).p0_state.vdelp,
                ) != 0,
            ),
            final(self).ball == (BallState {
                enabl_old: old(self).ball.enabl,
                x_min: final(self).ball.x_min,
                x_max: final(self).ball.x_max,
                enabled: final(self).ball.enabled,
                scan_line: final(self).ball.scan_line,
                ..old(self).ball
            }),
    {
        self.p1_state.update_p(data);
        let p0 = self.p0_state.p;
        self.p0_state.update_p_old(p0);
        let enabl = self.ball.enabl;
        self.ball.update_enabl_old(enabl);
    }

    pub fn write_enam0(&mut self, clock: &mut clocks::Clock, address: u16, data: u8)
        ensures
            *final(clock) == *old(clock),
            *final(self) == (Stella { missile0: final(self).missile0, ..*old(self) }),
            final(self).missile0.wf(),
            final(self).missile0.nusiz == old(self).missile0.nusiz && final(self).missile0.enam
                == data,
            final(self).missile0.resm == Self::spec_clamp68(old(self).missile0.resm, true),
    {
        self.missile0.update_enam(data);
    }

    pub fn write_enam1(&mut self, clock: &mut clocks::Clock, address: u16, data: u8)
        ensures
            *final(clock) == *old(clock),
            *final(self) == (Stella { missile1: final(self).missile1, ..*old(self) }),
            final(self).missile1.wf(),
            final(self).missile1.nusiz == old(self).missile1.nusiz && final(self).missile1.enam
                == data,
            final(self).missile1.resm == Self::spec_clamp68(old(self).missile1.resm, true),
    {
        self.missile1.update_enam(data);
    }

    pub fn write_enabl(&mut self, clock: &mut clocks::Clock, address: u16, data: u8)
        ensures
            *final(clock) == *old(clock),
            *final(self) == (Stella { ball: final(self).ball, ..*old(self) }),
            final(self).ball.wf(),
            final(self).ball == (BallState {
                enabl: data,
                x_min: final(self).ball.x_min,
                x_max: final(self).ball.x_max,
                enabled: final(self).ball.enabled,
                scan_line: final(self).ball.scan_line,
                ..old(self).ball
            }),
    {
        self.ball.update_enabl(data);
    }

    pub fn write_hmp0(&mut self, clock: &mut clocks::Clock, address: u16, data: u8)
        ensures
            *final(clock) == *old(clock),
            *final(self) == (Stella {
                next_line: (LineState {
                    hmp: (data, old(self).next_line.hmp.1),
                    ..old(self).next_line
                }),
                ..*old(self)
            }),
    {
        self.next_line.hmp.0 = data;
    }

    pub fn write_hmp1(&mut self, clock: &mut clocks::Clock, address: u16, data: u8)
        ensures
            *final(clock) == *old(clock),
            *final(self) == (Stella {
                next_line: (LineState {
                    hmp: (old(self).next_line.hmp.0, data),
                    ..old(self).next_line
                }),
                ..*old(self)
            }),
    {
        self.next_line.hmp.1 = data;
    }

    pub fn write_hmm0(&mut self, clock: &mut clocks::Clock, address: u16, data: u8)
        ensures
            *final(clock) == *old(clock),
            *final(self) == (Stella {
                next_line: (LineState {
                    hmm: (data, old(self).next_line.hmm.1),
                    ..old(self).next_line
                }),
                ..*old(self)
            }),
    {
        self.next_line.hmm.0 = data;
    }

    pub fn write_hmm1(&mut self, clock: &mut clocks::Clock, address: u16, data: u8)
        ensures
            *final(clock) == *old(clock),
            *final(self) == (Stella {
                next_line: (LineState {
                    hmm: (old(self).next_line.hmm.0, data),
                    ..old(self).next_line
                }),
                ..*old(self)
            }),
    {
        self.next_line.hmm.1 = data;
    }

    pub fn write_hmbl(&mut self, clock: &mut clocks::Clock, address: u16, data: u8)
        ensures
            *final(clock) == *old(clock),
            *final(self) == (Stella {
                next_line: (LineState { hmbl: data, ..old(self).next_line }),
                ..*old(self)
            }),
    {
        self.next_line.hmbl = data;
    }

    pub fn write_hclr(&mut self, clock: &mut clocks::Clock, address: u16, data: u8)
        ensures
            *final(clock) == *old(clock),
            *final(self) == (Stella {
                next_line: (LineState {
                    hmp: (0, 0),
                    hmm: (0, 0),
                    hmbl: 0,
                    ..old(self).next_line
                }),
                ..*old(self)
            }),
    {
        self.next_line.hmp.0 = 0;
        self.next_line.hmp.1 = 0;
        self.next_line.hmm.0 = 0;
        self.next_line.hmm.1 = 0;
        self.next_line.hmbl = 0;
    }

    pub fn write_vdelp0(&mut self, clock: &mut clocks::Clock, address: u16, data: u8)
        ensures
            *final(clock) == *old(clock),
            *final(self) == (Stella { p0_state: final(self).p0_state, ..*old(self) }),
            final(self).p0_state.wf(),
            final(self).p0_state.nusiz == old(self).p0_state.nusiz && final(self).p0_state.p
                == old(self).p0_state.p && final(self).p0_state.p_old == old(self).p0_state.p_old
                && final(self).p0_state.refp == old(self).p0_state.refp && final(self).p0_state.vdelp == data,
            final(self).p0_state.resp == Self::spec_clamp68(
                old(self).p0_state.resp,
                Self::spec_grp_of(old(self).p0_state.p, old(self).p0_state.p_old, data) != 0,
            ),
    {
        self.p0_state.update_vdelp(data);
    }

    pub fn write_vdelp1(&mut self, clock: &mut clocks::Clock, address: u16, data: u8)
        ensures
            *final(clock) == *old(clock),
            *final(self) == (Stella { p1_state: final(self).p1_state, ..*old(self) }),
            final(self).p1_state.wf(),
            final(self).p1_state.nusiz == old(self).p1_state.nusiz && final(self).p1_state.p
                == old(self).p1_state.p && final(self).p1_state.p_old == old(self).p1_state.p_old
                && final(self).p1_state.refp == old(self).p1_state.refp && final(self).p1_state.vdelp == data,
            final(self).p1_state.resp == Self::spec_clamp68(
                old(self).p1_state.resp,
                Self::spec_grp_of(old(self).p1_state.p, old(self).p1_state.p_old, data) != 0,
            ),
    {
        self.p1_state.update_vdelp(data);
    }

    pub fn write_vdelbl(&mut self, clock: &mut clocks::Clock, address: u16, data: u8)
        ensures
            *final(clock) == *old(clock),
            *final(self) == (Stella { ball: final(self).ball, ..*old(self) }),
            final(self).ball.wf(),
            final(self).ball == (BallState {
                vdelbl: data,
                x_min: final(self).ball.x_min,
                x_max: final(self).ball.x_max,
                enabled: final(self).ball.enabled,
                scan_line: final(self).ball.scan_line,
                ..old(self).ball
            }),
    {
        self.ball.update_vdelbl(data);
    }

    pub fn write_cxclr(&mut self, clock: &mut clocks::Clock, address: u16, data: u8)
        ensures
            *final(clock) == *old(clock),
            *final(self) == (Stella {
                collision_state: CollisionState::spec_clear(),
                ..*old(self)
            }),
    {
        self.collision_state.clear();
    }

    /// Applies the signed horizontal-motion nibble to one latched position.
    fn hmove_latch(res: u8, hm: u8) -> (r: u8)
        ensures
            r == Self::spec_hmove_pos(res, hm),
    {
        let shift: i16 = if hm >= 128 {
            (hm / 16) as i16 - 16
        } else {
            (hm / 16) as i16
        };
        let v: i16 = ((res as i16 - shift) + 256) % 256;
        (v % 228) as u8
    }

    /// HMOVE: commits the accumulated horizontal-motion nibbles to all five
    /// latched positions and rebuilds the scans.
    pub fn write_hmove(&mut self, clock: &mut clocks::Clock, address: u16, data: u8)
        ensures
            *final(clock) == *old(clock),
            *final(self) == (Stella {
                p0_state: final(self).p0_state,
                p1_state: final(self).p1_state,
                missile0: final(self).missile0,
                missile1: final(self).missile1,
                ball: final(self).ball,
                ..*old(self)
            }),
            final(self).p0_state.wf() && final(self).p1_state.wf() && final(self).missile0.wf()
                && final(self).missile1.wf() && final(self).ball.wf(),
            final(self).p0_state.nusiz == old(self).p0_state.nusiz && final(self).p0_state.p
                == old(self).p0_state.p && final(self).p0_state.p_old == old(self).p0_state.p_old
                && final(self).p0_state.refp == old(self).p0_state.refp && final(self).p0_state.vdelp == old(self).p0_state.vdelp,
            final(self).p0_state.resp == Self::spec_clamp68(
                Self::spec_hmove_pos(old(self).p0_state.resp, old(self).next_line.hmp.0),
                old(self).p0_state.spec_grp() != 0,
            ),
            final(self).p1_state.nusiz == old(self).p1_state.nusiz && final(self).p1_state.p
                == old(self).p1_state.p && final(self).p1_state.p_old == old(self).p1_state.p_old
                && final(self).p1_state.refp == old(self).p1_state.refp && final(self).p1_state.vdelp == old(self).p1_state.vdelp,
            final(self).p1_state.resp == Self::spec_clamp68(
                Self::spec_hmove_pos(old(self).p1_state.resp, old(self).next_line.hmp.1),
                old(self).p1_state.spec_grp() != 0,
            ),
            final(self).missile0.nusiz == old(self).missile0.nusiz && final(self).missile0.enam
                == old(self).missile0.enam,
            final(self).missile0.resm == Self::spec_clamp68(
                Self::spec_hmove_pos(old(self).missile0.resm, old(self).next_line.hmm.0),
                true,
            ),
            final(self).missile1.nusiz == old(self).missile1.nusiz && final(self).missile1.enam
                == old(self).missile1.enam,
            final(self).missile1.resm == Self::spec_clamp68(
                Self::spec_hmove_pos(old(self).missile1.resm, old(self).next_line.hmm.1),
                true,
            ),
            final(self).ball == (BallState {
                resbl: Self::spec_hmove_pos(old(self).ball.resbl, old(self).next_line.hmbl),
                x_min: final(self).ball.x_min,
                x_max: final(self).ball.x_max,
                enabled: final(self).ball.enabled,
                scan_line: final(self).ball.scan_line,
                ..old(self).ball
            }),
    {
        self.p0_state.resp = Self::hmove_latch(self.p0_state.resp, self.next_line.hmp.0);
        self.p1_state.resp = Self::hmove_latch(self.p1_state.resp, self.next_line.hmp.1);
        self.missile0.resm = Self::hmove_latch(self.missile0.resm, self.next_line.hmm.0);
        self.missile1.resm = Self::hmove_latch(self.missile1.resm, self.next_line.hmm.1);
        self.ball.resbl = Self::hmove_latch(self.ball.resbl, self.next_line.hmbl);
        self.p0_state.update();
        self.p1_state.update();
        self.missile0.update();
        self.missile1.update();
        self.ball.update();
    }

    /// The shifts committed by HMOVE for the two example nibbles: +7 moves
    /// a latch seven pixels earlier, -7 seven pixels later.
    pub proof fn lemma_hmove_shift_examples(res: u8)
        requires
            68 <= res < 221,
        ensures
            Self::spec_hmove_clocks(0x70) == 7,
            Self::spec_hmove_clocks(0x90) == -7,
            Self::spec_hmove_pos(res, 0x70) == res - 7,
            Self::spec_hmove_pos(res, 0x90) == res + 7,
    {
    }

    /// The colour and overlap count of one pixel from the current scans.
    #[verifier::rlimit(50)]
    fn pixel_at(&self, x: usize) -> (r: (display::Colour, u8, bool, bool, bool, bool, bool, bool))
        requires
            self.wf(),
            x < 160,
        ensures
            r.2 == self.s_p0()[x as int],
            r.3 == self.s_p1()[x as int],
            r.4 == self.s_m0()[x as int],
            r.5 == self.s_m1()[x as int],
            r.6 == self.s_bl()[x as int],
            r.7 == self.s_pf()[x as int],
            r.0 == spec_pixel_colour(
                self.next_line,
                self.s_p0()[x as int],
                self.s_p1()[x as int],
                self.s_m0()[x as int],
                self.s_m1()[x as int],
                self.s_bl()[x as int],
                self.s_pf()[x as int],
            ),
            (r.1 > 1) == (spec_hit_count(
                self.s_p0()[x as int],
                self.s_p1()[x as int],
                self.s_m0()[x as int],
                self.s_m1()[x as int],
                self.s_bl()[x as int],
                self.s_pf()[x as int],
            ) > 1),
    {
        let pf = self.playfield_state.pf_lookup[x];
        let bl = self.ball.scan_line[x];
        let m1 = self.missile1.scan_line[x];
        let p1 = self.p1_state.scan_line[x];
        let m0 = self.missile0.scan_line[x];
        let p0 = self.p0_state.scan_line[x];
        let pixel_colour = if (self.next_line.ctrlpf / 4) % 2 == 0 {
            if p0 || m0 {
                self.next_line.p_colour.0
            } else if p1 || m1 {
                self.next_line.p_colour.1
            } else if pf || bl {
                self.next_line.playfield_colour
            } else {
                self.next_line.background_colour
            }
        } else {
            if pf || bl {
                self.next_line.playfield_colour
            } else if p0 || m0 {
                self.next_line.p_colour.0
            } else if p1 || m1 {
                self.next_line.p_colour.1
            } else {
                self.next_line.background_colour
            }
        };
        let hits: u8 = (if p0 {
            1u8
        } else {
            0u8
        }) + (if p1 {
            1u8
        } else {
            0u8
        }) + (if m0 {
            1u8
        } else {
            0u8
        }) + (if m1 {
            1u8
        } else {
            0u8
        }) + (if bl {
            1u8
        } else {
            0u8
        }) + (if pf {
            1u8
        } else {
            0u8
        });
        (pixel_colour, hits, p0, p1, m0, m1, bl, pf)
    }

    /// Renders one row span `x_first .. x_stop` of row `y` with the
    /// current line state and scans, latching collisions as it goes.
    #[verifier::rlimit(100)]
    #[verifier::spinoff_prover]
    fn scan_row(&mut self, y: usize, x_first: usize, x_stop: usize)
        requires
            old(self).wf(),
            y < 348,
            x_stop <= 159,
        ensures
            final(self).wf(),
            *final(self) == (Stella {
                display_lines: final(self).display_lines,
                collision_state: final(self).collision_state,
                ..*old(self)
            }),
            final(self).collision_state == spec_row_fold(
                old(self).collision_state,
                old(self).s_p0(),
                old(self).s_p1(),
                old(self).s_m0(),
                old(self).s_m1(),
                old(self).s_bl(),
                old(self).s_pf(),
                x_first as int,
                x_stop as int,
            ),
            final(self).display_lines@.len() == 55680,
            forall|xx: int|
                x_first <= xx < x_stop ==> #[trigger] final(self).display_lines@[y * 160 + xx]
                    == spec_pixel_colour(
                    old(self).next_line,
                    old(self).s_p0()[xx],
                    old(self).s_p1()[xx],
                    old(self).s_m0()[xx],
                    old(self).s_m1()[xx],
                    old(self).s_bl()[xx],
                    old(self).s_pf()[xx],
                ),
            forall|idx: int|
                0 <= idx < 55680 && !(y * 160 + x_first <= idx < y * 160 + x_stop)
                    ==> #[trigger] final(self).display_lines@[idx] == old(
                    self,
                ).display_lines@[idx],
    {
        let mut x: usize = x_first;
        while x < x_stop
            invariant
                x_first <= x,
                x <= x_stop || x_stop < x_first,
                x_stop < x_first ==> x == x_first,
                x_stop <= 159,
                y < 348,
                old(self).wf(),
                self.wf(),
                *self == (Stella {
                    display_lines: self.display_lines,
                    collision_state: self.collision_state,
                    ..*old(self)
                }),
                self.display_lines@.len() == 55680,
                spec_row_fold(
                    old(self).collision_state,
                    old(self).s_p0(),
                    old(self).s_p1(),
                    old(self).s_m0(),
                    old(self).s_m1(),
                    old(self).s_bl(),
                    old(self).s_pf(),
                    x_first as int,
                    x_stop as int,
                ) == spec_row_fold(
                    self.collision_state,
                    old(self).s_p0(),
                    old(self).s_p1(),
                    old(self).s_m0(),
                    old(self).s_m1(),
                    old(self).s_bl(),
                    old(self).s_pf(),
                    x as int,
                    x_stop as int,
                ),
                forall|xx: int|
                    x_first <= xx < x ==> #[trigger] self.display_lines@[y * 160 + xx]
                        == spec_pixel_colour(
                        old(self).next_line,
                        old(self).s_p0()[xx],
                        old(self).s_p1()[xx],
                        old(self).s_m0()[xx],
                        old(self).s_m1()[xx],
                        old(self).s_bl()[xx],
                        old(self).s_pf()[xx],
                    ),
                forall|idx: int|
                    0 <= idx < 55680 && !(y * 160 + x_first <= idx < y * 160 + x)
                        ==> #[trigger] self.display_lines@[idx] == old(self).display_lines@[idx],
            decreases x_stop - x,
        {
            let (pixel_colour, hits, p0, p1, m0, m1, bl, pf) = self.pixel_at(x);
            proof {
                lemma_row_fold_step(
                    self.collision_state,
                    old(self).s_p0(),
                    old(self).s_p1(),
                    old(self).s_m0(),
                    old(self).s_m1(),
                    old(self).s_bl(),
                    old(self).s_pf(),
                    x as int,
                    x_stop as int,
                );
            }
            if hits > 1 {
                self.collision_state.update_collisions(p0, p1, m0, m1, bl, pf);
            }
            let ghost pre_display = self.display_lines@;
            self.display_lines.set(y * 160 + x, pixel_colour);
            proof {
                assert(forall|idx: int|
                    0 <= idx < 55680 && idx != y * 160 + x ==> #[trigger] self.display_lines@[idx]
                        == pre_display[idx]);
                assert((y * 160 + x) / 160 == y && (y * 160 + x) % 160 == x as int);
            }
            x = x + 1;
        }
    }

    /// The catch-up pass: draws every pixel the beam has crossed between
    /// the last update and one past "now", with the register values now in
    /// force, latching collisions where object scans overlap.
    #[verifier::rlimit(100)]
    pub fn screen_scan(&mut self, clock: &clocks::Clock)
        requires
            old(self).wf(),
            old(self).last_screen_update_clock <= clock.ticks + 1,
            clock.ticks + 1 <= u64::MAX,
        ensures
            final(self).wf(),
            final(self).display_lines@ == old(self).spec_scanned_display(clock.ticks),
            final(self).collision_state == old(self).spec_scanned_collisions(clock.ticks),
            final(self).last_screen_update_clock == clock.ticks + 1,
            *final(self) == (Stella {
                display_lines: final(self).display_lines,
                collision_state: final(self).collision_state,
                last_screen_update_clock: final(self).last_screen_update_clock,
                ..*old(self)
            }),
    {
        let ghost t = clock.ticks;
        let lp: u64 = self.last_screen_update_clock - self.screen_start_clock;
        let sp: u64 = (clock.ticks + 1) - self.screen_start_clock;
        let y_start64: u64 = lp / 228;
        let y_stop64: u64 = sp / 228;
        if y_stop64 < 347 {
            let y_start: usize = y_start64 as usize;
            let y_stop: usize = y_stop64 as usize;
            let x_start0: usize = if lp % 228 >= 68 {
                (lp % 228 - 68) as usize
            } else {
                0
            };
            let lxs: usize = if sp % 228 >= 68 {
                (sp % 228 - 68) as usize
            } else {
                0
            };
            let ghost total = spec_region_fold(
                self.collision_state,
                self.s_p0(),
                self.s_p1(),
                self.s_m0(),
                self.s_m1(),
                self.s_bl(),
                self.s_pf(),
                y_start as int,
                y_stop as int,
                x_start0 as int,
                lxs as int,
            );
            let mut x_start: usize = x_start0;
            let mut y: usize = y_start;
            while y <= y_stop
                invariant
                    y_start <= y <= y_stop + 1,
                    y_stop < 347,
                    x_start == (if y == y_start {
                        x_start0
                    } else {
                        0
                    }),
                    x_start0 <= 159 && lxs <= 159,
                    old(self).wf(),
                    *self == (Stella {
                        display_lines: self.display_lines,
                        collision_state: self.collision_state,
                        ..*old(self)
                    }),
                    self.display_lines@.len() == 55680,
                    y_start == lp / 228 && y_stop == sp / 228,
                    x_start0 == (if lp % 228 >= 68 {
                        lp % 228 - 68
                    } else {
                        0
                    }),
                    lxs == (if sp % 228 >= 68 {
                        sp % 228 - 68
                    } else {
                        0
                    }),
                    lp == old(self).last_screen_update_clock - old(self).screen_start_clock,
                    sp == t + 1 - old(self).screen_start_clock,
                    total == spec_region_fold(
                        self.collision_state,
                        old(self).s_p0(),
                        old(self).s_p1(),
                        old(self).s_m0(),
                        old(self).s_m1(),
                        old(self).s_bl(),
                        old(self).s_pf(),
                        y as int,
                        y_stop as int,
                        x_start as int,
                        lxs as int,
                    ),
                    forall|idx: int|
                        0 <= idx < 55680 ==> #[trigger] self.display_lines@[idx] == (if old(
                            self,
                        ).spec_drawn(t, idx / 160, idx % 160) && idx / 160 < y {
                            spec_pixel_colour(
                                old(self).next_line,
                                old(self).s_p0()[idx % 160],
                                old(self).s_p1()[idx % 160],
                                old(self).s_m0()[idx % 160],
                                old(self).s_m1()[idx % 160],
                                old(self).s_bl()[idx % 160],
                                old(self).s_pf()[idx % 160],
                            )
                        } else {
                            old(self).display_lines@[idx]
                        }),
                decreases y_stop + 1 - y,
            {
                let x_stop: usize = if y == y_stop {
                    lxs
                } else {
                    159
                };
                proof {
                    lemma_region_fold_step(
                        self.collision_state,
                        old(self).s_p0(),
                        old(self).s_p1(),
                        old(self).s_m0(),
                        old(self).s_m1(),
                        old(self).s_bl(),
                        old(self).s_pf(),
                        y as int,
                        y_stop as int,
                        x_start as int,
                        lxs as int,
                    );
                }
                let ghost pre_row = *self;
                self.scan_row(y, x_start, x_stop);
                proof {
                    assert(forall|idx: int|
                        0 <= idx < 55680 ==> (#[trigger] old(self).spec_drawn(
                            t,
                            idx / 160,
                            idx % 160,
                        ) && idx / 160 == y) == (idx / 160 == y && x_start <= idx % 160 < x_stop));
                    assert forall|idx: int| 0 <= idx < 55680 implies #[trigger] self.display_lines@[idx]
                        == (if old(self).spec_drawn(t, idx / 160, idx % 160) && idx / 160 < y + 1 {
                        spec_pixel_colour(
                            old(self).next_line,
                            old(self).s_p0()[idx % 160],
                            old(self).s_p1()[idx % 160],
                            old(self).s_m0()[idx % 160],
                            old(self).s_m1()[idx % 160],
                            old(self).s_bl()[idx % 160],
                            old(self).s_pf()[idx % 160],
                        )
                    } else {
                        old(self).display_lines@[idx]
                    }) by {
                        let xx = idx % 160;
                        let yy = idx / 160;
                        assert(idx == 160 * yy + xx);
                        if yy == y as int && x_start <= xx < x_stop {
                            assert(self.display_lines@[y * 160 + xx] == spec_pixel_colour(
                                pre_row.next_line,
                                pre_row.s_p0()[xx],
                                pre_row.s_p1()[xx],
                                pre_row.s_m0()[xx],
                                pre_row.s_m1()[xx],
                                pre_row.s_bl()[xx],
                                pre_row.s_pf()[xx],
                            ));
                        } else {
                            assert(!(y * 160 + x_start <= idx < y * 160 + x_stop));
                            assert(self.display_lines@[idx] == pre_row.display_lines@[idx]);
                        }
                    }
                }
                x_start = 0;
                y = y + 1;
            }
            proof {
                assert(spec_region_fold(
                    self.collision_state,
                    old(self).s_p0(),
                    old(self).s_p1(),
                    old(self).s_m0(),
                    old(self).s_m1(),
                    old(self).s_bl(),
                    old(self).s_pf(),
                    y as int,
                    y_stop as int,
                    x_start as int,
                    lxs as int,
                ) == self.collision_state);
                assert(self.collision_state == old(self).spec_scanned_collisions(t));
                assert(self.display_lines@ =~= old(self).spec_scanned_display(t));
            }
        } else {
            proof {
                assert(self.display_lines@ =~= old(self).spec_scanned_display(t));
            }
        }
        self.last_screen_update_clock = clock.ticks + 1;
    }

    /// Dispatches one register write by the low six address lines, applying
    /// it to the state the catch-up pass left behind.
    pub fn write_functions(&mut self, clock: &mut clocks::Clock, address: u16, data: u8)
        requires
            old(self).wf(),
            old(clock).ticks >= old(self).screen_start_clock,
            old(clock).ticks + 228 <= u64::MAX,
            old(self).tiasound.last_update_time <= old(clock).ticks,
            old(clock).ticks <= 0x0001_0000_0000_0000,
        ensures
            final(self).wf(),
            Self::spec_reg_write_rel(
                *old(self),
                *final(self),
                old(self).display_lines@,
                old(self).collision_state,
                old(self).last_screen_update_clock,
                old(clock).ticks,
                final(clock).ticks,
                address,
                data,
            ),
            final(clock).ticks >= old(clock).ticks,
            final(self).screen_start_clock <= final(clock).ticks,
            final(self).tiasound.last_update_time <= final(clock).ticks,
            final(self).last_screen_update_clock <= old(self).last_screen_update_clock || final(self).last_screen_update_clock == old(clock).ticks,
    {
        let reg = (address % 64) as u8;
        if reg == 0x00 {
            self.write_vsync(clock, address, data);
        } else if reg == 0x01 {
            self.write_vblank(clock, address, data);
        } else if reg == 0x02 {
            self.write_wsync(clock, address, data);
        } else if reg == 0x03 {
            self.write_rsync(clock, address, data);
        } else if reg == 0x04 {
            self.write_nusiz0(clock, address, data);
        } else if reg == 0x05 {
            self.write_nusiz1(clock, address, data);
        } else if reg == 0x06 {
            self.write_colump0(clock, address, data);
        } else if reg == 0x07 {
            self.write_colump1(clock, address, data);
        } else if reg == 0x08 {
            self.write_colupf(clock, address, data);
        } else if reg == 0x09 {
            self.write_colubk(clock, address, data);
        } else if reg == 0x0A {
            self.write_ctrlpf(clock, address, data);
        } else if reg == 0x0B {
            self.write_refp0(clock, address, data);
        } else if reg == 0x0C {
            self.write_refp1(clock, address, data);
        } else if reg == 0x0D {
            self.write_pf0(clock, address, data);
        } else if reg == 0x0E {
            self.write_pf1(clock, address, data);
        } else if reg == 0x0F {
            self.write_pf2(clock, address, data);
        } else if reg == 0x10 {
            self.write_resp0(clock, address, data);
        } else if reg == 0x11 {
            self.write_resp1(clock, address, data);
        } else if reg == 0x12 {
            self.write_resm0(clock, address, data);
        } else if reg == 0x13 {
            self.write_resm1(clock, address, data);
        } else if reg == 0x14 {
            self.write_resbl(clock, address, data);
        } else if reg == 0x15 {
            self.tiasound.write_audio_ctrl_0(clock, address, data);
        } else if reg == 0x16 {
            self.tiasound.write_audio_ctrl_1(clock, address, data);
        } else if reg == 0x17 {
            self.tiasound.write_audio_freq_0(clock, address, data);
        } else if reg == 0x18 {
            self.tiasound.write_audio_freq_1(clock, address, data);
        } else if reg == 0x19 {
            self.tiasound.write_audio_vol_0(clock, address, data);
        } else if reg == 0x1A {
            self.tiasound.write_audio_vol_1(clock, address, data);
        } else if reg == 0x1B {
            self.write_grp0(clock, address, data);
        } else if reg == 0x1C {
            self.write_grp1(clock, address, data);
        } else if reg == 0x1D {
            self.write_enam0(clock, address, data);
        } else if reg == 0x1E {
            self.write_enam1(clock, address, data);
        } else if reg == 0x1F {
            self.write_enabl(clock, address, data);
        } else if reg == 0x20 {
            self.write_hmp0(clock, address, data);
        } else if reg == 0x21 {
            self.write_hmp1(clock, address, data);
        } else if reg == 0x22 {
            self.write_hmm0(clock, address, data);
        } else if reg == 0x23 {
            self.write_hmm1(clock, address, data);
        } else if reg == 0x24 {
            self.write_hmbl(clock, address, data);
        } else if reg == 0x2A {
            self.write_hmove(clock, address, data);
        } else if reg == 0x2B {
            self.write_hclr(clock, address, data);
        } else if reg == 0x25 {
            self.write_vdelp0(clock, address, data);
        } else if reg == 0x26 {
            self.write_vdelp1(clock, address, data);
        } else if reg == 0x27 {
            self.write_vdelbl(clock, address, data);
        } else if reg == 0x2C {
            self.write_cxclr(clock, address, data);
        }
        // Remaining register numbers have no write behaviour.
    }

    /// A TIA register write: first the catch-up pass paints every pixel the
    /// beam has crossed using the old register values (unless blanked), then
    /// the write takes effect — so pixels before the write position show the
    /// pre-write state and later ones the post-write state.
    pub fn write(&mut self, clock: &mut clocks::Clock, address: u16, data: u8)
        requires
            old(self).wf(),
            old(clock).ticks >= old(self).screen_start_clock,
            old(self).last_screen_update_clock <= old(clock).ticks + 1,
            old(clock).ticks + 228 <= u64::MAX,
            old(self).tiasound.last_update_time <= old(clock).ticks,
            old(clock).ticks <= 0x0001_0000_0000_0000,
        ensures
            final(self).wf(),
            Self::spec_reg_write_rel(
                *old(self),
                *final(self),
                if old(self).is_blank {
                    old(self).display_lines@
                } else {
                    old(self).spec_scanned_display(old(clock).ticks)
                },
                if old(self).is_blank {
                    old(self).collision_state
                } else {
                    old(self).spec_scanned_collisions(old(clock).ticks)
                },
                if old(self).is_blank {
                    old(self).last_screen_update_clock
                } else {
                    (old(clock).ticks + 1) as u64
                },
                old(clock).ticks,
                final(clock).ticks,
                address,
                data,
            ),
            final(clock).ticks >= old(clock).ticks,
            final(self).screen_start_clock <= final(clock).ticks,
            final(self).last_screen_update_clock <= final(clock).ticks + 1,
            final(self).tiasound.last_update_time <= final(clock).ticks,
    {
        if !self.is_blank {
            self.screen_scan(clock);
        }
        self.write_functions(clock, address, data);
    }

    /// The visible frame as bytes: three per pixel, blue first, row-major
    /// over the 280 visible lines.
    pub open spec fn spec_display_bytes(self) -> Seq<u8> {
        Seq::new(
            134400,
            |i: int|
                {
                    let c = self.display_lines@[i / 3];
                    if i % 3 == 0 {
                        c.b
                    } else if i % 3 == 1 {
                        c.g
                    } else {
                        c.r
                    }
                },
        )
    }

    /// Copies the visible frame into a byte buffer, three bytes per pixel,
    /// blue first, row-major over the 280 visible lines.
    #[verifier::rlimit(50)]
    pub fn generate_display(&self, buffer: &mut Vec<u8>)
        requires
            self.wf(),
        ensures
            final(buffer)@ == self.spec_display_bytes(),
    {
        buffer.clear();
        let mut p: usize = 0;
        while p < 280 * 160
            invariant
                p <= 280 * 160,
                self.display_lines@.len() == 348 * 160,
                buffer@.len() == 3 * p,
                forall|q: int|
                    0 <= q < p ==> (#[trigger] buffer@[3 * q] == self.display_lines@[q].b
                        && buffer@[3 * q + 1] == self.display_lines@[q].g && buffer@[3 * q + 2]
                        == self.display_lines@[q].r),
            decreases 280 * 160 - p,
        {
            let c = self.display_lines[p];
            let ghost pre = buffer@;
            buffer.push(c.b);
            buffer.push(c.g);
            buffer.push(c.r);
            proof {
                assert(forall|i: int| 0 <= i < pre.len() ==> #[trigger] buffer@[i] == pre[i]);
                assert(buffer@[3 * (p as int)] == c.b);
                assert(buffer@[3 * (p as int) + 1] == c.g);
                assert(buffer@[3 * (p as int) + 2] == c.r);
                assert forall|q: int| 0 <= q < p + 1 implies (#[trigger] buffer@[3 * q]
                    == self.display_lines@[q].b && buffer@[3 * q + 1] == self.display_lines@[q].g
                    && buffer@[3 * q + 2] == self.display_lines@[q].r) by {
                    if q < p as int {
                        assert(buffer@[3 * q] == pre[3 * q]);
                        assert(buffer@[3 * q + 1] == pre[3 * q + 1]);
                        assert(buffer@[3 * q + 2] == pre[3 * q + 2]);
                    }
                }
            }
            p = p + 1;
        }
        proof {
            assert forall|i: int| 0 <= i < 134400 implies buffer@[i]
                == self.spec_display_bytes()[i] by {
                let q = i / 3;
                if i % 3 == 0 {
                    assert(buffer@[3 * q] == self.display_lines@[q].b);
                    assert(i == 3 * q);
                } else if i % 3 == 1 {
                    assert(buffer@[3 * q] == self.display_lines@[q].b);
                    assert(buffer@[3 * q + 1] == self.display_lines@[q].g);
                    assert(i == 3 * q + 1);
                } else {
                    assert(buffer@[3 * q] == self.display_lines@[q].b);
                    assert(buffer@[3 * q + 2] == self.display_lines@[q].r);
                    assert(i == 3 * q + 2);
                }
            }
            assert(buffer@ =~= self.spec_display_bytes());
        }
    }
}

} // verus!
