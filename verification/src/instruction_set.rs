//! The 6507 operations: arithmetic, logic, shifts, flag operations, the
//! implemented illegal opcodes, and the explicitly sequenced control-flow
//! instructions.

use crate::addressing;
use crate::addressing::spec_crossed_page;
use crate::clocks;
use crate::memory::Memory;
use crate::pc_state;
use crate::pc_state::PcState;
use crate::pc_state::spec_status_nz;
use crate::pc_state::wrap_add16;
use vstd::arithmetic::div_mod::lemma_mod_add_multiples_vanish;
use vstd::arithmetic::div_mod::lemma_small_mod;
use vstd::prelude::*;

verus! {

/// The operation half of the opcode table.
#[derive(Clone, Copy, PartialEq, Eq, Structural)]
pub enum OpName {
    Adc,
    And,
    Asl,
    Bit,
    Clc,
    Cld,
    Cli,
    Clv,
    Cmp,
    Cpx,
    Cpy,
    Dcp,
    Dec,
    Eor,
    Inc,
    Isc,
    Lax,
    Lda,
    Ldx,
    Ldy,
    Lsr,
    Nop,
    Or,
    Rol,
    Ror,
    Sax,
    Sbc,
    Sec,
    Sed,
    Sei,
    Slo,
    Sta,
    Stx,
    Sty,
    TNoStat,
    TStat,
}

/// Which register an implied instruction reads or writes.
#[derive(Clone, Copy, PartialEq, Eq, Structural)]
pub enum RegisterName {
    N,
    X,
    Y,
    A,
    S,
}

impl RegisterName {
    pub open spec fn spec_value(self, ps: PcState) -> u8 {
        match self {
            RegisterName::N => 0,
            RegisterName::X => ps.x_reg,
            RegisterName::Y => ps.y_reg,
            RegisterName::A => ps.a_reg,
            RegisterName::S => ps.s_reg,
        }
    }

    pub open spec fn spec_store(self, ps: PcState, v: u8) -> PcState {
        match self {
            RegisterName::N => ps,
            RegisterName::X => ps.with_x(v),
            RegisterName::Y => ps.with_y(v),
            RegisterName::A => ps.with_a(v),
            RegisterName::S => ps.with_s(v),
        }
    }

    pub fn value(self, pc_state: &PcState) -> (r: u8)
        ensures
            r == self.spec_value(*pc_state),
    {
        match self {
            RegisterName::N => pc_state::read_null(pc_state),
            RegisterName::X => pc_state::read_x(pc_state),
            RegisterName::Y => pc_state::read_y(pc_state),
            RegisterName::A => pc_state::read_a(pc_state),
            RegisterName::S => pc_state::read_s(pc_state),
        }
    }

    pub fn store(self, pc_state: &mut PcState, v: u8)
        ensures
            *final(pc_state) == self.spec_store(*old(pc_state), v),
    {
        match self {
            RegisterName::N => pc_state::write_null(pc_state, v),
            RegisterName::X => pc_state::write_x(pc_state, v),
            RegisterName::Y => pc_state::write_y(pc_state, v),
            RegisterName::A => pc_state::write_a(pc_state, v),
            RegisterName::S => pc_state::write_s(pc_state, v),
        }
    }
}

/// The BCD reading of a byte: the high nibble as tens, the low as ones
/// (folded below ten).
pub open spec fn spec_bcd_value(v: u8) -> int {
    (v as int / 16) * 10 + (v as int % 16) % 10
}

/// Two decimal digits packed back into a byte.
pub open spec fn spec_bcd_pack(v: int) -> u8 {
    ((v / 10) * 16 + v % 10) as u8
}

/// Addition with carry. Binary mode sets N and Z from the 8-bit result, V
/// from signed overflow and C from the unsigned carry-out; decimal mode
/// adds the BCD readings, keeps N, Z and V from the binary result, and sets
/// C when the decimal sum passes 99.
#[verifier::opaque]
pub open spec fn spec_add_carry(ps: PcState, a: u8, b: u8, c: u8) -> (PcState, u8) {
    if !ps.p_reg.d {
        let sum = a + b + c;
        let result = (sum % 256) as u8;
        let flags = ps.p_reg.with_n(result >= 0x80).with_z(result == 0).with_v(
            ((a < 0x80) == (b < 0x80)) && ((result >= 0x80) != (a >= 0x80)),
        ).with_c(sum > 255);
        (ps.with_flags(flags), result)
    } else {
        let sum = spec_bcd_value(a) + spec_bcd_value(b) + c;
        let binary = ((a + b + c) % 256) as u8;
        let flags = ps.p_reg.with_n(binary >= 0x80).with_z(binary == 0).with_v(
            ((a < 0x80) == (b < 0x80)) && ((binary >= 0x80) != (a >= 0x80)),
        ).with_c(sum > 99);
        (ps.with_flags(flags), spec_bcd_pack(sum % 100))
    }
}

/// Subtraction with borrow. Binary mode sets N and Z from the 8-bit result,
/// V from signed overflow and C when no borrow was needed; decimal mode
/// subtracts the BCD readings, keeps N, Z and V from the binary result, and
/// sets C when the decimal difference stayed in 0..=99.
#[verifier::opaque]
pub open spec fn spec_sub_carry(ps: PcState, a: u8, b: u8, c: u8) -> (PcState, u8) {
    if !ps.p_reg.d {
        let diff = a - b - c;
        let result = (((diff % 256) + 256) % 256) as u8;
        let flags = ps.p_reg.with_n(result >= 0x80).with_z(result == 0).with_v(
            ((a < 0x80) != (b < 0x80)) && ((result >= 0x80) != (a >= 0x80)),
        ).with_c(a >= b + c);
        (ps.with_flags(flags), result)
    } else {
        let diff = spec_bcd_value(a) - spec_bcd_value(b) - c;
        let binary = ((((a - b - c) % 256) + 256) % 256) as u8;
        let flags = ps.p_reg.with_n(binary >= 0x80).with_z(binary == 0).with_v(
            ((a < 0x80) != (b < 0x80)) && ((binary >= 0x80) != (a >= 0x80)),
        ).with_c(0 <= diff <= 99);
        (ps.with_flags(flags), spec_bcd_pack(((diff % 100) + 100) % 100))
    }
}

/// A byte decremented with wrap-around, as the Euclidean form states it.
proof fn lemma_dec_wrap(data: u8)
    ensures
        ((data - 1) % 256 + 256) % 256 == (if data >= 1 {
            data - 1
        } else {
            255int
        }),
{
    if data >= 1 {
        lemma_small_mod((data - 1) as nat, 256);
        lemma_mod_add_multiples_vanish((data - 1) as int, 256);
    } else {
        lemma_mod_add_multiples_vanish(-1, 256);
        lemma_small_mod(255, 256);
        lemma_mod_add_multiples_vanish(255, 256);
    }
}

/// Comparison: N and Z from the 8-bit difference, C when `a >= b` unsigned.
pub open spec fn spec_compare(ps: PcState, a: u8, b: u8) -> PcState {
    let rs = ((a - b) % 256 + 256) % 256;
    ps.with_flags(ps.p_reg.with_n(rs >= 0x80).with_z(rs == 0).with_c(a >= b))
}

/// What each data operation does to the register file and what byte it
/// hands back for the write phase.
#[verifier::opaque]
pub open spec fn spec_operate(op: OpName, ps: PcState, data: u8) -> (PcState, u8) {
    match op {
        OpName::Nop => (ps, data),
        OpName::TNoStat => (ps, data),
        OpName::TStat => (ps.with_flags(spec_status_nz(ps.p_reg, data)), data),
        OpName::Asl => {
            let r = ((2 * data) % 256) as u8;
            (ps.with_flags(spec_status_nz(ps.p_reg.with_c(data >= 0x80), r)), r)
        },
        OpName::Lsr => {
            let r = (data / 2) as u8;
            (ps.with_flags(spec_status_nz(ps.p_reg.with_c(data % 2 == 1), r)), r)
        },
        OpName::Rol => {
            let r = ((2 * data) % 256 + (if ps.p_reg.c {
                1int
            } else {
                0int
            })) as u8;
            (ps.with_flags(spec_status_nz(ps.p_reg.with_c(data >= 0x80), r)), r)
        },
        OpName::Ror => {
            let r = (data / 2 + (if ps.p_reg.c {
                0x80int
            } else {
                0int
            })) as u8;
            (ps.with_flags(spec_status_nz(ps.p_reg.with_c(data % 2 == 1), r)), r)
        },
        OpName::Lda => (ps.with_a(data).with_flags(spec_status_nz(ps.p_reg, data)), 0),
        OpName::Ldx => (ps.with_x(data).with_flags(spec_status_nz(ps.p_reg, data)), 0),
        OpName::Ldy => (ps.with_y(data).with_flags(spec_status_nz(ps.p_reg, data)), 0),
        OpName::Lax => (ps.with_a(data).with_x(data).with_flags(spec_status_nz(ps.p_reg, data)), 0),
        OpName::And => {
            let r = ps.a_reg & data;
            (ps.with_a(r).with_flags(spec_status_nz(ps.p_reg, r)), 0)
        },
        OpName::Eor => {
            let r = ps.a_reg ^ data;
            (ps.with_a(r).with_flags(spec_status_nz(ps.p_reg, r)), 0)
        },
        OpName::Or => {
            let r = ps.a_reg | data;
            (ps.with_a(r).with_flags(spec_status_nz(ps.p_reg, r)), 0)
        },
        OpName::Adc => {
            let r = spec_add_carry(
                ps,
                ps.a_reg,
                data,
                if ps.p_reg.c {
                    1
                } else {
                    0
                },
            );
            (r.0.with_a(r.1), 0)
        },
        OpName::Sbc => {
            let r = spec_sub_carry(
                ps,
                ps.a_reg,
                data,
                if ps.p_reg.c {
                    0
                } else {
                    1
                },
            );
            (r.0.with_a(r.1), 0)
        },
        OpName::Cmp => (spec_compare(ps, ps.a_reg, data), 0),
        OpName::Cpx => (spec_compare(ps, ps.x_reg, data), 0),
        OpName::Cpy => (spec_compare(ps, ps.y_reg, data), 0),
        OpName::Bit => (
            ps.with_flags(
                ps.p_reg.with_n(data >= 0x80).with_v((data as int / 64) % 2 == 1).with_z(
                    ps.a_reg & data == 0,
                ),
            ),
            0,
        ),
        OpName::Sta => (ps, ps.a_reg),
        OpName::Stx => (ps, ps.x_reg),
        OpName::Sty => (ps, ps.y_reg),
        OpName::Sax => (ps, ps.a_reg & ps.x_reg),
        OpName::Dec => {
            let r = (((data - 1) % 256 + 256) % 256) as u8;
            (ps.with_flags(spec_status_nz(ps.p_reg, r)), r)
        },
        OpName::Inc => {
            let r = ((data + 1) % 256) as u8;
            (ps.with_flags(spec_status_nz(ps.p_reg, r)), r)
        },
        OpName::Clc => (ps.with_flags(ps.p_reg.with_c(false)), 0),
        OpName::Cld => (ps.with_flags(ps.p_reg.with_d(false)), 0),
        OpName::Cli => (ps.with_flags(ps.p_reg.with_i(false)), 0),
        OpName::Clv => (ps.with_flags(ps.p_reg.with_v(false)), 0),
        OpName::Sec => (ps.with_flags(ps.p_reg.with_c(true)), 0),
        OpName::Sed => (ps.with_flags(ps.p_reg.with_d(true)), 0),
        OpName::Sei => (ps.with_flags(ps.p_reg.with_i(true)), 0),
        OpName::Dcp => {
            let v = (((data - 1) % 256 + 256) % 256) as u8;
            (spec_compare(ps, ps.a_reg, v), v)
        },
        OpName::Isc => {
            let v = ((data + 1) % 256) as u8;
            let r = spec_sub_carry(
                ps,
                ps.a_reg,
                v,
                if ps.p_reg.c {
                    0
                } else {
                    1
                },
            );
            (r.0.with_a(r.1), v)
        },
        OpName::Slo => {
            let v = ((2 * data) % 256) as u8;
            let r = (ps.a_reg | v) as u8;
            (ps.with_a(r).with_flags(spec_status_nz(ps.p_reg.with_c(data >= 0x80), r)), v)
        },
    }
}

#[verifier::rlimit(100)]
pub fn nop(clock: &mut clocks::Clock, pc_state: &mut PcState, memory: &mut Memory, data: u8) -> (r:
    u8)
    ensures
        *final(clock) == *old(clock),
        *final(memory) == *old(memory),
        (*final(pc_state), r) == spec_operate(OpName::Nop, *old(pc_state), data),
{
    proof {
        reveal(spec_operate);
    }
    data
}

#[verifier::rlimit(100)]
pub fn asl(clock: &mut clocks::Clock, pc_state: &mut PcState, memory: &mut Memory, data: u8) -> (r:
    u8)
    ensures
        *final(clock) == *old(clock),
        *final(memory) == *old(memory),
        (*final(pc_state), r) == spec_operate(OpName::Asl, *old(pc_state), data),
{
    proof {
        reveal(spec_operate);
    }
    proof {
        assert((data % 128) * 2 == (2 * data) % 256) by (bit_vector);
    }
    pc_state.set_flag_c(data >= 0x80);
    let left_shift = (data % 128) * 2;
    pc_state::set_status_nz(pc_state, left_shift);
    left_shift
}

#[verifier::rlimit(100)]
pub fn lsr(clock: &mut clocks::Clock, pc_state: &mut PcState, memory: &mut Memory, data: u8) -> (r:
    u8)
    ensures
        *final(clock) == *old(clock),
        *final(memory) == *old(memory),
        (*final(pc_state), r) == spec_operate(OpName::Lsr, *old(pc_state), data),
{
    proof {
        reveal(spec_operate);
    }
    pc_state.set_flag_c(data % 2 == 1);
    let right_shift = data / 2;
    pc_state::set_status_nz(pc_state, right_shift);
    right_shift
}

#[verifier::rlimit(100)]
pub fn rol(clock: &mut clocks::Clock, pc_state: &mut PcState, memory: &mut Memory, data: u8) -> (r:
    u8)
    ensures
        *final(clock) == *old(clock),
        *final(memory) == *old(memory),
        (*final(pc_state), r) == spec_operate(OpName::Rol, *old(pc_state), data),
{
    proof {
        reveal(spec_operate);
    }
    proof {
        assert((data % 128) * 2 == (2 * data) % 256) by (bit_vector);
    }
    let t8 = (data % 128) * 2 + (if pc_state.get_flag_c() {
        1
    } else {
        0
    });
    pc_state.set_flag_c(data >= 0x80);
    pc_state::set_status_nz(pc_state, t8);
    t8
}

#[verifier::rlimit(100)]
pub fn ror(clock: &mut clocks::Clock, pc_state: &mut PcState, memory: &mut Memory, data: u8) -> (r:
    u8)
    ensures
        *final(clock) == *old(clock),
        *final(memory) == *old(memory),
        (*final(pc_state), r) == spec_operate(OpName::Ror, *old(pc_state), data),
{
    proof {
        reveal(spec_operate);
    }
    let t8 = data / 2 + (if pc_state.get_flag_c() {
        0x80
    } else {
        0
    });
    pc_state.set_flag_c(data % 2 == 1);
    pc_state::set_status_nz(pc_state, t8);
    t8
}

#[verifier::rlimit(100)]
pub fn ldx(clock: &mut clocks::Clock, pc_state: &mut PcState, memory: &mut Memory, data: u8) -> (r:
    u8)
    ensures
        *final(clock) == *old(clock),
        *final(memory) == *old(memory),
        (*final(pc_state), r) == spec_operate(OpName::Ldx, *old(pc_state), data),
{
    proof {
        reveal(spec_operate);
    }
    pc_state.set_x(data);
    pc_state::set_status_nz(pc_state, data);
    0
}

#[verifier::rlimit(100)]
pub fn ldy(clock: &mut clocks::Clock, pc_state: &mut PcState, memory: &mut Memory, data: u8) -> (r:
    u8)
    ensures
        *final(clock) == *old(clock),
        *final(memory) == *old(memory),
        (*final(pc_state), r) == spec_operate(OpName::Ldy, *old(pc_state), data),
{
    proof {
        reveal(spec_operate);
    }
    pc_state.set_y(data);
    pc_state::set_status_nz(pc_state, data);
    0
}

#[verifier::rlimit(100)]
pub fn lda(clock: &mut clocks::Clock, pc_state: &mut PcState, memory: &mut Memory, data: u8) -> (r:
    u8)
    ensures
        *final(clock) == *old(clock),
        *final(memory) == *old(memory),
        (*final(pc_state), r) == spec_operate(OpName::Lda, *old(pc_state), data),
{
    proof {
        reveal(spec_operate);
    }
    pc_state.set_a(data);
    pc_state::set_status_nz(pc_state, data);
    0
}

#[verifier::rlimit(100)]
pub fn lax(clock: &mut clocks::Clock, pc_state: &mut PcState, memory: &mut Memory, data: u8) -> (r:
    u8)
    ensures
        *final(clock) == *old(clock),
        *final(memory) == *old(memory),
        (*final(pc_state), r) == spec_operate(OpName::Lax, *old(pc_state), data),
{
    proof {
        reveal(spec_operate);
    }
    pc_state.set_a(data);
    pc_state.set_x(data);
    pc_state::set_status_nz(pc_state, data);
    0
}

#[verifier::rlimit(100)]
pub fn and(clock: &mut clocks::Clock, pc_state: &mut PcState, memory: &mut Memory, data: u8) -> (r:
    u8)
    ensures
        *final(clock) == *old(clock),
        *final(memory) == *old(memory),
        (*final(pc_state), r) == spec_operate(OpName::And, *old(pc_state), data),
{
    proof {
        reveal(spec_operate);
    }
    let v = pc_state.get_a() & data;
    pc_state.set_a(v);
    pc_state::set_status_nz(pc_state, v);
    0
}

#[verifier::rlimit(100)]
pub fn eor(clock: &mut clocks::Clock, pc_state: &mut PcState, memory: &mut Memory, data: u8) -> (r:
    u8)
    ensures
        *final(clock) == *old(clock),
        *final(memory) == *old(memory),
        (*final(pc_state), r) == spec_operate(OpName::Eor, *old(pc_state), data),
{
    proof {
        reveal(spec_operate);
    }
    let v = pc_state.get_a() ^ data;
    pc_state.set_a(v);
    pc_state::set_status_nz(pc_state, v);
    0
}

#[verifier::rlimit(100)]
pub fn or(clock: &mut clocks::Clock, pc_state: &mut PcState, memory: &mut Memory, data: u8) -> (r:
    u8)
    ensures
        *final(clock) == *old(clock),
        *final(memory) == *old(memory),
        (*final(pc_state), r) == spec_operate(OpName::Or, *old(pc_state), data),
{
    proof {
        reveal(spec_operate);
    }
    let v = pc_state.get_a() | data;
    pc_state.set_a(v);
    pc_state::set_status_nz(pc_state, v);
    0
}

/// Addition with carry, in binary or decimal mode per the D flag.
#[verifier::rlimit(100)]
pub fn add_carry(pc_state: &mut PcState, a: u8, b: u8, c: u8) -> (result: u8)
    requires
        c <= 1,
    ensures
        (*final(pc_state), result) == spec_add_carry(*old(pc_state), a, b, c),
{
    proof {
        reveal(spec_add_carry);
    }
    if !pc_state.get_flag_d() {
        let sum: u16 = a as u16 + b as u16 + c as u16;
        let result = (sum % 256) as u8;
        pc_state.set_flag_n(result >= 0x80);
        pc_state.set_flag_z(result == 0);
        pc_state.set_flag_v(((a < 0x80) == (b < 0x80)) && ((result >= 0x80) != (a >= 0x80)));
        pc_state.set_flag_c(sum > 255);
        result
    } else {
        let sum: u16 = ((a / 16) as u16) * 10 + ((a % 16) % 10) as u16 + ((b / 16) as u16) * 10 + ((
        b % 16) % 10) as u16 + c as u16;
        let binary = ((a as u16 + b as u16 + c as u16) % 256) as u8;
        pc_state.set_flag_n(binary >= 0x80);
        pc_state.set_flag_z(binary == 0);
        pc_state.set_flag_v(((a < 0x80) == (b < 0x80)) && ((binary >= 0x80) != (a >= 0x80)));
        pc_state.set_flag_c(sum > 99);
        let sm = sum % 100;
        ((sm / 10) * 16 + sm % 10) as u8
    }
}

/// Subtraction with borrow, in binary or decimal mode per the D flag.
#[verifier::rlimit(100)]
pub fn sub_carry(pc_state: &mut PcState, a: u8, b: u8, c: u8) -> (result: u8)
    requires
        c <= 1,
    ensures
        (*final(pc_state), result) == spec_sub_carry(*old(pc_state), a, b, c),
{
    proof {
        reveal(spec_sub_carry);
    }
    if !pc_state.get_flag_d() {
        let shifted: u16 = 512 + a as u16 - b as u16 - c as u16;
        let result = (shifted % 256) as u8;
        proof {
            let d = a - b - c;
            lemma_mod_add_multiples_vanish(d + 256, 256);
            lemma_mod_add_multiples_vanish(d, 256);
            lemma_mod_add_multiples_vanish(d % 256, 256);
            assert(shifted == d + 512);
            assert(shifted % 256 == ((d % 256) + 256) % 256);
        }
        pc_state.set_flag_n(result >= 0x80);
        pc_state.set_flag_z(result == 0);
        pc_state.set_flag_v(((a < 0x80) != (b < 0x80)) && ((result >= 0x80) != (a >= 0x80)));
        pc_state.set_flag_c(a as u16 >= b as u16 + c as u16);
        result
    } else {
        let va: u16 = (a / 16) as u16 * 10 + ((a % 16) % 10) as u16;
        let vb: u16 = (b / 16) as u16 * 10 + ((b % 16) % 10) as u16;
        let shifted: u16 = 512 + a as u16 - b as u16 - c as u16;
        let binary = (shifted % 256) as u8;
        proof {
            let d = a - b - c;
            lemma_mod_add_multiples_vanish(d + 256, 256);
            lemma_mod_add_multiples_vanish(d, 256);
            lemma_mod_add_multiples_vanish(d % 256, 256);
            assert(shifted == d + 512);
            assert(shifted % 256 == ((d % 256) + 256) % 256);
        }
        pc_state.set_flag_n(binary >= 0x80);
        pc_state.set_flag_z(binary == 0);
        pc_state.set_flag_v(((a < 0x80) != (b < 0x80)) && ((binary >= 0x80) != (a >= 0x80)));
        pc_state.set_flag_c(va >= vb + c as u16 && va - (vb + c as u16) <= 99);
        let du: u16 = 200 + va - vb - c as u16;
        let rr = du % 100;
        proof {
            let d = spec_bcd_value(a) - spec_bcd_value(b) - c;
            lemma_mod_add_multiples_vanish(d + 100, 100);
            lemma_mod_add_multiples_vanish(d, 100);
            lemma_mod_add_multiples_vanish(d % 100, 100);
            assert(du == d + 200);
            assert(du % 100 == ((d % 100) + 100) % 100);
        }
        ((rr / 10) * 16 + rr % 10) as u8
    }
}

#[verifier::rlimit(100)]
pub fn adc(clock: &mut clocks::Clock, pc_state: &mut PcState, memory: &mut Memory, data: u8) -> (r:
    u8)
    ensures
        *final(clock) == *old(clock),
        *final(memory) == *old(memory),
        (*final(pc_state), r) == spec_operate(OpName::Adc, *old(pc_state), data),
{
    proof {
        reveal(spec_operate);
    }
    let c: u8 = if pc_state.get_flag_c() {
        1
    } else {
        0
    };
    let a = pc_state.get_a();
    let result = add_carry(pc_state, a, data, c);
    pc_state.set_a(result);
    0
}

#[verifier::rlimit(100)]
pub fn sbc(clock: &mut clocks::Clock, pc_state: &mut PcState, memory: &mut Memory, data: u8) -> (r:
    u8)
    ensures
        *final(clock) == *old(clock),
        *final(memory) == *old(memory),
        (*final(pc_state), r) == spec_operate(OpName::Sbc, *old(pc_state), data),
{
    proof {
        reveal(spec_operate);
    }
    let c: u8 = if pc_state.get_flag_c() {
        0
    } else {
        1
    };
    let a = pc_state.get_a();
    let result = sub_carry(pc_state, a, data, c);
    pc_state.set_a(result);
    0
}

/// Comparison: sets N, Z and C from `a - b`.
#[verifier::rlimit(100)]
pub fn compare(pc_state: &mut PcState, a: u8, b: u8)
    ensures
        *final(pc_state) == spec_compare(*old(pc_state), a, b),
{
    let rs = a.wrapping_sub(b);
    pc_state.set_flag_n(rs >= 0x80);
    pc_state.set_flag_z(rs == 0);
    pc_state.set_flag_c(a >= b);
}

#[verifier::rlimit(100)]
pub fn cpx(clock: &mut clocks::Clock, pc_state: &mut PcState, memory: &mut Memory, data: u8) -> (r:
    u8)
    ensures
        *final(clock) == *old(clock),
        *final(memory) == *old(memory),
        (*final(pc_state), r) == spec_operate(OpName::Cpx, *old(pc_state), data),
{
    proof {
        reveal(spec_operate);
    }
    let x = pc_state.get_x();
    compare(pc_state, x, data);
    0
}

#[verifier::rlimit(100)]
pub fn cpy(clock: &mut clocks::Clock, pc_state: &mut PcState, memory: &mut Memory, data: u8) -> (r:
    u8)
    ensures
        *final(clock) == *old(clock),
        *final(memory) == *old(memory),
        (*final(pc_state), r) == spec_operate(OpName::Cpy, *old(pc_state), data),
{
    proof {
        reveal(spec_operate);
    }
    let y = pc_state.get_y();
    compare(pc_state, y, data);
    0
}

#[verifier::rlimit(100)]
pub fn cmp(clock: &mut clocks::Clock, pc_state: &mut PcState, memory: &mut Memory, data: u8) -> (r:
    u8)
    ensures
        *final(clock) == *old(clock),
        *final(memory) == *old(memory),
        (*final(pc_state), r) == spec_operate(OpName::Cmp, *old(pc_state), data),
{
    proof {
        reveal(spec_operate);
    }
    let a = pc_state.get_a();
    compare(pc_state, a, data);
    0
}

#[verifier::rlimit(100)]
pub fn bit(clock: &mut clocks::Clock, pc_state: &mut PcState, memory: &mut Memory, data: u8) -> (r:
    u8)
    ensures
        *final(clock) == *old(clock),
        *final(memory) == *old(memory),
        (*final(pc_state), r) == spec_operate(OpName::Bit, *old(pc_state), data),
{
    proof {
        reveal(spec_operate);
    }
    pc_state.set_flag_n(data >= 0x80);
    pc_state.set_flag_v((data / 64) % 2 == 1);
    pc_state.set_flag_z((pc_state.get_a() & data) == 0);
    0
}

#[verifier::rlimit(100)]
pub fn sta(clock: &mut clocks::Clock, pc_state: &mut PcState, memory: &mut Memory, data: u8) -> (r:
    u8)
    ensures
        *final(clock) == *old(clock),
        *final(memory) == *old(memory),
        (*final(pc_state), r) == spec_operate(OpName::Sta, *old(pc_state), data),
{
    proof {
        reveal(spec_operate);
    }
    pc_state.get_a()
}

#[verifier::rlimit(100)]
pub fn sty(clock: &mut clocks::Clock, pc_state: &mut PcState, memory: &mut Memory, data: u8) -> (r:
    u8)
    ensures
        *final(clock) == *old(clock),
        *final(memory) == *old(memory),
        (*final(pc_state), r) == spec_operate(OpName::Sty, *old(pc_state), data),
{
    proof {
        reveal(spec_operate);
    }
    pc_state.get_y()
}

#[verifier::rlimit(100)]
pub fn stx(clock: &mut clocks::Clock, pc_state: &mut PcState, memory: &mut Memory, data: u8) -> (r:
    u8)
    ensures
        *final(clock) == *old(clock),
        *final(memory) == *old(memory),
        (*final(pc_state), r) == spec_operate(OpName::Stx, *old(pc_state), data),
{
    proof {
        reveal(spec_operate);
    }
    pc_state.get_x()
}

#[verifier::rlimit(100)]
pub fn sax(clock: &mut clocks::Clock, pc_state: &mut PcState, memory: &mut Memory, data: u8) -> (r:
    u8)
    ensures
        *final(clock) == *old(clock),
        *final(memory) == *old(memory),
        (*final(pc_state), r) == spec_operate(OpName::Sax, *old(pc_state), data),
{
    proof {
        reveal(spec_operate);
    }
    pc_state.get_a() & pc_state.get_x()
}

#[verifier::rlimit(100)]
pub fn dec(clock: &mut clocks::Clock, pc_state: &mut PcState, memory: &mut Memory, data: u8) -> (r:
    u8)
    ensures
        *final(clock) == *old(clock),
        *final(memory) == *old(memory),
        (*final(pc_state), r) == spec_operate(OpName::Dec, *old(pc_state), data),
{
    proof {
        reveal(spec_operate);
    }
    proof {
        lemma_dec_wrap(data);
    }
    let decremented = data.wrapping_sub(1);
    pc_state::set_status_nz(pc_state, decremented);
    decremented
}

#[verifier::rlimit(100)]
pub fn inc(clock: &mut clocks::Clock, pc_state: &mut PcState, memory: &mut Memory, data: u8) -> (r:
    u8)
    ensures
        *final(clock) == *old(clock),
        *final(memory) == *old(memory),
        (*final(pc_state), r) == spec_operate(OpName::Inc, *old(pc_state), data),
{
    proof {
        reveal(spec_operate);
    }
    let incremented = data.wrapping_add(1);
    pc_state::set_status_nz(pc_state, incremented);
    incremented
}

#[verifier::rlimit(100)]
pub fn dcp(clock: &mut clocks::Clock, pc_state: &mut PcState, memory: &mut Memory, data: u8) -> (r:
    u8)
    ensures
        *final(clock) == *old(clock),
        *final(memory) == *old(memory),
        (*final(pc_state), r) == spec_operate(OpName::Dcp, *old(pc_state), data),
{
    proof {
        reveal(spec_operate);
    }
    proof {
        lemma_dec_wrap(data);
    }
    let v = data.wrapping_sub(1);
    let a = pc_state.get_a();
    compare(pc_state, a, v);
    v
}

#[verifier::rlimit(100)]
#[verifier::spinoff_prover]
pub fn isc(clock: &mut clocks::Clock, pc_state: &mut PcState, memory: &mut Memory, data: u8) -> (r:
    u8)
    ensures
        *final(clock) == *old(clock),
        *final(memory) == *old(memory),
        (*final(pc_state), r) == spec_operate(OpName::Isc, *old(pc_state), data),
{
    proof {
        reveal(spec_operate);
    }
    let v = data.wrapping_add(1);
    let c: u8 = if pc_state.get_flag_c() {
        0
    } else {
        1
    };
    let a = pc_state.get_a();
    let result = sub_carry(pc_state, a, v, c);
    pc_state.set_a(result);
    v
}

#[verifier::rlimit(100)]
pub fn slo(clock: &mut clocks::Clock, pc_state: &mut PcState, memory: &mut Memory, data: u8) -> (r:
    u8)
    ensures
        *final(clock) == *old(clock),
        *final(memory) == *old(memory),
        (*final(pc_state), r) == spec_operate(OpName::Slo, *old(pc_state), data),
{
    proof {
        reveal(spec_operate);
    }
    proof {
        assert((data % 128) * 2 == (2 * data) % 256) by (bit_vector);
    }
    let v = (data % 128) * 2;
    let a = pc_state.get_a() | v;
    pc_state.set_flag_c(data >= 0x80);
    pc_state.set_a(a);
    pc_state::set_status_nz(pc_state, a);
    v
}

#[verifier::rlimit(100)]
pub fn clc(clock: &mut clocks::Clock, pc_state: &mut PcState, memory: &mut Memory, data: u8) -> (r:
    u8)
    ensures
        *final(clock) == *old(clock),
        *final(memory) == *old(memory),
        (*final(pc_state), r) == spec_operate(OpName::Clc, *old(pc_state), data),
{
    proof {
        reveal(spec_operate);
    }
    pc_state.set_flag_c(false);
    0
}

#[verifier::rlimit(100)]
pub fn cld(clock: &mut clocks::Clock, pc_state: &mut PcState, memory: &mut Memory, data: u8) -> (r:
    u8)
    ensures
        *final(clock) == *old(clock),
        *final(memory) == *old(memory),
        (*final(pc_state), r) == spec_operate(OpName::Cld, *old(pc_state), data),
{
    proof {
        reveal(spec_operate);
    }
    pc_state.set_flag_d(false);
    0
}

#[verifier::rlimit(100)]
pub fn cli(clock: &mut clocks::Clock, pc_state: &mut PcState, memory: &mut Memory, data: u8) -> (r:
    u8)
    ensures
        *final(clock) == *old(clock),
        *final(memory) == *old(memory),
        (*final(pc_state), r) == spec_operate(OpName::Cli, *old(pc_state), data),
{
    proof {
        reveal(spec_operate);
    }
    pc_state.set_flag_i(false);
    0
}

#[verifier::rlimit(100)]
pub fn clv(clock: &mut clocks::Clock, pc_state: &mut PcState, memory: &mut Memory, data: u8) -> (r:
    u8)
    ensures
        *final(clock) == *old(clock),
        *final(memory) == *old(memory),
        (*final(pc_state), r) == spec_operate(OpName::Clv, *old(pc_state), data),
{
    proof {
        reveal(spec_operate);
    }
    pc_state.set_flag_v(false);
    0
}

#[verifier::rlimit(100)]
pub fn sec(clock: &mut clocks::Clock, pc_state: &mut PcState, memory: &mut Memory, data: u8) -> (r:
    u8)
    ensures
        *final(clock) == *old(clock),
        *final(memory) == *old(memory),
        (*final(pc_state), r) == spec_operate(OpName::Sec, *old(pc_state), data),
{
    proof {
        reveal(spec_operate);
    }
    pc_state.set_flag_c(true);
    0
}

#[verifier::rlimit(100)]
pub fn sei(clock: &mut clocks::Clock, pc_state: &mut PcState, memory: &mut Memory, data: u8) -> (r:
    u8)
    ensures
        *final(clock) == *old(clock),
        *final(memory) == *old(memory),
        (*final(pc_state), r) == spec_operate(OpName::Sei, *old(pc_state), data),
{
    proof {
        reveal(spec_operate);
    }
    pc_state.set_flag_i(true);
    0
}

#[verifier::rlimit(100)]
pub fn sed(clock: &mut clocks::Clock, pc_state: &mut PcState, memory: &mut Memory, data: u8) -> (r:
    u8)
    ensures
        *final(clock) == *old(clock),
        *final(memory) == *old(memory),
        (*final(pc_state), r) == spec_operate(OpName::Sed, *old(pc_state), data),
{
    proof {
        reveal(spec_operate);
    }
    pc_state.set_flag_d(true);
    0
}

#[verifier::rlimit(100)]
pub fn t_no_status(
    clock: &mut clocks::Clock,
    pc_state: &mut PcState,
    memory: &mut Memory,
    data: u8,
) -> (r: u8)
    ensures
        *final(clock) == *old(clock),
        *final(memory) == *old(memory),
        (*final(pc_state), r) == spec_operate(OpName::TNoStat, *old(pc_state), data),
{
    proof {
        reveal(spec_operate);
    }
    data
}

#[verifier::rlimit(100)]
pub fn t_status(clock: &mut clocks::Clock, pc_state: &mut PcState, memory: &mut Memory, data: u8)
    -> (r: u8)
    ensures
        *final(clock) == *old(clock),
        *final(memory) == *old(memory),
        (*final(pc_state), r) == spec_operate(OpName::TStat, *old(pc_state), data),
{
    proof {
        reveal(spec_operate);
    }
    pc_state::set_status_nz(pc_state, data);
    data
}

/// Runs one data operation by name.
#[verifier::rlimit(100)]
pub fn operate(
    op: OpName,
    clock: &mut clocks::Clock,
    pc_state: &mut PcState,
    memory: &mut Memory,
    data: u8,
) -> (r: u8)
    ensures
        *final(clock) == *old(clock),
        *final(memory) == *old(memory),
        (*final(pc_state), r) == spec_operate(op, *old(pc_state), data),
{
    proof {
        reveal(spec_operate);
    }
    match op {
        OpName::Adc => adc(clock, pc_state, memory, data),
        OpName::And => and(clock, pc_state, memory, data),
        OpName::Asl => asl(clock, pc_state, memory, data),
        OpName::Bit => bit(clock, pc_state, memory, data),
        OpName::Clc => clc(clock, pc_state, memory, data),
        OpName::Cld => cld(clock, pc_state, memory, data),
        OpName::Cli => cli(clock, pc_state, memory, data),
        OpName::Clv => clv(clock, pc_state, memory, data),
        OpName::Cmp => cmp(clock, pc_state, memory, data),
        OpName::Cpx => cpx(clock, pc_state, memory, data),
        OpName::Cpy => cpy(clock, pc_state, memory, data),
        OpName::Dcp => dcp(clock, pc_state, memory, data),
        OpName::Dec => dec(clock, pc_state, memory, data),
        OpName::Eor => eor(clock, pc_state, memory, data),
        OpName::Inc => inc(clock, pc_state, memory, data),
        OpName::Isc => isc(clock, pc_state, memory, data),
        OpName::Lax => lax(clock, pc_state, memory, data),
        OpName::Lda => lda(clock, pc_state, memory, data),
        OpName::Ldx => ldx(clock, pc_state, memory, data),
        OpName::Ldy => ldy(clock, pc_state, memory, data),
        OpName::Lsr => lsr(clock, pc_state, memory, data),
        OpName::Nop => nop(clock, pc_state, memory, data),
        OpName::Or => or(clock, pc_state, memory, data),
        OpName::Rol => rol(clock, pc_state, memory, data),
        OpName::Ror => ror(clock, pc_state, memory, data),
        OpName::Sax => sax(clock, pc_state, memory, data),
        OpName::Sbc => sbc(clock, pc_state, memory, data),
        OpName::Sec => sec(clock, pc_state, memory, data),
        OpName::Sed => sed(clock, pc_state, memory, data),
        OpName::Sei => sei(clock, pc_state, memory, data),
        OpName::Slo => slo(clock, pc_state, memory, data),
        OpName::Sta => sta(clock, pc_state, memory, data),
        OpName::Stx => stx(clock, pc_state, memory, data),
        OpName::Sty => sty(clock, pc_state, memory, data),
        OpName::TNoStat => t_no_status(clock, pc_state, memory, data),
        OpName::TStat => t_status(clock, pc_state, memory, data),
    }
}


/// What one implied-mode instruction does: register read, operation,
/// register write-back, the program counter one ahead, six colour clocks,
/// no memory traffic.
pub open spec fn rel_single_byte(
    read: RegisterName,
    write: RegisterName,
    op: OpName,
    m0: Memory,
    ps0: PcState,
    t0: u64,
    m1: Memory,
    ps1: PcState,
    t1: u64,
) -> bool {
    &&& m1 == m0
    &&& t1 == t0 + 6
    &&& ps1 == ({
        let d = read.spec_value(ps0);
        let o = spec_operate(op, ps0, d);
        let ps2 = write.spec_store(o.0, o.1);
        ps2.with_pc(wrap_add16(ps2.pc_reg, 1))
    })
}

/// What one memory-mode instruction does: effective address, operand read,
/// operation, result write, with the mode's documented cycle cost plus the
/// read, write, extra-delay and page-cross penalties; only a data write to
/// WSYNC/RSYNC can move the clock beyond that.
pub open spec fn rel_read_write(
    address: addressing::Addressing,
    read: addressing::ReadData,
    write: addressing::WriteData,
    op: OpName,
    additional_delay: u8,
    m0: Memory,
    ps0: PcState,
    t0: u64,
    m1: Memory,
    ps1: PcState,
    t1: u64,
) -> bool {
    let penalty: int = if address.spec_page_penalty(m0, t0, ps0) {
        3
    } else {
        0
    };
    let a = address.spec_address(m0, t0, ps0);
    let ma = address.spec_mem_after(m0, t0, ps0);
    let v = read.spec_value(ma, (t0 + penalty) as u64, ps0, a);
    let mb = read.spec_mem_after(ma, a);
    let o = spec_operate(op, ps0, v);
    let tw = (t0 + penalty + address.spec_time() + read.spec_time() + write.spec_time()
        + additional_delay) as u64;
    &&& (write.is_memory() ==> ({
        &&& Memory::spec_write_rel(mb, m1, tw, t1, a, o.1)
        &&& ps1 == o.0.with_pc(wrap_add16(o.0.pc_reg, 1 + address.spec_size()))
        &&& tw <= t1 <= tw + 228
    }))
    &&& (write is AccumulatorWrite ==> ({
        &&& m1 == mb
        &&& t1 == tw
        &&& ps1 == o.0.with_a(o.1).with_pc(wrap_add16(o.0.pc_reg, 1 + address.spec_size()))
    }))
    &&& (write is MemoryNull ==> ({
        &&& m1 == mb
        &&& t1 == tw
        &&& ps1 == o.0.with_pc(wrap_add16(o.0.pc_reg, 1 + address.spec_size()))
    }))
}

/// What a conditional branch does: two CPU cycles not taken, one more when
/// taken, one more again on a page cross.
pub open spec fn rel_branch(
    condition_mask: u8,
    condition: u8,
    m0: Memory,
    ps0: PcState,
    t0: u64,
    m1: Memory,
    ps1: PcState,
    t1: u64,
) -> bool {
    let taken = ps0.p_reg.spec_value() & condition_mask == condition;
    let delta = m0.spec_read_value((t0 + 3) as u64, wrap_add16(ps0.pc_reg, 1));
    let target = wrap_add16(wrap_add16(ps0.pc_reg, spec_branch_offset(delta)), 2);
    let crossed = spec_crossed_page(wrap_add16(ps0.pc_reg, 2), target);
    &&& (taken ==> ({
        &&& ps1 == ps0.with_pc(target)
        &&& m1 == m0.spec_after_read(wrap_add16(ps0.pc_reg, 1))
        &&& t1 == t0 + (if crossed {
            12int
        } else {
            9int
        })
    }))
    &&& (!taken ==> ({
        &&& ps1 == ps0.with_pc(wrap_add16(ps0.pc_reg, 2))
        &&& m1 == m0
        &&& t1 == t0 + 6
    }))
}

/// What JSR does: six CPU cycles, the address of the last operand byte
/// pushed high byte first, the target fetched around the pushes. The
/// target equation is stated for operand fetches from the cartridge
/// window, where the pushes cannot alias the instruction stream.
pub open spec fn rel_jsr(
    m0: Memory,
    ps0: PcState,
    t0: u64,
    m1: Memory,
    ps1: PcState,
    t1: u64,
) -> bool {
    let ret = wrap_add16(ps0.pc_reg, 2);
    let adl = m0.spec_read_value((t0 + 6) as u64, wrap_add16(ps0.pc_reg, 1));
    let ma = m0.spec_after_read(wrap_add16(ps0.pc_reg, 1));
    let adh = ma.spec_read_value((t0 + 15) as u64, wrap_add16(ps0.pc_reg, 2));
    &&& t1 == t0 + 18
    &&& m1.stella == m0.stella
    &&& m1.cartridge == ma.spec_after_read(wrap_add16(ps0.pc_reg, 2)).cartridge
    &&& m1.riot.ram@ == m0.riot.ram@.update(
        crate::riot::Riot::ram_index((ps0.s_reg + 0x100) as u16),
        (ret / 256) as u8,
    ).update(
        crate::riot::Riot::ram_index((pc_state::wrap_add8(ps0.s_reg, -1) + 0x100) as u16),
        (ret % 256) as u8,
    )
    &&& m1.riot.input == m0.riot.input
    &&& m1.riot.interval == m0.riot.interval
    &&& m1.riot.expiration_time == m0.riot.expiration_time
    &&& ps1.s_reg == pc_state::wrap_add8(ps0.s_reg, -2)
    &&& ps1.a_reg == ps0.a_reg && ps1.x_reg == ps0.x_reg && ps1.y_reg == ps0.y_reg && ps1.p_reg
        == ps0.p_reg
    &&& (Memory::sel_rom(wrap_add16(ps0.pc_reg, 1)) && Memory::sel_rom(wrap_add16(ps0.pc_reg, 2))
        ==> ps1.pc_reg == adl + 256 * adh)
}

/// What RTS does: six CPU cycles, the return address pulled low byte
/// first, a dummy fetch at it, execution resuming one past it.
pub open spec fn rel_rts(
    m0: Memory,
    ps0: PcState,
    t0: u64,
    m1: Memory,
    ps1: PcState,
    t1: u64,
) -> bool {
    let pcl = m0.spec_read_value(
        (t0 + 9) as u64,
        (pc_state::wrap_add8(ps0.s_reg, 1) + 0x100) as u16,
    );
    let pch = m0.spec_read_value(
        (t0 + 12) as u64,
        (pc_state::wrap_add8(ps0.s_reg, 2) + 0x100) as u16,
    );
    let target = (pcl + 256 * pch) as u16;
    &&& t1 == t0 + 18
    &&& m1.stella == m0.stella
    &&& m1.riot == m0.riot
    &&& ps1.pc_reg == wrap_add16(target, 1)
    &&& ps1.s_reg == pc_state::wrap_add8(ps0.s_reg, 2)
    &&& ps1.a_reg == ps0.a_reg && ps1.x_reg == ps0.x_reg && ps1.y_reg == ps0.y_reg && ps1.p_reg
        == ps0.p_reg
    &&& m1.cartridge == m0.spec_after_read(target).cartridge
}

/// What JMP does: the target computed through the addressing mode, one
/// fetch cycle plus the mode's cost.
pub open spec fn rel_jump(
    address: addressing::Addressing,
    m0: Memory,
    ps0: PcState,
    t0: u64,
    m1: Memory,
    ps1: PcState,
    t1: u64,
) -> bool {
    &&& t1 == t0 + 3 + address.spec_time() + (if address.spec_page_penalty(
        m0,
        (t0 + 3) as u64,
        ps0,
    ) {
        3int
    } else {
        0int
    })
    &&& m1 == address.spec_mem_after(m0, (t0 + 3) as u64, ps0)
    &&& ps1 == ps0.with_pc(address.spec_address(m0, (t0 + 3) as u64, ps0))
}

/// What PHA does: the accumulator pushed, three CPU cycles.
pub open spec fn rel_pha(
    m0: Memory,
    ps0: PcState,
    t0: u64,
    m1: Memory,
    ps1: PcState,
    t1: u64,
) -> bool {
    &&& t1 == t0 + 9
    &&& m1.stella == m0.stella
    &&& m1.cartridge == m0.cartridge
    &&& m1.riot.ram@ == m0.riot.ram@.update(
        crate::riot::Riot::ram_index((ps0.s_reg + 0x100) as u16),
        ps0.a_reg,
    )
    &&& m1.riot.input == m0.riot.input
    &&& m1.riot.interval == m0.riot.interval
    &&& m1.riot.expiration_time == m0.riot.expiration_time
    &&& ps1 == ps0.with_pc(wrap_add16(ps0.pc_reg, 1)).with_s(pc_state::wrap_add8(ps0.s_reg, -1))
}

/// What PLA does: the accumulator pulled with N and Z set, four CPU
/// cycles.
pub open spec fn rel_pla(
    m0: Memory,
    ps0: PcState,
    t0: u64,
    m1: Memory,
    ps1: PcState,
    t1: u64,
) -> bool {
    let v = m0.spec_read_value(
        (t0 + 9) as u64,
        (pc_state::wrap_add8(ps0.s_reg, 1) + 0x100) as u16,
    );
    &&& t1 == t0 + 12
    &&& m1 == m0
    &&& ps1 == ps0.with_pc(wrap_add16(ps0.pc_reg, 1)).with_s(
        pc_state::wrap_add8(ps0.s_reg, 1),
    ).with_a(v).with_flags(spec_status_nz(ps0.p_reg, v))
}

/// What PHP does: the status byte pushed with B and X1 forced on, three
/// CPU cycles.
pub open spec fn rel_php(
    m0: Memory,
    ps0: PcState,
    t0: u64,
    m1: Memory,
    ps1: PcState,
    t1: u64,
) -> bool {
    &&& t1 == t0 + 9
    &&& m1.stella == m0.stella
    &&& m1.cartridge == m0.cartridge
    &&& m1.riot.ram@ == m0.riot.ram@.update(
        crate::riot::Riot::ram_index((ps0.s_reg + 0x100) as u16),
        ps0.p_reg.with_b(true).with_x1(true).spec_value(),
    )
    &&& m1.riot.input == m0.riot.input
    &&& m1.riot.interval == m0.riot.interval
    &&& m1.riot.expiration_time == m0.riot.expiration_time
    &&& ps1 == ps0.with_pc(wrap_add16(ps0.pc_reg, 1)).with_s(pc_state::wrap_add8(ps0.s_reg, -1))
}

/// What PLP does: the status byte pulled, four CPU cycles.
pub open spec fn rel_plp(
    m0: Memory,
    ps0: PcState,
    t0: u64,
    m1: Memory,
    ps1: PcState,
    t1: u64,
) -> bool {
    let v = m0.spec_read_value(
        (t0 + 9) as u64,
        (pc_state::wrap_add8(ps0.s_reg, 1) + 0x100) as u16,
    );
    &&& t1 == t0 + 12
    &&& m1 == m0
    &&& ps1 == ps0.with_pc(wrap_add16(ps0.pc_reg, 1)).with_s(
        pc_state::wrap_add8(ps0.s_reg, 1),
    ).with_flags(pc_state::PcStatusFlagFields::spec_from_byte(v))
}

/// What BRK does: the address two past the opcode and the status byte
/// (with B set) pushed, I raised, the vector at 0xFFFE taken; seven CPU
/// cycles.
pub open spec fn rel_brk(
    m0: Memory,
    ps0: PcState,
    t0: u64,
    m1: Memory,
    ps1: PcState,
    t1: u64,
) -> bool {
    let ret = wrap_add16(ps0.pc_reg, 2);
    let pushed_p = ps0.p_reg.with_b(true).with_x1(true).spec_value();
    let vec_lo = m0.spec_read_value(t0, 0xFFFE);
    let ma = m0.spec_after_read(0xFFFE);
    let vec_hi = ma.spec_read_value(t0, 0xFFFF);
    &&& t1 == t0 + 21
    &&& m1.stella == m0.stella
    &&& m1.cartridge == ma.spec_after_read(0xFFFF).cartridge
    &&& m1.riot.ram@ == m0.riot.ram@.update(
        crate::riot::Riot::ram_index((ps0.s_reg + 0x100) as u16),
        (ret / 256) as u8,
    ).update(
        crate::riot::Riot::ram_index((pc_state::wrap_add8(ps0.s_reg, -1) + 0x100) as u16),
        (ret % 256) as u8,
    ).update(
        crate::riot::Riot::ram_index((pc_state::wrap_add8(ps0.s_reg, -2) + 0x100) as u16),
        pushed_p,
    )
    &&& m1.riot.input == m0.riot.input
    &&& m1.riot.interval == m0.riot.interval
    &&& m1.riot.expiration_time == m0.riot.expiration_time
    &&& ps1.pc_reg == vec_lo + 256 * vec_hi
    &&& ps1.s_reg == pc_state::wrap_add8(ps0.s_reg, -3)
    &&& ps1.p_reg == ps0.p_reg.with_i(true)
    &&& ps1.a_reg == ps0.a_reg && ps1.x_reg == ps0.x_reg && ps1.y_reg == ps0.y_reg
}

/// What RTI does: the status byte and the interrupted address pulled; six
/// CPU cycles.
pub open spec fn rel_rti(
    m0: Memory,
    ps0: PcState,
    t0: u64,
    m1: Memory,
    ps1: PcState,
    t1: u64,
) -> bool {
    let p = m0.spec_read_value(
        (t0 + 6) as u64,
        (pc_state::wrap_add8(ps0.s_reg, 1) + 0x100) as u16,
    );
    let pcl = m0.spec_read_value(
        (t0 + 9) as u64,
        (pc_state::wrap_add8(ps0.s_reg, 2) + 0x100) as u16,
    );
    let pch = m0.spec_read_value(
        (t0 + 12) as u64,
        (pc_state::wrap_add8(ps0.s_reg, 3) + 0x100) as u16,
    );
    &&& t1 == t0 + 18
    &&& m1 == m0
    &&& ps1.pc_reg == pcl + 256 * pch
    &&& ps1.s_reg == pc_state::wrap_add8(ps0.s_reg, 3)
    &&& ps1.p_reg == pc_state::PcStatusFlagFields::spec_from_byte(p)
    &&& ps1.a_reg == ps0.a_reg && ps1.x_reg == ps0.x_reg && ps1.y_reg == ps0.y_reg
}

/// Runs one implied-mode instruction: read a register, operate, write a
/// register back. Two CPU cycles, six colour clocks, no memory traffic.
#[verifier::rlimit(100)]
pub fn single_byte_instruction(
    clock: &mut clocks::Clock,
    pc_state: &mut PcState,
    memory: &mut Memory,
    read: RegisterName,
    write: RegisterName,
    instruction: OpName,
)
    requires
        old(clock).ticks + 6 <= u64::MAX,
    ensures
        rel_single_byte(
            read,
            write,
            instruction,
            *old(memory),
            *old(pc_state),
            old(clock).ticks,
            *final(memory),
            *final(pc_state),
            final(clock).ticks,
        ),
{
    clock.increment(3);
    let data = read.value(pc_state);
    let result = operate(instruction, clock, pc_state, memory, data);
    write.store(pc_state, result);
    clock.increment(3);
    pc_state.increment_pc(1);
}

/// Runs one memory-mode instruction: compute the effective address, read
/// the operand, operate, write the result. The clock advances by the
/// mode's documented cost plus the read, write and page-cross penalties;
/// only the final data write can move it further (WSYNC).
#[verifier::rlimit(100)]
pub fn read_write_instruction_additional_delay(
    clock: &mut clocks::Clock,
    pc_state: &mut PcState,
    memory: &mut Memory,
    address: &addressing::Addressing,
    read: addressing::ReadData,
    write: addressing::WriteData,
    instruction: OpName,
    additional_delay: u8,
)
    requires
        old(memory).wf(),
        old(clock).ticks >= old(memory).stella.screen_start_clock,
        old(memory).stella.last_screen_update_clock <= old(clock).ticks + 1,
        old(memory).stella.tiasound.last_update_time <= old(clock).ticks,
        old(clock).ticks + 0x200000 <= u64::MAX,
        old(clock).ticks <= 0x0000_FFFF_FFFF_F000,
    ensures
        final(memory).wf(),
        rel_read_write(
            *address,
            read,
            write,
            instruction,
            additional_delay,
            *old(memory),
            *old(pc_state),
            old(clock).ticks,
            *final(memory),
            *final(pc_state),
            final(clock).ticks,
        ),
        final(clock).ticks >= old(clock).ticks,
        final(clock).ticks <= old(clock).ticks + 0x400,
        final(memory).stella.screen_start_clock <= final(clock).ticks,
        final(memory).stella.last_screen_update_clock <= final(clock).ticks + 1,
        final(memory).stella.tiasound.last_update_time <= final(clock).ticks,
{
    let addr = address.address16(clock, pc_state, memory);
    let mut execute_time: u8 = address.get_addressing_time();
    let value = read.read(clock, pc_state, memory, addr);
    execute_time = execute_time + read.get_reading_time();
    execute_time = execute_time + write.get_writing_time();
    let data = operate(instruction, clock, pc_state, memory, value);
    clock.increment(execute_time as u32);
    clock.increment(additional_delay as u32);
    write.write(clock, pc_state, memory, addr, data);
    let size = address.get_addressing_size();
    pc_state.increment_pc(size as i16 + 1);
}

/// As `read_write_instruction_additional_delay` with no extra delay.
#[verifier::rlimit(100)]
pub fn read_write_instruction(
    clock: &mut clocks::Clock,
    pc_state: &mut PcState,
    memory: &mut Memory,
    address: &addressing::Addressing,
    read: addressing::ReadData,
    write: addressing::WriteData,
    instruction: OpName,
)
    requires
        old(memory).wf(),
        old(clock).ticks >= old(memory).stella.screen_start_clock,
        old(memory).stella.last_screen_update_clock <= old(clock).ticks + 1,
        old(memory).stella.tiasound.last_update_time <= old(clock).ticks,
        old(clock).ticks + 0x200000 <= u64::MAX,
        old(clock).ticks <= 0x0000_FFFF_FFFF_F000,
    ensures
        final(memory).wf(),
        rel_read_write(
            *address,
            read,
            write,
            instruction,
            0,
            *old(memory),
            *old(pc_state),
            old(clock).ticks,
            *final(memory),
            *final(pc_state),
            final(clock).ticks,
        ),
        final(clock).ticks >= old(clock).ticks,
        final(clock).ticks <= old(clock).ticks + 0x400,
        final(memory).stella.screen_start_clock <= final(clock).ticks,
        final(memory).stella.last_screen_update_clock <= final(clock).ticks + 1,
        final(memory).stella.tiasound.last_update_time <= final(clock).ticks,
{
    read_write_instruction_additional_delay(
        clock,
        pc_state,
        memory,
        address,
        read,
        write,
        instruction,
        0,
    );
}

/// The signed reading of a relative branch offset byte.
pub open spec fn spec_branch_offset(delta: u8) -> int {
    if delta >= 0x80 {
        delta - 256
    } else {
        delta as int
    }
}

/// JSR: fetch the target low byte, push the address of the last operand
/// byte (high byte first) on the stack, fetch the high byte, jump. Six CPU
/// cycles.
#[verifier::rlimit(100)]
pub fn jump_sub_routine_instruction(clock: &mut clocks::Clock, pc_state: &mut PcState, memory: &mut Memory)
    requires
        old(memory).wf(),
        old(clock).ticks + 0x200000 <= u64::MAX,
    ensures
        final(memory).wf(),
        rel_jsr(
            *old(memory),
            *old(pc_state),
            old(clock).ticks,
            *final(memory),
            *final(pc_state),
            final(clock).ticks,
        ),
{
    clock.increment(3);
    pc_state.increment_pc(1);
    clock.increment(3);
    let adl = memory.read(clock, pc_state.get_pc());
    clock.increment(3);
    pc_state.increment_pc(1);
    let s0 = pc_state.get_s();
    let pch = pc_state.get_pch();
    memory.write_sp(clock, s0, pch);
    pc_state.increment_s(-1);
    clock.increment(3);
    let s1 = pc_state.get_s();
    let pcl = pc_state.get_pcl();
    memory.write_sp(clock, s1, pcl);
    pc_state.increment_s(-1);
    clock.increment(3);
    let adh = memory.read(clock, pc_state.get_pc());
    clock.increment(3);
    pc_state.set_pc(adl as u16 + (adh as u16) * 256);
}

/// RTS: pull the return address from the stack, low byte first, make a
/// dummy fetch there and resume one past it. Six CPU cycles.
#[verifier::rlimit(100)]
#[verifier::spinoff_prover]
pub fn return_from_sub_routine_instruction(
    clock: &mut clocks::Clock,
    pc_state: &mut PcState,
    memory: &mut Memory,
)
    requires
        old(memory).wf(),
        old(clock).ticks + 0x200000 <= u64::MAX,
    ensures
        final(memory).wf(),
        rel_rts(
            *old(memory),
            *old(pc_state),
            old(clock).ticks,
            *final(memory),
            *final(pc_state),
            final(clock).ticks,
        ),
{
    clock.increment(3);
    pc_state.increment_pc(1);
    clock.increment(3);
    clock.increment(3);
    pc_state.increment_s(1);
    let s1 = pc_state.get_s();
    let pcl = memory.read_sp(clock, s1);
    pc_state.set_pcl(pcl);
    clock.increment(3);
    pc_state.increment_s(1);
    let s2 = pc_state.get_s();
    proof {
        crate::memory::lemma_read_value_bank_independent(
            *old(memory),
            (pc_state::wrap_add8(old(pc_state).s_reg, 1) + 0x100) as u16,
            clock.ticks,
            (s2 + 0x100) as u16,
        );
    }
    let pch = memory.read_sp(clock, s2);
    pc_state.set_pch(pch);
    clock.increment(3);
    let pc = pc_state.get_pc();
    let _discard = memory.read(clock, pc);
    clock.increment(3);
    pc_state.increment_pc(1);
}

/// JMP: compute the target through the addressing mode and jump to it.
#[verifier::rlimit(100)]
pub fn jump_instruction(
    clock: &mut clocks::Clock,
    pc_state: &mut PcState,
    memory: &mut Memory,
    address: &addressing::Addressing,
)
    requires
        old(memory).wf(),
        old(clock).ticks + 0x200000 <= u64::MAX,
    ensures
        final(memory).wf(),
        rel_jump(
            *address,
            *old(memory),
            *old(pc_state),
            old(clock).ticks,
            *final(memory),
            *final(pc_state),
            final(clock).ticks,
        ),
{
    clock.increment(3);
    let addr = address.address16(clock, pc_state, memory);
    let execute_time = address.get_addressing_time();
    clock.increment(execute_time as u32);
    pc_state.set_pc(addr);
}

/// A conditional branch: two CPU cycles not taken, one more when taken,
/// and one more again when the taken branch crosses a page.
#[verifier::rlimit(100)]
#[verifier::spinoff_prover]
pub fn branch_instruction(
    clock: &mut clocks::Clock,
    pc_state: &mut PcState,
    memory: &mut Memory,
    condition_mask: u8,
    condition: u8,
)
    requires
        old(memory).wf(),
        old(clock).ticks + 0x200000 <= u64::MAX,
    ensures
        final(memory).wf(),
        rel_branch(
            condition_mask,
            condition,
            *old(memory),
            *old(pc_state),
            old(clock).ticks,
            *final(memory),
            *final(pc_state),
            final(clock).ticks,
        ),
{
    clock.increment(3);
    let p = pc_state.get_p();
    if (p & condition_mask) == condition {
        let ghost pc0 = pc_state.pc_reg;
        let delta = memory.read(clock, pc_state.get_pc().wrapping_add(1));
        let before = pc_state.get_pc().wrapping_add(2);
        if delta >= 0x80 {
            pc_state.increment_pc(delta as i16 - 256);
        } else {
            pc_state.increment_pc(delta as i16);
        }
        let after = pc_state.get_pc().wrapping_add(2);
        clock.increment(3);
        if did_page_differ(before, after) {
            clock.increment(3);
        }
    }
    pc_state.increment_pc(2);
    clock.increment(3);
}

/// Whether two addresses sit on different pages.
fn did_page_differ(a: u16, b: u16) -> (r: bool)
    ensures
        r == spec_crossed_page(a, b),
{
    (a / 256) != (b / 256)
}

/// PHA: push the accumulator. Three CPU cycles.
#[verifier::rlimit(100)]
pub fn pha_instruction(clock: &mut clocks::Clock, pc_state: &mut PcState, memory: &mut Memory)
    requires
        old(memory).wf(),
        old(clock).ticks + 0x200000 <= u64::MAX,
    ensures
        final(memory).wf(),
        rel_pha(
            *old(memory),
            *old(pc_state),
            old(clock).ticks,
            *final(memory),
            *final(pc_state),
            final(clock).ticks,
        ),
{
    clock.increment(3);
    pc_state.increment_pc(1);
    clock.increment(3);
    let s0 = pc_state.get_s();
    let a = pc_state.get_a();
    memory.write_sp(clock, s0, a);
    pc_state.increment_s(-1);
    clock.increment(3);
}

/// PLA: pull the accumulator, setting N and Z. Four CPU cycles.
#[verifier::rlimit(100)]
pub fn pla_instruction(clock: &mut clocks::Clock, pc_state: &mut PcState, memory: &mut Memory)
    requires
        old(memory).wf(),
        old(clock).ticks + 0x200000 <= u64::MAX,
    ensures
        final(memory).wf(),
        rel_pla(
            *old(memory),
            *old(pc_state),
            old(clock).ticks,
            *final(memory),
            *final(pc_state),
            final(clock).ticks,
        ),
{
    clock.increment(3);
    pc_state.increment_pc(1);
    clock.increment(3);
    let s0 = pc_state.get_s();
    let _discard = memory.read_sp(clock, s0);
    clock.increment(3);
    pc_state.increment_s(1);
    let s1 = pc_state.get_s();
    let v = memory.read_sp(clock, s1);
    pc_state.set_a(v);
    pc_state::set_status_nz(pc_state, v);
    clock.increment(3);
}

/// PHP: push the status byte with the B and X1 bits forced on, as the
/// hardware always presents them on the stack. Three CPU cycles.
#[verifier::rlimit(100)]
pub fn php_instruction(clock: &mut clocks::Clock, pc_state: &mut PcState, memory: &mut Memory)
    requires
        old(memory).wf(),
        old(clock).ticks + 0x200000 <= u64::MAX,
    ensures
        final(memory).wf(),
        rel_php(
            *old(memory),
            *old(pc_state),
            old(clock).ticks,
            *final(memory),
            *final(pc_state),
            final(clock).ticks,
        ),
{
    clock.increment(3);
    pc_state.increment_pc(1);
    clock.increment(3);
    let mut flags = pc_state.get_flags();
    flags.set_b(1);
    flags.set_x1(1);
    let v = flags.value();
    let s0 = pc_state.get_s();
    memory.write_sp(clock, s0, v);
    pc_state.increment_s(-1);
    clock.increment(3);
}

/// PLP: pull the status byte. Four CPU cycles.
#[verifier::rlimit(100)]
pub fn plp_instruction(clock: &mut clocks::Clock, pc_state: &mut PcState, memory: &mut Memory)
    requires
        old(memory).wf(),
        old(clock).ticks + 0x200000 <= u64::MAX,
    ensures
        final(memory).wf(),
        rel_plp(
            *old(memory),
            *old(pc_state),
            old(clock).ticks,
            *final(memory),
            *final(pc_state),
            final(clock).ticks,
        ),
{
    clock.increment(3);
    pc_state.increment_pc(1);
    clock.increment(3);
    let s0 = pc_state.get_s();
    let _discard = memory.read_sp(clock, s0);
    clock.increment(3);
    pc_state.increment_s(1);
    let s1 = pc_state.get_s();
    let v = memory.read_sp(clock, s1);
    pc_state.set_p(v);
    clock.increment(3);
}

/// BRK: push the address two past the opcode and the status byte with B
/// set, raise I, and jump through the vector at 0xFFFE. Seven CPU cycles.
#[verifier::rlimit(100)]
pub fn break_instruction(clock: &mut clocks::Clock, pc_state: &mut PcState, memory: &mut Memory)
    requires
        old(memory).wf(),
        old(clock).ticks + 0x200000 <= u64::MAX,
    ensures
        final(memory).wf(),
        rel_brk(
            *old(memory),
            *old(pc_state),
            old(clock).ticks,
            *final(memory),
            *final(pc_state),
            final(clock).ticks,
        ),
{
    clock.increment(3);
    pc_state.increment_pc(2);
    clock.increment(3);
    let s0 = pc_state.get_s();
    let pch = pc_state.get_pch();
    memory.write_sp(clock, s0, pch);
    pc_state.increment_s(-1);
    clock.increment(3);
    let s1 = pc_state.get_s();
    let pcl = pc_state.get_pcl();
    memory.write_sp(clock, s1, pcl);
    pc_state.increment_s(-1);
    clock.increment(3);
    let mut flags = pc_state.get_flags();
    flags.set_b(1);
    flags.set_x1(1);
    let v = flags.value();
    let s2 = pc_state.get_s();
    memory.write_sp(clock, s2, v);
    pc_state.increment_s(-1);
    pc_state.set_flag_i(true);
    clock.increment(3);
    let vector = memory.read16(clock, 0xFFFE);
    clock.increment(6);
    pc_state.set_pc(vector);
}

/// RTI: pull the status byte and the interrupted address from the stack.
/// Six CPU cycles.
#[verifier::rlimit(100)]
pub fn return_from_interrupt(clock: &mut clocks::Clock, pc_state: &mut PcState, memory: &mut Memory)
    requires
        old(memory).wf(),
        old(clock).ticks + 0x200000 <= u64::MAX,
    ensures
        final(memory).wf(),
        rel_rti(
            *old(memory),
            *old(pc_state),
            old(clock).ticks,
            *final(memory),
            *final(pc_state),
            final(clock).ticks,
        ),
{
    clock.increment(3);
    clock.increment(3);
    pc_state.increment_s(1);
    let s1 = pc_state.get_s();
    let p = memory.read_sp(clock, s1);
    pc_state.set_p(p);
    clock.increment(3);
    pc_state.increment_s(1);
    let s2 = pc_state.get_s();
    let pcl = memory.read_sp(clock, s2);
    pc_state.set_pcl(pcl);
    clock.increment(3);
    pc_state.increment_s(1);
    let s3 = pc_state.get_s();
    let pch = memory.read_sp(clock, s3);
    pc_state.set_pch(pch);
    clock.increment(3);
    clock.increment(3);
}

} // verus!
