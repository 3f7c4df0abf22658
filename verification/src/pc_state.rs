//! The 6507 register file: A, X, Y, S, PC and the packed status flags.

use vstd::prelude::*;

verus! {

/// The status register P, kept as individual flag bits.
/// Packed order (bit 7 down to bit 0): N V X1 B D I Z C.
#[derive(Clone, Copy, PartialEq, Eq, Structural)]
pub struct PcStatusFlagFields {
    pub c: bool,
    pub z: bool,
    pub i: bool,
    pub d: bool,
    pub b: bool,
    pub x1: bool,
    pub v: bool,
    pub n: bool,
}

pub open spec fn bit_u8(b: bool) -> u8 {
    if b {
        1
    } else {
        0
    }
}

impl PcStatusFlagFields {
    /// The packed byte value of the eight flags.
    pub open spec fn spec_value(self) -> u8 {
        (bit_u8(self.c) + 2 * bit_u8(self.z) + 4 * bit_u8(self.i) + 8 * bit_u8(self.d) + 16
            * bit_u8(self.b) + 32 * bit_u8(self.x1) + 64 * bit_u8(self.v) + 128 * bit_u8(
            self.n,
        )) as u8
    }

    pub open spec fn with_c(self, value: bool) -> Self {
        PcStatusFlagFields { c: value, ..self }
    }

    pub open spec fn with_z(self, value: bool) -> Self {
        PcStatusFlagFields { z: value, ..self }
    }

    pub open spec fn with_i(self, value: bool) -> Self {
        PcStatusFlagFields { i: value, ..self }
    }

    pub open spec fn with_d(self, value: bool) -> Self {
        PcStatusFlagFields { d: value, ..self }
    }

    pub open spec fn with_b(self, value: bool) -> Self {
        PcStatusFlagFields { b: value, ..self }
    }

    pub open spec fn with_x1(self, value: bool) -> Self {
        PcStatusFlagFields { x1: value, ..self }
    }

    pub open spec fn with_v(self, value: bool) -> Self {
        PcStatusFlagFields { v: value, ..self }
    }

    pub open spec fn with_n(self, value: bool) -> Self {
        PcStatusFlagFields { n: value, ..self }
    }

    /// Unpacks a byte into the eight flags.
    pub open spec fn spec_from_byte(value: u8) -> Self {
        PcStatusFlagFields {
            c: value % 2 == 1,
            z: (value / 2) % 2 == 1,
            i: (value / 4) % 2 == 1,
            d: (value / 8) % 2 == 1,
            b: (value / 16) % 2 == 1,
            x1: (value / 32) % 2 == 1,
            v: (value / 64) % 2 == 1,
            n: (value / 128) % 2 == 1,
        }
    }

    pub fn from_byte(value: u8) -> (r: Self)
        ensures
            r == Self::spec_from_byte(value),
    {
        PcStatusFlagFields {
            c: value % 2 == 1,
            z: (value / 2) % 2 == 1,
            i: (value / 4) % 2 == 1,
            d: (value / 8) % 2 == 1,
            b: (value / 16) % 2 == 1,
            x1: (value / 32) % 2 == 1,
            v: (value / 64) % 2 == 1,
            n: (value / 128) % 2 == 1,
        }
    }

    pub fn value(&self) -> (r: u8)
        ensures
            r == self.spec_value(),
    {
        bit(self.c) + 2 * bit(self.z) + 4 * bit(self.i) + 8 * bit(self.d) + 16 * bit(self.b) + 32
            * bit(self.x1) + 64 * bit(self.v) + 128 * bit(self.n)
    }

    pub fn get_c(&self) -> (r: u8)
        ensures
            r == bit_u8(self.c),
    {
        bit(self.c)
    }

    pub fn get_z(&self) -> (r: u8)
        ensures
            r == bit_u8(self.z),
    {
        bit(self.z)
    }

    pub fn get_i(&self) -> (r: u8)
        ensures
            r == bit_u8(self.i),
    {
        bit(self.i)
    }

    pub fn get_d(&self) -> (r: u8)
        ensures
            r == bit_u8(self.d),
    {
        bit(self.d)
    }

    pub fn get_b(&self) -> (r: u8)
        ensures
            r == bit_u8(self.b),
    {
        bit(self.b)
    }

    pub fn get_x1(&self) -> (r: u8)
        ensures
            r == bit_u8(self.x1),
    {
        bit(self.x1)
    }

    pub fn get_v(&self) -> (r: u8)
        ensures
            r == bit_u8(self.v),
    {
        bit(self.v)
    }

    pub fn get_n(&self) -> (r: u8)
        ensures
            r == bit_u8(self.n),
    {
        bit(self.n)
    }

    pub fn set_c(&mut self, value: u8)
        ensures
            *final(self) == old(self).with_c(value % 2 == 1),
    {
        self.c = value % 2 == 1;
    }

    pub fn set_z(&mut self, value: u8)
        ensures
            *final(self) == old(self).with_z(value % 2 == 1),
    {
        self.z = value % 2 == 1;
    }

    pub fn set_i(&mut self, value: u8)
        ensures
            *final(self) == old(self).with_i(value % 2 == 1),
    {
        self.i = value % 2 == 1;
    }

    pub fn set_d(&mut self, value: u8)
        ensures
            *final(self) == old(self).with_d(value % 2 == 1),
    {
        self.d = value % 2 == 1;
    }

    pub fn set_b(&mut self, value: u8)
        ensures
            *final(self) == old(self).with_b(value % 2 == 1),
    {
        self.b = value % 2 == 1;
    }

    pub fn set_x1(&mut self, value: u8)
        ensures
            *final(self) == old(self).with_x1(value % 2 == 1),
    {
        self.x1 = value % 2 == 1;
    }

    pub fn set_v(&mut self, value: u8)
        ensures
            *final(self) == old(self).with_v(value % 2 == 1),
    {
        self.v = value % 2 == 1;
    }

    pub fn set_n(&mut self, value: u8)
        ensures
            *final(self) == old(self).with_n(value % 2 == 1),
    {
        self.n = value % 2 == 1;
    }
}

fn bit(b: bool) -> (r: u8)
    ensures
        r == bit_u8(b),
{
    if b {
        1
    } else {
        0
    }
}

/// Writing a byte into the status register and reading it back returns
/// the byte: `set_p` then `get_p` is the identity, as a PLP after a PHP
/// relies on.
pub proof fn lemma_flags_pack_unpack(value: u8)
    ensures
        PcStatusFlagFields::spec_from_byte(value).spec_value() == value,
{
    assert(PcStatusFlagFields::spec_from_byte(value).spec_value() == value) by (bit_vector);
}

/// Reading the status byte and writing it back leaves every flag where it
/// was: `get_p` then `set_p` is the identity too.
pub proof fn lemma_flags_unpack_pack(f: PcStatusFlagFields)
    ensures
        PcStatusFlagFields::spec_from_byte(f.spec_value()) == f,
{
    let c = bit_u8(f.c);
    let z = bit_u8(f.z);
    let i = bit_u8(f.i);
    let d = bit_u8(f.d);
    let b = bit_u8(f.b);
    let x1 = bit_u8(f.x1);
    let v = bit_u8(f.v);
    let n = bit_u8(f.n);
    let value = f.spec_value();
    assert((value % 2 == 1 <==> c == 1) && ((value / 2) % 2 == 1 <==> z == 1) && ((value / 4) % 2
        == 1 <==> i == 1) && ((value / 8) % 2 == 1 <==> d == 1) && ((value / 16) % 2 == 1 <==> b
        == 1) && ((value / 32) % 2 == 1 <==> x1 == 1) && ((value / 64) % 2 == 1 <==> v == 1) && ((
    value / 128) % 2 == 1 <==> n == 1)) by (bit_vector)
        requires
            c <= 1 && z <= 1 && i <= 1 && d <= 1 && b <= 1 && x1 <= 1 && v <= 1 && n <= 1 && value
                == (c + 2 * z + 4 * i + 8 * d + 16 * b + 32 * x1 + 64 * v + 128 * n) as u8,
    ;
}

/// The full register file.
#[derive(Clone, Copy, PartialEq, Eq, Structural)]
pub struct PcState {
    pub a_reg: u8,
    pub x_reg: u8,
    pub y_reg: u8,
    pub pc_reg: u16,
    pub s_reg: u8,
    pub p_reg: PcStatusFlagFields,
}

impl PcState {
    pub open spec fn with_a(self, value: u8) -> Self {
        PcState { a_reg: value, ..self }
    }

    pub open spec fn with_x(self, value: u8) -> Self {
        PcState { x_reg: value, ..self }
    }

    pub open spec fn with_y(self, value: u8) -> Self {
        PcState { y_reg: value, ..self }
    }

    pub open spec fn with_pc(self, value: u16) -> Self {
        PcState { pc_reg: value, ..self }
    }

    pub open spec fn with_s(self, value: u8) -> Self {
        PcState { s_reg: value, ..self }
    }

    pub open spec fn with_flags(self, f: PcStatusFlagFields) -> Self {
        PcState { p_reg: f, ..self }
    }

    pub fn new() -> (r: Self)
        ensures
            r.a_reg == 0 && r.x_reg == 0 && r.y_reg == 0 && r.pc_reg == 0 && r.s_reg == 0,
            r.p_reg == PcStatusFlagFields::spec_from_byte(0),
    {
        Self {
            a_reg: 0,
            x_reg: 0,
            y_reg: 0,
            pc_reg: 0,
            s_reg: 0,
            p_reg: PcStatusFlagFields::from_byte(0),
        }
    }

    pub fn get_a(&self) -> (r: u8)
        ensures
            r == self.a_reg,
    {
        self.a_reg
    }

    pub fn get_x(&self) -> (r: u8)
        ensures
            r == self.x_reg,
    {
        self.x_reg
    }

    pub fn get_y(&self) -> (r: u8)
        ensures
            r == self.y_reg,
    {
        self.y_reg
    }

    pub fn get_pc(&self) -> (r: u16)
        ensures
            r == self.pc_reg,
    {
        self.pc_reg
    }

    /// High byte of the program counter.
    pub fn get_pch(&self) -> (r: u8)
        ensures
            r == self.pc_reg / 256,
    {
        (self.pc_reg / 256) as u8
    }

    /// Low byte of the program counter.
    pub fn get_pcl(&self) -> (r: u8)
        ensures
            r == self.pc_reg % 256,
    {
        (self.pc_reg % 256) as u8
    }

    pub fn get_s(&self) -> (r: u8)
        ensures
            r == self.s_reg,
    {
        self.s_reg
    }

    /// The packed status byte.
    pub fn get_p(&self) -> (r: u8)
        ensures
            r == self.p_reg.spec_value(),
    {
        self.p_reg.value()
    }

    pub fn get_flags(&self) -> (r: PcStatusFlagFields)
        ensures
            r == self.p_reg,
    {
        self.p_reg
    }

    pub fn get_flag_c(&self) -> (r: bool)
        ensures
            r == self.p_reg.c,
    {
        self.p_reg.c
    }

    pub fn get_flag_z(&self) -> (r: bool)
        ensures
            r == self.p_reg.z,
    {
        self.p_reg.z
    }

    pub fn get_flag_i(&self) -> (r: bool)
        ensures
            r == self.p_reg.i,
    {
        self.p_reg.i
    }

    pub fn get_flag_d(&self) -> (r: bool)
        ensures
            r == self.p_reg.d,
    {
        self.p_reg.d
    }

    pub fn get_flag_b(&self) -> (r: bool)
        ensures
            r == self.p_reg.b,
    {
        self.p_reg.b
    }

    pub fn get_flag_x1(&self) -> (r: bool)
        ensures
            r == self.p_reg.x1,
    {
        self.p_reg.x1
    }

    pub fn get_flag_v(&self) -> (r: bool)
        ensures
            r == self.p_reg.v,
    {
        self.p_reg.v
    }

    pub fn get_flag_n(&self) -> (r: bool)
        ensures
            r == self.p_reg.n,
    {
        self.p_reg.n
    }

    pub fn set_flag_c(&mut self, value: bool)
        ensures
            *final(self) == old(self).with_flags(old(self).p_reg.with_c(value)),
    {
        self.p_reg.c = value;
    }

    pub fn set_flag_z(&mut self, value: bool)
        ensures
            *final(self) == old(self).with_flags(old(self).p_reg.with_z(value)),
    {
        self.p_reg.z = value;
    }

    pub fn set_flag_i(&mut self, value: bool)
        ensures
            *final(self) == old(self).with_flags(old(self).p_reg.with_i(value)),
    {
        self.p_reg.i = value;
    }

    pub fn set_flag_d(&mut self, value: bool)
        ensures
            *final(self) == old(self).with_flags(old(self).p_reg.with_d(value)),
    {
        self.p_reg.d = value;
    }

    pub fn set_flag_b(&mut self, value: bool)
        ensures
            *final(self) == old(self).with_flags(old(self).p_reg.with_b(value)),
    {
        self.p_reg.b = value;
    }

    pub fn set_flag_x1(&mut self, value: bool)
        ensures
            *final(self) == old(self).with_flags(old(self).p_reg.with_x1(value)),
    {
        self.p_reg.x1 = value;
    }

    pub fn set_flag_v(&mut self, value: bool)
        ensures
            *final(self) == old(self).with_flags(old(self).p_reg.with_v(value)),
    {
        self.p_reg.v = value;
    }

    pub fn set_flag_n(&mut self, value: bool)
        ensures
            *final(self) == old(self).with_flags(old(self).p_reg.with_n(value)),
    {
        self.p_reg.n = value;
    }

    pub fn set_a(&mut self, input: u8)
        ensures
            *final(self) == old(self).with_a(input),
    {
        self.a_reg = input;
    }

    pub fn set_x(&mut self, input: u8)
        ensures
            *final(self) == old(self).with_x(input),
    {
        self.x_reg = input;
    }

    pub fn set_y(&mut self, input: u8)
        ensures
            *final(self) == old(self).with_y(input),
    {
        self.y_reg = input;
    }

    pub fn set_pc(&mut self, input: u16)
        ensures
            *final(self) == old(self).with_pc(input),
    {
        self.pc_reg = input;
    }

    /// Replaces the high byte of the program counter.
    pub fn set_pch(&mut self, input: u8)
        ensures
            *final(self) == old(self).with_pc((old(self).pc_reg % 256 + input * 256) as u16),
    {
        self.pc_reg = self.pc_reg % 256 + (input as u16) * 256;
    }

    /// Replaces the low byte of the program counter.
    pub fn set_pcl(&mut self, input: u8)
        ensures
            *final(self) == old(self).with_pc((old(self).pc_reg - old(self).pc_reg % 256
                + input) as u16),
    {
        self.pc_reg = self.pc_reg - self.pc_reg % 256 + input as u16;
    }

    pub fn set_s(&mut self, input: u8)
        ensures
            *final(self) == old(self).with_s(input),
    {
        self.s_reg = input;
    }

    /// Replaces the whole status byte.
    pub fn set_p(&mut self, input: u8)
        ensures
            *final(self) == old(self).with_flags(PcStatusFlagFields::spec_from_byte(input)),
    {
        self.p_reg = PcStatusFlagFields::from_byte(input);
    }

    /// Adds a signed delta to an 8-bit register, wrapping at 256.
    pub fn increment_reg8(register: &mut u8, increment: i8)
        ensures
            *final(register) == wrap_add8(*old(register), increment as int),
    {
        if increment >= 0 {
            *register = register.wrapping_add(increment as u8);
        } else {
            let mag: u8 = (-(increment as i16)) as u8;
            *register = register.wrapping_sub(mag);
        }
    }

    /// Adds a signed delta to a 16-bit register, wrapping at 65536.
    pub fn increment_reg(register: &mut u16, increment: i16)
        ensures
            *final(register) == wrap_add16(*old(register), increment as int),
    {
        if increment >= 0 {
            *register = register.wrapping_add(increment as u16);
        } else {
            let mag: u16 = (-(increment as i32)) as u16;
            *register = register.wrapping_sub(mag);
        }
    }

    pub fn increment_s(&mut self, increment: i8)
        ensures
            *final(self) == old(self).with_s(wrap_add8(old(self).s_reg, increment as int)),
    {
        Self::increment_reg8(&mut self.s_reg, increment);
    }

    pub fn increment_pc(&mut self, increment: i16)
        ensures
            *final(self) == old(self).with_pc(wrap_add16(old(self).pc_reg, increment as int)),
    {
        Self::increment_reg(&mut self.pc_reg, increment);
    }
}

/// 8-bit wrap-around addition of a signed delta.
pub open spec fn wrap_add8(base: u8, delta: int) -> u8 {
    (((base + delta) % 256 + 256) % 256) as u8
}

/// 16-bit wrap-around addition of a signed delta.
pub open spec fn wrap_add16(base: u16, delta: int) -> u16 {
    (((base + delta) % 0x10000 + 0x10000) % 0x10000) as u16
}

/// Sets N from bit 7 of `value` and Z from `value == 0`, as every
/// load/logic/shift operation does.
pub open spec fn spec_status_nz(f: PcStatusFlagFields, value: u8) -> PcStatusFlagFields {
    f.with_n(value >= 0x80).with_z(value == 0)
}

pub fn set_status_nz(pc_state: &mut PcState, value: u8)
    ensures
        *final(pc_state) == old(pc_state).with_flags(
            spec_status_nz(old(pc_state).p_reg, value),
        ),
{
    pc_state.set_flag_n(value >= 0x80);
    pc_state.set_flag_z(0x00 == value);
}

/// The character for one hex digit, upper case.
pub open spec fn spec_hex_digit(d: int) -> char {
    if d == 0 {
        '0'
    } else if d == 1 {
        '1'
    } else if d == 2 {
        '2'
    } else if d == 3 {
        '3'
    } else if d == 4 {
        '4'
    } else if d == 5 {
        '5'
    } else if d == 6 {
        '6'
    } else if d == 7 {
        '7'
    } else if d == 8 {
        '8'
    } else if d == 9 {
        '9'
    } else if d == 10 {
        'A'
    } else if d == 11 {
        'B'
    } else if d == 12 {
        'C'
    } else if d == 13 {
        'D'
    } else if d == 14 {
        'E'
    } else {
        'F'
    }
}

/// A value written in upper-case hex with no leading zeros (a bare 0 for 0).
pub open spec fn spec_hex_seq(v: int) -> Seq<char>
    decreases v,
{
    if v < 16 {
        seq![spec_hex_digit(v)]
    } else {
        spec_hex_seq(v / 16) + seq![spec_hex_digit(v % 16)]
    }
}

/// One hex digit as a string slice.
fn hex_digit_str(d: u16) -> (r: &'static str)
    requires
        d < 16,
    ensures
        r@ == seq![spec_hex_digit(d as int)],
{
    proof {
        reveal_strlit("0");
        reveal_strlit("1");
        reveal_strlit("2");
        reveal_strlit("3");
        reveal_strlit("4");
        reveal_strlit("5");
        reveal_strlit("6");
        reveal_strlit("7");
        reveal_strlit("8");
        reveal_strlit("9");
        reveal_strlit("A");
        reveal_strlit("B");
        reveal_strlit("C");
        reveal_strlit("D");
        reveal_strlit("E");
        reveal_strlit("F");
    }
    if d == 0 {
        "0"
    } else if d == 1 {
        "1"
    } else if d == 2 {
        "2"
    } else if d == 3 {
        "3"
    } else if d == 4 {
        "4"
    } else if d == 5 {
        "5"
    } else if d == 6 {
        "6"
    } else if d == 7 {
        "7"
    } else if d == 8 {
        "8"
    } else if d == 9 {
        "9"
    } else if d == 10 {
        "A"
    } else if d == 11 {
        "B"
    } else if d == 12 {
        "C"
    } else if d == 13 {
        "D"
    } else if d == 14 {
        "E"
    } else {
        "F"
    }
}

/// A 16-bit value written in upper-case hex with no leading zeros.
pub fn u16_hex_string(v: u16) -> (s: String)
    ensures
        s@ == spec_hex_seq(v as int),
    decreases v,
{
    if v < 16 {
        let mut s = String::new();
        s.append(hex_digit_str(v));
        proof {
            assert(s@ =~= spec_hex_seq(v as int));
        }
        s
    } else {
        let mut s = u16_hex_string(v / 16);
        s.append(hex_digit_str(v % 16));
        proof {
            assert(s@ =~= spec_hex_seq(v as int));
        }
        s
    }
}

/// A flag bit written as "0" or "1".
fn flag_digit_str(b: bool) -> (r: &'static str)
    ensures
        r@ == spec_flag_digit(b),
{
    proof {
        reveal_strlit("0");
        reveal_strlit("1");
    }
    if b {
        "1"
    } else {
        "0"
    }
}

pub open spec fn spec_flag_digit(b: bool) -> Seq<char> {
    if b {
        seq!['1']
    } else {
        seq!['0']
    }
}

impl PcStatusFlagFields {
    /// The flags written out for a trace line, in the source order
    /// `(C:_ Z:_ I:_ D:_ B:_ X1:_ V:_ N:_)`.
    pub open spec fn spec_display_seq(self) -> Seq<char> {
        "(C:"@ + spec_flag_digit(self.c) + " Z:"@ + spec_flag_digit(self.z) + " I:"@
            + spec_flag_digit(self.i) + " D:"@ + spec_flag_digit(self.d) + " B:"@
            + spec_flag_digit(self.b) + " X1:"@ + spec_flag_digit(self.x1) + " V:"@
            + spec_flag_digit(self.v) + " N:"@ + spec_flag_digit(self.n) + ")"@
    }

    pub fn display_string(&self) -> (s: String)
        ensures
            s@ == self.spec_display_seq(),
    {
        let mut s = String::new();
        s.append("(C:");
        s.append(flag_digit_str(self.c));
        s.append(" Z:");
        s.append(flag_digit_str(self.z));
        s.append(" I:");
        s.append(flag_digit_str(self.i));
        s.append(" D:");
        s.append(flag_digit_str(self.d));
        s.append(" B:");
        s.append(flag_digit_str(self.b));
        s.append(" X1:");
        s.append(flag_digit_str(self.x1));
        s.append(" V:");
        s.append(flag_digit_str(self.v));
        s.append(" N:");
        s.append(flag_digit_str(self.n));
        s.append(")");
        proof {
            assert(s@ =~= self.spec_display_seq());
        }
        s
    }
}

impl PcState {
    /// The register file written out for a trace line:
    /// `PC:<hex> X:<hex> Y:<hex> A:<hex> <flags>`.
    pub open spec fn spec_display_seq(self) -> Seq<char> {
        "PC:"@ + spec_hex_seq(self.pc_reg as int) + " X:"@ + spec_hex_seq(self.x_reg as int)
            + " Y:"@ + spec_hex_seq(self.y_reg as int) + " A:"@ + spec_hex_seq(self.a_reg as int)
            + " "@ + self.p_reg.spec_display_seq()
    }

    pub fn display_string(&self) -> (s: String)
        ensures
            s@ == self.spec_display_seq(),
    {
        let mut s = String::new();
        s.append("PC:");
        let pc = u16_hex_string(self.pc_reg);
        s.append(pc.as_str());
        s.append(" X:");
        let x = u16_hex_string(self.x_reg as u16);
        s.append(x.as_str());
        s.append(" Y:");
        let y = u16_hex_string(self.y_reg as u16);
        s.append(y.as_str());
        s.append(" A:");
        let a = u16_hex_string(self.a_reg as u16);
        s.append(a.as_str());
        s.append(" ");
        let flags = self.p_reg.display_string();
        s.append(flags.as_str());
        proof {
            assert(s@ =~= self.spec_display_seq());
        }
        s
    }
}

pub fn read_null(pc_state: &PcState) -> (r: u8)
    ensures
        r == 0,
{
    0
}

pub fn read_x(pc_state: &PcState) -> (r: u8)
    ensures
        r == pc_state.x_reg,
{
    pc_state.get_x()
}

pub fn read_y(pc_state: &PcState) -> (r: u8)
    ensures
        r == pc_state.y_reg,
{
    pc_state.get_y()
}

pub fn read_a(pc_state: &PcState) -> (r: u8)
    ensures
        r == pc_state.a_reg,
{
    pc_state.get_a()
}

pub fn read_s(pc_state: &PcState) -> (r: u8)
    ensures
        r == pc_state.s_reg,
{
    pc_state.get_s()
}

pub fn write_null(pc_state: &mut PcState, input: u8)
    ensures
        *final(pc_state) == *old(pc_state),
{
}

pub fn write_x(pc_state: &mut PcState, input: u8)
    ensures
        *final(pc_state) == old(pc_state).with_x(input),
{
    pc_state.set_x(input);
}

pub fn write_y(pc_state: &mut PcState, input: u8)
    ensures
        *final(pc_state) == old(pc_state).with_y(input),
{
    pc_state.set_y(input);
}

pub fn write_a(pc_state: &mut PcState, input: u8)
    ensures
        *final(pc_state) == old(pc_state).with_a(input),
{
    pc_state.set_a(input);
}

pub fn write_s(pc_state: &mut PcState, input: u8)
    ensures
        *final(pc_state) == old(pc_state).with_s(input),
{
    pc_state.set_s(input);
}

} // verus!
