//! The 256-entry opcode table and its dispatch: each opcode pairs an
//! operation with an addressing mode, or is one of the explicitly
//! sequenced control-flow instructions. Holes in the table run as
//! single-byte no-ops, so the core continues past them.

use crate::addressing::Addressing;
use crate::addressing::ReadData;
use crate::addressing::WriteData;
use crate::clocks;
use crate::instruction_set;
use crate::instruction_set::OpName;
use crate::instruction_set::RegisterName;
use crate::memory::Memory;
use crate::pc_state::PcState;
use crate::ports;
use vstd::prelude::*;

verus! {

/// The conditions a stepping CPU must uphold between instructions: the
/// devices well-formed and the clock inside the span every contract admits.
#[verifier::opaque]
pub open spec fn step_ok(m: Memory, t: u64) -> bool {
    &&& m.wf()
    &&& t >= m.stella.screen_start_clock
    &&& m.stella.last_screen_update_clock <= t + 1
    &&& m.stella.tiasound.last_update_time <= t
}

/// One record of the opcode table: an operation over an addressing mode
/// with its operand source, result sink and extra delay, or one of the
/// specially sequenced instructions.
pub enum TableEntry {
    Rw(Addressing, ReadData, WriteData, OpName, u8),
    Imp(RegisterName, RegisterName, OpName),
    Branch(u8, u8),
    Jsr,
    Rts,
    JmpAbs,
    JmpInd,
    Pha,
    Pla,
    Php,
    Plp,
    Brk,
    Rti,
}

/// The opcode table itself, row by `op_code & 0xF8` and column by
/// `op_code & 0x07`: every documented opcode and the implemented illegal
/// ones (DCP, ISC, SLO, LAX, SAX); the undocumented holes are single-byte
/// no-ops, so the core continues past them.
pub open spec fn spec_decode(op_code: u8) -> TableEntry {
    let col = op_code % 8;
    let row = op_code - col;
    if row == 0x00 {
        if col == 0 {
            TableEntry::Brk
        } else if col == 1 {
            TableEntry::Rw(Addressing::Izx, ReadData::MemoryRead, WriteData::MemoryNull, OpName::Or, 0)
        } else if col == 3 {
            TableEntry::Rw(Addressing::Izx, ReadData::MemoryRead, WriteData::MemoryWrite, OpName::Slo, 0)
        } else if col == 4 {
            TableEntry::Rw(Addressing::Zp, ReadData::MemoryRead, WriteData::MemoryNull, OpName::Nop, 0)
        } else if col == 5 {
            TableEntry::Rw(Addressing::Zp, ReadData::MemoryRead, WriteData::MemoryNull, OpName::Or, 0)
        } else if col == 6 {
            TableEntry::Rw(Addressing::Zp, ReadData::MemoryRead, WriteData::MemoryWrite, OpName::Asl, 0)
        } else if col == 7 {
            TableEntry::Rw(Addressing::Zp, ReadData::MemoryRead, WriteData::MemoryWrite, OpName::Slo, 0)
        } else {
            TableEntry::Imp(RegisterName::N, RegisterName::N, OpName::Nop)
        }
    } else if row == 0x08 {
        if col == 0 {
            TableEntry::Php
        } else if col == 1 {
            TableEntry::Rw(Addressing::Imm, ReadData::MemoryRead, WriteData::MemoryNull, OpName::Or, 0)
        } else if col == 2 {
            TableEntry::Imp(RegisterName::A, RegisterName::A, OpName::Asl)
        } else if col == 4 {
            TableEntry::Rw(Addressing::Abs, ReadData::MemoryRead, WriteData::MemoryNull, OpName::Nop, 0)
        } else if col == 5 {
            TableEntry::Rw(Addressing::Abs, ReadData::MemoryRead, WriteData::MemoryNull, OpName::Or, 0)
        } else if col == 6 {
            TableEntry::Rw(Addressing::Abs, ReadData::MemoryRead, WriteData::MemoryWrite, OpName::Asl, 0)
        } else if col == 7 {
            TableEntry::Rw(Addressing::Abs, ReadData::MemoryRead, WriteData::MemoryWrite, OpName::Slo, 0)
        } else {
            TableEntry::Imp(RegisterName::N, RegisterName::N, OpName::Nop)
        }
    } else if row == 0x10 {
        if col == 0 {
            TableEntry::Branch(0x80, 0x00)
        } else if col == 1 {
            TableEntry::Rw(Addressing::IZYPageDelay, ReadData::MemoryRead, WriteData::MemoryNull, OpName::Or, 0)
        } else if col == 3 {
            TableEntry::Rw(Addressing::Izy, ReadData::MemoryRead, WriteData::MemoryWrite, OpName::Slo, 0)
        } else if col == 4 {
            TableEntry::Rw(Addressing::Zpx, ReadData::MemoryRead, WriteData::MemoryNull, OpName::Nop, 0)
        } else if col == 5 {
            TableEntry::Rw(Addressing::Zpx, ReadData::MemoryRead, WriteData::MemoryNull, OpName::Or, 0)
        } else if col == 6 {
            TableEntry::Rw(Addressing::Zpx, ReadData::MemoryRead, WriteData::MemoryWrite, OpName::Asl, 0)
        } else if col == 7 {
            TableEntry::Rw(Addressing::Zpx, ReadData::MemoryRead, WriteData::MemoryWrite, OpName::Slo, 0)
        } else {
            TableEntry::Imp(RegisterName::N, RegisterName::N, OpName::Nop)
        }
    } else if row == 0x18 {
        if col == 0 {
            TableEntry::Imp(RegisterName::N, RegisterName::N, OpName::Clc)
        } else if col == 1 {
            TableEntry::Rw(Addressing::AbyPageDelay, ReadData::MemoryRead, WriteData::MemoryNull, OpName::Or, 0)
        } else if col == 2 {
            TableEntry::Imp(RegisterName::N, RegisterName::N, OpName::Nop)
        } else if col == 3 {
            TableEntry::Rw(Addressing::Aby, ReadData::MemoryRead, WriteData::MemoryWrite, OpName::Slo, 0)
        } else if col == 4 {
            TableEntry::Rw(Addressing::Abx, ReadData::MemoryRead, WriteData::MemoryNull, OpName::Nop, 0)
        } else if col == 5 {
            TableEntry::Rw(Addressing::AbxPageDelay, ReadData::MemoryRead, WriteData::MemoryNull, OpName::Or, 0)
        } else if col == 6 {
            TableEntry::Rw(Addressing::AbxPageDelay, ReadData::MemoryRead, WriteData::MemoryWrite, OpName::Asl, 0)
        } else if col == 7 {
            TableEntry::Rw(Addressing::Abx, ReadData::MemoryRead, WriteData::MemoryWrite, OpName::Slo, 0)
        } else {
            TableEntry::Imp(RegisterName::N, RegisterName::N, OpName::Nop)
        }
    } else if row == 0x20 {
        if col == 0 {
            TableEntry::Jsr
        } else if col == 1 {
            TableEntry::Rw(Addressing::Izx, ReadData::MemoryRead, WriteData::MemoryNull, OpName::And, 0)
        } else if col == 4 {
            TableEntry::Rw(Addressing::Zp, ReadData::MemoryRead, WriteData::MemoryNull, OpName::Bit, 0)
        } else if col == 5 {
            TableEntry::Rw(Addressing::Zp, ReadData::MemoryRead, WriteData::MemoryNull, OpName::And, 0)
        } else if col == 6 {
            TableEntry::Rw(Addressing::Zp, ReadData::MemoryRead, WriteData::MemoryWrite, OpName::Rol, 0)
        } else {
            TableEntry::Imp(RegisterName::N, RegisterName::N, OpName::Nop)
        }
    } else if row == 0x28 {
        if col == 0 {
            TableEntry::Plp
        } else if col == 1 {
            TableEntry::Rw(Addressing::Imm, ReadData::MemoryRead, WriteData::MemoryNull, OpName::And, 0)
        } else if col == 2 {
            TableEntry::Rw(Addressing::Accumulator, ReadData::AccumulatorRead, WriteData::AccumulatorWrite, OpName::Rol, 0)
        } else if col == 4 {
            TableEntry::Rw(Addressing::Abs, ReadData::MemoryRead, WriteData::MemoryNull, OpName::Bit, 0)
        } else if col == 5 {
            TableEntry::Rw(Addressing::Abs, ReadData::MemoryRead, WriteData::MemoryNull, OpName::And, 0)
        } else if col == 6 {
            TableEntry::Rw(Addressing::Abs, ReadData::MemoryRead, WriteData::MemoryWrite, OpName::Rol, 0)
        } else {
            TableEntry::Imp(RegisterName::N, RegisterName::N, OpName::Nop)
        }
    } else if row == 0x30 {
        if col == 0 {
            TableEntry::Branch(0x80, 0x80)
        } else if col == 1 {
            TableEntry::Rw(Addressing::IZYPageDelay, ReadData::MemoryRead, WriteData::MemoryNull, OpName::And, 0)
        } else if col == 4 {
            TableEntry::Rw(Addressing::Zpx, ReadData::MemoryRead, WriteData::MemoryNull, OpName::Nop, 0)
        } else if col == 5 {
            TableEntry::Rw(Addressing::Zpx, ReadData::MemoryRead, WriteData::MemoryNull, OpName::And, 0)
        } else if col == 6 {
            TableEntry::Rw(Addressing::Zpx, ReadData::MemoryRead, WriteData::MemoryWrite, OpName::Rol, 0)
        } else {
            TableEntry::Imp(RegisterName::N, RegisterName::N, OpName::Nop)
        }
    } else if row == 0x38 {
        if col == 0 {
            TableEntry::Imp(RegisterName::N, RegisterName::N, OpName::Sec)
        } else if col == 1 {
            TableEntry::Rw(Addressing::AbyPageDelay, ReadData::MemoryRead, WriteData::MemoryNull, OpName::And, 0)
        } else if col == 2 {
            TableEntry::Imp(RegisterName::N, RegisterName::N, OpName::Nop)
        } else if col == 4 {
            TableEntry::Rw(Addressing::Abx, ReadData::MemoryRead, WriteData::MemoryNull, OpName::Nop, 0)
        } else if col == 5 {
            TableEntry::Rw(Addressing::AbxPageDelay, ReadData::MemoryRead, WriteData::MemoryNull, OpName::And, 0)
        } else if col == 6 {
            TableEntry::Rw(Addressing::Abx, ReadData::MemoryRead, WriteData::MemoryWrite, OpName::Rol, 0)
        } else {
            TableEntry::Imp(RegisterName::N, RegisterName::N, OpName::Nop)
        }
    } else if row == 0x40 {
        if col == 0 {
            TableEntry::Rti
        } else if col == 1 {
            TableEntry::Rw(Addressing::Izx, ReadData::MemoryRead, WriteData::MemoryNull, OpName::Eor, 0)
        } else if col == 4 {
            TableEntry::Rw(Addressing::Zp, ReadData::MemoryRead, WriteData::MemoryNull, OpName::Nop, 0)
        } else if col == 5 {
            TableEntry::Rw(Addressing::Zp, ReadData::MemoryRead, WriteData::MemoryNull, OpName::Eor, 0)
        } else if col == 6 {
            TableEntry::Rw(Addressing::Zp, ReadData::MemoryRead, WriteData::MemoryWrite, OpName::Lsr, 0)
        } else {
            TableEntry::Imp(RegisterName::N, RegisterName::N, OpName::Nop)
        }
    } else if row == 0x48 {
        if col == 0 {
            TableEntry::Pha
        } else if col == 1 {
            TableEntry::Rw(Addressing::Imm, ReadData::MemoryRead, WriteData::MemoryNull, OpName::Eor, 0)
        } else if col == 2 {
            TableEntry::Imp(RegisterName::A, RegisterName::A, OpName::Lsr)
        } else if col == 4 {
            TableEntry::JmpAbs
        } else if col == 5 {
            TableEntry::Rw(Addressing::Abs, ReadData::MemoryRead, WriteData::MemoryNull, OpName::Eor, 0)
        } else if col == 6 {
            TableEntry::Rw(Addressing::Abs, ReadData::MemoryRead, WriteData::MemoryWrite, OpName::Lsr, 0)
        } else {
            TableEntry::Imp(RegisterName::N, RegisterName::N, OpName::Nop)
        }
    } else if row == 0x50 {
        if col == 0 {
            TableEntry::Branch(0x40, 0x00)
        } else if col == 1 {
            TableEntry::Rw(Addressing::Izy, ReadData::MemoryRead, WriteData::MemoryNull, OpName::Eor, 0)
        } else if col == 4 {
            TableEntry::Rw(Addressing::Zpx, ReadData::MemoryRead, WriteData::MemoryNull, OpName::Nop, 0)
        } else if col == 5 {
            TableEntry::Rw(Addressing::Zpx, ReadData::MemoryRead, WriteData::MemoryNull, OpName::Eor, 0)
        } else if col == 6 {
            TableEntry::Rw(Addressing::Zpx, ReadData::MemoryRead, WriteData::MemoryWrite, OpName::Lsr, 0)
        } else {
            TableEntry::Imp(RegisterName::N, RegisterName::N, OpName::Nop)
        }
    } else if row == 0x58 {
        if col == 0 {
            TableEntry::Imp(RegisterName::N, RegisterName::N, OpName::Cli)
        } else if col == 1 {
            TableEntry::Rw(Addressing::Aby, ReadData::MemoryRead, WriteData::MemoryNull, OpName::Eor, 0)
        } else if col == 2 {
            TableEntry::Imp(RegisterName::N, RegisterName::N, OpName::Nop)
        } else if col == 4 {
            TableEntry::Rw(Addressing::Abx, ReadData::MemoryRead, WriteData::MemoryNull, OpName::Nop, 0)
        } else if col == 5 {
            TableEntry::Rw(Addressing::Abx, ReadData::MemoryRead, WriteData::MemoryNull, OpName::Eor, 0)
        } else if col == 6 {
            TableEntry::Rw(Addressing::AbxPageDelay, ReadData::MemoryRead, WriteData::MemoryWrite, OpName::Lsr, 0)
        } else {
            TableEntry::Imp(RegisterName::N, RegisterName::N, OpName::Nop)
        }
    } else if row == 0x60 {
        if col == 0 {
            TableEntry::Rts
        } else if col == 1 {
            TableEntry::Rw(Addressing::Izx, ReadData::MemoryRead, WriteData::MemoryNull, OpName::Adc, 0)
        } else if col == 4 {
            TableEntry::Rw(Addressing::Zp, ReadData::MemoryRead, WriteData::MemoryNull, OpName::Nop, 0)
        } else if col == 5 {
            TableEntry::Rw(Addressing::Zp, ReadData::MemoryRead, WriteData::MemoryNull, OpName::Adc, 0)
        } else if col == 6 {
            TableEntry::Rw(Addressing::Zp, ReadData::MemoryRead, WriteData::MemoryWrite, OpName::Ror, 0)
        } else {
            TableEntry::Imp(RegisterName::N, RegisterName::N, OpName::Nop)
        }
    } else if row == 0x68 {
        if col == 0 {
            TableEntry::Pla
        } else if col == 1 {
            TableEntry::Rw(Addressing::Imm, ReadData::MemoryRead, WriteData::MemoryNull, OpName::Adc, 0)
        } else if col == 2 {
            TableEntry::Rw(Addressing::Accumulator, ReadData::AccumulatorRead, WriteData::AccumulatorWrite, OpName::Ror, 0)
        } else if col == 4 {
            TableEntry::JmpInd
        } else if col == 5 {
            TableEntry::Rw(Addressing::Abs, ReadData::MemoryRead, WriteData::MemoryNull, OpName::Adc, 0)
        } else if col == 6 {
            TableEntry::Rw(Addressing::Abs, ReadData::MemoryRead, WriteData::MemoryWrite, OpName::Ror, 0)
        } else {
            TableEntry::Imp(RegisterName::N, RegisterName::N, OpName::Nop)
        }
    } else if row == 0x70 {
        if col == 0 {
            TableEntry::Branch(0x40, 0x40)
        } else if col == 1 {
            TableEntry::Rw(Addressing::IZYPageDelay, ReadData::MemoryRead, WriteData::MemoryNull, OpName::Adc, 0)
        } else if col == 4 {
            TableEntry::Rw(Addressing::Zpx, ReadData::MemoryRead, WriteData::MemoryNull, OpName::Nop, 0)
        } else if col == 5 {
            TableEntry::Rw(Addressing::Zpx, ReadData::MemoryRead, WriteData::MemoryNull, OpName::Adc, 0)
        } else if col == 6 {
            TableEntry::Rw(Addressing::Zpx, ReadData::MemoryRead, WriteData::MemoryWrite, OpName::Ror, 0)
        } else {
            TableEntry::Imp(RegisterName::N, RegisterName::N, OpName::Nop)
        }
    } else if row == 0x78 {
        if col == 0 {
            TableEntry::Imp(RegisterName::N, RegisterName::N, OpName::Sei)
        } else if col == 1 {
            TableEntry::Rw(Addressing::AbyPageDelay, ReadData::MemoryRead, WriteData::MemoryNull, OpName::Adc, 0)
        } else if col == 2 {
            TableEntry::Imp(RegisterName::N, RegisterName::N, OpName::Nop)
        } else if col == 4 {
            TableEntry::Rw(Addressing::Abx, ReadData::MemoryRead, WriteData::MemoryNull, OpName::Nop, 0)
        } else if col == 5 {
            TableEntry::Rw(Addressing::AbxPageDelay, ReadData::MemoryRead, WriteData::MemoryNull, OpName::Adc, 0)
        } else if col == 6 {
            TableEntry::Rw(Addressing::Abx, ReadData::MemoryRead, WriteData::MemoryWrite, OpName::Ror, 0)
        } else {
            TableEntry::Imp(RegisterName::N, RegisterName::N, OpName::Nop)
        }
    } else if row == 0x80 {
        if col == 0 {
            TableEntry::Rw(Addressing::Imm, ReadData::MemoryRead, WriteData::MemoryNull, OpName::Nop, 0)
        } else if col == 1 {
            TableEntry::Rw(Addressing::Izx, ReadData::NullRead, WriteData::RegisterWrite, OpName::Sta, 0)
        } else if col == 2 {
            TableEntry::Rw(Addressing::Imm, ReadData::MemoryRead, WriteData::MemoryNull, OpName::Nop, 0)
        } else if col == 3 {
            TableEntry::Rw(Addressing::Izx, ReadData::NullRead, WriteData::RegisterWrite, OpName::Sax, 0)
        } else if col == 4 {
            TableEntry::Rw(Addressing::Zp, ReadData::NullRead, WriteData::RegisterWrite, OpName::Sty, 0)
        } else if col == 5 {
            TableEntry::Rw(Addressing::Zp, ReadData::NullRead, WriteData::RegisterWrite, OpName::Sta, 0)
        } else if col == 6 {
            TableEntry::Rw(Addressing::Zp, ReadData::NullRead, WriteData::RegisterWrite, OpName::Stx, 0)
        } else {
            TableEntry::Rw(Addressing::Zp, ReadData::NullRead, WriteData::RegisterWrite, OpName::Sax, 0)
        }
    } else if row == 0x88 {
        if col == 0 {
            TableEntry::Imp(RegisterName::Y, RegisterName::Y, OpName::Dec)
        } else if col == 1 {
            TableEntry::Rw(Addressing::Imm, ReadData::MemoryRead, WriteData::MemoryNull, OpName::Nop, 0)
        } else if col == 2 {
            TableEntry::Imp(RegisterName::X, RegisterName::A, OpName::TStat)
        } else if col == 4 {
            TableEntry::Rw(Addressing::Abs, ReadData::NullRead, WriteData::RegisterWrite, OpName::Sty, 0)
        } else if col == 5 {
            TableEntry::Rw(Addressing::Abs, ReadData::NullRead, WriteData::RegisterWrite, OpName::Sta, 0)
        } else if col == 6 {
            TableEntry::Rw(Addressing::Abs, ReadData::NullRead, WriteData::RegisterWrite, OpName::Stx, 0)
        } else if col == 7 {
            TableEntry::Rw(Addressing::Abs, ReadData::NullRead, WriteData::RegisterWrite, OpName::Sax, 0)
        } else {
            TableEntry::Imp(RegisterName::N, RegisterName::N, OpName::Nop)
        }
    } else if row == 0x90 {
        if col == 0 {
            TableEntry::Branch(0x01, 0x00)
        } else if col == 1 {
            TableEntry::Rw(Addressing::Izy, ReadData::NullRead, WriteData::RegisterWrite, OpName::Sta, 0)
        } else if col == 4 {
            TableEntry::Rw(Addressing::Zpx, ReadData::NullRead, WriteData::RegisterWrite, OpName::Sty, 0)
        } else if col == 5 {
            TableEntry::Rw(Addressing::Zpx, ReadData::NullRead, WriteData::RegisterWrite, OpName::Sta, 0)
        } else if col == 6 {
            TableEntry::Rw(Addressing::Zpy, ReadData::NullRead, WriteData::RegisterWrite, OpName::Stx, 0)
        } else if col == 7 {
            TableEntry::Rw(Addressing::Zpy, ReadData::NullRead, WriteData::RegisterWrite, OpName::Sax, 0)
        } else {
            TableEntry::Imp(RegisterName::N, RegisterName::N, OpName::Nop)
        }
    } else if row == 0x98 {
        if col == 0 {
            TableEntry::Imp(RegisterName::Y, RegisterName::A, OpName::TStat)
        } else if col == 1 {
            TableEntry::Rw(Addressing::Aby, ReadData::NullRead, WriteData::RegisterWrite, OpName::Sta, 3)
        } else if col == 2 {
            TableEntry::Imp(RegisterName::X, RegisterName::S, OpName::TNoStat)
        } else if col == 5 {
            TableEntry::Rw(Addressing::Abx, ReadData::NullRead, WriteData::RegisterWrite, OpName::Sta, 3)
        } else {
            TableEntry::Imp(RegisterName::N, RegisterName::N, OpName::Nop)
        }
    } else if row == 0xA0 {
        if col == 0 {
            TableEntry::Rw(Addressing::Imm, ReadData::MemoryRead, WriteData::MemoryNull, OpName::Ldy, 0)
        } else if col == 1 {
            TableEntry::Rw(Addressing::Izx, ReadData::MemoryRead, WriteData::MemoryNull, OpName::Lda, 0)
        } else if col == 2 {
            TableEntry::Rw(Addressing::Imm, ReadData::MemoryRead, WriteData::MemoryNull, OpName::Ldx, 0)
        } else if col == 3 {
            TableEntry::Rw(Addressing::Izx, ReadData::MemoryRead, WriteData::MemoryNull, OpName::Lax, 0)
        } else if col == 4 {
            TableEntry::Rw(Addressing::Zp, ReadData::MemoryRead, WriteData::MemoryNull, OpName::Ldy, 0)
        } else if col == 5 {
            TableEntry::Rw(Addressing::Zp, ReadData::MemoryRead, WriteData::MemoryNull, OpName::Lda, 0)
        } else if col == 6 {
            TableEntry::Rw(Addressing::Zp, ReadData::MemoryRead, WriteData::MemoryNull, OpName::Ldx, 0)
        } else {
            TableEntry::Rw(Addressing::Zp, ReadData::MemoryRead, WriteData::MemoryNull, OpName::Lax, 0)
        }
    } else if row == 0xA8 {
        if col == 0 {
            TableEntry::Imp(RegisterName::A, RegisterName::Y, OpName::TStat)
        } else if col == 1 {
            TableEntry::Rw(Addressing::Imm, ReadData::MemoryRead, WriteData::MemoryNull, OpName::Lda, 0)
        } else if col == 2 {
            TableEntry::Imp(RegisterName::A, RegisterName::X, OpName::TStat)
        } else if col == 4 {
            TableEntry::Rw(Addressing::Abs, ReadData::MemoryRead, WriteData::MemoryNull, OpName::Ldy, 0)
        } else if col == 5 {
            TableEntry::Rw(Addressing::Abs, ReadData::MemoryRead, WriteData::MemoryNull, OpName::Lda, 0)
        } else if col == 6 {
            TableEntry::Rw(Addressing::Abs, ReadData::MemoryRead, WriteData::MemoryNull, OpName::Ldx, 0)
        } else {
            TableEntry::Rw(Addressing::Abs, ReadData::MemoryRead, WriteData::MemoryNull, OpName::Lax, 0)
        }
    } else if row == 0xB0 {
        if col == 0 {
            TableEntry::Branch(0x01, 0x01)
        } else if col == 1 {
            TableEntry::Rw(Addressing::IZYPageDelay, ReadData::MemoryRead, WriteData::MemoryNull, OpName::Lda, 0)
        } else if col == 3 {
            TableEntry::Rw(Addressing::Izy, ReadData::MemoryRead, WriteData::MemoryNull, OpName::Lax, 0)
        } else if col == 4 {
            TableEntry::Rw(Addressing::Zpx, ReadData::MemoryRead, WriteData::MemoryNull, OpName::Ldy, 0)
        } else if col == 5 {
            TableEntry::Rw(Addressing::Zpx, ReadData::MemoryRead, WriteData::MemoryNull, OpName::Lda, 0)
        } else if col == 6 {
            TableEntry::Rw(Addressing::Zpy, ReadData::MemoryRead, WriteData::MemoryNull, OpName::Ldx, 0)
        } else {
            TableEntry::Rw(Addressing::Zpy, ReadData::MemoryRead, WriteData::MemoryNull, OpName::Lax, 0)
        }
    } else if row == 0xB8 {
        if col == 0 {
            TableEntry::Imp(RegisterName::N, RegisterName::N, OpName::Clv)
        } else if col == 1 {
            TableEntry::Rw(Addressing::AbyPageDelay, ReadData::MemoryRead, WriteData::MemoryNull, OpName::Lda, 0)
        } else if col == 2 {
            TableEntry::Imp(RegisterName::S, RegisterName::X, OpName::TNoStat)
        } else if col == 4 {
            TableEntry::Rw(Addressing::AbxPageDelay, ReadData::MemoryRead, WriteData::MemoryNull, OpName::Ldy, 0)
        } else if col == 5 {
            TableEntry::Rw(Addressing::AbxPageDelay, ReadData::MemoryRead, WriteData::MemoryNull, OpName::Lda, 0)
        } else if col == 6 {
            TableEntry::Rw(Addressing::AbyPageDelay, ReadData::MemoryRead, WriteData::MemoryNull, OpName::Ldx, 0)
        } else {
            TableEntry::Rw(Addressing::Aby, ReadData::MemoryRead, WriteData::MemoryNull, OpName::Lax, 0)
        }
    } else if row == 0xC0 {
        if col == 0 {
            TableEntry::Rw(Addressing::Imm, ReadData::MemoryRead, WriteData::MemoryNull, OpName::Cpy, 0)
        } else if col == 1 {
            TableEntry::Rw(Addressing::Izx, ReadData::MemoryRead, WriteData::MemoryNull, OpName::Cmp, 0)
        } else if col == 2 {
            TableEntry::Rw(Addressing::Imm, ReadData::MemoryRead, WriteData::MemoryNull, OpName::Nop, 0)
        } else if col == 3 {
            TableEntry::Rw(Addressing::Izx, ReadData::MemoryRead, WriteData::MemoryNull, OpName::Dcp, 0)
        } else if col == 4 {
            TableEntry::Rw(Addressing::Zp, ReadData::MemoryRead, WriteData::MemoryNull, OpName::Cpy, 0)
        } else if col == 5 {
            TableEntry::Rw(Addressing::Zp, ReadData::MemoryRead, WriteData::MemoryNull, OpName::Cmp, 0)
        } else if col == 6 {
            TableEntry::Rw(Addressing::Zp, ReadData::MemoryRead, WriteData::MemoryWrite, OpName::Dec, 0)
        } else {
            TableEntry::Rw(Addressing::Zp, ReadData::MemoryRead, WriteData::MemoryNull, OpName::Dcp, 0)
        }
    } else if row == 0xC8 {
        if col == 0 {
            TableEntry::Imp(RegisterName::Y, RegisterName::Y, OpName::Inc)
        } else if col == 1 {
            TableEntry::Rw(Addressing::Imm, ReadData::MemoryRead, WriteData::MemoryNull, OpName::Cmp, 0)
        } else if col == 2 {
            TableEntry::Imp(RegisterName::X, RegisterName::X, OpName::Dec)
        } else if col == 4 {
            TableEntry::Rw(Addressing::Abs, ReadData::MemoryRead, WriteData::MemoryNull, OpName::Cpy, 0)
        } else if col == 5 {
            TableEntry::Rw(Addressing::Abs, ReadData::MemoryRead, WriteData::MemoryNull, OpName::Cmp, 0)
        } else if col == 6 {
            TableEntry::Rw(Addressing::Abs, ReadData::MemoryRead, WriteData::MemoryWrite, OpName::Dec, 0)
        } else if col == 7 {
            TableEntry::Rw(Addressing::Abs, ReadData::MemoryRead, WriteData::MemoryNull, OpName::Dcp, 0)
        } else {
            TableEntry::Imp(RegisterName::N, RegisterName::N, OpName::Nop)
        }
    } else if row == 0xD0 {
        if col == 0 {
            TableEntry::Branch(0x02, 0x00)
        } else if col == 1 {
            TableEntry::Rw(Addressing::IZYPageDelay, ReadData::MemoryRead, WriteData::MemoryNull, OpName::Cmp, 0)
        } else if col == 3 {
            TableEntry::Rw(Addressing::IZYPageDelay, ReadData::MemoryRead, WriteData::MemoryNull, OpName::Dcp, 0)
        } else if col == 4 {
            TableEntry::Rw(Addressing::Zpx, ReadData::MemoryRead, WriteData::MemoryNull, OpName::Nop, 0)
        } else if col == 5 {
            TableEntry::Rw(Addressing::Zpx, ReadData::MemoryRead, WriteData::MemoryNull, OpName::Cmp, 0)
        } else if col == 6 {
            TableEntry::Rw(Addressing::Zpx, ReadData::MemoryRead, WriteData::MemoryWrite, OpName::Dec, 0)
        } else {
            TableEntry::Rw(Addressing::Zpx, ReadData::MemoryRead, WriteData::MemoryNull, OpName::Dcp, 0)
        }
    } else if row == 0xD8 {
        if col == 0 {
            TableEntry::Imp(RegisterName::N, RegisterName::N, OpName::Cld)
        } else if col == 1 {
            TableEntry::Rw(Addressing::AbyPageDelay, ReadData::MemoryRead, WriteData::MemoryNull, OpName::Cmp, 0)
        } else if col == 2 {
            TableEntry::Imp(RegisterName::N, RegisterName::N, OpName::Nop)
        } else if col == 3 {
            TableEntry::Rw(Addressing::AbyPageDelay, ReadData::MemoryRead, WriteData::MemoryNull, OpName::Dcp, 0)
        } else if col == 4 {
            TableEntry::Rw(Addressing::Abx, ReadData::MemoryRead, WriteData::MemoryNull, OpName::Nop, 0)
        } else if col == 5 {
            TableEntry::Rw(Addressing::AbxPageDelay, ReadData::MemoryRead, WriteData::MemoryNull, OpName::Cmp, 0)
        } else if col == 6 {
            TableEntry::Rw(Addressing::AbxPageDelay, ReadData::MemoryRead, WriteData::MemoryWrite, OpName::Dec, 0)
        } else {
            TableEntry::Rw(Addressing::AbxPageDelay, ReadData::MemoryRead, WriteData::MemoryNull, OpName::Dcp, 0)
        }
    } else if row == 0xE0 {
        if col == 0 {
            TableEntry::Rw(Addressing::Imm, ReadData::MemoryRead, WriteData::MemoryNull, OpName::Cpx, 0)
        } else if col == 1 {
            TableEntry::Rw(Addressing::Izx, ReadData::MemoryRead, WriteData::MemoryNull, OpName::Sbc, 0)
        } else if col == 2 {
            TableEntry::Rw(Addressing::Imm, ReadData::MemoryRead, WriteData::MemoryNull, OpName::Nop, 0)
        } else if col == 3 {
            TableEntry::Rw(Addressing::Izx, ReadData::MemoryRead, WriteData::MemoryWrite, OpName::Isc, 0)
        } else if col == 4 {
            TableEntry::Rw(Addressing::Zp, ReadData::MemoryRead, WriteData::MemoryNull, OpName::Cpx, 0)
        } else if col == 5 {
            TableEntry::Rw(Addressing::Zp, ReadData::MemoryRead, WriteData::MemoryNull, OpName::Sbc, 0)
        } else if col == 6 {
            TableEntry::Rw(Addressing::Zp, ReadData::MemoryRead, WriteData::MemoryWrite, OpName::Inc, 0)
        } else {
            TableEntry::Rw(Addressing::Zp, ReadData::MemoryRead, WriteData::MemoryWrite, OpName::Isc, 0)
        }
    } else if row == 0xE8 {
        if col == 0 {
            TableEntry::Imp(RegisterName::X, RegisterName::X, OpName::Inc)
        } else if col == 1 {
            TableEntry::Rw(Addressing::Imm, ReadData::MemoryRead, WriteData::MemoryNull, OpName::Sbc, 0)
        } else if col == 2 {
            TableEntry::Imp(RegisterName::A, RegisterName::A, OpName::Nop)
        } else if col == 4 {
            TableEntry::Rw(Addressing::Abs, ReadData::MemoryRead, WriteData::MemoryNull, OpName::Cpx, 0)
        } else if col == 5 {
            TableEntry::Rw(Addressing::Abs, ReadData::MemoryRead, WriteData::MemoryNull, OpName::Sbc, 0)
        } else if col == 6 {
            TableEntry::Rw(Addressing::Abs, ReadData::MemoryRead, WriteData::MemoryWrite, OpName::Inc, 0)
        } else if col == 7 {
            TableEntry::Rw(Addressing::Abs, ReadData::MemoryRead, WriteData::MemoryWrite, OpName::Isc, 0)
        } else {
            TableEntry::Imp(RegisterName::N, RegisterName::N, OpName::Nop)
        }
    } else if row == 0xF0 {
        if col == 0 {
            TableEntry::Branch(0x02, 0x02)
        } else if col == 1 {
            TableEntry::Rw(Addressing::IZYPageDelay, ReadData::MemoryRead, WriteData::MemoryNull, OpName::Sbc, 0)
        } else if col == 3 {
            TableEntry::Rw(Addressing::Izy, ReadData::MemoryRead, WriteData::MemoryWrite, OpName::Isc, 0)
        } else if col == 4 {
            TableEntry::Rw(Addressing::Zpx, ReadData::MemoryRead, WriteData::MemoryNull, OpName::Nop, 0)
        } else if col == 5 {
            TableEntry::Rw(Addressing::Zpx, ReadData::MemoryRead, WriteData::MemoryNull, OpName::Sbc, 0)
        } else if col == 6 {
            TableEntry::Rw(Addressing::Zpx, ReadData::MemoryRead, WriteData::MemoryWrite, OpName::Inc, 0)
        } else {
            TableEntry::Rw(Addressing::Zpx, ReadData::MemoryRead, WriteData::MemoryWrite, OpName::Isc, 0)
        }
    } else {
        if col == 0 {
            TableEntry::Imp(RegisterName::N, RegisterName::N, OpName::Sed)
        } else if col == 1 {
            TableEntry::Rw(Addressing::AbyPageDelay, ReadData::MemoryRead, WriteData::MemoryNull, OpName::Sbc, 0)
        } else if col == 2 {
            TableEntry::Imp(RegisterName::N, RegisterName::N, OpName::Nop)
        } else if col == 3 {
            TableEntry::Rw(Addressing::Aby, ReadData::MemoryRead, WriteData::MemoryWrite, OpName::Isc, 0)
        } else if col == 4 {
            TableEntry::Rw(Addressing::Abx, ReadData::MemoryRead, WriteData::MemoryNull, OpName::Nop, 0)
        } else if col == 5 {
            TableEntry::Rw(Addressing::AbxPageDelay, ReadData::MemoryRead, WriteData::MemoryNull, OpName::Sbc, 0)
        } else if col == 6 {
            TableEntry::Rw(Addressing::AbxPageDelay, ReadData::MemoryRead, WriteData::MemoryWrite, OpName::Inc, 0)
        } else {
            TableEntry::Rw(Addressing::Abx, ReadData::MemoryRead, WriteData::MemoryWrite, OpName::Isc, 0)
        }
    }
    }

/// What executing one opcode does, as the table entry's relation between
/// the machine state before and after: registers, memory, and the clock
/// moved by the documented cycle count times three, plus the page-cross
/// penalty, plus whatever a data write to WSYNC/RSYNC adds.
pub open spec fn spec_execute_rel(
    op_code: u8,
    m0: Memory,
    ps0: PcState,
    t0: u64,
    m1: Memory,
    ps1: PcState,
    t1: u64,
) -> bool {
    match spec_decode(op_code) {
        TableEntry::Rw(a, r, w, o, d) => instruction_set::rel_read_write(
            a,
            r,
            w,
            o,
            d,
            m0,
            ps0,
            t0,
            m1,
            ps1,
            t1,
        ),
        TableEntry::Imp(r, w, o) => instruction_set::rel_single_byte(
            r,
            w,
            o,
            m0,
            ps0,
            t0,
            m1,
            ps1,
            t1,
        ),
        TableEntry::Branch(mask, cond) => instruction_set::rel_branch(
            mask,
            cond,
            m0,
            ps0,
            t0,
            m1,
            ps1,
            t1,
        ),
        TableEntry::Jsr => instruction_set::rel_jsr(m0, ps0, t0, m1, ps1, t1),
        TableEntry::Rts => instruction_set::rel_rts(m0, ps0, t0, m1, ps1, t1),
        TableEntry::JmpAbs => instruction_set::rel_jump(Addressing::Abs, m0, ps0, t0, m1, ps1, t1),
        TableEntry::JmpInd => instruction_set::rel_jump(
            Addressing::Indirect,
            m0,
            ps0,
            t0,
            m1,
            ps1,
            t1,
        ),
        TableEntry::Pha => instruction_set::rel_pha(m0, ps0, t0, m1, ps1, t1),
        TableEntry::Pla => instruction_set::rel_pla(m0, ps0, t0, m1, ps1, t1),
        TableEntry::Php => instruction_set::rel_php(m0, ps0, t0, m1, ps1, t1),
        TableEntry::Plp => instruction_set::rel_plp(m0, ps0, t0, m1, ps1, t1),
        TableEntry::Brk => instruction_set::rel_brk(m0, ps0, t0, m1, ps1, t1),
        TableEntry::Rti => instruction_set::rel_rti(m0, ps0, t0, m1, ps1, t1),
    }
}

#[verifier::rlimit(100)]
fn op_rw(
    clock: &mut clocks::Clock,
    pc_state: &mut PcState,
    memory: &mut Memory,
    address: Addressing,
    read: ReadData,
    write: WriteData,
    op: OpName,
    delay: u8,
)
    requires
        step_ok(*old(memory), old(clock).ticks),
        old(clock).ticks <= 0x0000_FFFF_FFFF_F000,
    ensures
        step_ok(*final(memory), final(clock).ticks),
        old(clock).ticks <= final(clock).ticks <= old(clock).ticks + 0x400,
        instruction_set::rel_read_write(
            address,
            read,
            write,
            op,
            delay,
            *old(memory),
            *old(pc_state),
            old(clock).ticks,
            *final(memory),
            *final(pc_state),
            final(clock).ticks,
        ),
{
    proof {
        reveal(step_ok);
    }
    instruction_set::read_write_instruction_additional_delay(
        clock,
        pc_state,
        memory,
        &address,
        read,
        write,
        op,
        delay,
    );
}

fn op_imp(
    clock: &mut clocks::Clock,
    pc_state: &mut PcState,
    memory: &mut Memory,
    read: RegisterName,
    write: RegisterName,
    op: OpName,
)
    requires
        step_ok(*old(memory), old(clock).ticks),
        old(clock).ticks <= 0x0000_FFFF_FFFF_F000,
    ensures
        step_ok(*final(memory), final(clock).ticks),
        old(clock).ticks <= final(clock).ticks <= old(clock).ticks + 0x400,
        instruction_set::rel_single_byte(
            read,
            write,
            op,
            *old(memory),
            *old(pc_state),
            old(clock).ticks,
            *final(memory),
            *final(pc_state),
            final(clock).ticks,
        ),
{
    proof {
        reveal(step_ok);
    }
    instruction_set::single_byte_instruction(clock, pc_state, memory, read, write, op);
}

#[verifier::rlimit(100)]
#[verifier::spinoff_prover]
fn op_branch(
    clock: &mut clocks::Clock,
    pc_state: &mut PcState,
    memory: &mut Memory,
    condition_mask: u8,
    condition: u8,
)
    requires
        step_ok(*old(memory), old(clock).ticks),
        old(clock).ticks <= 0x0000_FFFF_FFFF_F000,
    ensures
        step_ok(*final(memory), final(clock).ticks),
        old(clock).ticks <= final(clock).ticks <= old(clock).ticks + 0x400,
        instruction_set::rel_branch(
            condition_mask,
            condition,
            *old(memory),
            *old(pc_state),
            old(clock).ticks,
            *final(memory),
            *final(pc_state),
            final(clock).ticks,
        ),
{
    proof {
        reveal(step_ok);
    }
    instruction_set::branch_instruction(clock, pc_state, memory, condition_mask, condition);
}

#[verifier::rlimit(100)]
fn op_control(clock: &mut clocks::Clock, pc_state: &mut PcState, memory: &mut Memory, which: u8)
    requires
        step_ok(*old(memory), old(clock).ticks),
        old(clock).ticks <= 0x0000_FFFF_FFFF_F000,
        which < 9,
    ensures
        step_ok(*final(memory), final(clock).ticks),
        old(clock).ticks <= final(clock).ticks <= old(clock).ticks + 0x400,
        which == 0 ==> instruction_set::rel_brk(
            *old(memory),
            *old(pc_state),
            old(clock).ticks,
            *final(memory),
            *final(pc_state),
            final(clock).ticks,
        ),
        which == 1 ==> instruction_set::rel_php(
            *old(memory),
            *old(pc_state),
            old(clock).ticks,
            *final(memory),
            *final(pc_state),
            final(clock).ticks,
        ),
        which == 2 ==> instruction_set::rel_jsr(
            *old(memory),
            *old(pc_state),
            old(clock).ticks,
            *final(memory),
            *final(pc_state),
            final(clock).ticks,
        ),
        which == 3 ==> instruction_set::rel_plp(
            *old(memory),
            *old(pc_state),
            old(clock).ticks,
            *final(memory),
            *final(pc_state),
            final(clock).ticks,
        ),
        which == 4 ==> instruction_set::rel_rti(
            *old(memory),
            *old(pc_state),
            old(clock).ticks,
            *final(memory),
            *final(pc_state),
            final(clock).ticks,
        ),
        which == 5 ==> instruction_set::rel_pha(
            *old(memory),
            *old(pc_state),
            old(clock).ticks,
            *final(memory),
            *final(pc_state),
            final(clock).ticks,
        ),
        which == 6 ==> instruction_set::rel_rts(
            *old(memory),
            *old(pc_state),
            old(clock).ticks,
            *final(memory),
            *final(pc_state),
            final(clock).ticks,
        ),
        which == 7 ==> instruction_set::rel_pla(
            *old(memory),
            *old(pc_state),
            old(clock).ticks,
            *final(memory),
            *final(pc_state),
            final(clock).ticks,
        ),
        which == 8 ==> instruction_set::rel_jump(
            Addressing::Abs,
            *old(memory),
            *old(pc_state),
            old(clock).ticks,
            *final(memory),
            *final(pc_state),
            final(clock).ticks,
        ),
{
    proof {
        reveal(step_ok);
    }
    if which == 0 {
        instruction_set::break_instruction(clock, pc_state, memory);
    } else if which == 1 {
        instruction_set::php_instruction(clock, pc_state, memory);
    } else if which == 2 {
        instruction_set::jump_sub_routine_instruction(clock, pc_state, memory);
    } else if which == 3 {
        instruction_set::plp_instruction(clock, pc_state, memory);
    } else if which == 4 {
        instruction_set::return_from_interrupt(clock, pc_state, memory);
    } else if which == 5 {
        instruction_set::pha_instruction(clock, pc_state, memory);
    } else if which == 6 {
        instruction_set::return_from_sub_routine_instruction(clock, pc_state, memory);
    } else if which == 7 {
        instruction_set::pla_instruction(clock, pc_state, memory);
    } else {
        instruction_set::jump_instruction(clock, pc_state, memory, &Addressing::Abs);
    }
}

fn op_jmp_indirect(clock: &mut clocks::Clock, pc_state: &mut PcState, memory: &mut Memory)
    requires
        step_ok(*old(memory), old(clock).ticks),
        old(clock).ticks <= 0x0000_FFFF_FFFF_F000,
    ensures
        step_ok(*final(memory), final(clock).ticks),
        old(clock).ticks <= final(clock).ticks <= old(clock).ticks + 0x400,
        instruction_set::rel_jump(
            Addressing::Indirect,
            *old(memory),
            *old(pc_state),
            old(clock).ticks,
            *final(memory),
            *final(pc_state),
            final(clock).ticks,
        ),
{
    proof {
        reveal(step_ok);
    }
    instruction_set::jump_instruction(clock, pc_state, memory, &Addressing::Indirect);
}

pub struct Instruction {}

impl Instruction {
    #[verifier::rlimit(100)]
    #[verifier::spinoff_prover]
    fn decode_rows_0(op_code: u8) -> (r: TableEntry)
        requires
            op_code < 0x40,
        ensures
            r == spec_decode(op_code),
    {
        let col = op_code % 8;
        let row = op_code - col;
        if row == 0x00 {
            if col == 0 {
                TableEntry::Brk
            } else if col == 1 {
                TableEntry::Rw(Addressing::Izx, ReadData::MemoryRead, WriteData::MemoryNull, OpName::Or, 0)
            } else if col == 3 {
                TableEntry::Rw(Addressing::Izx, ReadData::MemoryRead, WriteData::MemoryWrite, OpName::Slo, 0)
            } else if col == 4 {
                TableEntry::Rw(Addressing::Zp, ReadData::MemoryRead, WriteData::MemoryNull, OpName::Nop, 0)
            } else if col == 5 {
                TableEntry::Rw(Addressing::Zp, ReadData::MemoryRead, WriteData::MemoryNull, OpName::Or, 0)
            } else if col == 6 {
                TableEntry::Rw(Addressing::Zp, ReadData::MemoryRead, WriteData::MemoryWrite, OpName::Asl, 0)
            } else if col == 7 {
                TableEntry::Rw(Addressing::Zp, ReadData::MemoryRead, WriteData::MemoryWrite, OpName::Slo, 0)
            } else {
                TableEntry::Imp(RegisterName::N, RegisterName::N, OpName::Nop)
            }
        } else if row == 0x08 {
            if col == 0 {
                TableEntry::Php
            } else if col == 1 {
                TableEntry::Rw(Addressing::Imm, ReadData::MemoryRead, WriteData::MemoryNull, OpName::Or, 0)
            } else if col == 2 {
                TableEntry::Imp(RegisterName::A, RegisterName::A, OpName::Asl)
            } else if col == 4 {
                TableEntry::Rw(Addressing::Abs, ReadData::MemoryRead, WriteData::MemoryNull, OpName::Nop, 0)
            } else if col == 5 {
                TableEntry::Rw(Addressing::Abs, ReadData::MemoryRead, WriteData::MemoryNull, OpName::Or, 0)
            } else if col == 6 {
                TableEntry::Rw(Addressing::Abs, ReadData::MemoryRead, WriteData::MemoryWrite, OpName::Asl, 0)
            } else if col == 7 {
                TableEntry::Rw(Addressing::Abs, ReadData::MemoryRead, WriteData::MemoryWrite, OpName::Slo, 0)
            } else {
                TableEntry::Imp(RegisterName::N, RegisterName::N, OpName::Nop)
            }
        } else if row == 0x10 {
            if col == 0 {
                TableEntry::Branch(0x80, 0x00)
            } else if col == 1 {
                TableEntry::Rw(Addressing::IZYPageDelay, ReadData::MemoryRead, WriteData::MemoryNull, OpName::Or, 0)
            } else if col == 3 {
                TableEntry::Rw(Addressing::Izy, ReadData::MemoryRead, WriteData::MemoryWrite, OpName::Slo, 0)
            } else if col == 4 {
                TableEntry::Rw(Addressing::Zpx, ReadData::MemoryRead, WriteData::MemoryNull, OpName::Nop, 0)
            } else if col == 5 {
                TableEntry::Rw(Addressing::Zpx, ReadData::MemoryRead, WriteData::MemoryNull, OpName::Or, 0)
            } else if col == 6 {
                TableEntry::Rw(Addressing::Zpx, ReadData::MemoryRead, WriteData::MemoryWrite, OpName::Asl, 0)
            } else if col == 7 {
                TableEntry::Rw(Addressing::Zpx, ReadData::MemoryRead, WriteData::MemoryWrite, OpName::Slo, 0)
            } else {
                TableEntry::Imp(RegisterName::N, RegisterName::N, OpName::Nop)
            }
        } else if row == 0x18 {
            if col == 0 {
                TableEntry::Imp(RegisterName::N, RegisterName::N, OpName::Clc)
            } else if col == 1 {
                TableEntry::Rw(Addressing::AbyPageDelay, ReadData::MemoryRead, WriteData::MemoryNull, OpName::Or, 0)
            } else if col == 2 {
                TableEntry::Imp(RegisterName::N, RegisterName::N, OpName::Nop)
            } else if col == 3 {
                TableEntry::Rw(Addressing::Aby, ReadData::MemoryRead, WriteData::MemoryWrite, OpName::Slo, 0)
            } else if col == 4 {
                TableEntry::Rw(Addressing::Abx, ReadData::MemoryRead, WriteData::MemoryNull, OpName::Nop, 0)
            } else if col == 5 {
                TableEntry::Rw(Addressing::AbxPageDelay, ReadData::MemoryRead, WriteData::MemoryNull, OpName::Or, 0)
            } else if col == 6 {
                TableEntry::Rw(Addressing::AbxPageDelay, ReadData::MemoryRead, WriteData::MemoryWrite, OpName::Asl, 0)
            } else if col == 7 {
                TableEntry::Rw(Addressing::Abx, ReadData::MemoryRead, WriteData::MemoryWrite, OpName::Slo, 0)
            } else {
                TableEntry::Imp(RegisterName::N, RegisterName::N, OpName::Nop)
            }
        } else if row == 0x20 {
            if col == 0 {
                TableEntry::Jsr
            } else if col == 1 {
                TableEntry::Rw(Addressing::Izx, ReadData::MemoryRead, WriteData::MemoryNull, OpName::And, 0)
            } else if col == 4 {
                TableEntry::Rw(Addressing::Zp, ReadData::MemoryRead, WriteData::MemoryNull, OpName::Bit, 0)
            } else if col == 5 {
                TableEntry::Rw(Addressing::Zp, ReadData::MemoryRead, WriteData::MemoryNull, OpName::And, 0)
            } else if col == 6 {
                TableEntry::Rw(Addressing::Zp, ReadData::MemoryRead, WriteData::MemoryWrite, OpName::Rol, 0)
            } else {
                TableEntry::Imp(RegisterName::N, RegisterName::N, OpName::Nop)
            }
        } else if row == 0x28 {
            if col == 0 {
                TableEntry::Plp
            } else if col == 1 {
                TableEntry::Rw(Addressing::Imm, ReadData::MemoryRead, WriteData::MemoryNull, OpName::And, 0)
            } else if col == 2 {
                TableEntry::Rw(Addressing::Accumulator, ReadData::AccumulatorRead, WriteData::AccumulatorWrite, OpName::Rol, 0)
            } else if col == 4 {
                TableEntry::Rw(Addressing::Abs, ReadData::MemoryRead, WriteData::MemoryNull, OpName::Bit, 0)
            } else if col == 5 {
                TableEntry::Rw(Addressing::Abs, ReadData::MemoryRead, WriteData::MemoryNull, OpName::And, 0)
            } else if col == 6 {
                TableEntry::Rw(Addressing::Abs, ReadData::MemoryRead, WriteData::MemoryWrite, OpName::Rol, 0)
            } else {
                TableEntry::Imp(RegisterName::N, RegisterName::N, OpName::Nop)
            }
        } else if row == 0x30 {
            if col == 0 {
                TableEntry::Branch(0x80, 0x80)
            } else if col == 1 {
                TableEntry::Rw(Addressing::IZYPageDelay, ReadData::MemoryRead, WriteData::MemoryNull, OpName::And, 0)
            } else if col == 4 {
                TableEntry::Rw(Addressing::Zpx, ReadData::MemoryRead, WriteData::MemoryNull, OpName::Nop, 0)
            } else if col == 5 {
                TableEntry::Rw(Addressing::Zpx, ReadData::MemoryRead, WriteData::MemoryNull, OpName::And, 0)
            } else if col == 6 {
                TableEntry::Rw(Addressing::Zpx, ReadData::MemoryRead, WriteData::MemoryWrite, OpName::Rol, 0)
            } else {
                TableEntry::Imp(RegisterName::N, RegisterName::N, OpName::Nop)
            }
        } else if row == 0x38 {
            if col == 0 {
                TableEntry::Imp(RegisterName::N, RegisterName::N, OpName::Sec)
            } else if col == 1 {
                TableEntry::Rw(Addressing::AbyPageDelay, ReadData::MemoryRead, WriteData::MemoryNull, OpName::And, 0)
            } else if col == 2 {
                TableEntry::Imp(RegisterName::N, RegisterName::N, OpName::Nop)
            } else if col == 4 {
                TableEntry::Rw(Addressing::Abx, ReadData::MemoryRead, WriteData::MemoryNull, OpName::Nop, 0)
            } else if col == 5 {
                TableEntry::Rw(Addressing::AbxPageDelay, ReadData::MemoryRead, WriteData::MemoryNull, OpName::And, 0)
            } else if col == 6 {
                TableEntry::Rw(Addressing::Abx, ReadData::MemoryRead, WriteData::MemoryWrite, OpName::Rol, 0)
            } else {
                TableEntry::Imp(RegisterName::N, RegisterName::N, OpName::Nop)
            }
        } else {
            TableEntry::Imp(RegisterName::N, RegisterName::N, OpName::Nop)
        }
    }
    #[verifier::rlimit(100)]
    #[verifier::spinoff_prover]
    fn decode_rows_1(op_code: u8) -> (r: TableEntry)
        requires
            0x40 <= op_code < 0x80,
        ensures
            r == spec_decode(op_code),
    {
        let col = op_code % 8;
        let row = op_code - col;
        if row == 0x40 {
            if col == 0 {
                TableEntry::Rti
            } else if col == 1 {
                TableEntry::Rw(Addressing::Izx, ReadData::MemoryRead, WriteData::MemoryNull, OpName::Eor, 0)
            } else if col == 4 {
                TableEntry::Rw(Addressing::Zp, ReadData::MemoryRead, WriteData::MemoryNull, OpName::Nop, 0)
            } else if col == 5 {
                TableEntry::Rw(Addressing::Zp, ReadData::MemoryRead, WriteData::MemoryNull, OpName::Eor, 0)
            } else if col == 6 {
                TableEntry::Rw(Addressing::Zp, ReadData::MemoryRead, WriteData::MemoryWrite, OpName::Lsr, 0)
            } else {
                TableEntry::Imp(RegisterName::N, RegisterName::N, OpName::Nop)
            }
        } else if row == 0x48 {
            if col == 0 {
                TableEntry::Pha
            } else if col == 1 {
                TableEntry::Rw(Addressing::Imm, ReadData::MemoryRead, WriteData::MemoryNull, OpName::Eor, 0)
            } else if col == 2 {
                TableEntry::Imp(RegisterName::A, RegisterName::A, OpName::Lsr)
            } else if col == 4 {
                TableEntry::JmpAbs
            } else if col == 5 {
                TableEntry::Rw(Addressing::Abs, ReadData::MemoryRead, WriteData::MemoryNull, OpName::Eor, 0)
            } else if col == 6 {
                TableEntry::Rw(Addressing::Abs, ReadData::MemoryRead, WriteData::MemoryWrite, OpName::Lsr, 0)
            } else {
                TableEntry::Imp(RegisterName::N, RegisterName::N, OpName::Nop)
            }
        } else if row == 0x50 {
            if col == 0 {
                TableEntry::Branch(0x40, 0x00)
            } else if col == 1 {
                TableEntry::Rw(Addressing::Izy, ReadData::MemoryRead, WriteData::MemoryNull, OpName::Eor, 0)
            } else if col == 4 {
                TableEntry::Rw(Addressing::Zpx, ReadData::MemoryRead, WriteData::MemoryNull, OpName::Nop, 0)
            } else if col == 5 {
                TableEntry::Rw(Addressing::Zpx, ReadData::MemoryRead, WriteData::MemoryNull, OpName::Eor, 0)
            } else if col == 6 {
                TableEntry::Rw(Addressing::Zpx, ReadData::MemoryRead, WriteData::MemoryWrite, OpName::Lsr, 0)
            } else {
                TableEntry::Imp(RegisterName::N, RegisterName::N, OpName::Nop)
            }
        } else if row == 0x58 {
            if col == 0 {
                TableEntry::Imp(RegisterName::N, RegisterName::N, OpName::Cli)
            } else if col == 1 {
                TableEntry::Rw(Addressing::Aby, ReadData::MemoryRead, WriteData::MemoryNull, OpName::Eor, 0)
            } else if col == 2 {
                TableEntry::Imp(RegisterName::N, RegisterName::N, OpName::Nop)
            } else if col == 4 {
                TableEntry::Rw(Addressing::Abx, ReadData::MemoryRead, WriteData::MemoryNull, OpName::Nop, 0)
            } else if col == 5 {
                TableEntry::Rw(Addressing::Abx, ReadData::MemoryRead, WriteData::MemoryNull, OpName::Eor, 0)
            } else if col == 6 {
                TableEntry::Rw(Addressing::AbxPageDelay, ReadData::MemoryRead, WriteData::MemoryWrite, OpName::Lsr, 0)
            } else {
                TableEntry::Imp(RegisterName::N, RegisterName::N, OpName::Nop)
            }
        } else if row == 0x60 {
            if col == 0 {
                TableEntry::Rts
            } else if col == 1 {
                TableEntry::Rw(Addressing::Izx, ReadData::MemoryRead, WriteData::MemoryNull, OpName::Adc, 0)
            } else if col == 4 {
                TableEntry::Rw(Addressing::Zp, ReadData::MemoryRead, WriteData::MemoryNull, OpName::Nop, 0)
            } else if col == 5 {
                TableEntry::Rw(Addressing::Zp, ReadData::MemoryRead, WriteData::MemoryNull, OpName::Adc, 0)
            } else if col == 6 {
                TableEntry::Rw(Addressing::Zp, ReadData::MemoryRead, WriteData::MemoryWrite, OpName::Ror, 0)
            } else {
                TableEntry::Imp(RegisterName::N, RegisterName::N, OpName::Nop)
            }
        } else if row == 0x68 {
            if col == 0 {
                TableEntry::Pla
            } else if col == 1 {
                TableEntry::Rw(Addressing::Imm, ReadData::MemoryRead, WriteData::MemoryNull, OpName::Adc, 0)
            } else if col == 2 {
                TableEntry::Rw(Addressing::Accumulator, ReadData::AccumulatorRead, WriteData::AccumulatorWrite, OpName::Ror, 0)
            } else if col == 4 {
                TableEntry::JmpInd
            } else if col == 5 {
                TableEntry::Rw(Addressing::Abs, ReadData::MemoryRead, WriteData::MemoryNull, OpName::Adc, 0)
            } else if col == 6 {
                TableEntry::Rw(Addressing::Abs, ReadData::MemoryRead, WriteData::MemoryWrite, OpName::Ror, 0)
            } else {
                TableEntry::Imp(RegisterName::N, RegisterName::N, OpName::Nop)
            }
        } else if row == 0x70 {
            if col == 0 {
                TableEntry::Branch(0x40, 0x40)
            } else if col == 1 {
                TableEntry::Rw(Addressing::IZYPageDelay, ReadData::MemoryRead, WriteData::MemoryNull, OpName::Adc, 0)
            } else if col == 4 {
                TableEntry::Rw(Addressing::Zpx, ReadData::MemoryRead, WriteData::MemoryNull, OpName::Nop, 0)
            } else if col == 5 {
                TableEntry::Rw(Addressing::Zpx, ReadData::MemoryRead, WriteData::MemoryNull, OpName::Adc, 0)
            } else if col == 6 {
                TableEntry::Rw(Addressing::Zpx, ReadData::MemoryRead, WriteData::MemoryWrite, OpName::Ror, 0)
            } else {
                TableEntry::Imp(RegisterName::N, RegisterName::N, OpName::Nop)
            }
        } else if row == 0x78 {
            if col == 0 {
                TableEntry::Imp(RegisterName::N, RegisterName::N, OpName::Sei)
            } else if col == 1 {
                TableEntry::Rw(Addressing::AbyPageDelay, ReadData::MemoryRead, WriteData::MemoryNull, OpName::Adc, 0)
            } else if col == 2 {
                TableEntry::Imp(RegisterName::N, RegisterName::N, OpName::Nop)
            } else if col == 4 {
                TableEntry::Rw(Addressing::Abx, ReadData::MemoryRead, WriteData::MemoryNull, OpName::Nop, 0)
            } else if col == 5 {
                TableEntry::Rw(Addressing::AbxPageDelay, ReadData::MemoryRead, WriteData::MemoryNull, OpName::Adc, 0)
            } else if col == 6 {
                TableEntry::Rw(Addressing::Abx, ReadData::MemoryRead, WriteData::MemoryWrite, OpName::Ror, 0)
            } else {
                TableEntry::Imp(RegisterName::N, RegisterName::N, OpName::Nop)
            }
        } else {
            TableEntry::Imp(RegisterName::N, RegisterName::N, OpName::Nop)
        }
    }
    #[verifier::rlimit(100)]
    #[verifier::spinoff_prover]
    fn decode_rows_2(op_code: u8) -> (r: TableEntry)
        requires
            0x80 <= op_code < 0xC0,
        ensures
            r == spec_decode(op_code),
    {
        let col = op_code % 8;
        let row = op_code - col;
        if row == 0x80 {
            if col == 0 {
                TableEntry::Rw(Addressing::Imm, ReadData::MemoryRead, WriteData::MemoryNull, OpName::Nop, 0)
            } else if col == 1 {
                TableEntry::Rw(Addressing::Izx, ReadData::NullRead, WriteData::RegisterWrite, OpName::Sta, 0)
            } else if col == 2 {
                TableEntry::Rw(Addressing::Imm, ReadData::MemoryRead, WriteData::MemoryNull, OpName::Nop, 0)
            } else if col == 3 {
                TableEntry::Rw(Addressing::Izx, ReadData::NullRead, WriteData::RegisterWrite, OpName::Sax, 0)
            } else if col == 4 {
                TableEntry::Rw(Addressing::Zp, ReadData::NullRead, WriteData::RegisterWrite, OpName::Sty, 0)
            } else if col == 5 {
                TableEntry::Rw(Addressing::Zp, ReadData::NullRead, WriteData::RegisterWrite, OpName::Sta, 0)
            } else if col == 6 {
                TableEntry::Rw(Addressing::Zp, ReadData::NullRead, WriteData::RegisterWrite, OpName::Stx, 0)
            } else {
                TableEntry::Rw(Addressing::Zp, ReadData::NullRead, WriteData::RegisterWrite, OpName::Sax, 0)
            }
        } else if row == 0x88 {
            if col == 0 {
                TableEntry::Imp(RegisterName::Y, RegisterName::Y, OpName::Dec)
            } else if col == 1 {
                TableEntry::Rw(Addressing::Imm, ReadData::MemoryRead, WriteData::MemoryNull, OpName::Nop, 0)
            } else if col == 2 {
                TableEntry::Imp(RegisterName::X, RegisterName::A, OpName::TStat)
            } else if col == 4 {
                TableEntry::Rw(Addressing::Abs, ReadData::NullRead, WriteData::RegisterWrite, OpName::Sty, 0)
            } else if col == 5 {
                TableEntry::Rw(Addressing::Abs, ReadData::NullRead, WriteData::RegisterWrite, OpName::Sta, 0)
            } else if col == 6 {
                TableEntry::Rw(Addressing::Abs, ReadData::NullRead, WriteData::RegisterWrite, OpName::Stx, 0)
            } else if col == 7 {
                TableEntry::Rw(Addressing::Abs, ReadData::NullRead, WriteData::RegisterWrite, OpName::Sax, 0)
            } else {
                TableEntry::Imp(RegisterName::N, RegisterName::N, OpName::Nop)
            }
        } else if row == 0x90 {
            if col == 0 {
                TableEntry::Branch(0x01, 0x00)
            } else if col == 1 {
                TableEntry::Rw(Addressing::Izy, ReadData::NullRead, WriteData::RegisterWrite, OpName::Sta, 0)
            } else if col == 4 {
                TableEntry::Rw(Addressing::Zpx, ReadData::NullRead, WriteData::RegisterWrite, OpName::Sty, 0)
            } else if col == 5 {
                TableEntry::Rw(Addressing::Zpx, ReadData::NullRead, WriteData::RegisterWrite, OpName::Sta, 0)
            } else if col == 6 {
                TableEntry::Rw(Addressing::Zpy, ReadData::NullRead, WriteData::RegisterWrite, OpName::Stx, 0)
            } else if col == 7 {
                TableEntry::Rw(Addressing::Zpy, ReadData::NullRead, WriteData::RegisterWrite, OpName::Sax, 0)
            } else {
                TableEntry::Imp(RegisterName::N, RegisterName::N, OpName::Nop)
            }
        } else if row == 0x98 {
            if col == 0 {
                TableEntry::Imp(RegisterName::Y, RegisterName::A, OpName::TStat)
            } else if col == 1 {
                TableEntry::Rw(Addressing::Aby, ReadData::NullRead, WriteData::RegisterWrite, OpName::Sta, 3)
            } else if col == 2 {
                TableEntry::Imp(RegisterName::X, RegisterName::S, OpName::TNoStat)
            } else if col == 5 {
                TableEntry::Rw(Addressing::Abx, ReadData::NullRead, WriteData::RegisterWrite, OpName::Sta, 3)
            } else {
                TableEntry::Imp(RegisterName::N, RegisterName::N, OpName::Nop)
            }
        } else if row == 0xA0 {
            if col == 0 {
                TableEntry::Rw(Addressing::Imm, ReadData::MemoryRead, WriteData::MemoryNull, OpName::Ldy, 0)
            } else if col == 1 {
                TableEntry::Rw(Addressing::Izx, ReadData::MemoryRead, WriteData::MemoryNull, OpName::Lda, 0)
            } else if col == 2 {
                TableEntry::Rw(Addressing::Imm, ReadData::MemoryRead, WriteData::MemoryNull, OpName::Ldx, 0)
            } else if col == 3 {
                TableEntry::Rw(Addressing::Izx, ReadData::MemoryRead, WriteData::MemoryNull, OpName::Lax, 0)
            } else if col == 4 {
                TableEntry::Rw(Addressing::Zp, ReadData::MemoryRead, WriteData::MemoryNull, OpName::Ldy, 0)
            } else if col == 5 {
                TableEntry::Rw(Addressing::Zp, ReadData::MemoryRead, WriteData::MemoryNull, OpName::Lda, 0)
            } else if col == 6 {
                TableEntry::Rw(Addressing::Zp, ReadData::MemoryRead, WriteData::MemoryNull, OpName::Ldx, 0)
            } else {
                TableEntry::Rw(Addressing::Zp, ReadData::MemoryRead, WriteData::MemoryNull, OpName::Lax, 0)
            }
        } else if row == 0xA8 {
            if col == 0 {
                TableEntry::Imp(RegisterName::A, RegisterName::Y, OpName::TStat)
            } else if col == 1 {
                TableEntry::Rw(Addressing::Imm, ReadData::MemoryRead, WriteData::MemoryNull, OpName::Lda, 0)
            } else if col == 2 {
                TableEntry::Imp(RegisterName::A, RegisterName::X, OpName::TStat)
            } else if col == 4 {
                TableEntry::Rw(Addressing::Abs, ReadData::MemoryRead, WriteData::MemoryNull, OpName::Ldy, 0)
            } else if col == 5 {
                TableEntry::Rw(Addressing::Abs, ReadData::MemoryRead, WriteData::MemoryNull, OpName::Lda, 0)
            } else if col == 6 {
                TableEntry::Rw(Addressing::Abs, ReadData::MemoryRead, WriteData::MemoryNull, OpName::Ldx, 0)
            } else {
                TableEntry::Rw(Addressing::Abs, ReadData::MemoryRead, WriteData::MemoryNull, OpName::Lax, 0)
            }
        } else if row == 0xB0 {
            if col == 0 {
                TableEntry::Branch(0x01, 0x01)
            } else if col == 1 {
                TableEntry::Rw(Addressing::IZYPageDelay, ReadData::MemoryRead, WriteData::MemoryNull, OpName::Lda, 0)
            } else if col == 3 {
                TableEntry::Rw(Addressing::Izy, ReadData::MemoryRead, WriteData::MemoryNull, OpName::Lax, 0)
            } else if col == 4 {
                TableEntry::Rw(Addressing::Zpx, ReadData::MemoryRead, WriteData::MemoryNull, OpName::Ldy, 0)
            } else if col == 5 {
                TableEntry::Rw(Addressing::Zpx, ReadData::MemoryRead, WriteData::MemoryNull, OpName::Lda, 0)
            } else if col == 6 {
                TableEntry::Rw(Addressing::Zpy, ReadData::MemoryRead, WriteData::MemoryNull, OpName::Ldx, 0)
            } else {
                TableEntry::Rw(Addressing::Zpy, ReadData::MemoryRead, WriteData::MemoryNull, OpName::Lax, 0)
            }
        } else if row == 0xB8 {
            if col == 0 {
                TableEntry::Imp(RegisterName::N, RegisterName::N, OpName::Clv)
            } else if col == 1 {
                TableEntry::Rw(Addressing::AbyPageDelay, ReadData::MemoryRead, WriteData::MemoryNull, OpName::Lda, 0)
            } else if col == 2 {
                TableEntry::Imp(RegisterName::S, RegisterName::X, OpName::TNoStat)
            } else if col == 4 {
                TableEntry::Rw(Addressing::AbxPageDelay, ReadData::MemoryRead, WriteData::MemoryNull, OpName::Ldy, 0)
            } else if col == 5 {
                TableEntry::Rw(Addressing::AbxPageDelay, ReadData::MemoryRead, WriteData::MemoryNull, OpName::Lda, 0)
            } else if col == 6 {
                TableEntry::Rw(Addressing::AbyPageDelay, ReadData::MemoryRead, WriteData::MemoryNull, OpName::Ldx, 0)
            } else {
                TableEntry::Rw(Addressing::Aby, ReadData::MemoryRead, WriteData::MemoryNull, OpName::Lax, 0)
            }
        } else {
            TableEntry::Imp(RegisterName::N, RegisterName::N, OpName::Nop)
        }
    }
    #[verifier::rlimit(100)]
    #[verifier::spinoff_prover]
    fn decode_rows_3(op_code: u8) -> (r: TableEntry)
        requires
            0xC0 <= op_code,
        ensures
            r == spec_decode(op_code),
    {
        let col = op_code % 8;
        let row = op_code - col;
        if row == 0xC0 {
            if col == 0 {
                TableEntry::Rw(Addressing::Imm, ReadData::MemoryRead, WriteData::MemoryNull, OpName::Cpy, 0)
            } else if col == 1 {
                TableEntry::Rw(Addressing::Izx, ReadData::MemoryRead, WriteData::MemoryNull, OpName::Cmp, 0)
            } else if col == 2 {
                TableEntry::Rw(Addressing::Imm, ReadData::MemoryRead, WriteData::MemoryNull, OpName::Nop, 0)
            } else if col == 3 {
                TableEntry::Rw(Addressing::Izx, ReadData::MemoryRead, WriteData::MemoryNull, OpName::Dcp, 0)
            } else if col == 4 {
                TableEntry::Rw(Addressing::Zp, ReadData::MemoryRead, WriteData::MemoryNull, OpName::Cpy, 0)
            } else if col == 5 {
                TableEntry::Rw(Addressing::Zp, ReadData::MemoryRead, WriteData::MemoryNull, OpName::Cmp, 0)
            } else if col == 6 {
                TableEntry::Rw(Addressing::Zp, ReadData::MemoryRead, WriteData::MemoryWrite, OpName::Dec, 0)
            } else {
                TableEntry::Rw(Addressing::Zp, ReadData::MemoryRead, WriteData::MemoryNull, OpName::Dcp, 0)
            }
        } else if row == 0xC8 {
            if col == 0 {
                TableEntry::Imp(RegisterName::Y, RegisterName::Y, OpName::Inc)
            } else if col == 1 {
                TableEntry::Rw(Addressing::Imm, ReadData::MemoryRead, WriteData::MemoryNull, OpName::Cmp, 0)
            } else if col == 2 {
                TableEntry::Imp(RegisterName::X, RegisterName::X, OpName::Dec)
            } else if col == 4 {
                TableEntry::Rw(Addressing::Abs, ReadData::MemoryRead, WriteData::MemoryNull, OpName::Cpy, 0)
            } else if col == 5 {
                TableEntry::Rw(Addressing::Abs, ReadData::MemoryRead, WriteData::MemoryNull, OpName::Cmp, 0)
            } else if col == 6 {
                TableEntry::Rw(Addressing::Abs, ReadData::MemoryRead, WriteData::MemoryWrite, OpName::Dec, 0)
            } else if col == 7 {
                TableEntry::Rw(Addressing::Abs, ReadData::MemoryRead, WriteData::MemoryNull, OpName::Dcp, 0)
            } else {
                TableEntry::Imp(RegisterName::N, RegisterName::N, OpName::Nop)
            }
        } else if row == 0xD0 {
            if col == 0 {
                TableEntry::Branch(0x02, 0x00)
            } else if col == 1 {
                TableEntry::Rw(Addressing::IZYPageDelay, ReadData::MemoryRead, WriteData::MemoryNull, OpName::Cmp, 0)
            } else if col == 3 {
                TableEntry::Rw(Addressing::IZYPageDelay, ReadData::MemoryRead, WriteData::MemoryNull, OpName::Dcp, 0)
            } else if col == 4 {
                TableEntry::Rw(Addressing::Zpx, ReadData::MemoryRead, WriteData::MemoryNull, OpName::Nop, 0)
            } else if col == 5 {
                TableEntry::Rw(Addressing::Zpx, ReadData::MemoryRead, WriteData::MemoryNull, OpName::Cmp, 0)
            } else if col == 6 {
                TableEntry::Rw(Addressing::Zpx, ReadData::MemoryRead, WriteData::MemoryWrite, OpName::Dec, 0)
            } else {
                TableEntry::Rw(Addressing::Zpx, ReadData::MemoryRead, WriteData::MemoryNull, OpName::Dcp, 0)
            }
        } else if row == 0xD8 {
            if col == 0 {
                TableEntry::Imp(RegisterName::N, RegisterName::N, OpName::Cld)
            } else if col == 1 {
                TableEntry::Rw(Addressing::AbyPageDelay, ReadData::MemoryRead, WriteData::MemoryNull, OpName::Cmp, 0)
            } else if col == 2 {
                TableEntry::Imp(RegisterName::N, RegisterName::N, OpName::Nop)
            } else if col == 3 {
                TableEntry::Rw(Addressing::AbyPageDelay, ReadData::MemoryRead, WriteData::MemoryNull, OpName::Dcp, 0)
            } else if col == 4 {
                TableEntry::Rw(Addressing::Abx, ReadData::MemoryRead, WriteData::MemoryNull, OpName::Nop, 0)
            } else if col == 5 {
                TableEntry::Rw(Addressing::AbxPageDelay, ReadData::MemoryRead, WriteData::MemoryNull, OpName::Cmp, 0)
            } else if col == 6 {
                TableEntry::Rw(Addressing::AbxPageDelay, ReadData::MemoryRead, WriteData::MemoryWrite, OpName::Dec, 0)
            } else {
                TableEntry::Rw(Addressing::AbxPageDelay, ReadData::MemoryRead, WriteData::MemoryNull, OpName::Dcp, 0)
            }
        } else if row == 0xE0 {
            if col == 0 {
                TableEntry::Rw(Addressing::Imm, ReadData::MemoryRead, WriteData::MemoryNull, OpName::Cpx, 0)
            } else if col == 1 {
                TableEntry::Rw(Addressing::Izx, ReadData::MemoryRead, WriteData::MemoryNull, OpName::Sbc, 0)
            } else if col == 2 {
                TableEntry::Rw(Addressing::Imm, ReadData::MemoryRead, WriteData::MemoryNull, OpName::Nop, 0)
            } else if col == 3 {
                TableEntry::Rw(Addressing::Izx, ReadData::MemoryRead, WriteData::MemoryWrite, OpName::Isc, 0)
            } else if col == 4 {
                TableEntry::Rw(Addressing::Zp, ReadData::MemoryRead, WriteData::MemoryNull, OpName::Cpx, 0)
            } else if col == 5 {
                TableEntry::Rw(Addressing::Zp, ReadData::MemoryRead, WriteData::MemoryNull, OpName::Sbc, 0)
            } else if col == 6 {
                TableEntry::Rw(Addressing::Zp, ReadData::MemoryRead, WriteData::MemoryWrite, OpName::Inc, 0)
            } else {
                TableEntry::Rw(Addressing::Zp, ReadData::MemoryRead, WriteData::MemoryWrite, OpName::Isc, 0)
            }
        } else if row == 0xE8 {
            if col == 0 {
                TableEntry::Imp(RegisterName::X, RegisterName::X, OpName::Inc)
            } else if col == 1 {
                TableEntry::Rw(Addressing::Imm, ReadData::MemoryRead, WriteData::MemoryNull, OpName::Sbc, 0)
            } else if col == 2 {
                TableEntry::Imp(RegisterName::A, RegisterName::A, OpName::Nop)
            } else if col == 4 {
                TableEntry::Rw(Addressing::Abs, ReadData::MemoryRead, WriteData::MemoryNull, OpName::Cpx, 0)
            } else if col == 5 {
                TableEntry::Rw(Addressing::Abs, ReadData::MemoryRead, WriteData::MemoryNull, OpName::Sbc, 0)
            } else if col == 6 {
                TableEntry::Rw(Addressing::Abs, ReadData::MemoryRead, WriteData::MemoryWrite, OpName::Inc, 0)
            } else if col == 7 {
                TableEntry::Rw(Addressing::Abs, ReadData::MemoryRead, WriteData::MemoryWrite, OpName::Isc, 0)
            } else {
                TableEntry::Imp(RegisterName::N, RegisterName::N, OpName::Nop)
            }
        } else if row == 0xF0 {
            if col == 0 {
                TableEntry::Branch(0x02, 0x02)
            } else if col == 1 {
                TableEntry::Rw(Addressing::IZYPageDelay, ReadData::MemoryRead, WriteData::MemoryNull, OpName::Sbc, 0)
            } else if col == 3 {
                TableEntry::Rw(Addressing::Izy, ReadData::MemoryRead, WriteData::MemoryWrite, OpName::Isc, 0)
            } else if col == 4 {
                TableEntry::Rw(Addressing::Zpx, ReadData::MemoryRead, WriteData::MemoryNull, OpName::Nop, 0)
            } else if col == 5 {
                TableEntry::Rw(Addressing::Zpx, ReadData::MemoryRead, WriteData::MemoryNull, OpName::Sbc, 0)
            } else if col == 6 {
                TableEntry::Rw(Addressing::Zpx, ReadData::MemoryRead, WriteData::MemoryWrite, OpName::Inc, 0)
            } else {
                TableEntry::Rw(Addressing::Zpx, ReadData::MemoryRead, WriteData::MemoryWrite, OpName::Isc, 0)
            }
        } else {
            if col == 0 {
                TableEntry::Imp(RegisterName::N, RegisterName::N, OpName::Sed)
            } else if col == 1 {
                TableEntry::Rw(Addressing::AbyPageDelay, ReadData::MemoryRead, WriteData::MemoryNull, OpName::Sbc, 0)
            } else if col == 2 {
                TableEntry::Imp(RegisterName::N, RegisterName::N, OpName::Nop)
            } else if col == 3 {
                TableEntry::Rw(Addressing::Aby, ReadData::MemoryRead, WriteData::MemoryWrite, OpName::Isc, 0)
            } else if col == 4 {
                TableEntry::Rw(Addressing::Abx, ReadData::MemoryRead, WriteData::MemoryNull, OpName::Nop, 0)
            } else if col == 5 {
                TableEntry::Rw(Addressing::AbxPageDelay, ReadData::MemoryRead, WriteData::MemoryNull, OpName::Sbc, 0)
            } else if col == 6 {
                TableEntry::Rw(Addressing::AbxPageDelay, ReadData::MemoryRead, WriteData::MemoryWrite, OpName::Inc, 0)
            } else {
                TableEntry::Rw(Addressing::Abx, ReadData::MemoryRead, WriteData::MemoryWrite, OpName::Isc, 0)
            }
        }
    }

    /// Looks one opcode up in the table.
    fn decode(op_code: u8) -> (r: TableEntry)
        ensures
            r == spec_decode(op_code),
    {
        if op_code < 0x40 {
            Self::decode_rows_0(op_code)
        } else if op_code < 0x80 {
            Self::decode_rows_1(op_code)
        } else if op_code < 0xC0 {
            Self::decode_rows_2(op_code)
        } else {
            Self::decode_rows_3(op_code)
        }
    }

    /// Decodes and runs one opcode: the fetch has already happened, the
    /// program counter still points at it. The final state is the one the
    /// opcode's table entry prescribes.
    #[verifier::rlimit(100)]
    pub fn execute(
        op_code: u8,
        clock: &mut clocks::Clock,
        memory: &mut Memory,
        pc_state: &mut PcState,
        ports: &mut ports::Ports,
    )
        requires
            step_ok(*old(memory), old(clock).ticks),
            old(clock).ticks <= 0x0000_FFFF_FFFF_F000,
        ensures
            step_ok(*final(memory), final(clock).ticks),
            old(clock).ticks <= final(clock).ticks <= old(clock).ticks + 0x400,
            *final(ports) == *old(ports),
            spec_execute_rel(
                op_code,
                *old(memory),
                *old(pc_state),
                old(clock).ticks,
                *final(memory),
                *final(pc_state),
                final(clock).ticks,
            ),
    {
        let entry = Self::decode(op_code);
        match entry {
            TableEntry::Rw(a, r, w, o, d) => op_rw(clock, pc_state, memory, a, r, w, o, d),
            TableEntry::Imp(r, w, o) => op_imp(clock, pc_state, memory, r, w, o),
            TableEntry::Branch(mask, cond) => op_branch(clock, pc_state, memory, mask, cond),
            TableEntry::Jsr => op_control(clock, pc_state, memory, 2),
            TableEntry::Rts => op_control(clock, pc_state, memory, 6),
            TableEntry::JmpAbs => op_control(clock, pc_state, memory, 8),
            TableEntry::JmpInd => op_jmp_indirect(clock, pc_state, memory),
            TableEntry::Pha => op_control(clock, pc_state, memory, 5),
            TableEntry::Pla => op_control(clock, pc_state, memory, 7),
            TableEntry::Php => op_control(clock, pc_state, memory, 1),
            TableEntry::Plp => op_control(clock, pc_state, memory, 3),
            TableEntry::Brk => op_control(clock, pc_state, memory, 0),
            TableEntry::Rti => op_control(clock, pc_state, memory, 4),
        }
    }
}

} // verus!
