//! The opcode table: the specification of the instruction set. For each
//! of the 256 opcode bytes it gives the mnemonic, the instruction size in
//! bytes, the base cycle count and the addressing mode. Undocumented
//! opcode slots are explicit illegal entries (size 0), never absent ones.

use vstd::prelude::*;

use crate::alu::word;

verus! {

/// The operation selected by an opcode: one of the 56 documented
/// mnemonics, or `Illegal` for an undocumented slot.
#[derive(Clone, Copy, Debug, PartialEq, Eq, Structural)]
pub enum Mnemonic {
    Adc,
    And,
    Asl,
    Bcc,
    Bcs,
    Beq,
    Bit,
    Bmi,
    Bne,
    Bpl,
    Brk,
    Bvc,
    Bvs,
    Clc,
    Cld,
    Cli,
    Clv,
    Cmp,
    Cpx,
    Cpy,
    Dec,
    Dex,
    Dey,
    Eor,
    Inc,
    Inx,
    Iny,
    Jmp,
    Jsr,
    Lda,
    Ldx,
    Ldy,
    Lsr,
    Nop,
    Ora,
    Pha,
    Php,
    Pla,
    Plp,
    Rol,
    Ror,
    Rti,
    Rts,
    Sbc,
    Sec,
    Sed,
    Sei,
    Sta,
    Stx,
    Sty,
    Tax,
    Tay,
    Tsx,
    Txa,
    Txs,
    Tya,
    Illegal,
}

/// The addressing mode of an instruction: the rule for computing its
/// operand from the following bytes and the registers. `Nul` marks the
/// undocumented slots that have no mode at all.
#[derive(Clone, Copy, Debug, PartialEq, Eq, Structural)]
pub enum Mode {
    /// Implied: no operand.
    Imp,
    /// The accumulator register itself.
    Acc,
    /// Immediate: the literal first operand byte.
    Imm,
    /// Zero page: the first operand byte is the address.
    Zpg,
    /// Zero page indexed by X, wrapping within the zero page.
    Zpx,
    /// Zero page indexed by Y, wrapping within the zero page.
    Zpy,
    /// Absolute 16-bit address.
    Abs,
    /// Absolute indexed by X, with 16-bit wraparound.
    Abx,
    /// Absolute indexed by Y, with 16-bit wraparound.
    Aby,
    /// Indirect: the operand is a pointer to the address (JMP only).
    Ind,
    /// Indexed indirect: zero-page pointer at operand byte + X.
    Izx,
    /// Indirect indexed: zero-page pointer at operand byte, plus Y.
    Izy,
    /// Relative: signed offset from the end of the instruction.
    Rel,
    /// No mode: an undocumented opcode slot.
    Nul,
}

/// One line of the opcode table.
#[derive(Clone, Copy, Debug, PartialEq, Eq, Structural)]
pub struct OpInfo {
    pub mnemonic: Mnemonic,
    pub size: u8,
    pub ticks: u8,
    pub mode: Mode,
}

/// A table line as a value.
pub open spec fn entry(mnemonic: Mnemonic, size: u8, ticks: u8, mode: Mode) -> OpInfo {
    OpInfo { mnemonic, size, ticks, mode }
}

fn row(mnemonic: Mnemonic, size: u8, ticks: u8, mode: Mode) -> (r: OpInfo)
    ensures
        r == entry(mnemonic, size, ticks, mode),
{
    OpInfo { mnemonic, size, ticks, mode }
}

/// The opcode table itself, total over all 256 opcode bytes: the 151
/// documented opcodes of the processor, and an illegal entry for every
/// other slot.
pub open spec fn op_info(b: u8) -> OpInfo {
    match b {
        0x00 => entry(Mnemonic::Brk, 1, 7, Mode::Imp),
        0x01 => entry(Mnemonic::Ora, 2, 6, Mode::Izx),
        0x05 => entry(Mnemonic::Ora, 2, 3, Mode::Zpg),
        0x06 => entry(Mnemonic::Asl, 2, 5, Mode::Zpg),
        0x08 => entry(Mnemonic::Php, 1, 3, Mode::Imp),
        0x09 => entry(Mnemonic::Ora, 2, 2, Mode::Imm),
        0x0A => entry(Mnemonic::Asl, 1, 2, Mode::Acc),
        0x0D => entry(Mnemonic::Ora, 3, 4, Mode::Abs),
        0x0E => entry(Mnemonic::Asl, 3, 6, Mode::Abs),
        0x10 => entry(Mnemonic::Bpl, 2, 2, Mode::Rel),
        0x11 => entry(Mnemonic::Ora, 2, 5, Mode::Izy),
        0x15 => entry(Mnemonic::Ora, 2, 4, Mode::Zpx),
        0x16 => entry(Mnemonic::Asl, 2, 6, Mode::Zpx),
        0x18 => entry(Mnemonic::Clc, 1, 2, Mode::Imp),
        0x19 => entry(Mnemonic::Ora, 3, 4, Mode::Aby),
        0x1D => entry(Mnemonic::Ora, 3, 4, Mode::Abx),
        0x1E => entry(Mnemonic::Asl, 3, 7, Mode::Abx),
        0x20 => entry(Mnemonic::Jsr, 3, 6, Mode::Abs),
        0x21 => entry(Mnemonic::And, 2, 6, Mode::Izx),
        0x24 => entry(Mnemonic::Bit, 2, 3, Mode::Zpg),
        0x25 => entry(Mnemonic::And, 2, 3, Mode::Zpg),
        0x26 => entry(Mnemonic::Rol, 2, 5, Mode::Zpg),
        0x28 => entry(Mnemonic::Plp, 1, 4, Mode::Imp),
        0x29 => entry(Mnemonic::And, 2, 2, Mode::Imm),
        0x2A => entry(Mnemonic::Rol, 1, 2, Mode::Acc),
        0x2C => entry(Mnemonic::Bit, 3, 4, Mode::Abs),
        0x2D => entry(Mnemonic::And, 3, 4, Mode::Abs),
        0x2E => entry(Mnemonic::Rol, 3, 6, Mode::Abs),
        0x30 => entry(Mnemonic::Bmi, 2, 2, Mode::Rel),
        0x31 => entry(Mnemonic::And, 2, 5, Mode::Izy),
        0x35 => entry(Mnemonic::And, 2, 4, Mode::Zpx),
        0x36 => entry(Mnemonic::Rol, 2, 6, Mode::Zpx),
        0x38 => entry(Mnemonic::Sec, 1, 2, Mode::Imp),
        0x39 => entry(Mnemonic::And, 3, 4, Mode::Aby),
        0x3D => entry(Mnemonic::And, 3, 4, Mode::Abx),
        0x3E => entry(Mnemonic::Rol, 3, 7, Mode::Abx),
        0x40 => entry(Mnemonic::Rti, 1, 6, Mode::Imp),
        0x41 => entry(Mnemonic::Eor, 2, 6, Mode::Izx),
        0x45 => entry(Mnemonic::Eor, 2, 3, Mode::Zpg),
        0x46 => entry(Mnemonic::Lsr, 2, 5, Mode::Zpg),
        0x48 => entry(Mnemonic::Pha, 1, 3, Mode::Imp),
        0x49 => entry(Mnemonic::Eor, 2, 2, Mode::Imm),
        0x4A => entry(Mnemonic::Lsr, 1, 2, Mode::Acc),
        0x4C => entry(Mnemonic::Jmp, 3, 3, Mode::Abs),
        0x4D => entry(Mnemonic::Eor, 3, 4, Mode::Abs),
        0x4E => entry(Mnemonic::Lsr, 3, 6, Mode::Abs),
        0x50 => entry(Mnemonic::Bvc, 2, 2, Mode::Rel),
        0x51 => entry(Mnemonic::Eor, 2, 5, Mode::Izy),
        0x55 => entry(Mnemonic::Eor, 2, 4, Mode::Zpx),
        0x56 => entry(Mnemonic::Lsr, 2, 6, Mode::Zpx),
        0x58 => entry(Mnemonic::Cli, 1, 2, Mode::Imp),
        0x59 => entry(Mnemonic::Eor, 3, 4, Mode::Aby),
        0x5D => entry(Mnemonic::Eor, 3, 4, Mode::Abx),
        0x5E => entry(Mnemonic::Lsr, 3, 7, Mode::Abx),
        0x60 => entry(Mnemonic::Rts, 1, 6, Mode::Imp),
        0x61 => entry(Mnemonic::Adc, 2, 6, Mode::Izx),
        0x65 => entry(Mnemonic::Adc, 2, 3, Mode::Zpg),
        0x66 => entry(Mnemonic::Ror, 2, 5, Mode::Zpg),
        0x68 => entry(Mnemonic::Pla, 1, 4, Mode::Imp),
        0x69 => entry(Mnemonic::Adc, 2, 2, Mode::Imm),
        0x6A => entry(Mnemonic::Ror, 1, 2, Mode::Acc),
        0x6C => entry(Mnemonic::Jmp, 3, 5, Mode::Ind),
        0x6D => entry(Mnemonic::Adc, 3, 4, Mode::Abs),
        0x6E => entry(Mnemonic::Ror, 3, 6, Mode::Abs),
        0x70 => entry(Mnemonic::Bvs, 2, 2, Mode::Rel),
        0x71 => entry(Mnemonic::Adc, 2, 5, Mode::Izy),
        0x75 => entry(Mnemonic::Adc, 2, 4, Mode::Zpx),
        0x76 => entry(Mnemonic::Ror, 2, 6, Mode::Zpx),
        0x78 => entry(Mnemonic::Sei, 1, 2, Mode::Imp),
        0x79 => entry(Mnemonic::Adc, 3, 4, Mode::Aby),
        0x7D => entry(Mnemonic::Adc, 3, 4, Mode::Abx),
        0x7E => entry(Mnemonic::Ror, 3, 7, Mode::Abx),
        0x81 => entry(Mnemonic::Sta, 2, 6, Mode::Izx),
        0x84 => entry(Mnemonic::Sty, 2, 3, Mode::Zpg),
        0x85 => entry(Mnemonic::Sta, 2, 3, Mode::Zpg),
        0x86 => entry(Mnemonic::Stx, 2, 3, Mode::Zpg),
        0x88 => entry(Mnemonic::Dey, 1, 2, Mode::Imp),
        0x8A => entry(Mnemonic::Txa, 1, 2, Mode::Imp),
        0x8C => entry(Mnemonic::Sty, 3, 4, Mode::Abs),
        0x8D => entry(Mnemonic::Sta, 3, 4, Mode::Abs),
        0x8E => entry(Mnemonic::Stx, 3, 4, Mode::Abs),
        0x90 => entry(Mnemonic::Bcc, 2, 2, Mode::Rel),
        0x91 => entry(Mnemonic::Sta, 2, 6, Mode::Izy),
        0x94 => entry(Mnemonic::Sty, 2, 4, Mode::Zpx),
        0x95 => entry(Mnemonic::Sta, 2, 4, Mode::Zpx),
        0x96 => entry(Mnemonic::Stx, 2, 4, Mode::Zpy),
        0x98 => entry(Mnemonic::Tya, 1, 2, Mode::Imp),
        0x99 => entry(Mnemonic::Sta, 3, 5, Mode::Aby),
        0x9A => entry(Mnemonic::Txs, 1, 2, Mode::Imp),
        0x9D => entry(Mnemonic::Sta, 3, 5, Mode::Abx),
        0xA0 => entry(Mnemonic::Ldy, 2, 2, Mode::Imm),
        0xA1 => entry(Mnemonic::Lda, 2, 6, Mode::Izx),
        0xA2 => entry(Mnemonic::Ldx, 2, 2, Mode::Imm),
        0xA4 => entry(Mnemonic::Ldy, 2, 3, Mode::Zpg),
        0xA5 => entry(Mnemonic::Lda, 2, 3, Mode::Zpg),
        0xA6 => entry(Mnemonic::Ldx, 2, 3, Mode::Zpg),
        0xA8 => entry(Mnemonic::Tay, 1, 2, Mode::Imp),
        0xA9 => entry(Mnemonic::Lda, 2, 2, Mode::Imm),
        0xAA => entry(Mnemonic::Tax, 1, 2, Mode::Imp),
        0xAC => entry(Mnemonic::Ldy, 3, 4, Mode::Abs),
        0xAD => entry(Mnemonic::Lda, 3, 4, Mode::Abs),
        0xAE => entry(Mnemonic::Ldx, 3, 4, Mode::Abs),
        0xB0 => entry(Mnemonic::Bcs, 2, 2, Mode::Rel),
        0xB1 => entry(Mnemonic::Lda, 2, 5, Mode::Izy),
        0xB4 => entry(Mnemonic::Ldy, 2, 4, Mode::Zpx),
        0xB5 => entry(Mnemonic::Lda, 2, 4, Mode::Zpx),
        0xB6 => entry(Mnemonic::Ldx, 2, 4, Mode::Zpy),
        0xB8 => entry(Mnemonic::Clv, 1, 2, Mode::Imp),
        0xB9 => entry(Mnemonic::Lda, 3, 4, Mode::Aby),
        0xBA => entry(Mnemonic::Tsx, 1, 2, Mode::Imp),
        0xBC => entry(Mnemonic::Ldy, 3, 4, Mode::Abx),
        0xBD => entry(Mnemonic::Lda, 3, 4, Mode::Abx),
        0xBE => entry(Mnemonic::Ldx, 3, 4, Mode::Aby),
        0xC0 => entry(Mnemonic::Cpy, 2, 2, Mode::Imm),
        0xC1 => entry(Mnemonic::Cmp, 2, 6, Mode::Izx),
        0xC4 => entry(Mnemonic::Cpy, 2, 3, Mode::Zpg),
        0xC5 => entry(Mnemonic::Cmp, 2, 3, Mode::Zpg),
        0xC6 => entry(Mnemonic::Dec, 2, 5, Mode::Zpg),
        0xC8 => entry(Mnemonic::Iny, 1, 2, Mode::Imp),
        0xC9 => entry(Mnemonic::Cmp, 2, 2, Mode::Imm),
        0xCA => entry(Mnemonic::Dex, 1, 2, Mode::Imp),
        0xCC => entry(Mnemonic::Cpy, 3, 4, Mode::Abs),
        0xCD => entry(Mnemonic::Cmp, 3, 4, Mode::Abs),
        0xCE => entry(Mnemonic::Dec, 3, 6, Mode::Abs),
        0xD0 => entry(Mnemonic::Bne, 2, 2, Mode::Rel),
        0xD1 => entry(Mnemonic::Cmp, 2, 5, Mode::Izy),
        0xD5 => entry(Mnemonic::Cmp, 2, 4, Mode::Zpx),
        0xD6 => entry(Mnemonic::Dec, 2, 6, Mode::Zpx),
        0xD8 => entry(Mnemonic::Cld, 1, 2, Mode::Imp),
        0xD9 => entry(Mnemonic::Cmp, 3, 4, Mode::Aby),
        0xDD => entry(Mnemonic::Cmp, 3, 4, Mode::Abx),
        0xDE => entry(Mnemonic::Dec, 3, 7, Mode::Abx),
        0xE0 => entry(Mnemonic::Cpx, 2, 2, Mode::Imm),
        0xE1 => entry(Mnemonic::Sbc, 2, 6, Mode::Izx),
        0xE4 => entry(Mnemonic::Cpx, 2, 3, Mode::Zpg),
        0xE5 => entry(Mnemonic::Sbc, 2, 3, Mode::Zpg),
        0xE6 => entry(Mnemonic::Inc, 2, 5, Mode::Zpg),
        0xE8 => entry(Mnemonic::Inx, 1, 2, Mode::Imp),
        0xE9 => entry(Mnemonic::Sbc, 2, 2, Mode::Imm),
        0xEA => entry(Mnemonic::Nop, 1, 2, Mode::Imp),
        0xEC => entry(Mnemonic::Cpx, 3, 4, Mode::Abs),
        0xED => entry(Mnemonic::Sbc, 3, 4, Mode::Abs),
        0xEE => entry(Mnemonic::Inc, 3, 6, Mode::Abs),
        0xF0 => entry(Mnemonic::Beq, 2, 2, Mode::Rel),
        0xF1 => entry(Mnemonic::Sbc, 2, 5, Mode::Izy),
        0xF5 => entry(Mnemonic::Sbc, 2, 4, Mode::Zpx),
        0xF6 => entry(Mnemonic::Inc, 2, 6, Mode::Zpx),
        0xF8 => entry(Mnemonic::Sed, 1, 2, Mode::Imp),
        0xF9 => entry(Mnemonic::Sbc, 3, 4, Mode::Aby),
        0xFD => entry(Mnemonic::Sbc, 3, 4, Mode::Abx),
        0xFE => entry(Mnemonic::Inc, 3, 7, Mode::Abx),
        _ => entry(Mnemonic::Illegal, 0, 0, Mode::Nul),
    }
}

/// Executable lookup into the opcode table.
pub fn lookup_op(b: u8) -> (r: OpInfo)
    ensures
        r == op_info(b),
{
    match b {
        0x00 => row(Mnemonic::Brk, 1, 7, Mode::Imp),
        0x01 => row(Mnemonic::Ora, 2, 6, Mode::Izx),
        0x05 => row(Mnemonic::Ora, 2, 3, Mode::Zpg),
        0x06 => row(Mnemonic::Asl, 2, 5, Mode::Zpg),
        0x08 => row(Mnemonic::Php, 1, 3, Mode::Imp),
        0x09 => row(Mnemonic::Ora, 2, 2, Mode::Imm),
        0x0A => row(Mnemonic::Asl, 1, 2, Mode::Acc),
        0x0D => row(Mnemonic::Ora, 3, 4, Mode::Abs),
        0x0E => row(Mnemonic::Asl, 3, 6, Mode::Abs),
        0x10 => row(Mnemonic::Bpl, 2, 2, Mode::Rel),
        0x11 => row(Mnemonic::Ora, 2, 5, Mode::Izy),
        0x15 => row(Mnemonic::Ora, 2, 4, Mode::Zpx),
        0x16 => row(Mnemonic::Asl, 2, 6, Mode::Zpx),
        0x18 => row(Mnemonic::Clc, 1, 2, Mode::Imp),
        0x19 => row(Mnemonic::Ora, 3, 4, Mode::Aby),
        0x1D => row(Mnemonic::Ora, 3, 4, Mode::Abx),
        0x1E => row(Mnemonic::Asl, 3, 7, Mode::Abx),
        0x20 => row(Mnemonic::Jsr, 3, 6, Mode::Abs),
        0x21 => row(Mnemonic::And, 2, 6, Mode::Izx),
        0x24 => row(Mnemonic::Bit, 2, 3, Mode::Zpg),
        0x25 => row(Mnemonic::And, 2, 3, Mode::Zpg),
        0x26 => row(Mnemonic::Rol, 2, 5, Mode::Zpg),
        0x28 => row(Mnemonic::Plp, 1, 4, Mode::Imp),
        0x29 => row(Mnemonic::And, 2, 2, Mode::Imm),
        0x2A => row(Mnemonic::Rol, 1, 2, Mode::Acc),
        0x2C => row(Mnemonic::Bit, 3, 4, Mode::Abs),
        0x2D => row(Mnemonic::And, 3, 4, Mode::Abs),
        0x2E => row(Mnemonic::Rol, 3, 6, Mode::Abs),
        0x30 => row(Mnemonic::Bmi, 2, 2, Mode::Rel),
        0x31 => row(Mnemonic::And, 2, 5, Mode::Izy),
        0x35 => row(Mnemonic::And, 2, 4, Mode::Zpx),
        0x36 => row(Mnemonic::Rol, 2, 6, Mode::Zpx),
        0x38 => row(Mnemonic::Sec, 1, 2, Mode::Imp),
        0x39 => row(Mnemonic::And, 3, 4, Mode::Aby),
        0x3D => row(Mnemonic::And, 3, 4, Mode::Abx),
        0x3E => row(Mnemonic::Rol, 3, 7, Mode::Abx),
        0x40 => row(Mnemonic::Rti, 1, 6, Mode::Imp),
        0x41 => row(Mnemonic::Eor, 2, 6, Mode::Izx),
        0x45 => row(Mnemonic::Eor, 2, 3, Mode::Zpg),
        0x46 => row(Mnemonic::Lsr, 2, 5, Mode::Zpg),
        0x48 => row(Mnemonic::Pha, 1, 3, Mode::Imp),
        0x49 => row(Mnemonic::Eor, 2, 2, Mode::Imm),
        0x4A => row(Mnemonic::Lsr, 1, 2, Mode::Acc),
        0x4C => row(Mnemonic::Jmp, 3, 3, Mode::Abs),
        0x4D => row(Mnemonic::Eor, 3, 4, Mode::Abs),
        0x4E => row(Mnemonic::Lsr, 3, 6, Mode::Abs),
        0x50 => row(Mnemonic::Bvc, 2, 2, Mode::Rel),
        0x51 => row(Mnemonic::Eor, 2, 5, Mode::Izy),
        0x55 => row(Mnemonic::Eor, 2, 4, Mode::Zpx),
        0x56 => row(Mnemonic::Lsr, 2, 6, Mode::Zpx),
        0x58 => row(Mnemonic::Cli, 1, 2, Mode::Imp),
        0x59 => row(Mnemonic::Eor, 3, 4, Mode::Aby),
        0x5D => row(Mnemonic::Eor, 3, 4, Mode::Abx),
        0x5E => row(Mnemonic::Lsr, 3, 7, Mode::Abx),
        0x60 => row(Mnemonic::Rts, 1, 6, Mode::Imp),
        0x61 => row(Mnemonic::Adc, 2, 6, Mode::Izx),
        0x65 => row(Mnemonic::Adc, 2, 3, Mode::Zpg),
        0x66 => row(Mnemonic::Ror, 2, 5, Mode::Zpg),
        0x68 => row(Mnemonic::Pla, 1, 4, Mode::Imp),
        0x69 => row(Mnemonic::Adc, 2, 2, Mode::Imm),
        0x6A => row(Mnemonic::Ror, 1, 2, Mode::Acc),
        0x6C => row(Mnemonic::Jmp, 3, 5, Mode::Ind),
        0x6D => row(Mnemonic::Adc, 3, 4, Mode::Abs),
        0x6E => row(Mnemonic::Ror, 3, 6, Mode::Abs),
        0x70 => row(Mnemonic::Bvs, 2, 2, Mode::Rel),
        0x71 => row(Mnemonic::Adc, 2, 5, Mode::Izy),
        0x75 => row(Mnemonic::Adc, 2, 4, Mode::Zpx),
        0x76 => row(Mnemonic::Ror, 2, 6, Mode::Zpx),
        0x78 => row(Mnemonic::Sei, 1, 2, Mode::Imp),
        0x79 => row(Mnemonic::Adc, 3, 4, Mode::Aby),
        0x7D => row(Mnemonic::Adc, 3, 4, Mode::Abx),
        0x7E => row(Mnemonic::Ror, 3, 7, Mode::Abx),
        0x81 => row(Mnemonic::Sta, 2, 6, Mode::Izx),
        0x84 => row(Mnemonic::Sty, 2, 3, Mode::Zpg),
        0x85 => row(Mnemonic::Sta, 2, 3, Mode::Zpg),
        0x86 => row(Mnemonic::Stx, 2, 3, Mode::Zpg),
        0x88 => row(Mnemonic::Dey, 1, 2, Mode::Imp),
        0x8A => row(Mnemonic::Txa, 1, 2, Mode::Imp),
        0x8C => row(Mnemonic::Sty, 3, 4, Mode::Abs),
        0x8D => row(Mnemonic::Sta, 3, 4, Mode::Abs),
        0x8E => row(Mnemonic::Stx, 3, 4, Mode::Abs),
        0x90 => row(Mnemonic::Bcc, 2, 2, Mode::Rel),
        0x91 => row(Mnemonic::Sta, 2, 6, Mode::Izy),
        0x94 => row(Mnemonic::Sty, 2, 4, Mode::Zpx),
        0x95 => row(Mnemonic::Sta, 2, 4, Mode::Zpx),
        0x96 => row(Mnemonic::Stx, 2, 4, Mode::Zpy),
        0x98 => row(Mnemonic::Tya, 1, 2, Mode::Imp),
        0x99 => row(Mnemonic::Sta, 3, 5, Mode::Aby),
        0x9A => row(Mnemonic::Txs, 1, 2, Mode::Imp),
        0x9D => row(Mnemonic::Sta, 3, 5, Mode::Abx),
        0xA0 => row(Mnemonic::Ldy, 2, 2, Mode::Imm),
        0xA1 => row(Mnemonic::Lda, 2, 6, Mode::Izx),
        0xA2 => row(Mnemonic::Ldx, 2, 2, Mode::Imm),
        0xA4 => row(Mnemonic::Ldy, 2, 3, Mode::Zpg),
        0xA5 => row(Mnemonic::Lda, 2, 3, Mode::Zpg),
        0xA6 => row(Mnemonic::Ldx, 2, 3, Mode::Zpg),
        0xA8 => row(Mnemonic::Tay, 1, 2, Mode::Imp),
        0xA9 => row(Mnemonic::Lda, 2, 2, Mode::Imm),
        0xAA => row(Mnemonic::Tax, 1, 2, Mode::Imp),
        0xAC => row(Mnemonic::Ldy, 3, 4, Mode::Abs),
        0xAD => row(Mnemonic::Lda, 3, 4, Mode::Abs),
        0xAE => row(Mnemonic::Ldx, 3, 4, Mode::Abs),
        0xB0 => row(Mnemonic::Bcs, 2, 2, Mode::Rel),
        0xB1 => row(Mnemonic::Lda, 2, 5, Mode::Izy),
        0xB4 => row(Mnemonic::Ldy, 2, 4, Mode::Zpx),
        0xB5 => row(Mnemonic::Lda, 2, 4, Mode::Zpx),
        0xB6 => row(Mnemonic::Ldx, 2, 4, Mode::Zpy),
        0xB8 => row(Mnemonic::Clv, 1, 2, Mode::Imp),
        0xB9 => row(Mnemonic::Lda, 3, 4, Mode::Aby),
        0xBA => row(Mnemonic::Tsx, 1, 2, Mode::Imp),
        0xBC => row(Mnemonic::Ldy, 3, 4, Mode::Abx),
        0xBD => row(Mnemonic::Lda, 3, 4, Mode::Abx),
        0xBE => row(Mnemonic::Ldx, 3, 4, Mode::Aby),
        0xC0 => row(Mnemonic::Cpy, 2, 2, Mode::Imm),
        0xC1 => row(Mnemonic::Cmp, 2, 6, Mode::Izx),
        0xC4 => row(Mnemonic::Cpy, 2, 3, Mode::Zpg),
        0xC5 => row(Mnemonic::Cmp, 2, 3, Mode::Zpg),
        0xC6 => row(Mnemonic::Dec, 2, 5, Mode::Zpg),
        0xC8 => row(Mnemonic::Iny, 1, 2, Mode::Imp),
        0xC9 => row(Mnemonic::Cmp, 2, 2, Mode::Imm),
        0xCA => row(Mnemonic::Dex, 1, 2, Mode::Imp),
        0xCC => row(Mnemonic::Cpy, 3, 4, Mode::Abs),
        0xCD => row(Mnemonic::Cmp, 3, 4, Mode::Abs),
        0xCE => row(Mnemonic::Dec, 3, 6, Mode::Abs),
        0xD0 => row(Mnemonic::Bne, 2, 2, Mode::Rel),
        0xD1 => row(Mnemonic::Cmp, 2, 5, Mode::Izy),
        0xD5 => row(Mnemonic::Cmp, 2, 4, Mode::Zpx),
        0xD6 => row(Mnemonic::Dec, 2, 6, Mode::Zpx),
        0xD8 => row(Mnemonic::Cld, 1, 2, Mode::Imp),
        0xD9 => row(Mnemonic::Cmp, 3, 4, Mode::Aby),
        0xDD => row(Mnemonic::Cmp, 3, 4, Mode::Abx),
        0xDE => row(Mnemonic::Dec, 3, 7, Mode::Abx),
        0xE0 => row(Mnemonic::Cpx, 2, 2, Mode::Imm),
        0xE1 => row(Mnemonic::Sbc, 2, 6, Mode::Izx),
        0xE4 => row(Mnemonic::Cpx, 2, 3, Mode::Zpg),
        0xE5 => row(Mnemonic::Sbc, 2, 3, Mode::Zpg),
        0xE6 => row(Mnemonic::Inc, 2, 5, Mode::Zpg),
        0xE8 => row(Mnemonic::Inx, 1, 2, Mode::Imp),
        0xE9 => row(Mnemonic::Sbc, 2, 2, Mode::Imm),
        0xEA => row(Mnemonic::Nop, 1, 2, Mode::Imp),
        0xEC => row(Mnemonic::Cpx, 3, 4, Mode::Abs),
        0xED => row(Mnemonic::Sbc, 3, 4, Mode::Abs),
        0xEE => row(Mnemonic::Inc, 3, 6, Mode::Abs),
        0xF0 => row(Mnemonic::Beq, 2, 2, Mode::Rel),
        0xF1 => row(Mnemonic::Sbc, 2, 5, Mode::Izy),
        0xF5 => row(Mnemonic::Sbc, 2, 4, Mode::Zpx),
        0xF6 => row(Mnemonic::Inc, 2, 6, Mode::Zpx),
        0xF8 => row(Mnemonic::Sed, 1, 2, Mode::Imp),
        0xF9 => row(Mnemonic::Sbc, 3, 4, Mode::Aby),
        0xFD => row(Mnemonic::Sbc, 3, 4, Mode::Abx),
        0xFE => row(Mnemonic::Inc, 3, 7, Mode::Abx),
        _ => row(Mnemonic::Illegal, 0, 0, Mode::Nul),
    }
}

/// The instruction size that an addressing mode dictates: opcode byte
/// plus zero, one or two operand bytes.
pub open spec fn mode_size(m: Mode) -> u8 {
    match m {
        Mode::Imp | Mode::Acc => 1,
        Mode::Imm | Mode::Zpg | Mode::Zpx | Mode::Zpy | Mode::Izx | Mode::Izy | Mode::Rel => 2,
        Mode::Abs | Mode::Abx | Mode::Aby | Mode::Ind => 3,
        Mode::Nul => 0,
    }
}

/// Consistency of the opcode table, over every one of the 256 opcode
/// bytes: size 0, cycle count 0 and the null mode occur exactly on the
/// illegal slots, and each documented opcode's size is the one its
/// addressing mode dictates.
pub proof fn lemma_opcode_table_consistent(b: u8)
    ensures
        (op_info(b).size == 0) <==> (op_info(b).mnemonic == Mnemonic::Illegal),
        (op_info(b).ticks == 0) <==> (op_info(b).mnemonic == Mnemonic::Illegal),
        (op_info(b).mode == Mode::Nul) <==> (op_info(b).mnemonic == Mnemonic::Illegal),
        op_info(b).size == mode_size(op_info(b).mode),
        op_info(b).size <= 3,
{
}

/// A decoded instruction: the raw opcode byte, its table line, and the
/// two operand bytes as fetched (assembled little-endian into `param`;
/// bytes beyond the instruction's true size are lookahead and unused).
#[derive(Clone, Copy, Debug, PartialEq, Eq, Structural)]
pub struct Op {
    pub raw: u8,
    pub opcode: Mnemonic,
    pub size: u8,
    pub ticks: u8,
    pub mode: Mode,
    pub param: u16,
}

/// What decoding an opcode byte and its two following bytes yields.
pub open spec fn decode_spec(instruction: u8, param_lo: u8, param_hi: u8) -> Op {
    Op {
        raw: instruction,
        opcode: op_info(instruction).mnemonic,
        size: op_info(instruction).size,
        ticks: op_info(instruction).ticks,
        mode: op_info(instruction).mode,
        param: word(param_lo, param_hi),
    }
}

impl Op {
    /// Decode an instruction from its opcode byte and the two bytes that
    /// follow it in memory.
    pub fn new(instruction: u8, param_lo: u8, param_hi: u8) -> (r: Op)
        ensures
            r == decode_spec(instruction, param_lo, param_hi),
    {
        let info = lookup_op(instruction);
        Op {
            raw: instruction,
            opcode: info.mnemonic,
            size: info.size,
            ticks: info.ticks,
            mode: info.mode,
            param: (param_hi as u16) * 0x100 + (param_lo as u16),
        }
    }
}

} // verus!
