//! Operand resolution: from an addressing mode, the fetched operand bytes
//! and the registers to the effective operand of the instruction, plus
//! the page-cross report that cycle accounting needs.

use vstd::prelude::*;

use crate::alu::{wrap16, wrap8, word, wadd16, wadd8, make_word};
use crate::memory::Memory;
use crate::opcodes::Mode;

verus! {

/// The resolved source or target of an instruction: nothing (implied
/// modes), the accumulator register, an immediate byte, or a 16-bit
/// memory address.
#[derive(Clone, Copy, Debug, PartialEq, Eq, Structural)]
pub enum Operand {
    Implicit,
    Accum,
    Immediate(u8),
    Address(u16),
}

/// An effective operand together with whether resolving it crossed a
/// page boundary (the high byte of the address changed), which several
/// opcodes turn into one extra cycle.
#[derive(Clone, Copy, Debug, PartialEq, Eq, Structural)]
pub struct Resolved {
    pub operand: Operand,
    pub page_crossed: bool,
}

/// The address an operand points at, or 0 for operands that are not
/// addresses.
pub open spec fn operand_address(op: Operand) -> u16 {
    match op {
        Operand::Address(a) => a,
        _ => 0,
    }
}

/// The 256-byte page an address lies in: its high byte.
pub open spec fn page(a: u16) -> u16 {
    a / 256
}

/// Branch target: the signed 8-bit offset added to the address just past
/// the two-byte branch instruction, with 16-bit wraparound.
pub open spec fn rel_target(pc_after: u16, off: u8) -> u16 {
    if off < 128 {
        wrap16(pc_after + off)
    } else {
        wrap16(pc_after + off + 0xFF00)
    }
}

/// Resolve an addressing mode to an effective operand.
///
/// `lo` and `hi` are the two bytes fetched after the opcode (little-endian
/// where both are used), `pc` is the address of the opcode itself. Every
/// mode resolves for every input: addresses wrap, they never fail.
///
/// The hardware quirks are part of the meaning: zero-page indexing wraps
/// within page zero; the indirect pointer of `JMP` fetches its high byte
/// from the start of the same page when its low byte is 0xFF; and the
/// zero-page pointers of the indexed-indirect modes wrap within page zero
/// for their own high byte.
pub open spec fn resolve_spec(
    mode: Mode,
    lo: u8,
    hi: u8,
    pc: u16,
    x: u8,
    y: u8,
    mem: Seq<u8>,
) -> Resolved {
    match mode {
        Mode::Imp | Mode::Nul => Resolved { operand: Operand::Implicit, page_crossed: false },
        Mode::Acc => Resolved { operand: Operand::Accum, page_crossed: false },
        Mode::Imm => Resolved { operand: Operand::Immediate(lo), page_crossed: false },
        Mode::Zpg => Resolved { operand: Operand::Address(lo as u16), page_crossed: false },
        Mode::Zpx => Resolved {
            operand: Operand::Address(wrap8(lo + x) as u16),
            page_crossed: false,
        },
        Mode::Zpy => Resolved {
            operand: Operand::Address(wrap8(lo + y) as u16),
            page_crossed: false,
        },
        Mode::Abs => Resolved { operand: Operand::Address(word(lo, hi)), page_crossed: false },
        Mode::Abx => Resolved {
            operand: Operand::Address(wrap16(word(lo, hi) + x)),
            page_crossed: lo + x >= 256,
        },
        Mode::Aby => Resolved {
            operand: Operand::Address(wrap16(word(lo, hi) + y)),
            page_crossed: lo + y >= 256,
        },
        Mode::Ind => ({
            let ptr = word(lo, hi);
            let lo2 = mem[ptr as int];
            let hi2 = mem[(if lo == 0xFF {
                word(0, hi)
            } else {
                (ptr + 1) as u16
            }) as int];
            Resolved { operand: Operand::Address(word(lo2, hi2)), page_crossed: false }
        }),
        Mode::Izx => ({
            let p = wrap8(lo + x);
            let lo2 = mem[p as int];
            let hi2 = mem[wrap8(p + 1) as int];
            Resolved { operand: Operand::Address(word(lo2, hi2)), page_crossed: false }
        }),
        Mode::Izy => ({
            let lo2 = mem[lo as int];
            let hi2 = mem[wrap8(lo + 1) as int];
            Resolved {
                operand: Operand::Address(wrap16(word(lo2, hi2) + y)),
                page_crossed: lo2 + y >= 256,
            }
        }),
        Mode::Rel => ({
            let pca = wrap16(pc + 2);
            let t = rel_target(pca, lo);
            Resolved { operand: Operand::Address(t), page_crossed: page(t) != page(pca) }
        }),
    }
}

/// Executable operand resolution, proved equal to `resolve_spec`.
pub fn resolve(mode: Mode, lo: u8, hi: u8, pc: u16, x: u8, y: u8, mem: &Memory) -> (r: Resolved)
    requires
        mem.wf(),
    ensures
        r == resolve_spec(mode, lo, hi, pc, x, y, mem@),
{
    match mode {
        Mode::Imp | Mode::Nul => Resolved { operand: Operand::Implicit, page_crossed: false },
        Mode::Acc => Resolved { operand: Operand::Accum, page_crossed: false },
        Mode::Imm => Resolved { operand: Operand::Immediate(lo), page_crossed: false },
        Mode::Zpg => Resolved { operand: Operand::Address(lo as u16), page_crossed: false },
        Mode::Zpx => Resolved {
            operand: Operand::Address(wadd8(lo, x) as u16),
            page_crossed: false,
        },
        Mode::Zpy => Resolved {
            operand: Operand::Address(wadd8(lo, y) as u16),
            page_crossed: false,
        },
        Mode::Abs => Resolved { operand: Operand::Address(make_word(lo, hi)), page_crossed: false },
        Mode::Abx => {
            let base = make_word(lo, hi);
            Resolved {
                operand: Operand::Address(wadd16(base, x as u16)),
                page_crossed: lo as u16 + x as u16 >= 256,
            }
        },
        Mode::Aby => {
            let base = make_word(lo, hi);
            Resolved {
                operand: Operand::Address(wadd16(base, y as u16)),
                page_crossed: lo as u16 + y as u16 >= 256,
            }
        },
        Mode::Ind => {
            let ptr = make_word(lo, hi);
            let lo2 = mem.get(ptr);
            let hptr: u16 = if lo == 0xFF {
                make_word(0, hi)
            } else {
                ptr + 1
            };
            let hi2 = mem.get(hptr);
            Resolved { operand: Operand::Address(make_word(lo2, hi2)), page_crossed: false }
        },
        Mode::Izx => {
            let p = wadd8(lo, x);
            let lo2 = mem.get(p as u16);
            let hi2 = mem.get(wadd8(p, 1) as u16);
            Resolved { operand: Operand::Address(make_word(lo2, hi2)), page_crossed: false }
        },
        Mode::Izy => {
            let lo2 = mem.get(lo as u16);
            let hi2 = mem.get(wadd8(lo, 1) as u16);
            let base = make_word(lo2, hi2);
            Resolved {
                operand: Operand::Address(wadd16(base, y as u16)),
                page_crossed: lo2 as u16 + y as u16 >= 256,
            }
        },
        Mode::Rel => {
            let pca = wadd16(pc, 2);
            let t: u16 = if lo < 128 {
                wadd16(pca, lo as u16)
            } else {
                wadd16(pca, lo as u16 + 0xFF00)
            };
            Resolved { operand: Operand::Address(t), page_crossed: t / 256 != pca / 256 }
        },
    }
}

/// Resolution is a pure function of the mode, the operand bytes and the
/// index registers: for every mode other than Relative and the three
/// indirect ones, neither the program counter nor the contents of memory
/// play any part.
pub proof fn lemma_resolve_pure(
    mode: Mode,
    lo: u8,
    hi: u8,
    pc1: u16,
    pc2: u16,
    x: u8,
    y: u8,
    mem1: Seq<u8>,
    mem2: Seq<u8>,
)
    requires
        mode != Mode::Rel,
        mode != Mode::Ind,
        mode != Mode::Izx,
        mode != Mode::Izy,
    ensures
        resolve_spec(mode, lo, hi, pc1, x, y, mem1) == resolve_spec(mode, lo, hi, pc2, x, y, mem2),
{
}

/// Zero-page indexed addressing stays inside page zero: the index is
/// added with 8-bit wraparound, so the effective address never gains a
/// contribution at or above 0x100.
pub proof fn lemma_zero_page_indexed_wraps(
    mode: Mode,
    lo: u8,
    hi: u8,
    pc: u16,
    x: u8,
    y: u8,
    mem: Seq<u8>,
)
    requires
        mode == Mode::Zpg || mode == Mode::Zpx || mode == Mode::Zpy,
    ensures
        resolve_spec(mode, lo, hi, pc, x, y, mem).operand is Address,
        operand_address(resolve_spec(mode, lo, hi, pc, x, y, mem).operand) < 0x100,
{
}

/// The page-boundary quirk of the indirect mode: a pointer at 0x02FF
/// takes its high byte from 0x0200, not 0x0300.
pub proof fn lemma_indirect_page_wrap(pc: u16, x: u8, y: u8, mem: Seq<u8>)
    ensures
        resolve_spec(Mode::Ind, 0xFF, 0x02, pc, x, y, mem).operand == Operand::Address(
            word(mem[0x02FF], mem[0x0200]),
        ),
{
}

} // verus!
