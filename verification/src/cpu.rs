//! The CPU: register file, status flags, and the fetch-decode-execute
//! step. The meaning of one step is the specification function
//! `step_spec`; the executable `CPU::tick` is proved to follow it for
//! every machine state.

use vstd::prelude::*;

use crate::addressing::{operand_address, page, rel_target, resolve, resolve_spec, Operand};
use crate::alu::{
    adc, adc_carry, adc_overflow, adc_result, asl_result, bit, dec8, inc8, lsr_result, make_word,
    rol_result, ror_result, sbc, sbc_carry, sbc_overflow, sbc_result, sub8, wadd16, wadd8, word,
    wrap16, wrap8,
};
use crate::memory::Memory;
use crate::opcodes::{op_info, Mnemonic, Op};

verus! {

/// The register and flag file of the processor, plus the halted marker.
///
/// Every field is always representable in its hardware width; arithmetic
/// on them wraps modulo two's complement, as on the chip.
#[derive(Clone, Copy, Debug, PartialEq, Eq, Structural)]
pub struct CPU {
    /// Program counter.
    pub pc: u16,
    /// Accumulator.
    pub a: u8,
    /// Index register X.
    pub x: u8,
    /// Index register Y.
    pub y: u8,
    /// Stack pointer: an index into the stack page 0x0100..=0x01FF.
    pub s: u8,
    /// Negative flag.
    pub n: bool,
    /// Overflow flag.
    pub v: bool,
    /// Decimal flag (kept and restored, but arithmetic is binary).
    pub d: bool,
    /// Interrupt-disable flag.
    pub i: bool,
    /// Zero flag.
    pub z: bool,
    /// Carry flag.
    pub c: bool,
    /// Set by `BRK` or by an illegal opcode; a halted CPU refuses to step.
    pub halted: bool,
}

/// A fault that ends stepping: either the fetched opcode has no defined
/// semantics, or the CPU had already halted.
#[derive(Clone, Copy, Debug, PartialEq, Eq, Structural)]
pub enum Fault {
    /// The opcode byte at `address` is undocumented; the CPU halts
    /// rather than guess.
    IllegalOpcode { address: u16, raw_byte: u8 },
    /// The CPU was already halted; the step was a no-op.
    Halted,
}

/// Everything one `tick` leaves behind: the new machine state and either
/// the cycles the instruction consumed or the fault that stopped it.
pub struct StepOut {
    pub cpu: CPU,
    pub mem: Seq<u8>,
    pub result: Result<u32, Fault>,
}

/// The effect of one legal instruction on the machine.
pub struct Effect {
    pub cpu: CPU,
    pub mem: Seq<u8>,
    pub ticks: u32,
}

/// The byte an operand stands for: an immediate, the accumulator, the
/// byte at an effective address, or 0 where there is no operand.
pub open spec fn operand_value(oper: Operand, cpu: CPU, mem: Seq<u8>) -> u8 {
    match oper {
        Operand::Implicit => 0,
        Operand::Accum => cpu.a,
        Operand::Immediate(v) => v,
        Operand::Address(a) => mem[a as int],
    }
}

/// Zero and Negative flags recomputed from a result byte.
pub open spec fn with_zn(cpu: CPU, v: u8) -> CPU {
    CPU { z: v == 0, n: v >= 128, ..cpu }
}

/// Memory after writing a result back through an operand: only an
/// address operand touches memory.
pub open spec fn write_operand(mem: Seq<u8>, oper: Operand, v: u8) -> Seq<u8> {
    match oper {
        Operand::Address(a) => mem.update(a as int, v),
        _ => mem,
    }
}

/// Registers after writing a result back through an operand: only the
/// accumulator operand touches a register.
pub open spec fn writeback_cpu(cpu: CPU, oper: Operand, v: u8) -> CPU {
    match oper {
        Operand::Accum => CPU { a: v, ..cpu },
        _ => cpu,
    }
}

/// The status byte as the stack sees it: C, Z, I, D, B, always-set, V, N
/// from bit 0 to bit 7. `brk` is the pushed break bit.
pub open spec fn flags_byte(cpu: CPU, brk: bool) -> u8 {
    (bit(cpu.c) + 2 * bit(cpu.z) + 4 * bit(cpu.i) + 8 * bit(cpu.d) + 16 * bit(brk) + 32 + 64 * bit(
        cpu.v,
    ) + 128 * bit(cpu.n)) as u8
}

/// Flags restored from a status byte pulled off the stack; the break and
/// always-set bits are ignored.
pub open spec fn flags_from_byte(cpu: CPU, p: u8) -> CPU {
    CPU {
        c: p % 2 == 1,
        z: (p / 2) % 2 == 1,
        i: (p / 4) % 2 == 1,
        d: (p / 8) % 2 == 1,
        v: (p / 64) % 2 == 1,
        n: p >= 128,
        ..cpu
    }
}

/// A push: write at the stack page slot, then decrement the pointer with
/// 8-bit wraparound.
pub open spec fn push_spec(cpu: CPU, mem: Seq<u8>, v: u8) -> (CPU, Seq<u8>) {
    (CPU { s: dec8(cpu.s), ..cpu }, mem.update(0x100 + cpu.s as int, v))
}

/// A pop: increment the pointer with 8-bit wraparound, then read the
/// stack page slot.
pub open spec fn pop_spec(cpu: CPU, mem: Seq<u8>) -> (CPU, u8) {
    (CPU { s: inc8(cpu.s), ..cpu }, mem[0x100 + inc8(cpu.s) as int])
}

/// Whether a branch mnemonic's condition holds in a state.
pub open spec fn branch_cond(m: Mnemonic, cpu: CPU) -> bool {
    match m {
        Mnemonic::Bcc => !cpu.c,
        Mnemonic::Bcs => cpu.c,
        Mnemonic::Beq => cpu.z,
        Mnemonic::Bne => !cpu.z,
        Mnemonic::Bmi => cpu.n,
        Mnemonic::Bpl => !cpu.n,
        Mnemonic::Bvc => !cpu.v,
        Mnemonic::Bvs => cpu.v,
        _ => false,
    }
}

/// Base cycles plus the page-cross penalty of the read instructions.
pub open spec fn penalized(base: u8, crossed: bool) -> u32 {
    (base + bit(crossed)) as u32
}

/// Effect of the load and store instructions: copy between a register
/// and the effective operand; loads set Zero/Negative, stores touch no
/// flag and cost their base cycles regardless of page crossing.
pub open spec fn load_store_spec(
    m: Mnemonic,
    cpu: CPU,
    mem: Seq<u8>,
    oper: Operand,
    crossed: bool,
    base: u8,
) -> Effect {
    match m {
        Mnemonic::Lda => ({
            let v = operand_value(oper, cpu, mem);
            Effect { cpu: with_zn(CPU { a: v, ..cpu }, v), mem, ticks: penalized(base, crossed) }
        }),
        Mnemonic::Ldx => ({
            let v = operand_value(oper, cpu, mem);
            Effect { cpu: with_zn(CPU { x: v, ..cpu }, v), mem, ticks: penalized(base, crossed) }
        }),
        Mnemonic::Ldy => ({
            let v = operand_value(oper, cpu, mem);
            Effect { cpu: with_zn(CPU { y: v, ..cpu }, v), mem, ticks: penalized(base, crossed) }
        }),
        Mnemonic::Sta => Effect {
            cpu: writeback_cpu(cpu, oper, cpu.a),
            mem: write_operand(mem, oper, cpu.a),
            ticks: base as u32,
        },
        Mnemonic::Stx => Effect {
            cpu: writeback_cpu(cpu, oper, cpu.x),
            mem: write_operand(mem, oper, cpu.x),
            ticks: base as u32,
        },
        Mnemonic::Sty => Effect {
            cpu: writeback_cpu(cpu, oper, cpu.y),
            mem: write_operand(mem, oper, cpu.y),
            ticks: base as u32,
        },
        _ => Effect { cpu, mem, ticks: 0 },
    }
}

/// Effect of the arithmetic, logic, bit-test and compare instructions.
pub open spec fn arith_spec(
    m: Mnemonic,
    cpu: CPU,
    mem: Seq<u8>,
    oper: Operand,
    crossed: bool,
    base: u8,
) -> Effect {
    let v = operand_value(oper, cpu, mem);
    match m {
        Mnemonic::Adc => ({
            let r = adc_result(cpu.a, v, cpu.c);
            Effect {
                cpu: with_zn(
                    CPU {
                        a: r,
                        c: adc_carry(cpu.a, v, cpu.c),
                        v: adc_overflow(cpu.a, v, cpu.c),
                        ..cpu
                    },
                    r,
                ),
                mem,
                ticks: penalized(base, crossed),
            }
        }),
        Mnemonic::Sbc => ({
            let r = sbc_result(cpu.a, v, cpu.c);
            Effect {
                cpu: with_zn(
                    CPU {
                        a: r,
                        c: sbc_carry(cpu.a, v, cpu.c),
                        v: sbc_overflow(cpu.a, v, cpu.c),
                        ..cpu
                    },
                    r,
                ),
                mem,
                ticks: penalized(base, crossed),
            }
        }),
        Mnemonic::And => ({
            let r = cpu.a & v;
            Effect { cpu: with_zn(CPU { a: r, ..cpu }, r), mem, ticks: penalized(base, crossed) }
        }),
        Mnemonic::Ora => ({
            let r = cpu.a | v;
            Effect { cpu: with_zn(CPU { a: r, ..cpu }, r), mem, ticks: penalized(base, crossed) }
        }),
        Mnemonic::Eor => ({
            let r = cpu.a ^ v;
            Effect { cpu: with_zn(CPU { a: r, ..cpu }, r), mem, ticks: penalized(base, crossed) }
        }),
        Mnemonic::Bit => Effect {
            cpu: CPU { z: (cpu.a & v) == 0, n: v & 0x80 != 0, v: v & 0x40 != 0, ..cpu },
            mem,
            ticks: base as u32,
        },
        Mnemonic::Cmp => Effect {
            cpu: CPU { c: cpu.a >= v, z: cpu.a == v, n: sub8(cpu.a, v) >= 128, ..cpu },
            mem,
            ticks: penalized(base, crossed),
        },
        Mnemonic::Cpx => Effect {
            cpu: CPU { c: cpu.x >= v, z: cpu.x == v, n: sub8(cpu.x, v) >= 128, ..cpu },
            mem,
            ticks: base as u32,
        },
        Mnemonic::Cpy => Effect {
            cpu: CPU { c: cpu.y >= v, z: cpu.y == v, n: sub8(cpu.y, v) >= 128, ..cpu },
            mem,
            ticks: base as u32,
        },
        _ => Effect { cpu, mem, ticks: 0 },
    }
}

/// Effect of the read-modify-write instructions: shifts, rotates,
/// increment and decrement, on the accumulator or on memory as the
/// operand says; the shifted-out bit becomes the new Carry.
pub open spec fn rmw_spec(
    m: Mnemonic,
    cpu: CPU,
    mem: Seq<u8>,
    oper: Operand,
    base: u8,
) -> Effect {
    let v = operand_value(oper, cpu, mem);
    match m {
        Mnemonic::Asl => ({
            let r = asl_result(v);
            Effect {
                cpu: writeback_cpu(with_zn(CPU { c: v >= 128, ..cpu }, r), oper, r),
                mem: write_operand(mem, oper, r),
                ticks: base as u32,
            }
        }),
        Mnemonic::Lsr => ({
            let r = lsr_result(v);
            Effect {
                cpu: writeback_cpu(with_zn(CPU { c: v % 2 == 1, ..cpu }, r), oper, r),
                mem: write_operand(mem, oper, r),
                ticks: base as u32,
            }
        }),
        Mnemonic::Rol => ({
            let r = rol_result(v, cpu.c);
            Effect {
                cpu: writeback_cpu(with_zn(CPU { c: v >= 128, ..cpu }, r), oper, r),
                mem: write_operand(mem, oper, r),
                ticks: base as u32,
            }
        }),
        Mnemonic::Ror => ({
            let r = ror_result(v, cpu.c);
            Effect {
                cpu: writeback_cpu(with_zn(CPU { c: v % 2 == 1, ..cpu }, r), oper, r),
                mem: write_operand(mem, oper, r),
                ticks: base as u32,
            }
        }),
        Mnemonic::Inc => ({
            let r = wrap8(v + 1);
            Effect {
                cpu: writeback_cpu(with_zn(cpu, r), oper, r),
                mem: write_operand(mem, oper, r),
                ticks: base as u32,
            }
        }),
        Mnemonic::Dec => ({
            let r = wrap8(v + 255);
            Effect {
                cpu: writeback_cpu(with_zn(cpu, r), oper, r),
                mem: write_operand(mem, oper, r),
                ticks: base as u32,
            }
        }),
        _ => Effect { cpu, mem, ticks: 0 },
    }
}

/// Effect of the control-flow instructions: conditional branches with
/// their taken and page-cross penalties, jumps, subroutine call and
/// returns, and `BRK`, which pushes state and halts.
pub open spec fn flow_spec(
    m: Mnemonic,
    cpu: CPU,
    mem: Seq<u8>,
    oper: Operand,
    crossed: bool,
    base: u8,
) -> Effect {
    match m {
        Mnemonic::Bcc | Mnemonic::Bcs | Mnemonic::Beq | Mnemonic::Bne | Mnemonic::Bmi
            | Mnemonic::Bpl | Mnemonic::Bvc | Mnemonic::Bvs => ({
            if branch_cond(m, cpu) {
                Effect {
                    cpu: CPU { pc: operand_address(oper), ..cpu },
                    mem,
                    ticks: (base + 1 + bit(crossed)) as u32,
                }
            } else {
                Effect { cpu, mem, ticks: base as u32 }
            }
        }),
        Mnemonic::Jmp => Effect {
            cpu: CPU { pc: operand_address(oper), ..cpu },
            mem,
            ticks: base as u32,
        },
        Mnemonic::Jsr => ({
            let ret = wrap16(cpu.pc + 0xFFFF);
            let (cpu1, mem1) = push_spec(cpu, mem, (ret / 256) as u8);
            let (cpu2, mem2) = push_spec(cpu1, mem1, (ret % 256) as u8);
            Effect { cpu: CPU { pc: operand_address(oper), ..cpu2 }, mem: mem2, ticks: base as u32 }
        }),
        Mnemonic::Rts => ({
            let (cpu1, lo) = pop_spec(cpu, mem);
            let (cpu2, hi) = pop_spec(cpu1, mem);
            Effect { cpu: CPU { pc: wrap16(word(lo, hi) + 1), ..cpu2 }, mem, ticks: base as u32 }
        }),
        Mnemonic::Rti => ({
            let (cpu1, p) = pop_spec(cpu, mem);
            let cpu1f = flags_from_byte(cpu1, p);
            let (cpu2, lo) = pop_spec(cpu1f, mem);
            let (cpu3, hi) = pop_spec(cpu2, mem);
            Effect { cpu: CPU { pc: word(lo, hi), ..cpu3 }, mem, ticks: base as u32 }
        }),
        Mnemonic::Brk => ({
            let ret = wrap16(cpu.pc + 1);
            let (cpu1, mem1) = push_spec(cpu, mem, (ret / 256) as u8);
            let (cpu2, mem2) = push_spec(cpu1, mem1, (ret % 256) as u8);
            let (cpu3, mem3) = push_spec(cpu2, mem2, flags_byte(cpu2, true));
            Effect { cpu: CPU { i: true, halted: true, ..cpu3 }, mem: mem3, ticks: base as u32 }
        }),
        _ => Effect { cpu, mem, ticks: 0 },
    }
}

/// Effect of the stack instructions: push and pull of the accumulator
/// and of the packed status byte.
pub open spec fn stack_spec(m: Mnemonic, cpu: CPU, mem: Seq<u8>, base: u8) -> Effect {
    match m {
        Mnemonic::Pha => ({
            let (cpu1, mem1) = push_spec(cpu, mem, cpu.a);
            Effect { cpu: cpu1, mem: mem1, ticks: base as u32 }
        }),
        Mnemonic::Php => ({
            let (cpu1, mem1) = push_spec(cpu, mem, flags_byte(cpu, true));
            Effect { cpu: cpu1, mem: mem1, ticks: base as u32 }
        }),
        Mnemonic::Pla => ({
            let (cpu1, v) = pop_spec(cpu, mem);
            Effect { cpu: with_zn(CPU { a: v, ..cpu1 }, v), mem, ticks: base as u32 }
        }),
        Mnemonic::Plp => ({
            let (cpu1, p) = pop_spec(cpu, mem);
            Effect { cpu: flags_from_byte(cpu1, p), mem, ticks: base as u32 }
        }),
        _ => Effect { cpu, mem, ticks: 0 },
    }
}

/// Effect of the register-only instructions: index increments and
/// decrements, transfers, flag sets and clears, and `NOP`.
pub open spec fn reg_spec(m: Mnemonic, cpu: CPU, mem: Seq<u8>, base: u8) -> Effect {
    match m {
        Mnemonic::Inx => ({
            let r = wrap8(cpu.x + 1);
            Effect { cpu: with_zn(CPU { x: r, ..cpu }, r), mem, ticks: base as u32 }
        }),
        Mnemonic::Iny => ({
            let r = wrap8(cpu.y + 1);
            Effect { cpu: with_zn(CPU { y: r, ..cpu }, r), mem, ticks: base as u32 }
        }),
        Mnemonic::Dex => ({
            let r = wrap8(cpu.x + 255);
            Effect { cpu: with_zn(CPU { x: r, ..cpu }, r), mem, ticks: base as u32 }
        }),
        Mnemonic::Dey => ({
            let r = wrap8(cpu.y + 255);
            Effect { cpu: with_zn(CPU { y: r, ..cpu }, r), mem, ticks: base as u32 }
        }),
        Mnemonic::Tax => ({
            let r = cpu.a;
            Effect { cpu: with_zn(CPU { x: r, ..cpu }, r), mem, ticks: base as u32 }
        }),
        Mnemonic::Tay => ({
            let r = cpu.a;
            Effect { cpu: with_zn(CPU { y: r, ..cpu }, r), mem, ticks: base as u32 }
        }),
        Mnemonic::Tsx => ({
            let r = cpu.s;
            Effect { cpu: with_zn(CPU { x: r, ..cpu }, r), mem, ticks: base as u32 }
        }),
        Mnemonic::Txa => ({
            let r = cpu.x;
            Effect { cpu: with_zn(CPU { a: r, ..cpu }, r), mem, ticks: base as u32 }
        }),
        Mnemonic::Tya => ({
            let r = cpu.y;
            Effect { cpu: with_zn(CPU { a: r, ..cpu }, r), mem, ticks: base as u32 }
        }),
        Mnemonic::Txs => Effect { cpu: CPU { s: cpu.x, ..cpu }, mem, ticks: base as u32 },
        Mnemonic::Clc => Effect { cpu: CPU { c: false, ..cpu }, mem, ticks: base as u32 },
        Mnemonic::Sec => Effect { cpu: CPU { c: true, ..cpu }, mem, ticks: base as u32 },
        Mnemonic::Cli => Effect { cpu: CPU { i: false, ..cpu }, mem, ticks: base as u32 },
        Mnemonic::Sei => Effect { cpu: CPU { i: true, ..cpu }, mem, ticks: base as u32 },
        Mnemonic::Cld => Effect { cpu: CPU { d: false, ..cpu }, mem, ticks: base as u32 },
        Mnemonic::Sed => Effect { cpu: CPU { d: true, ..cpu }, mem, ticks: base as u32 },
        Mnemonic::Clv => Effect { cpu: CPU { v: false, ..cpu }, mem, ticks: base as u32 },
        Mnemonic::Nop => Effect { cpu, mem, ticks: base as u32 },
        _ => Effect { cpu, mem, ticks: 0 },
    }
}

/// The semantic effect of one legal instruction, dispatched by group.
///
/// `cpu` is the state with the program counter already advanced past the
/// instruction; `mem` is memory as it stood at fetch time; `oper` and
/// `crossed` come from operand resolution, `base` from the opcode table.
pub open spec fn instr_spec(
    m: Mnemonic,
    cpu: CPU,
    mem: Seq<u8>,
    oper: Operand,
    crossed: bool,
    base: u8,
) -> Effect {
    match m {
        Mnemonic::Lda | Mnemonic::Ldx | Mnemonic::Ldy | Mnemonic::Sta | Mnemonic::Stx
            | Mnemonic::Sty => load_store_spec(m, cpu, mem, oper, crossed, base),
        Mnemonic::Adc | Mnemonic::Sbc | Mnemonic::And | Mnemonic::Ora | Mnemonic::Eor
            | Mnemonic::Bit | Mnemonic::Cmp | Mnemonic::Cpx | Mnemonic::Cpy => arith_spec(
            m,
            cpu,
            mem,
            oper,
            crossed,
            base,
        ),
        Mnemonic::Asl | Mnemonic::Lsr | Mnemonic::Rol | Mnemonic::Ror | Mnemonic::Inc
            | Mnemonic::Dec => rmw_spec(m, cpu, mem, oper, base),
        Mnemonic::Bcc | Mnemonic::Bcs | Mnemonic::Beq | Mnemonic::Bne | Mnemonic::Bmi
            | Mnemonic::Bpl | Mnemonic::Bvc | Mnemonic::Bvs | Mnemonic::Jmp | Mnemonic::Jsr
            | Mnemonic::Rts | Mnemonic::Rti | Mnemonic::Brk => flow_spec(
            m,
            cpu,
            mem,
            oper,
            crossed,
            base,
        ),
        Mnemonic::Pha | Mnemonic::Php | Mnemonic::Pla | Mnemonic::Plp => stack_spec(
            m,
            cpu,
            mem,
            base,
        ),
        _ => reg_spec(m, cpu, mem, base),
    }
}

/// One full step of the machine: fetch, decode, resolve, execute,
/// advance, count cycles.
///
/// A halted CPU refuses the step and reports `Halted`, leaving the
/// machine untouched. An undocumented opcode halts the CPU and reports
/// the faulting address and raw byte. Otherwise the instruction's effect
/// applies atomically and the step yields its cycle cost.
pub open spec fn step_spec(cpu: CPU, mem: Seq<u8>) -> StepOut {
    if cpu.halted {
        StepOut { cpu, mem, result: Err(Fault::Halted) }
    } else {
        let raw = mem[cpu.pc as int];
        let info = op_info(raw);
        if info.mnemonic == Mnemonic::Illegal {
            StepOut {
                cpu: CPU { halted: true, ..cpu },
                mem,
                result: Err(Fault::IllegalOpcode { address: cpu.pc, raw_byte: raw }),
            }
        } else {
            let lo = mem[wrap16(cpu.pc + 1) as int];
            let hi = mem[wrap16(cpu.pc + 2) as int];
            let res = resolve_spec(info.mode, lo, hi, cpu.pc, cpu.x, cpu.y, mem);
            let cpu1 = CPU { pc: wrap16(cpu.pc + info.size), ..cpu };
            let eff = instr_spec(info.mnemonic, cpu1, mem, res.operand, res.page_crossed,
                info.ticks);
            StepOut { cpu: eff.cpu, mem: eff.mem, result: Ok(eff.ticks) }
        }
    }
}

impl CPU {
    /// A freshly powered CPU: all registers and flags zeroed, not halted,
    /// program counter at 0.
    pub fn new() -> (r: CPU)
        ensures
            r.pc == 0 && r.a == 0 && r.x == 0 && r.y == 0 && r.s == 0,
            !r.n && !r.v && !r.d && !r.i && !r.z && !r.c,
            !r.halted,
    {
        CPU {
            pc: 0,
            a: 0,
            x: 0,
            y: 0,
            s: 0,
            n: false,
            v: false,
            d: false,
            i: false,
            z: false,
            c: false,
            halted: false,
        }
    }

    /// Set the Zero and Negative flags from a result byte.
    fn set_zn(&mut self, v: u8)
        ensures
            *final(self) == with_zn(*old(self), v),
    {
        self.z = v == 0;
        self.n = v >= 128;
    }

    /// Push a byte onto the stack page.
    fn push(&mut self, mem: &mut Memory, v: u8)
        requires
            old(mem).wf(),
        ensures
            final(mem).wf(),
            *final(self) == push_spec(*old(self), old(mem)@, v).0,
            final(mem)@ == push_spec(*old(self), old(mem)@, v).1,
    {
        mem.set(0x100 + self.s as u16, v);
        self.s = if self.s == 0 {
            255
        } else {
            self.s - 1
        };
    }

    /// Pop a byte off the stack page.
    fn pop(&mut self, mem: &Memory) -> (r: u8)
        requires
            mem.wf(),
        ensures
            *final(self) == pop_spec(*old(self), mem@).0,
            r == pop_spec(*old(self), mem@).1,
    {
        self.s = if self.s == 255 {
            0
        } else {
            self.s + 1
        };
        mem.get(0x100 + self.s as u16)
    }

    /// Pack the flags into a status byte, with the break bit as given.
    fn pack_flags(&self, brk: bool) -> (r: u8)
        ensures
            r == flags_byte(*self, brk),
    {
        let mut v: u8 = 32;
        if self.c {
            v = v + 1;
        }
        if self.z {
            v = v + 2;
        }
        if self.i {
            v = v + 4;
        }
        if self.d {
            v = v + 8;
        }
        if brk {
            v = v + 16;
        }
        if self.v {
            v = v + 64;
        }
        if self.n {
            v = v + 128;
        }
        v
    }

    /// Restore the flags from a status byte pulled off the stack.
    fn apply_flags(&mut self, p: u8)
        ensures
            *final(self) == flags_from_byte(*old(self), p),
    {
        self.c = p % 2 == 1;
        self.z = (p / 2) % 2 == 1;
        self.i = (p / 4) % 2 == 1;
        self.d = (p / 8) % 2 == 1;
        self.v = (p / 64) % 2 == 1;
        self.n = p >= 128;
    }

    /// Read the byte an operand stands for.
    fn read_operand(&self, mem: &Memory, oper: Operand) -> (r: u8)
        requires
            mem.wf(),
        ensures
            r == operand_value(oper, *self, mem@),
    {
        match oper {
            Operand::Implicit => 0,
            Operand::Accum => self.a,
            Operand::Immediate(v) => v,
            Operand::Address(a) => mem.get(a),
        }
    }

    /// Write a result byte back through an operand: to the accumulator,
    /// to memory, or nowhere.
    fn write_back(&mut self, mem: &mut Memory, oper: Operand, v: u8)
        requires
            old(mem).wf(),
        ensures
            final(mem).wf(),
            *final(self) == writeback_cpu(*old(self), oper, v),
            final(mem)@ == write_operand(old(mem)@, oper, v),
    {
        match oper {
            Operand::Accum => self.a = v,
            Operand::Address(a) => mem.set(a, v),
            _ => {},
        }
    }

    /// The target address of a branch or jump operand.
    fn addr_of(&self, oper: Operand) -> (r: u16)
        ensures
            r == operand_address(oper),
    {
        match oper {
            Operand::Address(a) => a,
            _ => 0,
        }
    }

    /// Apply one legal instruction's semantics and return its cycle
    /// cost, exactly as `instr_spec` dictates.
    fn execute(&mut self, mem: &mut Memory, m: Mnemonic, oper: Operand, crossed: bool, base: u8)
        -> (r: u32)
        requires
            old(mem).wf(),
        ensures
            final(mem).wf(),
            *final(self) == instr_spec(m, *old(self), old(mem)@, oper, crossed, base).cpu,
            final(mem)@ == instr_spec(m, *old(self), old(mem)@, oper, crossed, base).mem,
            r == instr_spec(m, *old(self), old(mem)@, oper, crossed, base).ticks,
    {
        match m {
            Mnemonic::Lda | Mnemonic::Ldx | Mnemonic::Ldy | Mnemonic::Sta | Mnemonic::Stx
                | Mnemonic::Sty => self.exec_load_store(mem, m, oper, crossed, base),
            Mnemonic::Adc | Mnemonic::Sbc | Mnemonic::And | Mnemonic::Ora | Mnemonic::Eor
                | Mnemonic::Bit | Mnemonic::Cmp | Mnemonic::Cpx | Mnemonic::Cpy => self
                .exec_arith(mem, m, oper, crossed, base),
            Mnemonic::Asl | Mnemonic::Lsr | Mnemonic::Rol | Mnemonic::Ror | Mnemonic::Inc
                | Mnemonic::Dec => self.exec_rmw(mem, m, oper, crossed, base),
            Mnemonic::Bcc | Mnemonic::Bcs | Mnemonic::Beq | Mnemonic::Bne | Mnemonic::Bmi
                | Mnemonic::Bpl | Mnemonic::Bvc | Mnemonic::Bvs | Mnemonic::Jmp | Mnemonic::Jsr
                | Mnemonic::Rts | Mnemonic::Rti | Mnemonic::Brk => self.exec_flow(
                mem,
                m,
                oper,
                crossed,
                base,
            ),
            Mnemonic::Pha | Mnemonic::Php | Mnemonic::Pla | Mnemonic::Plp => self.exec_stack(
                mem,
                m,
                oper,
                crossed,
                base,
            ),
            _ => self.exec_reg(mem, m, oper, crossed, base),
        }
    }

    /// Loads and stores: copy between a register and the effective
    /// operand; loads set Zero/Negative, stores touch no flag.
    fn exec_load_store(
        &mut self,
        mem: &mut Memory,
        m: Mnemonic,
        oper: Operand,
        crossed: bool,
        base: u8,
    ) -> (r: u32)
        requires
            old(mem).wf(),
            m is Lda || m is Ldx || m is Ldy || m is Sta || m is Stx || m is Sty,
        ensures
            final(mem).wf(),
            *final(self) == load_store_spec(m, *old(self), old(mem)@, oper, crossed, base).cpu,
            final(mem)@ == load_store_spec(m, *old(self), old(mem)@, oper, crossed, base).mem,
            r == load_store_spec(m, *old(self), old(mem)@, oper, crossed, base).ticks,
    {
        let pen: u32 = if crossed {
            1
        } else {
            0
        };
        match m {
            Mnemonic::Lda => {
                let v = self.read_operand(mem, oper);
                self.a = v;
                self.set_zn(v);
                base as u32 + pen
            },
            Mnemonic::Ldx => {
                let v = self.read_operand(mem, oper);
                self.x = v;
                self.set_zn(v);
                base as u32 + pen
            },
            Mnemonic::Ldy => {
                let v = self.read_operand(mem, oper);
                self.y = v;
                self.set_zn(v);
                base as u32 + pen
            },
            Mnemonic::Sta => {
                let v = self.a;
                self.write_back(mem, oper, v);
                base as u32
            },
            Mnemonic::Stx => {
                let v = self.x;
                self.write_back(mem, oper, v);
                base as u32
            },
            Mnemonic::Sty => {
                let v = self.y;
                self.write_back(mem, oper, v);
                base as u32
            },
            _ => 0,
        }
    }

    /// Arithmetic, logic, bit test and the compares: combine the
    /// accumulator or an index register with the operand and set the
    /// flags the instruction dictates.
    fn exec_arith(
        &mut self,
        mem: &mut Memory,
        m: Mnemonic,
        oper: Operand,
        crossed: bool,
        base: u8,
    ) -> (r: u32)
        requires
            old(mem).wf(),
            m is Adc || m is Sbc || m is And || m is Ora || m is Eor || m is Bit || m is Cmp
                || m is Cpx || m is Cpy,
        ensures
            final(mem).wf(),
            *final(self) == arith_spec(m, *old(self), old(mem)@, oper, crossed, base).cpu,
            final(mem)@ == arith_spec(m, *old(self), old(mem)@, oper, crossed, base).mem,
            r == arith_spec(m, *old(self), old(mem)@, oper, crossed, base).ticks,
    {
        let pen: u32 = if crossed {
            1
        } else {
            0
        };
        match m {
            Mnemonic::Adc => {
                let v = self.read_operand(mem, oper);
                let (r, carry, over) = adc(self.a, v, self.c);
                self.a = r;
                self.c = carry;
                self.v = over;
                self.set_zn(r);
                base as u32 + pen
            },
            Mnemonic::Sbc => {
                let v = self.read_operand(mem, oper);
                let (r, carry, over) = sbc(self.a, v, self.c);
                self.a = r;
                self.c = carry;
                self.v = over;
                self.set_zn(r);
                base as u32 + pen
            },
            Mnemonic::And => {
                let v = self.read_operand(mem, oper);
                let r = self.a & v;
                self.a = r;
                self.set_zn(r);
                base as u32 + pen
            },
            Mnemonic::Ora => {
                let v = self.read_operand(mem, oper);
                let r = self.a | v;
                self.a = r;
                self.set_zn(r);
                base as u32 + pen
            },
            Mnemonic::Eor => {
                let v = self.read_operand(mem, oper);
                let r = self.a ^ v;
                self.a = r;
                self.set_zn(r);
                base as u32 + pen
            },
            Mnemonic::Bit => {
                let v = self.read_operand(mem, oper);
                self.z = (self.a & v) == 0;
                self.n = v & 0x80 != 0;
                self.v = v & 0x40 != 0;
                base as u32
            },
            Mnemonic::Cmp => {
                let v = self.read_operand(mem, oper);
                let d = ((self.a as u16 + 256 - v as u16) % 256) as u8;
                self.c = self.a >= v;
                self.z = self.a == v;
                self.n = d >= 128;
                base as u32 + pen
            },
            Mnemonic::Cpx => {
                let v = self.read_operand(mem, oper);
                let d = ((self.x as u16 + 256 - v as u16) % 256) as u8;
                self.c = self.x >= v;
                self.z = self.x == v;
                self.n = d >= 128;
                base as u32
            },
            Mnemonic::Cpy => {
                let v = self.read_operand(mem, oper);
                let d = ((self.y as u16 + 256 - v as u16) % 256) as u8;
                self.c = self.y >= v;
                self.z = self.y == v;
                self.n = d >= 128;
                base as u32
            },
            _ => 0,
        }
    }

    /// The read-modify-write group: shifts, rotates, increment and
    /// decrement, on the accumulator or on memory as the operand says.
    fn exec_rmw(
        &mut self,
        mem: &mut Memory,
        m: Mnemonic,
        oper: Operand,
        crossed: bool,
        base: u8,
    ) -> (r: u32)
        requires
            old(mem).wf(),
            m is Asl || m is Lsr || m is Rol || m is Ror || m is Inc || m is Dec,
        ensures
            final(mem).wf(),
            *final(self) == rmw_spec(m, *old(self), old(mem)@, oper, base).cpu,
            final(mem)@ == rmw_spec(m, *old(self), old(mem)@, oper, base).mem,
            r == rmw_spec(m, *old(self), old(mem)@, oper, base).ticks,
    {
        match m {
            Mnemonic::Asl => {
                let v = self.read_operand(mem, oper);
                let r = ((v as u16 * 2) % 0x100) as u8;
                self.c = v >= 128;
                self.set_zn(r);
                self.write_back(mem, oper, r);
                base as u32
            },
            Mnemonic::Lsr => {
                let v = self.read_operand(mem, oper);
                let r = v / 2;
                self.c = v % 2 == 1;
                self.set_zn(r);
                self.write_back(mem, oper, r);
                base as u32
            },
            Mnemonic::Rol => {
                let v = self.read_operand(mem, oper);
                let cin: u16 = if self.c {
                    1
                } else {
                    0
                };
                let r = ((v as u16 * 2 + cin) % 0x100) as u8;
                self.c = v >= 128;
                self.set_zn(r);
                self.write_back(mem, oper, r);
                base as u32
            },
            Mnemonic::Ror => {
                let v = self.read_operand(mem, oper);
                let r = v / 2 + if self.c {
                    128
                } else {
                    0
                };
                self.c = v % 2 == 1;
                self.set_zn(r);
                self.write_back(mem, oper, r);
                base as u32
            },
            Mnemonic::Inc => {
                let v = self.read_operand(mem, oper);
                let r = wadd8(v, 1);
                self.set_zn(r);
                self.write_back(mem, oper, r);
                base as u32
            },
            Mnemonic::Dec => {
                let v = self.read_operand(mem, oper);
                let r = wadd8(v, 255);
                self.set_zn(r);
                self.write_back(mem, oper, r);
                base as u32
            },
            _ => 0,
        }
    }

    /// Control flow: branches with their taken and page-cross penalties,
    /// jumps, subroutine linkage through the stack, return from
    /// interrupt, and `BRK`.
    fn exec_flow(
        &mut self,
        mem: &mut Memory,
        m: Mnemonic,
        oper: Operand,
        crossed: bool,
        base: u8,
    ) -> (r: u32)
        requires
            old(mem).wf(),
            m is Bcc || m is Bcs || m is Beq || m is Bne || m is Bmi || m is Bpl || m is Bvc
                || m is Bvs || m is Jmp || m is Jsr || m is Rts || m is Rti || m is Brk,
        ensures
            final(mem).wf(),
            *final(self) == flow_spec(m, *old(self), old(mem)@, oper, crossed, base).cpu,
            final(mem)@ == flow_spec(m, *old(self), old(mem)@, oper, crossed, base).mem,
            r == flow_spec(m, *old(self), old(mem)@, oper, crossed, base).ticks,
    {
        let pen: u32 = if crossed {
            1
        } else {
            0
        };
        match m {
            Mnemonic::Bcc | Mnemonic::Bcs | Mnemonic::Beq | Mnemonic::Bne | Mnemonic::Bmi
                | Mnemonic::Bpl | Mnemonic::Bvc | Mnemonic::Bvs => {
                let cond = match m {
                    Mnemonic::Bcc => !self.c,
                    Mnemonic::Bcs => self.c,
                    Mnemonic::Beq => self.z,
                    Mnemonic::Bne => !self.z,
                    Mnemonic::Bmi => self.n,
                    Mnemonic::Bpl => !self.n,
                    Mnemonic::Bvc => !self.v,
                    _ => self.v,
                };
                if cond {
                    self.pc = self.addr_of(oper);
                    base as u32 + 1 + pen
                } else {
                    base as u32
                }
            },
            Mnemonic::Jmp => {
                self.pc = self.addr_of(oper);
                base as u32
            },
            Mnemonic::Jsr => {
                let ret = wadd16(self.pc, 0xFFFF);
                self.push(mem, (ret / 256) as u8);
                self.push(mem, (ret % 256) as u8);
                self.pc = self.addr_of(oper);
                base as u32
            },
            Mnemonic::Rts => {
                let lo = self.pop(mem);
                let hi = self.pop(mem);
                self.pc = wadd16(make_word(lo, hi), 1);
                base as u32
            },
            Mnemonic::Rti => {
                let p = self.pop(mem);
                self.apply_flags(p);
                let lo = self.pop(mem);
                let hi = self.pop(mem);
                self.pc = make_word(lo, hi);
                base as u32
            },
            Mnemonic::Brk => {
                let ret = wadd16(self.pc, 1);
                self.push(mem, (ret / 256) as u8);
                self.push(mem, (ret % 256) as u8);
                let v = self.pack_flags(true);
                self.push(mem, v);
                self.i = true;
                self.halted = true;
                base as u32
            },
            _ => 0,
        }
    }

    /// The stack group: push and pull of the accumulator and of the
    /// packed status byte.
    fn exec_stack(
        &mut self,
        mem: &mut Memory,
        m: Mnemonic,
        oper: Operand,
        crossed: bool,
        base: u8,
    ) -> (r: u32)
        requires
            old(mem).wf(),
            m is Pha || m is Php || m is Pla || m is Plp,
        ensures
            final(mem).wf(),
            *final(self) == stack_spec(m, *old(self), old(mem)@, base).cpu,
            final(mem)@ == stack_spec(m, *old(self), old(mem)@, base).mem,
            r == stack_spec(m, *old(self), old(mem)@, base).ticks,
    {
        match m {
            Mnemonic::Pha => {
                let v = self.a;
                self.push(mem, v);
                base as u32
            },
            Mnemonic::Php => {
                let v = self.pack_flags(true);
                self.push(mem, v);
                base as u32
            },
            Mnemonic::Pla => {
                let v = self.pop(mem);
                self.a = v;
                self.set_zn(v);
                base as u32
            },
            Mnemonic::Plp => {
                let p = self.pop(mem);
                self.apply_flags(p);
                base as u32
            },
            _ => 0,
        }
    }

    /// The register-only group: increments and decrements of the index
    /// registers, transfers, flag sets and clears, and `NOP`. None of
    /// these touch memory or take an operand.
    fn exec_reg(
        &mut self,
        mem: &mut Memory,
        m: Mnemonic,
        oper: Operand,
        crossed: bool,
        base: u8,
    ) -> (r: u32)
        requires
            old(mem).wf(),
            m is Inx || m is Iny || m is Dex || m is Dey || m is Tax || m is Tay || m is Tsx
                || m is Txa || m is Tya || m is Txs || m is Clc || m is Sec || m is Cli
                || m is Sei || m is Cld || m is Sed || m is Clv || m is Nop || m is Illegal,
        ensures
            final(mem).wf(),
            *final(self) == reg_spec(m, *old(self), old(mem)@, base).cpu,
            final(mem)@ == reg_spec(m, *old(self), old(mem)@, base).mem,
            r == reg_spec(m, *old(self), old(mem)@, base).ticks,
    {
        match m {
            Mnemonic::Inx => {
                let r = wadd8(self.x, 1);
                self.x = r;
                self.set_zn(r);
                base as u32
            },
            Mnemonic::Iny => {
                let r = wadd8(self.y, 1);
                self.y = r;
                self.set_zn(r);
                base as u32
            },
            Mnemonic::Dex => {
                let r = wadd8(self.x, 255);
                self.x = r;
                self.set_zn(r);
                base as u32
            },
            Mnemonic::Dey => {
                let r = wadd8(self.y, 255);
                self.y = r;
                self.set_zn(r);
                base as u32
            },
            Mnemonic::Clc => {
                self.c = false;
                base as u32
            },
            Mnemonic::Sec => {
                self.c = true;
                base as u32
            },
            Mnemonic::Cli => {
                self.i = false;
                base as u32
            },
            Mnemonic::Sei => {
                self.i = true;
                base as u32
            },
            Mnemonic::Cld => {
                self.d = false;
                base as u32
            },
            Mnemonic::Sed => {
                self.d = true;
                base as u32
            },
            Mnemonic::Clv => {
                self.v = false;
                base as u32
            },
            Mnemonic::Tax => {
                let r = self.a;
                self.x = r;
                self.set_zn(r);
                base as u32
            },
            Mnemonic::Tay => {
                let r = self.a;
                self.y = r;
                self.set_zn(r);
                base as u32
            },
            Mnemonic::Tsx => {
                let r = self.s;
                self.x = r;
                self.set_zn(r);
                base as u32
            },
            Mnemonic::Txa => {
                let r = self.x;
                self.a = r;
                self.set_zn(r);
                base as u32
            },
            Mnemonic::Tya => {
                let r = self.y;
                self.a = r;
                self.set_zn(r);
                base as u32
            },
            Mnemonic::Txs => {
                self.s = self.x;
                base as u32
            },
            Mnemonic::Nop => { base as u32 },
            _ => 0,
        }
    }

    /// One transition of the machine: fetch the opcode and its two
    /// lookahead bytes at the program counter, decode them against the
    /// opcode table, resolve the operand, apply the instruction and
    /// advance. Returns the cycles the step consumed, or the fault that
    /// stopped it; after a fault the CPU stays halted and every further
    /// call reports `Halted` without touching anything.
    pub fn tick(&mut self, mem: &mut Memory) -> (r: Result<u32, Fault>)
        requires
            old(mem).wf(),
        ensures
            final(mem).wf(),
            *final(self) == step_spec(*old(self), old(mem)@).cpu,
            final(mem)@ == step_spec(*old(self), old(mem)@).mem,
            r == step_spec(*old(self), old(mem)@).result,
    {
        if self.halted {
            return Err(Fault::Halted);
        }
        let raw = mem.get(self.pc);
        let lo = mem.get(wadd16(self.pc, 1));
        let hi = mem.get(wadd16(self.pc, 2));
        let op = Op::new(raw, lo, hi);
        if op.opcode == Mnemonic::Illegal {
            self.halted = true;
            return Err(Fault::IllegalOpcode { address: self.pc, raw_byte: raw });
        }
        let res = resolve(op.mode, lo, hi, self.pc, self.x, self.y, mem);
        self.pc = wadd16(self.pc, op.size as u16);
        let t = self.execute(mem, op.opcode, res.operand, res.page_crossed, op.ticks);
        Ok(t)
    }
}

/// Branch cycle accounting, read off the step itself for `BEQ`: the
/// untaken branch costs exactly its base 2 cycles; the taken branch
/// costs 3, or 4 when the target lies in a different page than the
/// address just past the branch.
pub proof fn lemma_branch_cycles(cpu: CPU, mem: Seq<u8>)
    requires
        !cpu.halted,
        mem[cpu.pc as int] == 0xF0,
    ensures
        !cpu.z ==> step_spec(cpu, mem).result == Ok::<u32, Fault>(2),
        cpu.z && page(rel_target(wrap16(cpu.pc + 2), mem[wrap16(cpu.pc + 1) as int])) == page(
            wrap16(cpu.pc + 2),
        ) ==> step_spec(cpu, mem).result == Ok::<u32, Fault>(3),
        cpu.z && page(rel_target(wrap16(cpu.pc + 2), mem[wrap16(cpu.pc + 1) as int])) != page(
            wrap16(cpu.pc + 2),
        ) ==> step_spec(cpu, mem).result == Ok::<u32, Fault>(4),
{
}

} // verus!
