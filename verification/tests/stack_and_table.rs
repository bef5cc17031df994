//! Tests for the stack instructions, subroutine linkage, the opcode
//! table, the memory bus and the cart.

use mos6502::cart::Cart;
use mos6502::cpu::{Fault, CPU};
use mos6502::memory::Memory;
use mos6502::opcodes::{lookup_op, Mnemonic, Mode, Op};

#[test]
fn jsr_and_rts_round_trip() {
    let mut mem = Memory::new();
    // JSR $0005 at 0; RTS at 5
    mem.load(vec![0x20, 0x05, 0x00], 0);
    mem.load(vec![0x60], 5);
    let mut cpu = CPU::new();
    cpu.s = 0xFF;
    assert_eq!(cpu.tick(&mut mem), Ok(6));
    assert_eq!(cpu.pc, 0x0005);
    assert_eq!(cpu.s, 0xFD);
    // the address of the last byte of the JSR was pushed, high byte first
    assert_eq!(mem.get(0x01FF), 0x00);
    assert_eq!(mem.get(0x01FE), 0x02);
    assert_eq!(cpu.tick(&mut mem), Ok(6));
    assert_eq!(cpu.pc, 0x0003);
    assert_eq!(cpu.s, 0xFF);
}

#[test]
fn jmp_absolute_reassigns_pc() {
    let mut mem = Memory::new();
    mem.load(vec![0x4C, 0x34, 0x12], 0);
    let mut cpu = CPU::new();
    assert_eq!(cpu.tick(&mut mem), Ok(3));
    assert_eq!(cpu.pc, 0x1234);
}

#[test]
fn pha_pla_round_trip() {
    let mut mem = Memory::new();
    // LDA #$42; PHA; LDA #$00; PLA
    mem.load(vec![0xA9, 0x42, 0x48, 0xA9, 0x00, 0x68], 0);
    let mut cpu = CPU::new();
    cpu.s = 0xFF;
    cpu.tick(&mut mem).unwrap();
    assert_eq!(cpu.tick(&mut mem), Ok(3));
    assert_eq!(mem.get(0x01FF), 0x42);
    assert_eq!(cpu.s, 0xFE);
    cpu.tick(&mut mem).unwrap();
    assert!(cpu.z);
    assert_eq!(cpu.tick(&mut mem), Ok(4));
    assert_eq!(cpu.a, 0x42);
    assert!(!cpu.z);
    assert_eq!(cpu.s, 0xFF);
}

#[test]
fn php_plp_preserve_flags() {
    let mut mem = Memory::new();
    // SEC; SED; PHP; CLC; CLD; PLP
    mem.load(vec![0x38, 0xF8, 0x08, 0x18, 0xD8, 0x28], 0);
    let mut cpu = CPU::new();
    cpu.s = 0xFF;
    for _ in 0..3 {
        cpu.tick(&mut mem).unwrap();
    }
    // pushed byte has carry, decimal, break and the always-set bit
    assert_eq!(mem.get(0x01FF), 0b0011_1001);
    cpu.tick(&mut mem).unwrap();
    cpu.tick(&mut mem).unwrap();
    assert!(!cpu.c);
    assert!(!cpu.d);
    cpu.tick(&mut mem).unwrap();
    assert!(cpu.c);
    assert!(cpu.d);
}

#[test]
fn stack_pointer_wraps_around() {
    let mut mem = Memory::new();
    mem.load(vec![0x48], 0);
    let mut cpu = CPU::new();
    cpu.s = 0x00;
    cpu.a = 0x5A;
    cpu.tick(&mut mem).unwrap();
    assert_eq!(mem.get(0x0100), 0x5A);
    assert_eq!(cpu.s, 0xFF);
}

#[test]
fn rti_restores_flags_and_pc() {
    let mut mem = Memory::new();
    mem.load(vec![0x40], 0);
    let mut cpu = CPU::new();
    cpu.s = 0xFC;
    mem.set(0x01FD, 0b1000_0001);  // negative and carry
    mem.set(0x01FE, 0x34);
    mem.set(0x01FF, 0x12);
    assert_eq!(cpu.tick(&mut mem), Ok(6));
    assert_eq!(cpu.pc, 0x1234);
    assert!(cpu.c);
    assert!(cpu.n);
    assert!(!cpu.z);
    assert_eq!(cpu.s, 0xFF);
}

#[test]
fn opcode_table_size_zero_exactly_on_illegal() {
    for b in 0..=255u8 {
        let info = lookup_op(b);
        assert_eq!(info.size == 0, info.mnemonic == Mnemonic::Illegal);
        assert_eq!(info.ticks == 0, info.mnemonic == Mnemonic::Illegal);
        assert_eq!(info.mode == Mode::Nul, info.mnemonic == Mnemonic::Illegal);
        assert!(info.size <= 3);
    }
}

#[test]
fn opcode_table_has_151_documented_entries() {
    let mut n = 0;
    for b in 0..=255u8 {
        if lookup_op(b).mnemonic != Mnemonic::Illegal {
            n += 1;
        }
    }
    assert_eq!(n, 151);
}

#[test]
fn op_new_decodes_lda_immediate() {
    let op = Op::new(0xA9, 0x05, 0x00);
    assert_eq!(op.raw, 0xA9);
    assert_eq!(op.opcode, Mnemonic::Lda);
    assert_eq!(op.size, 2);
    assert_eq!(op.ticks, 2);
    assert_eq!(op.mode, Mode::Imm);
    assert_eq!(op.param, 0x0005);
}

#[test]
fn op_new_assembles_param_little_endian() {
    let op = Op::new(0x8D, 0x00, 0x02);
    assert_eq!(op.opcode, Mnemonic::Sta);
    assert_eq!(op.mode, Mode::Abs);
    assert_eq!(op.param, 0x0200);
}

#[test]
fn op_new_marks_undocumented_slot_illegal() {
    let op = Op::new(0x02, 0xAA, 0xBB);
    assert_eq!(op.opcode, Mnemonic::Illegal);
    assert_eq!(op.size, 0);
    assert_eq!(op.ticks, 0);
    assert_eq!(op.mode, Mode::Nul);
}

#[test]
fn memory_unmapped_reads_return_zero() {
    let mem = Memory::new();
    assert_eq!(mem.get(0x0000), 0);
    assert_eq!(mem.get(0x1234), 0);
    assert_eq!(mem.get(0xFFFF), 0);
}

#[test]
fn memory_set_then_get() {
    let mut mem = Memory::new();
    mem.set(0xABCD, 0x5C);
    assert_eq!(mem.get(0xABCD), 0x5C);
    assert_eq!(mem.get(0xABCC), 0x00);
}

#[test]
fn memory_load_places_bytes_at_offset() {
    let mut mem = Memory::new();
    mem.load(vec![1, 2, 3], 0x0600);
    assert_eq!(mem.get(0x0600), 1);
    assert_eq!(mem.get(0x0601), 2);
    assert_eq!(mem.get(0x0602), 3);
    assert_eq!(mem.get(0x0603), 0);
}

#[test]
fn memory_load_wraps_past_top_of_address_space() {
    let mut mem = Memory::new();
    mem.load(vec![0xAA, 0xBB], 0xFFFF);
    assert_eq!(mem.get(0xFFFF), 0xAA);
    assert_eq!(mem.get(0x0000), 0xBB);
}

#[test]
fn cart_wraps_and_edits_bytes() {
    let mut cart = Cart::new(vec![0xA9, 0x05, 0x00]);
    assert_eq!(cart.get(0), 0xA9);
    assert_eq!(cart.get(1), 0x05);
    cart.set(1, 0x07);
    assert_eq!(cart.get(1), 0x07);
}

#[test]
fn cart_feeds_memory_and_runs() {
    let cart = Cart::new(vec![0xA9, 0x09, 0x69, 0x01, 0x00]);
    let mut mem = Memory::new();
    mem.load(cart.data, 0);
    let mut cpu = CPU::new();
    let mut total: u32 = 0;
    loop {
        match cpu.tick(&mut mem) {
            Ok(c) => total += c,
            Err(Fault::Halted) => break,
            Err(f) => panic!("unexpected fault {:?}", f),
        }
    }
    assert_eq!(cpu.a, 0x0A);
    assert_eq!(total, 2 + 2 + 7);
    assert!(cpu.halted);
}
