//! Tests for addressing-mode resolution: wrap quirks, page-cross cycle
//! penalties and branch timing.

use mos6502::addressing::{resolve, Operand, Resolved};
use mos6502::cpu::CPU;
use mos6502::memory::Memory;
use mos6502::opcodes::Mode;

#[test]
fn zero_page_indexed_wraps_inside_page_zero() {
    let mut mem = Memory::new();
    // LDX #2; LDA $FF,X reads $01, not $101
    mem.load(vec![0xA2, 0x02, 0xB5, 0xFF], 0x0600);
    mem.set(0x0001, 0x77);
    mem.set(0x0101, 0x55);
    let mut cpu = CPU::new();
    cpu.pc = 0x0600;
    cpu.tick(&mut mem).unwrap();
    assert_eq!(cpu.tick(&mut mem), Ok(4));
    assert_eq!(cpu.a, 0x77);
}

#[test]
fn zero_page_y_wraps_too() {
    let mut mem = Memory::new();
    // LDY #3; LDX $FE,Y reads $01
    mem.load(vec![0xA0, 0x03, 0xB6, 0xFE], 0x0600);
    mem.set(0x0001, 0x42);
    let mut cpu = CPU::new();
    cpu.pc = 0x0600;
    cpu.tick(&mut mem).unwrap();
    cpu.tick(&mut mem).unwrap();
    assert_eq!(cpu.x, 0x42);
}

#[test]
fn indirect_jmp_page_wrap_quirk() {
    let mut mem = Memory::new();
    // JMP ($02FF): low byte from $02FF, high byte from $0200, not $0300
    mem.load(vec![0x6C, 0xFF, 0x02], 0);
    mem.set(0x02FF, 0x34);
    mem.set(0x0200, 0x12);
    mem.set(0x0300, 0x56);
    let mut cpu = CPU::new();
    assert_eq!(cpu.tick(&mut mem), Ok(5));
    assert_eq!(cpu.pc, 0x1234);
}

#[test]
fn indirect_jmp_without_wrap() {
    let mut mem = Memory::new();
    mem.load(vec![0x6C, 0x00, 0x03], 0);
    mem.set(0x0300, 0xCD);
    mem.set(0x0301, 0xAB);
    let mut cpu = CPU::new();
    cpu.tick(&mut mem).unwrap();
    assert_eq!(cpu.pc, 0xABCD);
}

#[test]
fn absolute_x_page_cross_costs_one_more() {
    let mut mem = Memory::new();
    // LDX #1; LDA $00FF,X -> address $0100, 4 + 1 cycles
    mem.load(vec![0xA2, 0x01, 0xBD, 0xFF, 0x00], 0);
    mem.set(0x0100, 0x99);
    let mut cpu = CPU::new();
    cpu.tick(&mut mem).unwrap();
    assert_eq!(cpu.tick(&mut mem), Ok(5));
    assert_eq!(cpu.a, 0x99);
}

#[test]
fn absolute_x_same_page_costs_base() {
    let mut mem = Memory::new();
    // LDX #1; LDA $0200,X
    mem.load(vec![0xA2, 0x01, 0xBD, 0x00, 0x02], 0);
    mem.set(0x0201, 0x11);
    let mut cpu = CPU::new();
    cpu.tick(&mut mem).unwrap();
    assert_eq!(cpu.tick(&mut mem), Ok(4));
    assert_eq!(cpu.a, 0x11);
}

#[test]
fn absolute_y_page_cross_costs_one_more() {
    let mut mem = Memory::new();
    // LDY #2; LDA $01FF,Y -> $0201
    mem.load(vec![0xA0, 0x02, 0xB9, 0xFF, 0x01], 0);
    mem.set(0x0201, 0x31);
    let mut cpu = CPU::new();
    cpu.tick(&mut mem).unwrap();
    assert_eq!(cpu.tick(&mut mem), Ok(5));
    assert_eq!(cpu.a, 0x31);
}

#[test]
fn store_ignores_page_cross_penalty() {
    let mut mem = Memory::new();
    // LDX #$20; LDA #$AB; STA $00F0,X -> $0110, always 5 cycles
    mem.load(vec![0xA2, 0x20, 0xA9, 0xAB, 0x9D, 0xF0, 0x00], 0);
    let mut cpu = CPU::new();
    cpu.tick(&mut mem).unwrap();
    cpu.tick(&mut mem).unwrap();
    assert_eq!(cpu.tick(&mut mem), Ok(5));
    assert_eq!(mem.get(0x0110), 0xAB);
}

#[test]
fn indexed_indirect_reads_pointer_from_zero_page() {
    let mut mem = Memory::new();
    // LDX #4; LDA ($20,X): pointer at $24 -> $1234
    mem.load(vec![0xA2, 0x04, 0xA1, 0x20], 0);
    mem.set(0x24, 0x34);
    mem.set(0x25, 0x12);
    mem.set(0x1234, 0x5A);
    let mut cpu = CPU::new();
    cpu.tick(&mut mem).unwrap();
    assert_eq!(cpu.tick(&mut mem), Ok(6));
    assert_eq!(cpu.a, 0x5A);
}

#[test]
fn indexed_indirect_pointer_wraps_in_zero_page() {
    let mut mem = Memory::new();
    // LDA ($FF,X) with X=0: low byte from $FF, high byte from $00
    mem.load(vec![0xA1, 0xFF], 0x0600);
    mem.set(0x00FF, 0x21);
    mem.set(0x0000, 0x43);
    mem.set(0x4321, 0x66);
    let mut cpu = CPU::new();
    cpu.pc = 0x0600;
    cpu.tick(&mut mem).unwrap();
    assert_eq!(cpu.a, 0x66);
}

#[test]
fn indirect_indexed_adds_y_with_page_cross() {
    let mut mem = Memory::new();
    // LDY #1; LDA ($10),Y: base $00FF + 1 -> $0100, 5 + 1 cycles
    mem.load(vec![0xA0, 0x01, 0xB1, 0x10], 0);
    mem.set(0x10, 0xFF);
    mem.set(0x11, 0x00);
    mem.set(0x0100, 0x88);
    let mut cpu = CPU::new();
    cpu.tick(&mut mem).unwrap();
    assert_eq!(cpu.tick(&mut mem), Ok(6));
    assert_eq!(cpu.a, 0x88);
}

#[test]
fn indirect_indexed_same_page_costs_base() {
    let mut mem = Memory::new();
    // LDY #1; LDA ($10),Y: base $0200 + 1
    mem.load(vec![0xA0, 0x01, 0xB1, 0x10], 0);
    mem.set(0x10, 0x00);
    mem.set(0x11, 0x02);
    mem.set(0x0201, 0x44);
    let mut cpu = CPU::new();
    cpu.tick(&mut mem).unwrap();
    assert_eq!(cpu.tick(&mut mem), Ok(5));
    assert_eq!(cpu.a, 0x44);
}

#[test]
fn beq_not_taken_costs_two() {
    let mut mem = Memory::new();
    mem.load(vec![0xF0, 0x10], 0);
    let mut cpu = CPU::new();
    cpu.z = false;
    assert_eq!(cpu.tick(&mut mem), Ok(2));
    assert_eq!(cpu.pc, 2);
}

#[test]
fn beq_taken_same_page_costs_three() {
    let mut mem = Memory::new();
    mem.load(vec![0xF0, 0x10], 0);
    let mut cpu = CPU::new();
    cpu.z = true;
    assert_eq!(cpu.tick(&mut mem), Ok(3));
    assert_eq!(cpu.pc, 0x12);
}

#[test]
fn beq_taken_page_cross_costs_four() {
    let mut mem = Memory::new();
    // branch at $00F0 with offset $20: from $00F2 to $0112
    mem.load(vec![0xF0, 0x20], 0x00F0);
    let mut cpu = CPU::new();
    cpu.pc = 0x00F0;
    cpu.z = true;
    assert_eq!(cpu.tick(&mut mem), Ok(4));
    assert_eq!(cpu.pc, 0x0112);
}

#[test]
fn branch_backwards_with_negative_offset() {
    let mut mem = Memory::new();
    // BNE at $0010 with offset $FA (-6): from $0012 back to $000C
    mem.load(vec![0xD0, 0xFA], 0x0010);
    let mut cpu = CPU::new();
    cpu.pc = 0x0010;
    cpu.z = false;
    assert_eq!(cpu.tick(&mut mem), Ok(3));
    assert_eq!(cpu.pc, 0x000C);
}

#[test]
fn all_eight_branches_test_their_flag() {
    // (opcode, flag setter, taken)
    let cases: Vec<(u8, fn(&mut CPU), bool)> = vec![
        (0x90, |c: &mut CPU| c.c = false, true),
        (0x90, |c: &mut CPU| c.c = true, false),
        (0xB0, |c: &mut CPU| c.c = true, true),
        (0xF0, |c: &mut CPU| c.z = true, true),
        (0xD0, |c: &mut CPU| c.z = false, true),
        (0x30, |c: &mut CPU| c.n = true, true),
        (0x10, |c: &mut CPU| c.n = false, true),
        (0x50, |c: &mut CPU| c.v = false, true),
        (0x70, |c: &mut CPU| c.v = true, true),
    ];
    for (op, set, taken) in cases {
        let mut mem = Memory::new();
        mem.load(vec![op, 0x08], 0);
        let mut cpu = CPU::new();
        set(&mut cpu);
        cpu.tick(&mut mem).unwrap();
        if taken {
            assert_eq!(cpu.pc, 0x0A);
        } else {
            assert_eq!(cpu.pc, 0x02);
        }
    }
}

#[test]
fn resolving_twice_gives_the_same_operand() {
    let mem1 = Memory::new();
    let mut mem2 = Memory::new();
    mem2.set(0x0034, 0x99);
    let mut cpu1 = CPU::new();
    cpu1.x = 7;
    cpu1.y = 9;
    cpu1.pc = 0x100;
    let mut cpu2 = CPU::new();
    cpu2.x = 7;
    cpu2.y = 9;
    cpu2.pc = 0x8000;
    cpu2.a = 0x55;
    for mode in [Mode::Imm, Mode::Zpg, Mode::Zpx, Mode::Zpy, Mode::Abs, Mode::Abx, Mode::Aby] {
        let r1: Resolved = resolve(mode, 0x34, 0x12, cpu1.pc, cpu1.x, cpu1.y, &mem1);
        let r2: Resolved = resolve(mode, 0x34, 0x12, cpu2.pc, cpu2.x, cpu2.y, &mem2);
        assert_eq!(r1, r2);
    }
}

#[test]
fn immediate_operand_is_the_literal_byte() {
    let mem = Memory::new();
    let r = resolve(Mode::Imm, 0xAB, 0x00, 0, 0, 0, &mem);
    assert_eq!(r.operand, Operand::Immediate(0xAB));
    assert!(!r.page_crossed);
}
