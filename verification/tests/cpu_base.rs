use gbcore::cpu::{exec, is_base_defined};
use gbcore::memory::Memory;
use gbcore::registers::Registers;

fn fresh() -> (Registers, Memory) {
    let mut r = Registers::new();
    r.pc = 0xC100;
    r.sp = 0xD000;
    r.f.z.on = false;
    r.f.n.on = false;
    r.f.h.on = false;
    r.f.c.on = false;
    (r, Memory::new())
}

#[test]
fn cp_immediate_equal_operands() {
    let (mut r, mut m) = fresh();
    r.a = 0x3C;
    m.wb(r.pc, 0x3C);
    let cy = exec(0xFE, &mut r, &mut m);
    assert_eq!(cy, 2);
    assert!(r.f.z.on);
    assert!(!r.f.c.on);
    assert!(r.f.n.on);
    assert!(!r.f.h.on);
    assert_eq!(r.a, 0x3C);
}

#[test]
fn add_immediate_half_carry() {
    let (mut r, mut m) = fresh();
    r.a = 0x0F;
    m.wb(r.pc, 0x01);
    let cy = exec(0xC6, &mut r, &mut m);
    assert_eq!(cy, 2);
    assert_eq!(r.a, 0x10);
    assert!(r.f.h.on);
    assert!(!r.f.c.on);
    assert!(!r.f.z.on);
}

fn reg8(r: &Registers, idx: u8) -> u8 {
    match idx {
        0 => r.b,
        1 => r.c,
        2 => r.d,
        3 => r.e,
        4 => r.h,
        5 => r.l,
        _ => r.a,
    }
}

#[test]
fn ld_block_moves_every_register() {
    for op in 0x40u16..=0x7F {
        let op = op as u8;
        if op == 0x76 {
            continue;
        }
        let (mut r, mut m) = fresh();
        r.b = 0x11;
        r.c = 0x22;
        r.d = 0x33;
        r.e = 0x44;
        r.h = 0xC0;
        r.l = 0x05;
        r.a = 0x77;
        m.wb(0xC005, 0x99);
        let vals = [0x11u8, 0x22, 0x33, 0x44, 0xC0, 0x05, 0x99, 0x77];
        let dst = (op / 8) % 8;
        let src = op % 8;
        let cy = exec(op, &mut r, &mut m);
        if src == 6 || dst == 6 {
            assert_eq!(cy, 2, "opcode {:02X}", op);
        } else {
            assert_eq!(cy, 1, "opcode {:02X}", op);
        }
        let expected = vals[src as usize];
        if dst == 6 {
            assert_eq!(m.rb(0xC005), expected, "opcode {:02X}", op);
        } else {
            assert_eq!(reg8(&r, dst), expected, "opcode {:02X}", op);
        }
    }
}

#[test]
fn halt_opcode_sets_latch() {
    let (mut r, mut m) = fresh();
    assert!(!r.halt);
    let cy = exec(0x76, &mut r, &mut m);
    assert_eq!(cy, 1);
    assert!(r.halt);
}

#[test]
fn alu_block_all_operations() {
    for carry in [false, true] {
        for op in 0x80u16..=0xBF {
            let op = op as u8;
            let (mut r, mut m) = fresh();
            r.a = 0x3C;
            r.b = 0x11;
            r.c = 0x0F;
            r.d = 0xF0;
            r.e = 0x3C;
            r.h = 0xC0;
            r.l = 0x05;
            r.f.c.on = carry;
            m.wb(0xC005, 0x99);
            let vals = [0x11u8, 0x0F, 0xF0, 0x3C, 0xC0, 0x05, 0x99, 0x3C];
            let grp = (op / 8) % 8;
            let src = op % 8;
            let a = 0x3Cu8;
            let v = vals[src as usize];
            let cin = if carry { 1u16 } else { 0u16 };
            // expected accumulator, zero, subtract, half-carry, carry
            let (ea, en, eh, ec): (u8, bool, bool, bool) = match grp {
                0 => {
                    let s = a as u16 + v as u16;
                    ((s % 256) as u8, false, (a % 16) + (v % 16) > 15, s > 255)
                }
                1 => {
                    let s = a as u16 + v as u16 + cin;
                    (
                        (s % 256) as u8,
                        false,
                        (a % 16) as u16 + (v % 16) as u16 + cin > 15,
                        s > 255,
                    )
                }
                2 => (
                    a.wrapping_sub(v),
                    true,
                    (a % 16) < (v % 16),
                    (a as u16) < v as u16,
                ),
                3 => (
                    a.wrapping_sub(v).wrapping_sub(cin as u8),
                    true,
                    ((a % 16) as u16) < (v % 16) as u16 + cin,
                    (a as u16) < v as u16 + cin,
                ),
                4 => (a & v, false, true, false),
                5 => (a ^ v, false, false, false),
                6 => (a | v, false, false, false),
                _ => (a, true, (a % 16) < (v % 16), (a as u16) < v as u16),
            };
            let ez = if grp == 7 { a == v } else { ea == 0 };
            let cy = exec(op, &mut r, &mut m);
            if src == 6 {
                assert_eq!(cy, 2, "opcode {:02X}", op);
            } else {
                assert_eq!(cy, 1, "opcode {:02X}", op);
            }
            assert_eq!(r.a, ea, "opcode {:02X} carry {}", op, carry);
            assert_eq!(r.f.z.on, ez, "z opcode {:02X} carry {}", op, carry);
            assert_eq!(r.f.n.on, en, "n opcode {:02X}", op);
            assert_eq!(r.f.h.on, eh, "h opcode {:02X} carry {}", op, carry);
            assert_eq!(r.f.c.on, ec, "c opcode {:02X} carry {}", op, carry);
        }
    }
}

#[test]
fn relative_jump_taken_and_not() {
    // jr nz with zero set: not taken, 2 cycles, skips the offset byte
    let (mut r, mut m) = fresh();
    r.f.z.on = true;
    m.wb(r.pc, 0x05);
    let cy = exec(0x20, &mut r, &mut m);
    assert_eq!(cy, 2);
    assert_eq!(r.pc, 0xC101);

    // jr nz with zero clear: taken, 3 cycles, signed offset from the
    // address after the offset byte
    let (mut r, mut m) = fresh();
    r.f.z.on = false;
    m.wb(r.pc, 0x05);
    let cy = exec(0x20, &mut r, &mut m);
    assert_eq!(cy, 3);
    assert_eq!(r.pc, 0xC106);

    // backward jump
    let (mut r, mut m) = fresh();
    m.wb(r.pc, 0xFE); // -2
    let cy = exec(0x18, &mut r, &mut m);
    assert_eq!(cy, 3);
    assert_eq!(r.pc, 0xC0FF);
}

#[test]
fn absolute_jump_and_conditions() {
    let (mut r, mut m) = fresh();
    m.wb(r.pc, 0x34);
    m.wb(r.pc + 1, 0x12);
    let cy = exec(0xC3, &mut r, &mut m);
    assert_eq!(cy, 4);
    assert_eq!(r.pc, 0x1234);

    let (mut r, mut m) = fresh();
    r.f.c.on = true;
    m.wb(r.pc, 0x34);
    m.wb(r.pc + 1, 0x12);
    let cy = exec(0xD2, &mut r, &mut m); // jp nc, not taken
    assert_eq!(cy, 3);
    assert_eq!(r.pc, 0xC102);
}

#[test]
fn call_and_return() {
    let (mut r, mut m) = fresh();
    m.wb(r.pc, 0x00);
    m.wb(r.pc + 1, 0x40);
    let cy = exec(0xCD, &mut r, &mut m);
    assert_eq!(cy, 6);
    assert_eq!(r.pc, 0x4000);
    assert_eq!(r.sp, 0xCFFE);
    assert_eq!(m.rw(0xCFFE), 0xC102);

    let cy = exec(0xC9, &mut r, &mut m);
    assert_eq!(cy, 4);
    assert_eq!(r.pc, 0xC102);
    assert_eq!(r.sp, 0xD000);
}

#[test]
fn conditional_return_costs() {
    let (mut r, mut m) = fresh();
    r.f.z.on = false;
    m.ww(r.sp, 0x2345);
    let cy = exec(0xC0, &mut r, &mut m); // ret nz, taken
    assert_eq!(cy, 5);
    assert_eq!(r.pc, 0x2345);

    let (mut r, mut m) = fresh();
    r.f.z.on = true;
    m.ww(r.sp, 0x2345);
    let cy = exec(0xC0, &mut r, &mut m); // not taken
    assert_eq!(cy, 2);
    assert_eq!(r.pc, 0xC100);
}

#[test]
fn restart_vectors() {
    let (mut r, mut m) = fresh();
    let cy = exec(0xFF, &mut r, &mut m);
    assert_eq!(cy, 4);
    assert_eq!(r.pc, 0x38);
    assert_eq!(r.sp, 0xCFFE);
    assert_eq!(m.rw(0xCFFE), 0xC100);
}

#[test]
fn decimal_adjust_after_add() {
    // 0x15 + 0x27 = 0x3C, adjusted to 0x42
    let (mut r, mut m) = fresh();
    r.a = 0x3C;
    let cy = exec(0x27, &mut r, &mut m);
    assert_eq!(cy, 1);
    assert_eq!(r.a, 0x42);
    assert!(!r.f.h.on);
    assert!(!r.f.c.on);

    // 0x99 + 0x01 = 0x9A, adjusted to 0x00 with carry
    let (mut r, mut m) = fresh();
    r.a = 0x9A;
    exec(0x27, &mut r, &mut m);
    assert_eq!(r.a, 0x00);
    assert!(r.f.z.on);
    assert!(r.f.c.on);
    assert!(!r.f.h.on);
}

#[test]
fn accumulator_rotates_clear_zero() {
    let (mut r, mut m) = fresh();
    r.a = 0x85;
    let cy = exec(0x07, &mut r, &mut m); // rlca
    assert_eq!(cy, 1);
    assert_eq!(r.a, 0x0B);
    assert!(r.f.c.on);
    assert!(!r.f.z.on);

    let (mut r, mut m) = fresh();
    r.a = 0x95;
    r.f.c.on = true;
    let cy = exec(0x17, &mut r, &mut m); // rla
    assert_eq!(cy, 1);
    assert_eq!(r.a, 0x2B);
    assert!(r.f.c.on);
}

#[test]
fn increment_decrement_flags() {
    let (mut r, mut m) = fresh();
    r.b = 0x0F;
    exec(0x04, &mut r, &mut m);
    assert_eq!(r.b, 0x10);
    assert!(r.f.h.on);
    assert!(!r.f.z.on);
    assert!(!r.f.n.on);

    let (mut r, mut m) = fresh();
    r.b = 0xFF;
    exec(0x04, &mut r, &mut m);
    assert_eq!(r.b, 0x00);
    assert!(r.f.z.on);
    assert!(r.f.h.on);

    let (mut r, mut m) = fresh();
    r.c = 0x10;
    exec(0x0D, &mut r, &mut m);
    assert_eq!(r.c, 0x0F);
    assert!(r.f.h.on);
    assert!(r.f.n.on);

    let (mut r, mut m) = fresh();
    r.c = 0x00;
    exec(0x0D, &mut r, &mut m);
    assert_eq!(r.c, 0xFF);
    assert!(r.f.h.on);
}

#[test]
fn sixteen_bit_loads_and_stack() {
    let (mut r, mut m) = fresh();
    m.wb(r.pc, 0xCD);
    m.wb(r.pc + 1, 0xAB);
    let cy = exec(0x01, &mut r, &mut m); // ld bc,nn
    assert_eq!(cy, 3);
    assert_eq!(r.b, 0xAB);
    assert_eq!(r.c, 0xCD);

    // push af keeps the packed flag byte; pop bc sees it
    r.a = 0x12;
    r.f.z.on = true;
    r.f.c.on = true;
    r.f.n.on = false;
    r.f.h.on = false;
    let cy = exec(0xF5, &mut r, &mut m);
    assert_eq!(cy, 4);
    let cy = exec(0xC1, &mut r, &mut m);
    assert_eq!(cy, 3);
    assert_eq!(r.b, 0x12);
    assert_eq!(r.c, 0x90);

    // pop af drops the low nibble of the flag byte
    m.ww(r.sp.wrapping_sub(2), 0x34FF);
    r.sp = r.sp.wrapping_sub(2);
    let cy = exec(0xF1, &mut r, &mut m);
    assert_eq!(cy, 3);
    assert_eq!(r.a, 0x34);
    assert!(r.f.z.on && r.f.n.on && r.f.h.on && r.f.c.on);
}

#[test]
fn add_hl_sixteen_bit_flags() {
    let (mut r, mut m) = fresh();
    r.h = 0x8A;
    r.l = 0x23;
    r.b = 0x06;
    r.c = 0x05;
    let cy = exec(0x09, &mut r, &mut m); // add hl,bc
    assert_eq!(cy, 2);
    assert_eq!(r.h, 0x90);
    assert_eq!(r.l, 0x28);
    assert!(r.f.h.on); // carry out of bit 11
    assert!(!r.f.c.on);
    assert!(!r.f.n.on);
}

#[test]
fn stack_pointer_signed_immediate() {
    // ld hl,sp+n with a positive offset that carries across both bits
    let (mut r, mut m) = fresh();
    r.sp = 0xFFF8;
    m.wb(r.pc, 0x08);
    let cy = exec(0xF8, &mut r, &mut m);
    assert_eq!(cy, 3);
    assert_eq!(r.h, 0x00);
    assert_eq!(r.l, 0x00);
    assert!(r.f.c.on);
    assert!(r.f.h.on);
    assert!(!r.f.z.on);
    assert!(!r.f.n.on);

    // add sp,n with the same arithmetic
    let (mut r, mut m) = fresh();
    r.sp = 0xFFF8;
    m.wb(r.pc, 0x08);
    let cy = exec(0xE8, &mut r, &mut m);
    assert_eq!(cy, 4);
    assert_eq!(r.sp, 0x0000);
    assert!(r.f.c.on);
    assert!(r.f.h.on);
}

#[test]
fn high_page_loads() {
    let (mut r, mut m) = fresh();
    r.a = 0x42;
    m.wb(r.pc, 0x80);
    let cy = exec(0xE0, &mut r, &mut m); // ldh (0xFF80),a
    assert_eq!(cy, 3);
    assert_eq!(m.rb(0xFF80), 0x42);

    let (mut r, mut m) = fresh();
    m.wb(0xFF80, 0x55);
    m.wb(r.pc, 0x80);
    let cy = exec(0xF0, &mut r, &mut m); // ldh a,(0xFF80)
    assert_eq!(cy, 3);
    assert_eq!(r.a, 0x55);
}

#[test]
fn interrupt_enable_latches() {
    let (mut r, mut m) = fresh();
    r.ime = true;
    exec(0xF3, &mut r, &mut m); // di
    assert!(!r.ime);
    exec(0xFB, &mut r, &mut m); // ei
    assert!(r.ime);
}

#[test]
fn unassigned_opcodes_are_fatal() {
    for op in [0xD3u8, 0xDB, 0xDD, 0xE3, 0xE4, 0xEB, 0xEC, 0xED, 0xF4, 0xFC, 0xFD] {
        assert!(!is_base_defined(op));
    }
    assert!(is_base_defined(0x00));
    assert!(is_base_defined(0xCB));
    assert!(is_base_defined(0xFF));
}

#[test]
fn base_cycle_table_spot_checks() {
    // one opcode per distinct cost, from a fixed state
    let table: [(u8, u32); 8] = [
        (0x00, 1),
        (0x02, 2),
        (0x01, 3),
        (0xC5, 4),
        (0x08, 5),
        (0xCD, 6),
        (0xE6, 2),
        (0x07, 1),
    ];
    for (op, want) in table {
        let (mut r, mut m) = fresh();
        let cy = exec(op, &mut r, &mut m);
        assert_eq!(cy, want, "opcode {:02X}", op);
    }
}
