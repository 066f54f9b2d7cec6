use gbcore::cpu::{exec, exec_cb};
use gbcore::memory::Memory;
use gbcore::registers::Registers;

fn fresh() -> (Registers, Memory) {
    let mut r = Registers::new();
    r.pc = 0xC100;
    r.sp = 0xD000;
    r.f.z.on = false;
    r.f.n.on = false;
    r.f.h.on = false;
    r.f.c.on = false;
    (r, Memory::new())
}

fn rot_model(g: u8, cin: bool, v: u8) -> (u8, bool) {
    match g {
        0 => (v.rotate_left(1), v & 0x80 != 0),
        1 => (v.rotate_right(1), v & 1 != 0),
        2 => ((v << 1) | (cin as u8), v & 0x80 != 0),
        3 => ((v >> 1) | if cin { 0x80 } else { 0 }, v & 1 != 0),
        4 => (v << 1, v & 0x80 != 0),
        5 => (((v as i8) >> 1) as u8, v & 1 != 0),
        6 => ((v << 4) | (v >> 4), false),
        _ => (v >> 1, v & 1 != 0),
    }
}

fn reg8(r: &Registers, idx: u8) -> u8 {
    match idx {
        0 => r.b,
        1 => r.c,
        2 => r.d,
        3 => r.e,
        4 => r.h,
        5 => r.l,
        _ => r.a,
    }
}

#[test]
fn extended_table_full_sweep() {
    for carry in [false, true] {
        for op in 0x00u16..=0xFF {
            let op = op as u8;
            let (mut r, mut m) = fresh();
            r.b = 0x80;
            r.c = 0x01;
            r.d = 0xF0;
            r.e = 0x55;
            r.h = 0xC0;
            r.l = 0x05;
            r.a = 0xAA;
            r.f.c.on = carry;
            m.wb(0xC005, 0x99);
            let vals = [0x80u8, 0x01, 0xF0, 0x55, 0xC0, 0x05, 0x99, 0xAA];
            let quad = op / 0x40;
            let grp = (op / 8) % 8;
            let idx = op % 8;
            let v = vals[idx as usize];
            let cy = exec_cb(op, &mut r, &mut m);
            match quad {
                0 => {
                    let (res, co) = rot_model(grp, carry, v);
                    assert_eq!(cy, if idx == 6 { 4 } else { 2 }, "cb {:02X}", op);
                    let got = if idx == 6 { m.rb(0xC005) } else { reg8(&r, idx) };
                    assert_eq!(got, res, "cb {:02X} carry {}", op, carry);
                    assert_eq!(r.f.z.on, res == 0, "z cb {:02X}", op);
                    assert_eq!(r.f.c.on, co, "c cb {:02X}", op);
                    assert!(!r.f.n.on && !r.f.h.on, "nh cb {:02X}", op);
                }
                1 => {
                    assert_eq!(cy, if idx == 6 { 3 } else { 2 }, "cb {:02X}", op);
                    assert_eq!(r.f.z.on, v & (1 << grp) == 0, "z cb {:02X}", op);
                    assert!(r.f.h.on, "h cb {:02X}", op);
                    assert!(!r.f.n.on, "n cb {:02X}", op);
                    assert_eq!(r.f.c.on, carry, "carry untouched cb {:02X}", op);
                    let got = if idx == 6 { m.rb(0xC005) } else { reg8(&r, idx) };
                    assert_eq!(got, v, "operand untouched cb {:02X}", op);
                }
                2 => {
                    assert_eq!(cy, if idx == 6 { 4 } else { 2 }, "cb {:02X}", op);
                    let got = if idx == 6 { m.rb(0xC005) } else { reg8(&r, idx) };
                    assert_eq!(got, v & !(1 << grp), "cb {:02X}", op);
                    // no flags touched
                    assert!(!r.f.z.on && !r.f.n.on && !r.f.h.on);
                    assert_eq!(r.f.c.on, carry);
                }
                _ => {
                    assert_eq!(cy, if idx == 6 { 4 } else { 2 }, "cb {:02X}", op);
                    let got = if idx == 6 { m.rb(0xC005) } else { reg8(&r, idx) };
                    assert_eq!(got, v | (1 << grp), "cb {:02X}", op);
                    assert!(!r.f.z.on && !r.f.n.on && !r.f.h.on);
                    assert_eq!(r.f.c.on, carry);
                }
            }
        }
    }
}

#[test]
fn prefix_dispatch_through_base_table() {
    // the base-table prefix code fetches the sub-opcode and runs it
    let (mut r, mut m) = fresh();
    r.b = 0x80;
    m.wb(r.pc, 0x00); // rlc b
    let cy = exec(0xCB, &mut r, &mut m);
    assert_eq!(cy, 2);
    assert_eq!(r.pc, 0xC101);
    assert_eq!(r.b, 0x01);
    assert!(r.f.c.on);
    assert!(!r.f.z.on);
}

#[test]
fn extended_zero_flag_from_result() {
    // srl on 0x01 gives zero: the extended table computes the zero flag,
    // unlike the base-table accumulator rotates
    let (mut r, mut m) = fresh();
    r.a = 0x01;
    let cy = exec_cb(0x3F, &mut r, &mut m); // srl a
    assert_eq!(cy, 2);
    assert_eq!(r.a, 0x00);
    assert!(r.f.z.on);
    assert!(r.f.c.on);
}

#[test]
fn bit_test_never_touches_carry() {
    let (mut r, mut m) = fresh();
    r.f.c.on = true;
    r.b = 0x00;
    exec_cb(0x40, &mut r, &mut m); // bit 0,b
    assert!(r.f.z.on);
    assert!(r.f.c.on);
    assert!(r.f.h.on);
    assert!(!r.f.n.on);
}
