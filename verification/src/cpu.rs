//! The instruction decode/execute engine: the base table of 256 opcodes
//! and the extended table of 256 more, reached through the one-byte prefix
//! code 0xCB.
//!
//! The meaning of every opcode is given by the specification functions
//! `base_step` and `cb_step`, which map an opcode byte, a register bank and
//! a memory image to the bank, image and cycle count after the
//! instruction.  The executable entry points `exec` and `exec_cb` are
//! proved to realise exactly these steps.  Eleven base codes are
//! unassigned; executing one of them is a fatal condition, so `exec`
//! excludes them by precondition and the driving loop must abort on them
//! instead of calling in.

use vstd::prelude::*;
use crate::registers::{fl, Flag, Flags, Registers, hi8, lo8, flags_from_byte, power_on_regs};
use crate::memory::{Memory, mem_rb, mem_rw, mem_wb, mem_ww};
use crate::alu::{
    sem_add, sem_adc, sem_sub, sem_sbc, sem_and, sem_xor, sem_or, sem_cp, sem_daa, sem_add_hl,
    sem_rlca, sem_rrca, sem_rla, sem_rra, inc_flags, dec_flags, cb_rot_result, cb_rot_carry,
    cb_flags, bit_flags,
};

verus! {

/// The processor: its register bank and the running latch that the STOP
/// instruction clears.
pub struct Cpu {
    pub regs: Registers,
    pub is_running: bool,
}

impl Cpu {
    /// A processor in its power-on state.
    pub fn new() -> (c: Cpu)
        ensures
            c.regs == power_on_regs(),
            c.is_running,
    {
        Cpu { regs: Registers::new(), is_running: true }
    }

    /// Halts the processor after a STOP instruction.
    pub fn stop(&mut self)
        ensures
            *final(self) == (Cpu { is_running: false, ..*old(self) }),
    {
        self.is_running = false;
    }
}

/// Whether a base-table opcode is assigned.  The eleven unassigned codes
/// signal a corrupt program and are a fatal condition for the session.
pub open spec fn base_defined(inst: u8) -> bool {
    !(inst == 0xD3 || inst == 0xDB || inst == 0xDD || inst == 0xE3 || inst == 0xE4 || inst == 0xEB
        || inst == 0xEC || inst == 0xED || inst == 0xF4 || inst == 0xFC || inst == 0xFD)
}

/// Executable test for `base_defined`.
pub fn is_base_defined(inst: u8) -> (b: bool)
    ensures
        b == base_defined(inst),
{
    !(inst == 0xD3 || inst == 0xDB || inst == 0xDD || inst == 0xE3 || inst == 0xE4 || inst == 0xEB
        || inst == 0xEC || inst == 0xED || inst == 0xF4 || inst == 0xFC || inst == 0xFD)
}

/// Sign extension of a byte into a 16-bit word.
pub open spec fn sext16(n: u8) -> u16 {
    if n < 0x80 {
        n as u16
    } else {
        (n + 0xFF00) as u16
    }
}

/// The 8-bit register selected by a three-bit field of an opcode, in
/// table order: b, c, d, e, h, l, (memory), a.  Index 6 addresses memory
/// through `hl` and is handled by the callers.
pub open spec fn get_r8(r: Registers, idx: u8) -> u8 {
    if idx == 0 {
        r.b
    } else if idx == 1 {
        r.c
    } else if idx == 2 {
        r.d
    } else if idx == 3 {
        r.e
    } else if idx == 4 {
        r.h
    } else if idx == 5 {
        r.l
    } else {
        r.a
    }
}

/// The bank with the selected 8-bit register replaced.
pub open spec fn set_r8(r: Registers, idx: u8, v: u8) -> Registers {
    if idx == 0 {
        Registers { b: v, ..r }
    } else if idx == 1 {
        Registers { c: v, ..r }
    } else if idx == 2 {
        Registers { d: v, ..r }
    } else if idx == 3 {
        Registers { e: v, ..r }
    } else if idx == 4 {
        Registers { h: v, ..r }
    } else if idx == 5 {
        Registers { l: v, ..r }
    } else {
        Registers { a: v, ..r }
    }
}

/// What one instruction leaves behind: the register bank, the memory
/// image, and the elapsed cycle count.
pub ghost struct Outcome {
    pub r: Registers,
    pub m: Seq<u8>,
    pub cycles: u32,
}

/// Shorthand constructor for an instruction outcome.
pub open spec fn out(r: Registers, m: Seq<u8>, cycles: u32) -> Outcome {
    Outcome { r, m, cycles }
}

/// 8-bit increment of a selected register, with the increment flag rule.
pub open spec fn sem_inc8(r: Registers, idx: u8) -> Registers {
    let res = get_r8(r, idx).wrapping_add(1);
    let r1 = set_r8(r, idx, res);
    Registers { f: inc_flags(r.f, res), ..r1 }
}

/// 8-bit decrement of a selected register, with the decrement flag rule.
pub open spec fn sem_dec8(r: Registers, idx: u8) -> Registers {
    let res = get_r8(r, idx).wrapping_sub(1);
    let r1 = set_r8(r, idx, res);
    Registers { f: dec_flags(r.f, res), ..r1 }
}

/// Relative jump: the signed offset byte at the program counter is added
/// to the address following it.
pub open spec fn sem_jr(r: Registers, m: Seq<u8>) -> Registers {
    Registers { pc: r.pc.wrapping_add(sext16(mem_rb(m, r.pc))).wrapping_add(1), ..r }
}

/// Call: pushes the address after the two operand bytes, then jumps to
/// the operand word.  The target is read after the push, as the hardware
/// ordering has it.
pub open spec fn sem_call(r: Registers, m: Seq<u8>) -> (Registers, Seq<u8>) {
    let sp1 = r.sp.wrapping_sub(2);
    let m1 = mem_ww(m, sp1, r.pc.wrapping_add(2));
    (Registers { pc: mem_rw(m1, r.pc), sp: sp1, ..r }, m1)
}

/// Return: pops the program counter from the stack.
pub open spec fn sem_ret(r: Registers, m: Seq<u8>) -> Registers {
    Registers { pc: mem_rw(m, r.sp), sp: r.sp.wrapping_add(2), ..r }
}

/// Restart: pushes the current program counter and jumps to a fixed
/// vector.
pub open spec fn sem_rst(r: Registers, m: Seq<u8>, target: u16) -> (Registers, Seq<u8>) {
    let sp1 = r.sp.wrapping_sub(2);
    (Registers { pc: target, sp: sp1, ..r }, mem_ww(m, sp1, r.pc))
}

/// Add of a signed immediate to the stack pointer.  Carry and half-carry
/// come from the exclusive-or overflow derivation over bits 8 and 4; zero
/// and subtract are cleared.
pub open spec fn sem_add_spn(r: Registers, m: Seq<u8>) -> Registers {
    let b = sext16(mem_rb(m, r.pc));
    let res = r.sp.wrapping_add(b);
    let tmp = b ^ res ^ r.sp;
    Registers {
        pc: r.pc.wrapping_add(1),
        sp: res,
        f: Flags { z: fl(false), n: fl(false), h: fl(tmp & 0x10 != 0), c: fl(tmp & 0x100 != 0) },
        ..r
    }
}

/// Load of stack pointer plus signed immediate into the `hl` pair, with
/// the same exclusive-or flag derivation as `sem_add_spn`.
pub open spec fn sem_ld_hlspn(r: Registers, m: Seq<u8>) -> Registers {
    let b = sext16(mem_rb(m, r.pc));
    let res = b.wrapping_add(r.sp);
    let tmp = b ^ r.sp ^ res;
    Registers {
        pc: r.pc.wrapping_add(1),
        h: hi8(res),
        l: lo8(res),
        f: Flags { z: fl(false), n: fl(false), h: fl(tmp & 0x10 != 0), c: fl(tmp & 0x100 != 0) },
        ..r
    }
}

/// The arithmetic/logic family selected by a three-bit field of an
/// opcode, in table order: add, adc, sub, sbc, and, xor, or, cp.
pub open spec fn alu_apply(op: u8, r: Registers, v: u8) -> Registers {
    if op == 0 {
        sem_add(r, v)
    } else if op == 1 {
        sem_adc(r, v)
    } else if op == 2 {
        sem_sub(r, v)
    } else if op == 3 {
        sem_sbc(r, v)
    } else if op == 4 {
        sem_and(r, v)
    } else if op == 5 {
        sem_xor(r, v)
    } else if op == 6 {
        sem_or(r, v)
    } else {
        sem_cp(r, v)
    }
}

/// Semantics of the base-table rows 0x00 to 0x3F: the irregular block of
/// loads, 16-bit arithmetic, accumulator rotates, relative jumps and flag
/// operations.
pub open spec fn step_low(inst: u8, r: Registers, m: Seq<u8>) -> Outcome {
    match inst {
        0x00 => out(r, m, 1),
        0x01 => {
            let lo = mem_rb(m, r.pc);
            let hi = mem_rb(m, r.pc.wrapping_add(1));
            out(Registers { b: hi, c: lo, pc: r.pc.wrapping_add(2), ..r }, m, 3)
        },
        0x02 => out(r, mem_wb(m, r.bc_v(), r.a), 2),
        0x03 => {
            let c1 = r.c.wrapping_add(1);
            out(
                Registers {
                    b: if c1 == 0 {
                        r.b.wrapping_add(1)
                    } else {
                        r.b
                    },
                    c: c1,
                    ..r
                },
                m,
                2,
            )
        },
        0x04 => out(sem_inc8(r, 0), m, 1),
        0x05 => out(sem_dec8(r, 0), m, 1),
        0x06 => out(set_r8(Registers { pc: r.pc.wrapping_add(1), ..r }, 0, mem_rb(m, r.pc)), m, 2),
        0x07 => out(sem_rlca(r), m, 1),
        0x08 => {
            let a = mem_rw(m, r.pc);
            out(Registers { pc: r.pc.wrapping_add(2), ..r }, mem_ww(m, a, r.sp), 5)
        },
        0x09 => out(sem_add_hl(r, r.bc_v()), m, 2),
        0x0A => out(Registers { a: mem_rb(m, r.bc_v()), ..r }, m, 2),
        0x0B => {
            let c1 = r.c.wrapping_sub(1);
            out(
                Registers {
                    b: if c1 == 0xFF {
                        r.b.wrapping_sub(1)
                    } else {
                        r.b
                    },
                    c: c1,
                    ..r
                },
                m,
                2,
            )
        },
        0x0C => out(sem_inc8(r, 1), m, 1),
        0x0D => out(sem_dec8(r, 1), m, 1),
        0x0E => out(set_r8(Registers { pc: r.pc.wrapping_add(1), ..r }, 1, mem_rb(m, r.pc)), m, 2),
        0x0F => out(sem_rrca(r), m, 1),
        0x10 => out(Registers { stop: true, ..r }, m, 1),
        0x11 => {
            let lo = mem_rb(m, r.pc);
            let hi = mem_rb(m, r.pc.wrapping_add(1));
            out(Registers { d: hi, e: lo, pc: r.pc.wrapping_add(2), ..r }, m, 3)
        },
        0x12 => out(r, mem_wb(m, r.de_v(), r.a), 2),
        0x13 => {
            let e1 = r.e.wrapping_add(1);
            out(
                Registers {
                    d: if e1 == 0 {
                        r.d.wrapping_add(1)
                    } else {
                        r.d
                    },
                    e: e1,
                    ..r
                },
                m,
                2,
            )
        },
        0x14 => out(sem_inc8(r, 2), m, 1),
        0x15 => out(sem_dec8(r, 2), m, 1),
        0x16 => out(set_r8(Registers { pc: r.pc.wrapping_add(1), ..r }, 2, mem_rb(m, r.pc)), m, 2),
        0x17 => out(sem_rla(r), m, 1),
        0x18 => out(sem_jr(r, m), m, 3),
        0x19 => out(sem_add_hl(r, r.de_v()), m, 2),
        0x1A => out(Registers { a: mem_rb(m, r.de_v()), ..r }, m, 2),
        0x1B => {
            let e1 = r.e.wrapping_sub(1);
            out(
                Registers {
                    d: if e1 == 0xFF {
                        r.d.wrapping_sub(1)
                    } else {
                        r.d
                    },
                    e: e1,
                    ..r
                },
                m,
                2,
            )
        },
        0x1C => out(sem_inc8(r, 3), m, 1),
        0x1D => out(sem_dec8(r, 3), m, 1),
        0x1E => out(set_r8(Registers { pc: r.pc.wrapping_add(1), ..r }, 3, mem_rb(m, r.pc)), m, 2),
        0x1F => out(sem_rra(r), m, 1),
        0x20 => if !r.f.z.on {
            out(sem_jr(r, m), m, 3)
        } else {
            out(Registers { pc: r.pc.wrapping_add(1), ..r }, m, 2)
        },
        0x21 => {
            let lo = mem_rb(m, r.pc);
            let hi = mem_rb(m, r.pc.wrapping_add(1));
            out(Registers { h: hi, l: lo, pc: r.pc.wrapping_add(2), ..r }, m, 3)
        },
        0x22 => {
            let hl1 = r.hl_v().wrapping_add(1);
            out(
                Registers { h: hi8(hl1), l: lo8(hl1), ..r },
                mem_wb(m, r.hl_v(), r.a),
                2,
            )
        },
        0x23 => {
            let l1 = r.l.wrapping_add(1);
            out(
                Registers {
                    h: if l1 == 0 {
                        r.h.wrapping_add(1)
                    } else {
                        r.h
                    },
                    l: l1,
                    ..r
                },
                m,
                2,
            )
        },
        0x24 => out(sem_inc8(r, 4), m, 1),
        0x25 => out(sem_dec8(r, 4), m, 1),
        0x26 => out(set_r8(Registers { pc: r.pc.wrapping_add(1), ..r }, 4, mem_rb(m, r.pc)), m, 2),
        0x27 => out(sem_daa(r), m, 1),
        0x28 => if r.f.z.on {
            out(sem_jr(r, m), m, 3)
        } else {
            out(Registers { pc: r.pc.wrapping_add(1), ..r }, m, 2)
        },
        0x29 => out(sem_add_hl(r, r.hl_v()), m, 2),
        0x2A => {
            let hl1 = r.hl_v().wrapping_add(1);
            out(Registers { a: mem_rb(m, r.hl_v()), h: hi8(hl1), l: lo8(hl1), ..r }, m, 2)
        },
        0x2B => {
            let l1 = r.l.wrapping_sub(1);
            out(
                Registers {
                    h: if l1 == 0xFF {
                        r.h.wrapping_sub(1)
                    } else {
                        r.h
                    },
                    l: l1,
                    ..r
                },
                m,
                2,
            )
        },
        0x2C => out(sem_inc8(r, 5), m, 1),
        0x2D => out(sem_dec8(r, 5), m, 1),
        0x2E => out(set_r8(Registers { pc: r.pc.wrapping_add(1), ..r }, 5, mem_rb(m, r.pc)), m, 2),
        0x2F => out(
            Registers {
                a: r.a ^ 0xFF,
                f: Flags { z: r.f.z, n: fl(true), h: fl(true), c: r.f.c },
                ..r
            },
            m,
            1,
        ),
        0x30 => if !r.f.c.on {
            out(sem_jr(r, m), m, 3)
        } else {
            out(Registers { pc: r.pc.wrapping_add(1), ..r }, m, 2)
        },
        0x31 => out(Registers { sp: mem_rw(m, r.pc), pc: r.pc.wrapping_add(2), ..r }, m, 3),
        0x32 => {
            let hl1 = r.hl_v().wrapping_sub(1);
            out(
                Registers { h: hi8(hl1), l: lo8(hl1), ..r },
                mem_wb(m, r.hl_v(), r.a),
                2,
            )
        },
        0x33 => out(Registers { sp: r.sp.wrapping_add(1), ..r }, m, 2),
        0x34 => {
            let res = mem_rb(m, r.hl_v()).wrapping_add(1);
            out(Registers { f: inc_flags(r.f, res), ..r }, mem_wb(m, r.hl_v(), res), 3)
        },
        0x35 => {
            let res = mem_rb(m, r.hl_v()).wrapping_sub(1);
            out(Registers { f: dec_flags(r.f, res), ..r }, mem_wb(m, r.hl_v(), res), 3)
        },
        0x36 => {
            let n = mem_rb(m, r.pc);
            out(Registers { pc: r.pc.wrapping_add(1), ..r }, mem_wb(m, r.hl_v(), n), 3)
        },
        0x37 => out(
            Registers { f: Flags { z: r.f.z, n: fl(false), h: fl(false), c: fl(true) }, ..r },
            m,
            1,
        ),
        0x38 => if r.f.c.on {
            out(sem_jr(r, m), m, 3)
        } else {
            out(Registers { pc: r.pc.wrapping_add(1), ..r }, m, 2)
        },
        0x39 => out(sem_add_hl(r, r.sp), m, 2),
        0x3A => {
            let hl1 = r.hl_v().wrapping_sub(1);
            out(Registers { a: mem_rb(m, r.hl_v()), h: hi8(hl1), l: lo8(hl1), ..r }, m, 2)
        },
        0x3B => out(Registers { sp: r.sp.wrapping_sub(1), ..r }, m, 2),
        0x3C => out(sem_inc8(r, 7), m, 1),
        0x3D => out(sem_dec8(r, 7), m, 1),
        0x3E => out(set_r8(Registers { pc: r.pc.wrapping_add(1), ..r }, 7, mem_rb(m, r.pc)), m, 2),
        0x3F => out(
            Registers {
                f: Flags { z: r.f.z, n: fl(false), h: fl(false), c: fl(!r.f.c.on) },
                ..r
            },
            m,
            1,
        ),
        _ => out(r, m, 0),
    }
}

/// Semantics of the base-table rows 0x40 to 0x7F: the regular block of
/// register-to-register loads, with index 6 addressing memory through
/// `hl` and code 0x76 being HALT.
pub open spec fn step_ld(inst: u8, r: Registers, m: Seq<u8>) -> Outcome {
    let dst = (inst / 8) % 8;
    let src = inst % 8;
    if inst == 0x76 {
        out(Registers { halt: true, ..r }, m, 1)
    } else if src == 6 {
        out(set_r8(r, dst, mem_rb(m, r.hl_v())), m, 2)
    } else if dst == 6 {
        out(r, mem_wb(m, r.hl_v(), get_r8(r, src)), 2)
    } else {
        out(set_r8(r, dst, get_r8(r, src)), m, 1)
    }
}

/// Semantics of the base-table rows 0x80 to 0xBF: the regular block of
/// arithmetic/logic operations on the accumulator, with index 6
/// addressing memory through `hl`.
pub open spec fn step_alu(inst: u8, r: Registers, m: Seq<u8>) -> Outcome {
    let op = (inst / 8) % 8;
    let src = inst % 8;
    let v = if src == 6 {
        mem_rb(m, r.hl_v())
    } else {
        get_r8(r, src)
    };
    out(
        alu_apply(op, r, v),
        m,
        if src == 6 {
            2
        } else {
            1
        },
    )
}

/// Semantics of the base-table rows 0xC0 to 0xFF: stack operations,
/// absolute jumps, calls, returns, restarts, immediate arithmetic, the
/// high-page loads and the interrupt-enable controls.  The unassigned
/// codes fall to the default arm, which `base_defined` excludes.
pub open spec fn step_ctrl(inst: u8, r: Registers, m: Seq<u8>) -> Outcome {
    match inst {
        0xC0 => if !r.f.z.on {
            out(sem_ret(r, m), m, 5)
        } else {
            out(r, m, 2)
        },
        0xC1 => {
            let v = mem_rw(m, r.sp);
            out(Registers { b: hi8(v), c: lo8(v), sp: r.sp.wrapping_add(2), ..r }, m, 3)
        },
        0xC2 => if !r.f.z.on {
            out(Registers { pc: mem_rw(m, r.pc), ..r }, m, 4)
        } else {
            out(Registers { pc: r.pc.wrapping_add(2), ..r }, m, 3)
        },
        0xC3 => out(Registers { pc: mem_rw(m, r.pc), ..r }, m, 4),
        0xC4 => if !r.f.z.on {
            let (r1, m1) = sem_call(r, m);
            out(r1, m1, 6)
        } else {
            out(Registers { pc: r.pc.wrapping_add(2), ..r }, m, 3)
        },
        0xC5 => {
            let sp1 = r.sp.wrapping_sub(2);
            out(Registers { sp: sp1, ..r }, mem_ww(m, sp1, r.bc_v()), 4)
        },
        0xC6 => out(sem_add(Registers { pc: r.pc.wrapping_add(1), ..r }, mem_rb(m, r.pc)), m, 2),
        0xC7 => {
            let (r1, m1) = sem_rst(r, m, 0x00);
            out(r1, m1, 4)
        },
        0xC8 => if r.f.z.on {
            out(sem_ret(r, m), m, 5)
        } else {
            out(r, m, 2)
        },
        0xC9 => out(sem_ret(r, m), m, 4),
        0xCA => if r.f.z.on {
            out(Registers { pc: mem_rw(m, r.pc), ..r }, m, 4)
        } else {
            out(Registers { pc: r.pc.wrapping_add(2), ..r }, m, 3)
        },
        0xCB => cb_step(mem_rb(m, r.pc), Registers { pc: r.pc.wrapping_add(1), ..r }, m),
        0xCC => if r.f.z.on {
            let (r1, m1) = sem_call(r, m);
            out(r1, m1, 6)
        } else {
            out(Registers { pc: r.pc.wrapping_add(2), ..r }, m, 3)
        },
        0xCD => {
            let (r1, m1) = sem_call(r, m);
            out(r1, m1, 6)
        },
        0xCE => out(sem_adc(Registers { pc: r.pc.wrapping_add(1), ..r }, mem_rb(m, r.pc)), m, 2),
        0xCF => {
            let (r1, m1) = sem_rst(r, m, 0x08);
            out(r1, m1, 4)
        },
        0xD0 => if !r.f.c.on {
            out(sem_ret(r, m), m, 5)
        } else {
            out(r, m, 2)
        },
        0xD1 => {
            let v = mem_rw(m, r.sp);
            out(Registers { d: hi8(v), e: lo8(v), sp: r.sp.wrapping_add(2), ..r }, m, 3)
        },
        0xD2 => if !r.f.c.on {
            out(Registers { pc: mem_rw(m, r.pc), ..r }, m, 4)
        } else {
            out(Registers { pc: r.pc.wrapping_add(2), ..r }, m, 3)
        },
        0xD4 => if !r.f.c.on {
            let (r1, m1) = sem_call(r, m);
            out(r1, m1, 6)
        } else {
            out(Registers { pc: r.pc.wrapping_add(2), ..r }, m, 3)
        },
        0xD5 => {
            let sp1 = r.sp.wrapping_sub(2);
            out(Registers { sp: sp1, ..r }, mem_ww(m, sp1, r.de_v()), 4)
        },
        0xD6 => out(sem_sub(Registers { pc: r.pc.wrapping_add(1), ..r }, mem_rb(m, r.pc)), m, 2),
        0xD7 => {
            let (r1, m1) = sem_rst(r, m, 0x10);
            out(r1, m1, 4)
        },
        0xD8 => if r.f.c.on {
            out(sem_ret(r, m), m, 5)
        } else {
            out(r, m, 2)
        },
        0xD9 => out(sem_ret(Registers { ime: true, ..r }, m), m, 4),
        0xDA => if r.f.c.on {
            out(Registers { pc: mem_rw(m, r.pc), ..r }, m, 4)
        } else {
            out(Registers { pc: r.pc.wrapping_add(2), ..r }, m, 3)
        },
        0xDC => if r.f.c.on {
            let (r1, m1) = sem_call(r, m);
            out(r1, m1, 6)
        } else {
            out(Registers { pc: r.pc.wrapping_add(2), ..r }, m, 3)
        },
        0xDE => out(sem_sbc(Registers { pc: r.pc.wrapping_add(1), ..r }, mem_rb(m, r.pc)), m, 2),
        0xDF => {
            let (r1, m1) = sem_rst(r, m, 0x18);
            out(r1, m1, 4)
        },
        0xE0 => {
            let n = mem_rb(m, r.pc);
            out(
                Registers { pc: r.pc.wrapping_add(1), ..r },
                mem_wb(m, (0xFF00 + n) as u16, r.a),
                3,
            )
        },
        0xE1 => {
            let v = mem_rw(m, r.sp);
            out(Registers { h: hi8(v), l: lo8(v), sp: r.sp.wrapping_add(2), ..r }, m, 3)
        },
        0xE2 => out(r, mem_wb(m, (0xFF00 + r.c) as u16, r.a), 2),
        0xE5 => {
            let sp1 = r.sp.wrapping_sub(2);
            out(Registers { sp: sp1, ..r }, mem_ww(m, sp1, r.hl_v()), 4)
        },
        0xE6 => out(sem_and(Registers { pc: r.pc.wrapping_add(1), ..r }, mem_rb(m, r.pc)), m, 2),
        0xE7 => {
            let (r1, m1) = sem_rst(r, m, 0x20);
            out(r1, m1, 4)
        },
        0xE8 => out(sem_add_spn(r, m), m, 4),
        0xE9 => out(Registers { pc: r.hl_v(), ..r }, m, 1),
        0xEA => {
            let a = mem_rw(m, r.pc);
            out(Registers { pc: r.pc.wrapping_add(2), ..r }, mem_wb(m, a, r.a), 4)
        },
        0xEE => out(sem_xor(Registers { pc: r.pc.wrapping_add(1), ..r }, mem_rb(m, r.pc)), m, 2),
        0xEF => {
            let (r1, m1) = sem_rst(r, m, 0x28);
            out(r1, m1, 4)
        },
        0xF0 => {
            let n = mem_rb(m, r.pc);
            out(
                Registers {
                    a: mem_rb(m, (0xFF00 + n) as u16),
                    pc: r.pc.wrapping_add(1),
                    ..r
                },
                m,
                3,
            )
        },
        0xF1 => {
            let v = mem_rw(m, r.sp);
            out(
                Registers {
                    a: hi8(v),
                    f: flags_from_byte(lo8(v)),
                    sp: r.sp.wrapping_add(2),
                    ..r
                },
                m,
                3,
            )
        },
        0xF2 => out(Registers { a: mem_rb(m, (0xFF00 + r.c) as u16), ..r }, m, 2),
        0xF3 => out(Registers { ime: false, ..r }, m, 1),
        0xF5 => {
            let sp1 = r.sp.wrapping_sub(2);
            out(Registers { sp: sp1, ..r }, mem_ww(m, sp1, r.af_v()), 4)
        },
        0xF6 => out(sem_or(Registers { pc: r.pc.wrapping_add(1), ..r }, mem_rb(m, r.pc)), m, 2),
        0xF7 => {
            let (r1, m1) = sem_rst(r, m, 0x30);
            out(r1, m1, 4)
        },
        0xF8 => out(sem_ld_hlspn(r, m), m, 3),
        0xF9 => out(Registers { sp: r.hl_v(), ..r }, m, 2),
        0xFA => {
            let a = mem_rw(m, r.pc);
            out(Registers { a: mem_rb(m, a), pc: r.pc.wrapping_add(2), ..r }, m, 4)
        },
        0xFB => out(Registers { ime: true, ..r }, m, 1),
        0xFE => out(sem_cp(Registers { pc: r.pc.wrapping_add(1), ..r }, mem_rb(m, r.pc)), m, 2),
        0xFF => {
            let (r1, m1) = sem_rst(r, m, 0x38);
            out(r1, m1, 4)
        },
        _ => out(r, m, 0),
    }
}

/// Semantics of one base-table instruction.
pub open spec fn base_step(inst: u8, r: Registers, m: Seq<u8>) -> Outcome {
    if inst < 0x40 {
        step_low(inst, r, m)
    } else if inst < 0x80 {
        step_ld(inst, r, m)
    } else if inst < 0xC0 {
        step_alu(inst, r, m)
    } else {
        step_ctrl(inst, r, m)
    }
}

/// Semantics of one extended-table instruction.  The table is fully
/// regular: the top two bits select rotate/shift, bit test, bit clear or
/// bit set; the middle three bits the group or bit position; the low
/// three the operand register, with index 6 addressing memory through
/// `hl`.
pub open spec fn cb_step(inst: u8, r: Registers, m: Seq<u8>) -> Outcome {
    let quad = inst / 0x40;
    let grp = (inst / 8) % 8;
    let idx = inst % 8;
    if quad == 0 {
        if idx == 6 {
            let v = mem_rb(m, r.hl_v());
            let res = cb_rot_result(grp, r.f.c.on, v);
            out(
                Registers { f: cb_flags(res, cb_rot_carry(grp, v)), ..r },
                mem_wb(m, r.hl_v(), res),
                4,
            )
        } else {
            let v = get_r8(r, idx);
            let res = cb_rot_result(grp, r.f.c.on, v);
            let r1 = set_r8(r, idx, res);
            out(Registers { f: cb_flags(res, cb_rot_carry(grp, v)), ..r1 }, m, 2)
        }
    } else if quad == 1 {
        let v = if idx == 6 {
            mem_rb(m, r.hl_v())
        } else {
            get_r8(r, idx)
        };
        out(
            Registers { f: bit_flags(r.f, v, grp), ..r },
            m,
            if idx == 6 {
                3
            } else {
                2
            },
        )
    } else if quad == 2 {
        let mask = !(1u8 << grp);
        if idx == 6 {
            out(r, mem_wb(m, r.hl_v(), mem_rb(m, r.hl_v()) & mask), 4)
        } else {
            out(set_r8(r, idx, get_r8(r, idx) & mask), m, 2)
        }
    } else {
        let mask = 1u8 << grp;
        if idx == 6 {
            out(r, mem_wb(m, r.hl_v(), mem_rb(m, r.hl_v()) | mask), 4)
        } else {
            out(set_r8(r, idx, get_r8(r, idx) | mask), m, 2)
        }
    }
}

/// Reads the 8-bit register selected by a decode field.
fn reg8_get(r: &Registers, idx: u8) -> (v: u8)
    requires
        idx < 8,
        idx != 6,
    ensures
        v == get_r8(*r, idx),
{
    if idx == 0 {
        r.b
    } else if idx == 1 {
        r.c
    } else if idx == 2 {
        r.d
    } else if idx == 3 {
        r.e
    } else if idx == 4 {
        r.h
    } else if idx == 5 {
        r.l
    } else {
        r.a
    }
}

/// Writes the 8-bit register selected by a decode field.
fn reg8_set(r: &mut Registers, idx: u8, v: u8)
    requires
        idx < 8,
        idx != 6,
    ensures
        *final(r) == set_r8(*old(r), idx, v),
{
    if idx == 0 {
        r.b = v;
    } else if idx == 1 {
        r.c = v;
    } else if idx == 2 {
        r.d = v;
    } else if idx == 3 {
        r.e = v;
    } else if idx == 4 {
        r.h = v;
    } else if idx == 5 {
        r.l = v;
    } else {
        r.a = v;
    }
}

/// 8-bit increment of a selected register.
fn op_inc8(r: &mut Registers, idx: u8)
    requires
        idx < 8,
        idx != 6,
    ensures
        *final(r) == sem_inc8(*old(r), idx),
{
    let res = reg8_get(r, idx).wrapping_add(1);
    reg8_set(r, idx, res);
    r.f.n.unset();
    r.f.z.set_if(res == 0);
    r.f.h.set_if(res % 16 == 0);
}

/// 8-bit decrement of a selected register.
fn op_dec8(r: &mut Registers, idx: u8)
    requires
        idx < 8,
        idx != 6,
    ensures
        *final(r) == sem_dec8(*old(r), idx),
{
    let res = reg8_get(r, idx).wrapping_sub(1);
    reg8_set(r, idx, res);
    r.f.n.set();
    r.f.z.set_if(res == 0);
    r.f.h.set_if(res % 16 == 15);
}

/// Loads an immediate byte into a selected register.
fn op_ld_imm(r: &mut Registers, m: &Memory, idx: u8)
    requires
        m.wf(),
        idx < 8,
        idx != 6,
    ensures
        *final(r) == set_r8(
            Registers { pc: old(r).pc.wrapping_add(1), ..*old(r) },
            idx,
            mem_rb(m@, old(r).pc),
        ),
{
    let n = m.rb(r.pc);
    r.pc = r.pc.wrapping_add(1);
    reg8_set(r, idx, n);
}

/// Adds a byte, taken as a signed offset, to a 16-bit address, wrapping
/// modulo 65536.
pub fn add_signed(a: u16, b: u8) -> (t: u16)
    ensures
        t == a.wrapping_add(sext16(b)),
{
    let off: u16 = if b < 0x80 {
        b as u16
    } else {
        b as u16 + 0xFF00
    };
    a.wrapping_add(off)
}

/// Relative jump through the offset byte at the program counter.
fn op_jr(r: &mut Registers, m: &Memory)
    requires
        m.wf(),
    ensures
        *final(r) == sem_jr(*old(r), m@),
{
    let p = r.pc;
    let n = m.rb(p);
    r.pc = add_signed(p, n).wrapping_add(1);
}

/// Adds a signed immediate to the stack pointer, with the exclusive-or
/// flag derivation.
pub fn add_spn(r: &mut Registers, m: &Memory)
    requires
        m.wf(),
    ensures
        *final(r) == sem_add_spn(*old(r), m@),
{
    let n = m.rb(r.pc);
    r.pc = r.pc.wrapping_add(1);
    let b: u16 = if n < 0x80 {
        n as u16
    } else {
        n as u16 + 0xFF00
    };
    let res = r.sp.wrapping_add(b);
    let tmp = b ^ res ^ r.sp;
    r.f.c.set_if(tmp & 0x100 != 0);
    r.f.h.set_if(tmp & 0x10 != 0);
    r.f.n.unset();
    r.f.z.unset();
    r.sp = res;
}

impl Registers {
    /// Pops the program counter from the stack.
    pub fn ret(&mut self, m: &Memory)
        requires
            m.wf(),
        ensures
            *final(self) == sem_ret(*old(self), m@),
    {
        self.pc = m.rw(self.sp);
        self.sp = self.sp.wrapping_add(2);
    }

    /// Increments the byte that `hl` addresses, with the increment flag
    /// rule.
    pub fn inc_hlm(&mut self, m: &mut Memory)
        requires
            old(m).wf(),
        ensures
            ({
                let res = mem_rb(old(m)@, old(self).hl_v()).wrapping_add(1);
                *final(self) == (Registers { f: inc_flags(old(self).f, res), ..*old(self) })
                    && final(m)@ == mem_wb(old(m)@, old(self).hl_v(), res)
            }),
            final(m).wf(),
    {
        let addr = self.hl();
        let res = m.rb(addr).wrapping_add(1);
        m.wb(addr, res);
        self.f.n.unset();
        self.f.z.set_if(res == 0);
        self.f.h.set_if(res % 16 == 0);
    }

    /// Decrements the byte that `hl` addresses, with the decrement flag
    /// rule.
    pub fn dec_hlm(&mut self, m: &mut Memory)
        requires
            old(m).wf(),
        ensures
            ({
                let res = mem_rb(old(m)@, old(self).hl_v()).wrapping_sub(1);
                *final(self) == (Registers { f: dec_flags(old(self).f, res), ..*old(self) })
                    && final(m)@ == mem_wb(old(m)@, old(self).hl_v(), res)
            }),
            final(m).wf(),
    {
        let addr = self.hl();
        let res = m.rb(addr).wrapping_sub(1);
        m.wb(addr, res);
        self.f.n.set();
        self.f.z.set_if(res == 0);
        self.f.h.set_if(res % 16 == 15);
    }

    /// 16-bit add of the stack pointer into the `hl` pair.
    pub fn add_hlsp(&mut self)
        ensures
            *final(self) == sem_add_hl(*old(self), old(self).sp),
    {
        let sp = self.sp;
        self.op_add_hl(sp);
    }
}

/// Executes one instruction of the rows 0x00 to 0x3F.
#[verifier::rlimit(100)]
fn exec_low(inst: u8, r: &mut Registers, m: &mut Memory) -> (cycles: u32)
    requires
        inst < 0x40,
        old(m).wf(),
    ensures
        ({
            let o = step_low(inst, *old(r), old(m)@);
            *final(r) == o.r && final(m)@ == o.m && cycles == o.cycles
        }),
        final(m).wf(),
{
    match inst {
        0x00 => 1,
        0x01 => {
            let lo = m.rb(r.pc);
            let hi = m.rb(r.pc.wrapping_add(1));
            r.pc = r.pc.wrapping_add(2);
            r.c = lo;
            r.b = hi;
            3
        },
        0x02 => {
            m.wb(r.bc(), r.a);
            2
        },
        0x03 => {
            r.c = r.c.wrapping_add(1);
            if r.c == 0 {
                r.b = r.b.wrapping_add(1);
            }
            2
        },
        0x04 => {
            op_inc8(r, 0);
            1
        },
        0x05 => {
            op_dec8(r, 0);
            1
        },
        0x06 => {
            op_ld_imm(r, m, 0);
            2
        },
        0x07 => {
            r.op_rlca();
            1
        },
        0x08 => {
            let a = m.rw(r.pc);
            m.ww(a, r.sp);
            r.pc = r.pc.wrapping_add(2);
            5
        },
        0x09 => {
            let v = r.bc();
            r.op_add_hl(v);
            2
        },
        0x0A => {
            r.a = m.rb(r.bc());
            2
        },
        0x0B => {
            r.c = r.c.wrapping_sub(1);
            if r.c == 0xFF {
                r.b = r.b.wrapping_sub(1);
            }
            2
        },
        0x0C => {
            op_inc8(r, 1);
            1
        },
        0x0D => {
            op_dec8(r, 1);
            1
        },
        0x0E => {
            op_ld_imm(r, m, 1);
            2
        },
        0x0F => {
            r.op_rrca();
            1
        },
        0x10 => {
            r.stop = true;
            1
        },
        0x11 => {
            let lo = m.rb(r.pc);
            let hi = m.rb(r.pc.wrapping_add(1));
            r.pc = r.pc.wrapping_add(2);
            r.e = lo;
            r.d = hi;
            3
        },
        0x12 => {
            m.wb(r.de(), r.a);
            2
        },
        0x13 => {
            r.e = r.e.wrapping_add(1);
            if r.e == 0 {
                r.d = r.d.wrapping_add(1);
            }
            2
        },
        0x14 => {
            op_inc8(r, 2);
            1
        },
        0x15 => {
            op_dec8(r, 2);
            1
        },
        0x16 => {
            op_ld_imm(r, m, 2);
            2
        },
        0x17 => {
            r.op_rla();
            1
        },
        0x18 => {
            op_jr(r, m);
            3
        },
        0x19 => {
            let v = r.de();
            r.op_add_hl(v);
            2
        },
        0x1A => {
            r.a = m.rb(r.de());
            2
        },
        0x1B => {
            r.e = r.e.wrapping_sub(1);
            if r.e == 0xFF {
                r.d = r.d.wrapping_sub(1);
            }
            2
        },
        0x1C => {
            op_inc8(r, 3);
            1
        },
        0x1D => {
            op_dec8(r, 3);
            1
        },
        0x1E => {
            op_ld_imm(r, m, 3);
            2
        },
        0x1F => {
            r.op_rra();
            1
        },
        0x20 => {
            if !r.f.z.get() {
                op_jr(r, m);
                3
            } else {
                r.pc = r.pc.wrapping_add(1);
                2
            }
        },
        0x21 => {
            let lo = m.rb(r.pc);
            let hi = m.rb(r.pc.wrapping_add(1));
            r.pc = r.pc.wrapping_add(2);
            r.l = lo;
            r.h = hi;
            3
        },
        0x22 => {
            m.wb(r.hl(), r.a);
            r.inc_hl();
            2
        },
        0x23 => {
            r.l = r.l.wrapping_add(1);
            if r.l == 0 {
                r.h = r.h.wrapping_add(1);
            }
            2
        },
        0x24 => {
            op_inc8(r, 4);
            1
        },
        0x25 => {
            op_dec8(r, 4);
            1
        },
        0x26 => {
            op_ld_imm(r, m, 4);
            2
        },
        0x27 => {
            r.op_daa();
            1
        },
        0x28 => {
            if r.f.z.get() {
                op_jr(r, m);
                3
            } else {
                r.pc = r.pc.wrapping_add(1);
                2
            }
        },
        0x29 => {
            let v = r.hl();
            r.op_add_hl(v);
            2
        },
        0x2A => {
            r.a = m.rb(r.hl());
            r.inc_hl();
            2
        },
        0x2B => {
            r.l = r.l.wrapping_sub(1);
            if r.l == 0xFF {
                r.h = r.h.wrapping_sub(1);
            }
            2
        },
        0x2C => {
            op_inc8(r, 5);
            1
        },
        0x2D => {
            op_dec8(r, 5);
            1
        },
        0x2E => {
            op_ld_imm(r, m, 5);
            2
        },
        0x2F => {
            r.a = r.a ^ 0xFF;
            r.f.n.set();
            r.f.h.set();
            1
        },
        0x30 => {
            if !r.f.c.get() {
                op_jr(r, m);
                3
            } else {
                r.pc = r.pc.wrapping_add(1);
                2
            }
        },
        0x31 => {
            r.sp = m.rw(r.pc);
            r.pc = r.pc.wrapping_add(2);
            3
        },
        0x32 => {
            m.wb(r.hl(), r.a);
            r.dec_hl();
            2
        },
        0x33 => {
            r.sp = r.sp.wrapping_add(1);
            2
        },
        0x34 => {
            r.inc_hlm(m);
            3
        },
        0x35 => {
            r.dec_hlm(m);
            3
        },
        0x36 => {
            let n = m.rb(r.pc);
            r.pc = r.pc.wrapping_add(1);
            m.wb(r.hl(), n);
            3
        },
        0x37 => {
            r.f.n.unset();
            r.f.h.unset();
            r.f.c.set();
            1
        },
        0x38 => {
            if r.f.c.get() {
                op_jr(r, m);
                3
            } else {
                r.pc = r.pc.wrapping_add(1);
                2
            }
        },
        0x39 => {
            r.add_hlsp();
            2
        },
        0x3A => {
            r.a = m.rb(r.hl());
            r.dec_hl();
            2
        },
        0x3B => {
            r.sp = r.sp.wrapping_sub(1);
            2
        },
        0x3C => {
            op_inc8(r, 7);
            1
        },
        0x3D => {
            op_dec8(r, 7);
            1
        },
        0x3E => {
            op_ld_imm(r, m, 7);
            2
        },
        0x3F => {
            r.f.h.unset();
            r.f.n.unset();
            r.f.c.toggle();
            1
        },
        _ => 0,
    }
}

/// Executes one instruction of the regular load block, rows 0x40 to
/// 0x7F.
fn exec_ld(inst: u8, r: &mut Registers, m: &mut Memory) -> (cycles: u32)
    requires
        0x40 <= inst < 0x80,
        old(m).wf(),
    ensures
        ({
            let o = step_ld(inst, *old(r), old(m)@);
            *final(r) == o.r && final(m)@ == o.m && cycles == o.cycles
        }),
        final(m).wf(),
{
    let dst = (inst / 8) % 8;
    let src = inst % 8;
    if inst == 0x76 {
        r.halt = true;
        1
    } else if src == 6 {
        let v = m.rb(r.hl());
        reg8_set(r, dst, v);
        2
    } else if dst == 6 {
        let v = reg8_get(r, src);
        m.wb(r.hl(), v);
        2
    } else {
        let v = reg8_get(r, src);
        reg8_set(r, dst, v);
        1
    }
}

/// Executes one instruction of the regular arithmetic/logic block, rows
/// 0x80 to 0xBF.
fn exec_alu(inst: u8, r: &mut Registers, m: &Memory) -> (cycles: u32)
    requires
        0x80 <= inst < 0xC0,
        m.wf(),
    ensures
        ({
            let o = step_alu(inst, *old(r), m@);
            *final(r) == o.r && cycles == o.cycles
        }),
{
    let op = (inst / 8) % 8;
    let src = inst % 8;
    let v = if src == 6 {
        m.rb(r.hl())
    } else {
        reg8_get(r, src)
    };
    if op == 0 {
        r.op_add(v);
    } else if op == 1 {
        r.op_adc(v);
    } else if op == 2 {
        r.op_sub(v);
    } else if op == 3 {
        r.op_sbc(v);
    } else if op == 4 {
        r.op_and(v);
    } else if op == 5 {
        r.op_xor(v);
    } else if op == 6 {
        r.op_or(v);
    } else {
        r.op_cp(v);
    }
    if src == 6 {
        2
    } else {
        1
    }
}

/// Executes one instruction of the control rows 0xC0 to 0xFF.
#[verifier::rlimit(100)]
fn exec_ctrl(inst: u8, r: &mut Registers, m: &mut Memory) -> (cycles: u32)
    requires
        0xC0 <= inst,
        base_defined(inst),
        old(m).wf(),
    ensures
        ({
            let o = step_ctrl(inst, *old(r), old(m)@);
            *final(r) == o.r && final(m)@ == o.m && cycles == o.cycles
        }),
        final(m).wf(),
{
    match inst {
        0xC0 => {
            if !r.f.z.get() {
                r.ret(m);
                5
            } else {
                2
            }
        },
        0xC1 => {
            let v = m.rw(r.sp);
            r.bc_set(v);
            r.sp = r.sp.wrapping_add(2);
            3
        },
        0xC2 => {
            if !r.f.z.get() {
                r.pc = m.rw(r.pc);
                4
            } else {
                r.pc = r.pc.wrapping_add(2);
                3
            }
        },
        0xC3 => {
            r.pc = m.rw(r.pc);
            4
        },
        0xC4 => {
            if !r.f.z.get() {
                op_call(r, m);
                6
            } else {
                r.pc = r.pc.wrapping_add(2);
                3
            }
        },
        0xC5 => {
            r.sp = r.sp.wrapping_sub(2);
            m.ww(r.sp, r.bc());
            4
        },
        0xC6 => {
            let n = m.rb(r.pc);
            r.pc = r.pc.wrapping_add(1);
            r.op_add(n);
            2
        },
        0xC7 => {
            op_rst(r, m, 0x00);
            4
        },
        0xC8 => {
            if r.f.z.get() {
                r.ret(m);
                5
            } else {
                2
            }
        },
        0xC9 => {
            r.ret(m);
            4
        },
        0xCA => {
            if r.f.z.get() {
                r.pc = m.rw(r.pc);
                4
            } else {
                r.pc = r.pc.wrapping_add(2);
                3
            }
        },
        0xCB => {
            let sub = m.rb(r.pc);
            r.pc = r.pc.wrapping_add(1);
            exec_cb(sub, r, m)
        },
        0xCC => {
            if r.f.z.get() {
                op_call(r, m);
                6
            } else {
                r.pc = r.pc.wrapping_add(2);
                3
            }
        },
        0xCD => {
            op_call(r, m);
            6
        },
        0xCE => {
            let n = m.rb(r.pc);
            r.pc = r.pc.wrapping_add(1);
            r.op_adc(n);
            2
        },
        0xCF => {
            op_rst(r, m, 0x08);
            4
        },
        0xD0 => {
            if !r.f.c.get() {
                r.ret(m);
                5
            } else {
                2
            }
        },
        0xD1 => {
            let v = m.rw(r.sp);
            r.de_set(v);
            r.sp = r.sp.wrapping_add(2);
            3
        },
        0xD2 => {
            if !r.f.c.get() {
                r.pc = m.rw(r.pc);
                4
            } else {
                r.pc = r.pc.wrapping_add(2);
                3
            }
        },
        0xD4 => {
            if !r.f.c.get() {
                op_call(r, m);
                6
            } else {
                r.pc = r.pc.wrapping_add(2);
                3
            }
        },
        0xD5 => {
            r.sp = r.sp.wrapping_sub(2);
            m.ww(r.sp, r.de());
            4
        },
        0xD6 => {
            let n = m.rb(r.pc);
            r.pc = r.pc.wrapping_add(1);
            r.op_sub(n);
            2
        },
        0xD7 => {
            op_rst(r, m, 0x10);
            4
        },
        0xD8 => {
            if r.f.c.get() {
                r.ret(m);
                5
            } else {
                2
            }
        },
        0xD9 => {
            r.ei();
            r.ret(m);
            4
        },
        0xDA => {
            if r.f.c.get() {
                r.pc = m.rw(r.pc);
                4
            } else {
                r.pc = r.pc.wrapping_add(2);
                3
            }
        },
        0xDC => {
            if r.f.c.get() {
                op_call(r, m);
                6
            } else {
                r.pc = r.pc.wrapping_add(2);
                3
            }
        },
        0xDE => {
            let n = m.rb(r.pc);
            r.pc = r.pc.wrapping_add(1);
            r.op_sbc(n);
            2
        },
        0xDF => {
            op_rst(r, m, 0x18);
            4
        },
        0xE0 => {
            let n = m.rb(r.pc);
            r.pc = r.pc.wrapping_add(1);
            m.wb(0xFF00 + n as u16, r.a);
            3
        },
        0xE1 => {
            let v = m.rw(r.sp);
            r.hl_set(v);
            r.sp = r.sp.wrapping_add(2);
            3
        },
        0xE2 => {
            m.wb(0xFF00 + r.c as u16, r.a);
            2
        },
        0xE5 => {
            r.sp = r.sp.wrapping_sub(2);
            m.ww(r.sp, r.hl());
            4
        },
        0xE6 => {
            let n = m.rb(r.pc);
            r.pc = r.pc.wrapping_add(1);
            r.op_and(n);
            2
        },
        0xE7 => {
            op_rst(r, m, 0x20);
            4
        },
        0xE8 => {
            add_spn(r, m);
            4
        },
        0xE9 => {
            r.pc = r.hl();
            1
        },
        0xEA => {
            let a = m.rw(r.pc);
            m.wb(a, r.a);
            r.pc = r.pc.wrapping_add(2);
            4
        },
        0xEE => {
            let n = m.rb(r.pc);
            r.pc = r.pc.wrapping_add(1);
            r.op_xor(n);
            2
        },
        0xEF => {
            op_rst(r, m, 0x28);
            4
        },
        0xF0 => {
            let n = m.rb(r.pc);
            r.pc = r.pc.wrapping_add(1);
            r.a = m.rb(0xFF00 + n as u16);
            3
        },
        0xF1 => {
            let v = m.rw(r.sp);
            r.af_set(v);
            r.sp = r.sp.wrapping_add(2);
            3
        },
        0xF2 => {
            r.a = m.rb(0xFF00 + r.c as u16);
            2
        },
        0xF3 => {
            r.di();
            1
        },
        0xF5 => {
            r.sp = r.sp.wrapping_sub(2);
            m.ww(r.sp, r.af());
            4
        },
        0xF6 => {
            let n = m.rb(r.pc);
            r.pc = r.pc.wrapping_add(1);
            r.op_or(n);
            2
        },
        0xF7 => {
            op_rst(r, m, 0x30);
            4
        },
        0xF8 => {
            r.f.reset();
            let n = m.rb(r.pc);
            r.pc = r.pc.wrapping_add(1);
            let b: u16 = if n < 0x80 {
                n as u16
            } else {
                n as u16 + 0xFF00
            };
            let res = b.wrapping_add(r.sp);
            r.h = (res / 0x100) as u8;
            r.l = (res % 0x100) as u8;
            let tmp = b ^ r.sp ^ res;
            r.f.c.set_if(tmp & 0x100 != 0);
            r.f.h.set_if(tmp & 0x10 != 0);
            3
        },
        0xF9 => {
            r.sp = r.hl();
            2
        },
        0xFA => {
            let a = m.rw(r.pc);
            r.a = m.rb(a);
            r.pc = r.pc.wrapping_add(2);
            4
        },
        0xFB => {
            r.ei();
            1
        },
        0xFE => {
            let n = m.rb(r.pc);
            r.pc = r.pc.wrapping_add(1);
            r.op_cp(n);
            2
        },
        0xFF => {
            op_rst(r, m, 0x38);
            4
        },
        _ => 0,
    }
}

/// Pushes the return address and jumps to the call target.
fn op_call(r: &mut Registers, m: &mut Memory)
    requires
        old(m).wf(),
    ensures
        ({
            let (r1, m1) = sem_call(*old(r), old(m)@);
            *final(r) == r1 && final(m)@ == m1
        }),
        final(m).wf(),
{
    r.sp = r.sp.wrapping_sub(2);
    m.ww(r.sp, r.pc.wrapping_add(2));
    let target = m.rw(r.pc);
    r.pc = target;
}

/// Pushes the current program counter and jumps to a restart vector.
fn op_rst(r: &mut Registers, m: &mut Memory, target: u16)
    requires
        old(m).wf(),
    ensures
        ({
            let (r1, m1) = sem_rst(*old(r), old(m)@, target);
            *final(r) == r1 && final(m)@ == m1
        }),
        final(m).wf(),
{
    r.sp = r.sp.wrapping_sub(2);
    m.ww(r.sp, r.pc);
    r.pc = target;
}

/// Executes one base-table instruction, mutating the register bank and
/// memory, and returns the elapsed cycle count.  The opcode byte has
/// already been fetched; the program counter points at its operands.
pub fn exec(inst: u8, r: &mut Registers, m: &mut Memory) -> (cycles: u32)
    requires
        base_defined(inst),
        old(m).wf(),
    ensures
        ({
            let o = base_step(inst, *old(r), old(m)@);
            *final(r) == o.r && final(m)@ == o.m && cycles == o.cycles
        }),
        final(m).wf(),
{
    if inst < 0x40 {
        exec_low(inst, r, m)
    } else if inst < 0x80 {
        exec_ld(inst, r, m)
    } else if inst < 0xC0 {
        exec_alu(inst, r, m)
    } else {
        exec_ctrl(inst, r, m)
    }
}

/// Executes one extended-table instruction, reached through the prefix
/// code; the sub-opcode byte has already been fetched.
pub fn exec_cb(inst: u8, r: &mut Registers, m: &mut Memory) -> (cycles: u32)
    requires
        old(m).wf(),
    ensures
        ({
            let o = cb_step(inst, *old(r), old(m)@);
            *final(r) == o.r && final(m)@ == o.m && cycles == o.cycles
        }),
        final(m).wf(),
{
    let quad = inst / 0x40;
    let grp = (inst / 8) % 8;
    let idx = inst % 8;
    if quad == 0 {
        if idx == 6 {
            let addr = r.hl();
            let v = m.rb(addr);
            let res = r.op_cb_rot(grp, v);
            m.wb(addr, res);
            4
        } else {
            let v = reg8_get(r, idx);
            let res = r.op_cb_rot(grp, v);
            reg8_set(r, idx, res);
            2
        }
    } else if quad == 1 {
        let v = if idx == 6 {
            m.rb(r.hl())
        } else {
            reg8_get(r, idx)
        };
        r.f.h.set();
        r.f.n.unset();
        r.f.z.set_if(v & (1u8 << grp) == 0);
        if idx == 6 {
            3
        } else {
            2
        }
    } else if quad == 2 {
        let mask = !(1u8 << grp);
        if idx == 6 {
            let addr = r.hl();
            let v = m.rb(addr);
            m.wb(addr, v & mask);
            4
        } else {
            let v = reg8_get(r, idx);
            reg8_set(r, idx, v & mask);
            2
        }
    } else {
        let mask = 1u8 << grp;
        if idx == 6 {
            let addr = r.hl();
            let v = m.rb(addr);
            m.wb(addr, v | mask);
            4
        } else {
            let v = reg8_get(r, idx);
            reg8_set(r, idx, v | mask);
            2
        }
    }
}

} // verus!
