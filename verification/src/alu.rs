//! Semantics of the arithmetic and logic instruction families, stated as
//! specification functions from a register bank to a register bank, and the
//! verified executable operations that realise them.
//!
//! The flag rules here are the crux of the instruction set: half-carry is
//! the carry out of bit 3 (the low nibble) for 8-bit operations and out of
//! bit 11 for the 16-bit add to `hl`; full carry is the carry or borrow out
//! of the top bit; zero reflects the result truncated to its width.

use vstd::prelude::*;
use crate::registers::{fl, flags_cleared, Flag, Flags, Registers};

verus! {

/// Carry-in value of a flag, as an integer 0 or 1.
pub open spec fn carry_in(f: Flags) -> int {
    if f.c.on {
        1
    } else {
        0
    }
}

/// 8-bit add: `a + v`, wrapping.  Half-carry is the carry out of the low
/// nibble, carry the carry out of bit 7, zero the truncated result being
/// zero; subtract is cleared.
pub open spec fn sem_add(r: Registers, v: u8) -> Registers {
    let res = ((r.a + v) % 0x100) as u8;
    Registers {
        a: res,
        f: Flags {
            z: fl(res == 0),
            n: fl(false),
            h: fl(r.a % 16 + v % 16 > 15),
            c: fl(r.a + v > 255),
        },
        ..r
    }
}

/// 8-bit add with carry: `a + v + carry`, wrapping, with the carry-in
/// taking part in both the half-carry and the carry rule.
pub open spec fn sem_adc(r: Registers, v: u8) -> Registers {
    let cin = carry_in(r.f);
    let res = ((r.a + v + cin) % 0x100) as u8;
    Registers {
        a: res,
        f: Flags {
            z: fl(res == 0),
            n: fl(false),
            h: fl(r.a % 16 + v % 16 + cin > 15),
            c: fl(r.a + v + cin > 255),
        },
        ..r
    }
}

/// 8-bit subtract: `a - v`, wrapping.  Half-carry is the borrow into the
/// low nibble, carry the borrow out of bit 7; subtract is set.
pub open spec fn sem_sub(r: Registers, v: u8) -> Registers {
    let res = r.a.wrapping_sub(v);
    Registers {
        a: res,
        f: Flags {
            z: fl(res == 0),
            n: fl(true),
            h: fl(r.a % 16 < v % 16),
            c: fl(r.a < v),
        },
        ..r
    }
}

/// 8-bit subtract with carry: `a - v - carry`, wrapping, with the borrow
/// rules extended by the carry-in.
pub open spec fn sem_sbc(r: Registers, v: u8) -> Registers {
    let cin = carry_in(r.f);
    let res = ((r.a - v - cin + 0x200) % 0x100) as u8;
    Registers {
        a: res,
        f: Flags {
            z: fl(res == 0),
            n: fl(true),
            h: fl(r.a % 16 < v % 16 + cin),
            c: fl(r.a < v + cin),
        },
        ..r
    }
}

/// Compare: the flags of `sem_sub`, with the accumulator left unchanged.
pub open spec fn sem_cp(r: Registers, v: u8) -> Registers {
    Registers {
        f: Flags {
            z: fl(r.a == v),
            n: fl(true),
            h: fl(r.a % 16 < v % 16),
            c: fl(r.a < v),
        },
        ..r
    }
}

/// Bitwise and; half-carry is set unconditionally, carry cleared.
pub open spec fn sem_and(r: Registers, v: u8) -> Registers {
    let res = r.a & v;
    Registers {
        a: res,
        f: Flags { z: fl(res == 0), n: fl(false), h: fl(true), c: fl(false) },
        ..r
    }
}

/// Bitwise exclusive or; all of subtract, half-carry and carry cleared.
pub open spec fn sem_xor(r: Registers, v: u8) -> Registers {
    let res = r.a ^ v;
    Registers {
        a: res,
        f: Flags { z: fl(res == 0), n: fl(false), h: fl(false), c: fl(false) },
        ..r
    }
}

/// Bitwise or; all of subtract, half-carry and carry cleared.
pub open spec fn sem_or(r: Registers, v: u8) -> Registers {
    let res = r.a | v;
    Registers {
        a: res,
        f: Flags { z: fl(res == 0), n: fl(false), h: fl(false), c: fl(false) },
        ..r
    }
}

/// Flags after an 8-bit increment whose result is `res`: carry is
/// untouched, half-carry marks a carry out of the low nibble (the new low
/// nibble is zero), subtract is cleared.
pub open spec fn inc_flags(f: Flags, res: u8) -> Flags {
    Flags { z: fl(res == 0), n: fl(false), h: fl(res % 16 == 0), c: f.c }
}

/// Flags after an 8-bit decrement whose result is `res`: carry is
/// untouched, half-carry marks a borrow into the low nibble (the new low
/// nibble is fifteen), subtract is set.
pub open spec fn dec_flags(f: Flags, res: u8) -> Flags {
    Flags { z: fl(res == 0), n: fl(true), h: fl(res % 16 == 15), c: f.c }
}

/// The decimal-adjust correction value, from the three flags and the
/// accumulator: 6 on the low nibble when half-carry is set or (after an
/// add) the low nibble exceeds 9; 0x60 on the high nibble when carry is
/// set or (after an add) the whole byte exceeds 0x99.
pub open spec fn daa_correction(r: Registers) -> u16 {
    ((if r.f.h.on || (!r.f.n.on && r.a % 16 > 9) {
        6int
    } else {
        0int
    }) + (if r.f.c.on || (!r.f.n.on && r.a > 0x99) {
        0x60int
    } else {
        0int
    })) as u16
}

/// Decimal adjust of the accumulator after a binary-coded-decimal add or
/// subtract.  The correction is subtracted when the subtract flag is set,
/// added otherwise; carry is set when the correction touched the high
/// nibble and is left alone otherwise; half-carry is always cleared
/// afterwards (this core's family of processors differs here from its
/// historical relative, and the difference is deliberate).
pub open spec fn sem_daa(r: Registers) -> Registers {
    let corr = daa_correction(r);
    let adjusted: u16 = if r.f.n.on {
        (r.a as u16).wrapping_sub(corr)
    } else {
        ((r.a + corr) as u16)
    };
    let res = (adjusted % 0x100) as u8;
    Registers {
        a: res,
        f: Flags {
            z: fl(res == 0),
            n: r.f.n,
            h: fl(false),
            c: fl(if corr >= 0x60 {
                true
            } else {
                r.f.c.on
            }),
        },
        ..r
    }
}

/// 16-bit add of `v` into the `hl` pair.  Zero is untouched; half-carry
/// marks a carry out of bit 11, carry a carry out of bit 15; subtract is
/// cleared.
pub open spec fn sem_add_hl(r: Registers, v: u16) -> Registers {
    let s = r.hl_v() + v;
    Registers {
        h: ((s / 0x100) % 0x100) as u8,
        l: (s % 0x100) as u8,
        f: Flags {
            z: r.f.z,
            n: fl(false),
            h: fl(r.hl_v() % 0x1000 > s % 0x1000),
            c: fl(s > 0xFFFF),
        },
        ..r
    }
}

/// Rotate the accumulator left, bit 7 into both bit 0 and carry.  The
/// base-table rotate clears zero unconditionally.
pub open spec fn sem_rlca(r: Registers) -> Registers {
    let res = (r.a << 1) | (r.a >> 7);
    Registers {
        a: res,
        f: Flags { z: fl(false), n: fl(false), h: fl(false), c: fl(res & 1 == 1) },
        ..r
    }
}

/// Rotate the accumulator right, bit 0 into both bit 7 and carry; zero is
/// cleared unconditionally.
pub open spec fn sem_rrca(r: Registers) -> Registers {
    let res = (r.a >> 1) | (r.a << 7);
    Registers {
        a: res,
        f: Flags { z: fl(false), n: fl(false), h: fl(false), c: fl(res & 0x80 != 0) },
        ..r
    }
}

/// Rotate the accumulator left through carry; zero is cleared
/// unconditionally.
pub open spec fn sem_rla(r: Registers) -> Registers {
    let ci: u8 = if r.f.c.on {
        1
    } else {
        0
    };
    let res = (r.a << 1) | ci;
    Registers {
        a: res,
        f: Flags { z: fl(false), n: fl(false), h: fl(false), c: fl(r.a & 0x80 != 0) },
        ..r
    }
}

/// Rotate the accumulator right through carry; zero is cleared
/// unconditionally.
pub open spec fn sem_rra(r: Registers) -> Registers {
    let ci: u8 = if r.f.c.on {
        0x80
    } else {
        0
    };
    let res = (r.a >> 1) | ci;
    Registers {
        a: res,
        f: Flags { z: fl(false), n: fl(false), h: fl(false), c: fl(r.a & 1 == 1) },
        ..r
    }
}

/// Result of an extended-table rotate/shift operation on one byte.  The
/// group selects, in order: rotate left, rotate right, rotate left through
/// carry, rotate right through carry, shift left, arithmetic shift right,
/// nibble swap, logical shift right.
pub open spec fn cb_rot_result(g: u8, cin: bool, v: u8) -> u8 {
    if g == 0 {
        (v << 1) | (v >> 7)
    } else if g == 1 {
        (v >> 1) | (v << 7)
    } else if g == 2 {
        (v << 1) | (if cin {
            1
        } else {
            0
        })
    } else if g == 3 {
        (v >> 1) | (if cin {
            0x80
        } else {
            0
        })
    } else if g == 4 {
        v << 1
    } else if g == 5 {
        (v >> 1) | (v & 0x80)
    } else if g == 6 {
        (v << 4) | ((v & 0xF0) >> 4)
    } else {
        v >> 1
    }
}

/// Carry out of an extended-table rotate/shift: the bit shifted out, and
/// false for the nibble swap.
pub open spec fn cb_rot_carry(g: u8, v: u8) -> bool {
    if g == 6 {
        false
    } else if g == 0 || g == 2 || g == 4 {
        v & 0x80 != 0
    } else {
        v & 1 != 0
    }
}

/// Flags after an extended-table rotate/shift: zero from the result (in
/// contrast to the base-table accumulator rotates), subtract and
/// half-carry cleared, carry as computed.
pub open spec fn cb_flags(res: u8, cout: bool) -> Flags {
    Flags { z: fl(res == 0), n: fl(false), h: fl(false), c: fl(cout) }
}

/// Flags after a single-bit test: zero reflects the tested bit being
/// clear, half-carry is always set, subtract always cleared, and carry is
/// never touched.
pub open spec fn bit_flags(f: Flags, v: u8, b: u8) -> Flags {
    Flags { z: fl(v & (1u8 << b) == 0), n: fl(false), h: fl(true), c: f.c }
}

impl Registers {
    /// Applies an extended-table rotate/shift group to one byte, updating
    /// the flags and returning the rotated byte.
    pub fn op_cb_rot(&mut self, g: u8, v: u8) -> (res: u8)
        requires
            g < 8,
        ensures
            res == cb_rot_result(g, old(self).f.c.on, v),
            *final(self) == (Registers { f: cb_flags(res, cb_rot_carry(g, v)), ..*old(self) }),
    {
        let cin = self.f.c.get();
        let res: u8 = if g == 0 {
            (v << 1u8) | (v >> 7u8)
        } else if g == 1 {
            (v >> 1u8) | (v << 7u8)
        } else if g == 2 {
            (v << 1u8) | (if cin {
                1
            } else {
                0
            })
        } else if g == 3 {
            (v >> 1u8) | (if cin {
                0x80
            } else {
                0
            })
        } else if g == 4 {
            v << 1u8
        } else if g == 5 {
            (v >> 1u8) | (v & 0x80)
        } else if g == 6 {
            (v << 4u8) | ((v & 0xF0) >> 4u8)
        } else {
            v >> 1u8
        };
        let co: bool = if g == 6 {
            false
        } else if g == 0 || g == 2 || g == 4 {
            v & 0x80 != 0
        } else {
            v & 1 != 0
        };
        self.f.z.set_if(res == 0);
        self.f.n.unset();
        self.f.h.unset();
        self.f.c.set_if(co);
        res
    }

    /// 8-bit add into the accumulator.
    pub fn op_add(&mut self, v: u8)
        ensures
            *final(self) == sem_add(*old(self), v),
    {
        let a = self.a;
        let s: u16 = a as u16 + v as u16;
        let res: u8 = (s % 0x100) as u8;
        self.f.n.unset();
        self.f.h.set_if(a % 16 + v % 16 > 15);
        self.f.c.set_if(s > 255);
        self.a = res;
        self.f.z.set_if(res == 0);
    }

    /// 8-bit add with carry into the accumulator.
    pub fn op_adc(&mut self, v: u8)
        ensures
            *final(self) == sem_adc(*old(self), v),
    {
        let a = self.a;
        let cin: u8 = if self.f.c.get() {
            1
        } else {
            0
        };
        let s: u16 = a as u16 + v as u16 + cin as u16;
        let res: u8 = (s % 0x100) as u8;
        self.f.n.unset();
        self.f.h.set_if(a % 16 + v % 16 + cin > 15);
        self.f.c.set_if(s > 255);
        self.f.z.set_if(res == 0);
        self.a = res;
    }

    /// 8-bit subtract from the accumulator.
    pub fn op_sub(&mut self, v: u8)
        ensures
            *final(self) == sem_sub(*old(self), v),
    {
        let a = self.a;
        self.f.n.set();
        self.f.c.set_if(a < v);
        self.f.h.set_if(a % 16 < v % 16);
        let res = a.wrapping_sub(v);
        self.a = res;
        self.f.z.set_if(res == 0);
    }

    /// 8-bit subtract with carry from the accumulator.
    pub fn op_sbc(&mut self, v: u8)
        ensures
            *final(self) == sem_sbc(*old(self), v),
    {
        let a = self.a;
        let cin: u8 = if self.f.c.get() {
            1
        } else {
            0
        };
        let s: u16 = (a as u16 + 0x200 - v as u16) - cin as u16;
        let res: u8 = (s % 0x100) as u8;
        self.f.n.set();
        self.f.c.set_if((a as u16) < v as u16 + cin as u16);
        self.f.h.set_if(a % 16 < v % 16 + cin);
        self.f.z.set_if(res == 0);
        self.a = res;
    }

    /// Compare the accumulator with `v`: the subtract flags, accumulator
    /// unchanged.
    pub fn op_cp(&mut self, v: u8)
        ensures
            *final(self) == sem_cp(*old(self), v),
    {
        let a = self.a;
        self.f.n.set();
        self.f.z.set_if(a == v);
        self.f.c.set_if(a < v);
        self.f.h.set_if(a % 16 < v % 16);
    }

    /// Bitwise and into the accumulator.
    pub fn op_and(&mut self, v: u8)
        ensures
            *final(self) == sem_and(*old(self), v),
    {
        self.a = self.a & v;
        self.f.n.unset();
        self.f.h.set();
        self.f.c.unset();
        self.f.z.set_if(self.a == 0);
    }

    /// Bitwise exclusive or into the accumulator.
    pub fn op_xor(&mut self, v: u8)
        ensures
            *final(self) == sem_xor(*old(self), v),
    {
        self.a = self.a ^ v;
        self.f.reset();
        self.f.z.set_if(self.a == 0);
    }

    /// Bitwise or into the accumulator.
    pub fn op_or(&mut self, v: u8)
        ensures
            *final(self) == sem_or(*old(self), v),
    {
        self.a = self.a | v;
        self.f.reset();
        self.f.z.set_if(self.a == 0);
    }

    /// Decimal adjust of the accumulator.
    pub fn op_daa(&mut self)
        ensures
            *final(self) == sem_daa(*old(self)),
    {
        let a = self.a;
        let lo: u16 = if self.f.h.get() || (!self.f.n.get() && a % 16 > 9) {
            6
        } else {
            0
        };
        let hi: u16 = if self.f.c.get() || (!self.f.n.get() && a > 0x99) {
            0x60
        } else {
            0
        };
        let corr: u16 = lo + hi;
        let adjusted: u16 = if self.f.n.get() {
            (a as u16).wrapping_sub(corr)
        } else {
            a as u16 + corr
        };
        let res: u8 = (adjusted % 0x100) as u8;
        if corr >= 0x60 {
            self.f.c.set();
        }
        self.f.h.unset();
        self.f.z.set_if(res == 0);
        self.a = res;
    }

    /// 16-bit add of `v` into the `hl` pair.
    pub fn op_add_hl(&mut self, v: u16)
        ensures
            *final(self) == sem_add_hl(*old(self), v),
    {
        let a: u32 = self.hl() as u32;
        let s: u32 = a + v as u32;
        self.f.n.unset();
        self.f.c.set_if(s > 0xFFFF);
        self.f.h.set_if(a % 0x1000 > s % 0x1000);
        self.l = (s % 0x100) as u8;
        self.h = ((s / 0x100) % 0x100) as u8;
    }

    /// Base-table rotate of the accumulator left.
    pub fn op_rlca(&mut self)
        ensures
            *final(self) == sem_rlca(*old(self)),
    {
        self.f.reset();
        self.a = (self.a << 1) | (self.a >> 7);
        self.f.c.set_if(self.a & 1 == 1);
    }

    /// Base-table rotate of the accumulator right.
    pub fn op_rrca(&mut self)
        ensures
            *final(self) == sem_rrca(*old(self)),
    {
        self.f.reset();
        self.a = (self.a >> 1) | (self.a << 7);
        self.f.c.set_if(self.a & 0x80 != 0);
    }

    /// Base-table rotate of the accumulator left through carry.
    pub fn op_rla(&mut self)
        ensures
            *final(self) == sem_rla(*old(self)),
    {
        let ci: u8 = if self.f.c.get() {
            1
        } else {
            0
        };
        let co = self.a & 0x80;
        self.a = (self.a << 1) | ci;
        self.f.reset();
        self.f.c.set_if(co != 0);
    }

    /// Base-table rotate of the accumulator right through carry.
    pub fn op_rra(&mut self)
        ensures
            *final(self) == sem_rra(*old(self)),
    {
        let ci: u8 = if self.f.c.get() {
            0x80
        } else {
            0
        };
        let co = self.a & 1;
        self.a = (self.a >> 1) | ci;
        self.f.reset();
        self.f.c.set_if(co == 1);
    }
}

} // verus!
