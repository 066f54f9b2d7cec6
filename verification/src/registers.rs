//! The register bank: eight 8-bit general registers, the 16-bit stack and
//! program counters, and the four condition flags (zero, subtract,
//! half-carry, carry).  All arithmetic on the bank wraps modulo 256 or
//! 65536; overflow is specified behaviour, not an error.

use vstd::prelude::*;

verus! {

/// One condition flag, individually settable, clearable and toggleable.
#[derive(Clone, Copy, PartialEq, Eq, Structural)]
pub struct Flag {
    pub on: bool,
}

impl Flag {
    pub fn set(&mut self)
        ensures
            *final(self) == (Flag { on: true }),
    {
        self.on = true;
    }

    pub fn unset(&mut self)
        ensures
            *final(self) == (Flag { on: false }),
    {
        self.on = false;
    }

    pub fn toggle(&mut self)
        ensures
            *final(self) == (Flag { on: !old(self).on }),
    {
        self.on = !self.on;
    }

    pub fn set_if(&mut self, b: bool)
        ensures
            *final(self) == (Flag { on: b }),
    {
        self.on = b;
    }

    pub fn get(&self) -> (b: bool)
        ensures
            b == self.on,
    {
        self.on
    }
}

/// The four condition flags: zero, subtract, half-carry and carry.
#[derive(Clone, Copy, PartialEq, Eq, Structural)]
pub struct Flags {
    pub z: Flag,
    pub n: Flag,
    pub h: Flag,
    pub c: Flag,
}

/// Builds a flag value; shorthand for the specifications below.
pub open spec fn fl(b: bool) -> Flag {
    Flag { on: b }
}

/// The flag set with all four flags cleared.
pub open spec fn flags_cleared() -> Flags {
    Flags { z: fl(false), n: fl(false), h: fl(false), c: fl(false) }
}

/// How the flag set is packed into the high nibble of the flag register
/// byte: zero in bit 7, subtract in bit 6, half-carry in bit 5, carry in
/// bit 4; the low nibble always reads zero.
pub open spec fn flags_byte(f: Flags) -> u8 {
    ((if f.z.on { 0x80int } else { 0int }) + (if f.n.on { 0x40int } else { 0int }) + (if f.h.on {
        0x20int
    } else {
        0int
    }) + (if f.c.on { 0x10int } else { 0int })) as u8
}

/// Unpacking of a byte into the flag set; the low nibble is ignored.
pub open spec fn flags_from_byte(b: u8) -> Flags {
    Flags {
        z: fl(b / 0x80 % 2 == 1),
        n: fl(b / 0x40 % 2 == 1),
        h: fl(b / 0x20 % 2 == 1),
        c: fl(b / 0x10 % 2 == 1),
    }
}

impl Flags {
    /// Clears all four flags.
    pub fn reset(&mut self)
        ensures
            *final(self) == flags_cleared(),
    {
        self.z.unset();
        self.n.unset();
        self.h.unset();
        self.c.unset();
    }
}

/// High byte of a 16-bit value.
pub open spec fn hi8(v: u16) -> u8 {
    (v / 0x100) as u8
}

/// Low byte of a 16-bit value.
pub open spec fn lo8(v: u16) -> u8 {
    (v % 0x100) as u8
}

/// The 16-bit value with the given high and low bytes.
pub open spec fn pair16(hi: u8, lo: u8) -> u16 {
    (hi * 0x100 + lo) as u16
}

/// The register bank.  The eight 8-bit registers pair into the four 16-bit
/// views `af`, `bc`, `de` and `hl` (high byte in the top 8 bits).  `ime`,
/// `halt` and `stop` are the interrupt-master-enable, halt and stop latches
/// that the control instructions drive.
#[derive(Clone, Copy, PartialEq, Eq, Structural)]
pub struct Registers {
    pub a: u8,
    pub b: u8,
    pub c: u8,
    pub d: u8,
    pub e: u8,
    pub h: u8,
    pub l: u8,
    pub f: Flags,
    pub pc: u16,
    pub sp: u16,
    pub ime: bool,
    pub halt: bool,
    pub stop: bool,
}

/// Power-on state of the register bank, as the boot code leaves it.
pub open spec fn power_on_regs() -> Registers {
    Registers {
        a: 0x01,
        b: 0x00,
        c: 0x13,
        d: 0x00,
        e: 0xD8,
        h: 0x01,
        l: 0x4D,
        f: Flags { z: fl(true), n: fl(false), h: fl(true), c: fl(true) },
        pc: 0x0100,
        sp: 0xFFFE,
        ime: true,
        halt: false,
        stop: false,
    }
}

impl Registers {
    /// Power-on state of the bank, as the boot code leaves it.
    pub fn new() -> (r: Registers)
        ensures
            r == power_on_regs(),
    {
        Registers {
            a: 0x01,
            b: 0x00,
            c: 0x13,
            d: 0x00,
            e: 0xD8,
            h: 0x01,
            l: 0x4D,
            f: Flags {
                z: Flag { on: true },
                n: Flag { on: false },
                h: Flag { on: true },
                c: Flag { on: true },
            },
            pc: 0x0100,
            sp: 0xFFFE,
            ime: true,
            halt: false,
            stop: false,
        }
    }

    /// Returns the current program counter and advances it by one,
    /// wrapping at the end of the address space.
    pub fn bump(&mut self) -> (pc0: u16)
        ensures
            pc0 == old(self).pc,
            *final(self) == (Registers { pc: old(self).pc.wrapping_add(1), ..*old(self) }),
    {
        let pc = self.pc;
        self.pc = self.pc.wrapping_add(1);
        pc
    }

    /// The paired `bc` view.
    pub open spec fn bc_v(self) -> u16 {
        pair16(self.b, self.c)
    }

    /// The paired `de` view.
    pub open spec fn de_v(self) -> u16 {
        pair16(self.d, self.e)
    }

    /// The paired `hl` view.
    pub open spec fn hl_v(self) -> u16 {
        pair16(self.h, self.l)
    }

    /// The paired `af` view: accumulator in the high byte, packed flags in
    /// the low byte.
    pub open spec fn af_v(self) -> u16 {
        pair16(self.a, flags_byte(self.f))
    }

    pub fn bc(&self) -> (v: u16)
        ensures
            v == self.bc_v(),
    {
        (self.b as u16) * 0x100 + (self.c as u16)
    }

    pub fn de(&self) -> (v: u16)
        ensures
            v == self.de_v(),
    {
        (self.d as u16) * 0x100 + (self.e as u16)
    }

    pub fn hl(&self) -> (v: u16)
        ensures
            v == self.hl_v(),
    {
        (self.h as u16) * 0x100 + (self.l as u16)
    }

    pub fn af(&self) -> (v: u16)
        ensures
            v == self.af_v(),
    {
        let fb: u8 = (if self.f.z.on { 0x80u8 } else { 0u8 }) + (if self.f.n.on {
            0x40u8
        } else {
            0u8
        }) + (if self.f.h.on { 0x20u8 } else { 0u8 }) + (if self.f.c.on { 0x10u8 } else { 0u8 });
        (self.a as u16) * 0x100 + (fb as u16)
    }

    pub fn bc_set(&mut self, v: u16)
        ensures
            *final(self) == (Registers { b: hi8(v), c: lo8(v), ..*old(self) }),
    {
        self.b = (v / 0x100) as u8;
        self.c = (v % 0x100) as u8;
    }

    pub fn de_set(&mut self, v: u16)
        ensures
            *final(self) == (Registers { d: hi8(v), e: lo8(v), ..*old(self) }),
    {
        self.d = (v / 0x100) as u8;
        self.e = (v % 0x100) as u8;
    }

    pub fn hl_set(&mut self, v: u16)
        ensures
            *final(self) == (Registers { h: hi8(v), l: lo8(v), ..*old(self) }),
    {
        self.h = (v / 0x100) as u8;
        self.l = (v % 0x100) as u8;
    }

    /// Sets the accumulator and the flags from a 16-bit value; the low
    /// nibble of the flag byte is discarded, as the hardware does.
    pub fn af_set(&mut self, v: u16)
        ensures
            *final(self) == (Registers {
                a: hi8(v),
                f: flags_from_byte(lo8(v)),
                ..*old(self)
            }),
    {
        self.a = (v / 0x100) as u8;
        let b: u8 = (v % 0x100) as u8;
        self.f.z.set_if(b / 0x80 % 2 == 1);
        self.f.n.set_if(b / 0x40 % 2 == 1);
        self.f.h.set_if(b / 0x20 % 2 == 1);
        self.f.c.set_if(b / 0x10 % 2 == 1);
    }

    /// Increments the paired `hl` view, wrapping modulo 65536.
    pub fn inc_hl(&mut self)
        ensures
            *final(self) == (Registers {
                h: hi8(old(self).hl_v().wrapping_add(1)),
                l: lo8(old(self).hl_v().wrapping_add(1)),
                ..*old(self)
            }),
    {
        let v = self.hl().wrapping_add(1);
        self.hl_set(v);
    }

    /// Decrements the paired `hl` view, wrapping modulo 65536.
    pub fn dec_hl(&mut self)
        ensures
            *final(self) == (Registers {
                h: hi8(old(self).hl_v().wrapping_sub(1)),
                l: lo8(old(self).hl_v().wrapping_sub(1)),
                ..*old(self)
            }),
    {
        let v = self.hl().wrapping_sub(1);
        self.hl_set(v);
    }

    /// Enables the interrupt master latch.
    pub fn ei(&mut self)
        ensures
            *final(self) == (Registers { ime: true, ..*old(self) }),
    {
        self.ime = true;
    }

    /// Disables the interrupt master latch.
    pub fn di(&mut self)
        ensures
            *final(self) == (Registers { ime: false, ..*old(self) }),
    {
        self.ime = false;
    }
}

} // verus!
