//! The graphics processor: the mode state machine that advances with the
//! master clock through the four rendering phases, the scanline counter,
//! the memory-mapped control registers, the tile cache with its lazy
//! rebuild, and background scanline composition into the framebuffer.
//!
//! Window and sprite layers are not composed; only the background layer
//! is, as the stepping contract states.

use vstd::prelude::*;
use vstd::arithmetic::div_mod::{
    lemma_fundamental_div_mod_converse_div, lemma_fundamental_div_mod_converse_mod,
};
use crate::interrupt::{INT_LCDSTAT, INT_VBLANK};

verus! {

/// Bytes of video memory.
pub const VRAM_SIZE: usize = 0x2000;

/// Bytes of object-attribute memory.
pub const OAM_SIZE: usize = 0x9F;

/// Tiles held by the decoded-tile cache.
pub const NUM_TILES: usize = 192;

/// Visible scanlines.
pub const HEIGHT: usize = 144;

/// Visible pixels per scanline.
pub const WIDTH: usize = 160;

/// One rendering phase of the mode state machine.
#[derive(PartialEq, Eq, Structural, Debug, Copy, Clone)]
pub enum Mode {
    HBlank,
    VBlank,
    RdOam,
    RdVram,
}

/// The two-bit encoding of a phase in the status register.
pub open spec fn mode_bits(m: Mode) -> u8 {
    match m {
        Mode::HBlank => 0,
        Mode::VBlank => 1,
        Mode::RdOam => 2,
        Mode::RdVram => 3,
    }
}

/// The decoded-tile cache: 64 colour indices per tile, a per-tile dirty
/// bit, and the latch that marks the whole cache stale.
pub struct Tiles {
    pub data: Vec<u8>,
    pub need_update: bool,
    pub to_update: Vec<bool>,
}

/// The compiled palettes: for each of background and the two object
/// palettes, four four-byte colours.
pub struct Palettes {
    pub bg: Vec<u8>,
    pub obp0: Vec<u8>,
    pub obp1: Vec<u8>,
}

/// One channel of one shade of the fixed base palette, greenish from
/// lightest to darkest; channels are red, green, blue, alpha.
pub open spec fn base_shade_s(ci: int, ch: int) -> u8 {
    if ci == 0 {
        if ch == 0 {
            225
        } else if ch == 1 {
            247
        } else if ch == 2 {
            207
        } else {
            255
        }
    } else if ci == 1 {
        if ch == 0 {
            136
        } else if ch == 1 {
            193
        } else if ch == 2 {
            107
        } else {
            255
        }
    } else if ci == 2 {
        if ch == 0 {
            49
        } else if ch == 1 {
            106
        } else if ch == 2 {
            74
        } else {
            255
        }
    } else {
        if ch == 0 {
            7
        } else if ch == 1 {
            24
        } else if ch == 2 {
            31
        } else {
            255
        }
    }
}

/// Executable twin of `base_shade_s`.
pub fn base_shade(ci: u8, ch: u8) -> (v: u8)
    ensures
        v == base_shade_s(ci as int, ch as int),
{
    if ci == 0 {
        if ch == 0 {
            225
        } else if ch == 1 {
            247
        } else if ch == 2 {
            207
        } else {
            255
        }
    } else if ci == 1 {
        if ch == 0 {
            136
        } else if ch == 1 {
            193
        } else if ch == 2 {
            107
        } else {
            255
        }
    } else if ci == 2 {
        if ch == 0 {
            49
        } else if ch == 1 {
            106
        } else if ch == 2 {
            74
        } else {
            255
        }
    } else {
        if ch == 0 {
            7
        } else if ch == 1 {
            24
        } else if ch == 2 {
            31
        } else {
            255
        }
    }
}

/// The two-bit shade index that a palette register selects for colour
/// `i`.
pub open spec fn pal_shade_index(val: u8, i: int) -> int {
    if i == 0 {
        (val % 4) as int
    } else if i == 1 {
        (val / 4 % 4) as int
    } else if i == 2 {
        (val / 16 % 4) as int
    } else {
        (val / 64 % 4) as int
    }
}

/// The sixteen bytes of a compiled palette for a palette-register value.
pub open spec fn pal_compiled(val: u8) -> Seq<u8> {
    Seq::new(16, |n: int| base_shade_s(pal_shade_index(val, n / 4), n % 4))
}

/// Recompiles one cached palette from a palette-register value; called
/// whenever the register is written.
pub fn update_pal(pal: &mut Vec<u8>, val: u8)
    requires
        old(pal)@.len() == 16,
    ensures
        final(pal)@ == pal_compiled(val),
{
    let s0 = val % 4;
    let s1 = val / 4 % 4;
    let s2 = val / 16 % 4;
    let s3 = val / 64 % 4;
    let mut ch: usize = 0;
    while ch < 4
        invariant
            ch <= 4,
            pal@.len() == 16,
            s0 == val % 4 && s1 == val / 4 % 4 && s2 == val / 16 % 4 && s3 == val / 64 % 4,
            forall|n: int|
                0 <= n < 16 && n % 4 < ch ==> pal@[n] == base_shade_s(
                    pal_shade_index(val, n / 4),
                    n % 4,
                ),
        decreases 4 - ch,
    {
        let ch8 = ch as u8;
        set_pal_byte(pal, 0 + ch, base_shade(s0, ch8));
        set_pal_byte(pal, 4 + ch, base_shade(s1, ch8));
        set_pal_byte(pal, 8 + ch, base_shade(s2, ch8));
        set_pal_byte(pal, 12 + ch, base_shade(s3, ch8));
        ch = ch + 1;
    }
    proof {
        assert(pal@ =~= pal_compiled(val));
    }
}

/// Writes one palette byte; split out so the update loop stays readable.
fn set_pal_byte(pal: &mut Vec<u8>, i: usize, v: u8)
    requires
        i < old(pal)@.len(),
    ensures
        final(pal)@ == old(pal)@.update(i as int, v),
{
    pal.set(i, v);
}

/// The scalar control state of the graphics processor: everything except
/// the memories, the framebuffer, the tile cache and the palettes.
pub ghost struct Ctrl {
    pub mode: Mode,
    pub clock: u32,
    pub ly: u8,
    pub lyc: u8,
    pub scy: u8,
    pub scx: u8,
    pub bgp: u8,
    pub obp0: u8,
    pub obp1: u8,
    pub wy: u8,
    pub wx: u8,
    pub lcdon: bool,
    pub winmap: bool,
    pub winon: bool,
    pub tiledata: bool,
    pub bgmap: bool,
    pub objsize: bool,
    pub objon: bool,
    pub bgon: bool,
    pub lycly: bool,
    pub mode2int: bool,
    pub mode1int: bool,
    pub mode0int: bool,
    pub vrambank_sel: u8,
    pub is_cgb: bool,
    pub is_sgb: bool,
}

/// The graphics processor.
pub struct Gpu {
    pub oam: Vec<u8>,
    pub image_data: Vec<u8>,
    pub is_cgb: bool,
    pub is_sgb: bool,
    pub mode: Mode,
    pub clock: u32,
    pub vrambank: Vec<u8>,
    pub vrambank_sel: u8,
    pub lcdon: bool,
    pub winmap: bool,
    pub winon: bool,
    pub tiledata: bool,
    pub bgmap: bool,
    pub objsize: bool,
    pub objon: bool,
    pub bgon: bool,
    pub lycly: bool,
    pub mode2int: bool,
    pub mode1int: bool,
    pub mode0int: bool,
    pub scy: u8,
    pub scx: u8,
    pub ly: u8,
    pub lyc: u8,
    pub bgp: u8,
    pub obp0: u8,
    pub obp1: u8,
    pub wy: u8,
    pub wx: u8,
    pub pal: Palettes,
    pub tiles: Tiles,
}

/// The control-state view of a graphics processor.
pub open spec fn ctrl(g: Gpu) -> Ctrl {
    Ctrl {
        mode: g.mode,
        clock: g.clock,
        ly: g.ly,
        lyc: g.lyc,
        scy: g.scy,
        scx: g.scx,
        bgp: g.bgp,
        obp0: g.obp0,
        obp1: g.obp1,
        wy: g.wy,
        wx: g.wx,
        lcdon: g.lcdon,
        winmap: g.winmap,
        winon: g.winon,
        tiledata: g.tiledata,
        bgmap: g.bgmap,
        objsize: g.objsize,
        objon: g.objon,
        bgon: g.bgon,
        lycly: g.lycly,
        mode2int: g.mode2int,
        mode1int: g.mode1int,
        mode0int: g.mode0int,
        vrambank_sel: g.vrambank_sel,
        is_cgb: g.is_cgb,
        is_sgb: g.is_sgb,
    }
}

impl Gpu {
    /// The memories, framebuffer, cache and palettes all have their fixed
    /// sizes, the cache holds two-bit colour indices, and the scanline
    /// index stays inside its 154-line frame.
    pub open spec fn wf(self) -> bool {
        self.oam@.len() == OAM_SIZE && self.image_data@.len() == WIDTH * HEIGHT * 4
            && self.vrambank@.len() == VRAM_SIZE && self.tiles.data@.len() == NUM_TILES * 64 && (
        forall|i: int| 0 <= i < NUM_TILES * 64 ==> self.tiles.data@[i] < 4)
            && self.tiles.to_update@.len() == NUM_TILES && self.pal.bg@.len() == 16
            && self.pal.obp0@.len() == 16 && self.pal.obp1@.len() == 16 && self.ly < 154
    }
}

/// A byte vector of the given length, cleared.
fn zero_vec(n: usize) -> (v: Vec<u8>)
    ensures
        v@.len() == n,
        forall|i: int| 0 <= i < n ==> v@[i] == 0u8,
{
    let mut v: Vec<u8> = Vec::new();
    let mut i: usize = 0;
    while i < n
        invariant
            i <= n,
            v@.len() == i,
            forall|j: int| 0 <= j < i ==> v@[j] == 0u8,
        decreases n - i,
    {
        v.push(0);
        i = i + 1;
    }
    v
}

/// A boolean vector of the given length, all set.
fn true_vec(n: usize) -> (v: Vec<bool>)
    ensures
        v@.len() == n,
        forall|i: int| 0 <= i < n ==> v@[i] == true,
    {
    let mut v: Vec<bool> = Vec::new();
    let mut i: usize = 0;
    while i < n
        invariant
            i <= n,
            v@.len() == i,
            forall|j: int| 0 <= j < i ==> v@[j] == true,
        decreases n - i,
    {
        v.push(true);
        i = i + 1;
    }
    v
}

/// The register file a freshly powered-on graphics processor reports.
pub open spec fn power_on_ctrl() -> Ctrl {
    Ctrl {
        mode: Mode::RdOam,
        clock: (0xABCCint % 456) as u32,
        ly: 0,
        lyc: 0,
        scy: 0,
        scx: 0,
        bgp: 0,
        obp0: 0,
        obp1: 0,
        wy: 0,
        wx: 0,
        lcdon: false,
        winmap: false,
        winon: false,
        tiledata: false,
        bgmap: false,
        objsize: false,
        objon: false,
        bgon: false,
        lycly: false,
        mode2int: false,
        mode1int: false,
        mode0int: false,
        vrambank_sel: 0,
        is_cgb: false,
        is_sgb: false,
    }
}

impl Gpu {
    /// A graphics processor in its power-on state: cleared memories and
    /// framebuffer, the clock where the boot code leaves it, the whole
    /// tile cache marked stale, and the palettes compiled from the boot
    /// palette value.
    pub fn new() -> (g: Gpu)
        ensures
            g.wf(),
            ctrl(g) == power_on_ctrl(),
            forall|i: int| 0 <= i < g.image_data@.len() ==> g.image_data@[i] == 0u8,
            forall|i: int| 0 <= i < g.vrambank@.len() ==> g.vrambank@[i] == 0u8,
            forall|i: int| 0 <= i < g.oam@.len() ==> g.oam@[i] == 0u8,
            forall|i: int| 0 <= i < g.tiles.data@.len() ==> g.tiles.data@[i] == 0u8,
            g.tiles.need_update == true,
            forall|i: int| 0 <= i < g.tiles.to_update@.len() ==> g.tiles.to_update@[i] == true,
            g.pal.bg@ == pal_compiled(0xE4),
            g.pal.obp0@ == pal_compiled(0xE4),
            g.pal.obp1@ == pal_compiled(0xE4),
    {
        let mut bg = zero_vec(16);
        let mut obp0 = zero_vec(16);
        let mut obp1 = zero_vec(16);
        update_pal(&mut bg, 0xE4);
        update_pal(&mut obp0, 0xE4);
        update_pal(&mut obp1, 0xE4);
        Gpu {
            image_data: zero_vec(WIDTH * HEIGHT * 4),
            oam: zero_vec(OAM_SIZE),
            is_cgb: false,
            is_sgb: false,
            clock: 0xABCC % 456,
            vrambank: zero_vec(VRAM_SIZE),
            vrambank_sel: 0,
            mode: Mode::RdOam,
            wx: 0,
            wy: 0,
            obp1: 0,
            obp0: 0,
            bgp: 0,
            lyc: 0,
            ly: 0,
            scx: 0,
            scy: 0,
            mode0int: false,
            mode1int: false,
            mode2int: false,
            lycly: false,
            bgon: false,
            objon: false,
            objsize: false,
            bgmap: false,
            tiledata: false,
            winon: false,
            winmap: false,
            lcdon: false,
            pal: Palettes { bg, obp0, obp1 },
            tiles: Tiles {
                need_update: true,
                to_update: true_vec(NUM_TILES),
                data: zero_vec(NUM_TILES * 64),
            },
        }
    }

    /// Reads a byte of video memory; the address is the bus address.
    pub fn rb_vram(&self, addr: u16) -> (v: u8)
        requires
            self.wf(),
            0x8000 <= addr < 0xA000,
        ensures
            v == self.vrambank@[addr - 0x8000],
    {
        self.vrambank[addr as usize - 0x8000]
    }

    /// Writes a byte of video memory; the address is the bus address.
    pub fn wb_vram(&mut self, addr: u16, data: u8)
        requires
            old(self).wf(),
            0x8000 <= addr < 0xA000,
        ensures
            final(self).wf(),
            final(self).vrambank@ == old(self).vrambank@.update(addr - 0x8000, data),
            ctrl(*final(self)) == ctrl(*old(self)),
            final(self).oam@ == old(self).oam@,
            final(self).image_data@ == old(self).image_data@,
            final(self).tiles.data@ == old(self).tiles.data@,
            final(self).tiles.need_update == old(self).tiles.need_update,
            final(self).tiles.to_update@ == old(self).tiles.to_update@,
            final(self).pal.bg@ == old(self).pal.bg@,
            final(self).pal.obp0@ == old(self).pal.obp0@,
            final(self).pal.obp1@ == old(self).pal.obp1@,
    {
        self.vrambank.set(addr as usize - 0x8000, data);
    }
}

/// The value read from a memory-mapped control register, selected by the
/// low byte of the bus address.  The scanline register reads as zero, and
/// the compare bit of the status register compares the compare-interrupt
/// enable with the scanline index, both literally as the hardware model
/// has them.  Unmapped offsets read 0xFF.
pub open spec fn read_reg(c: Ctrl, addr: u16) -> u8 {
    let off = addr % 0x100;
    if off == 0x40 {
        ((if c.lcdon {
            0x80int
        } else {
            0int
        }) + (if c.winmap {
            0x40int
        } else {
            0int
        }) + (if c.winon {
            0x20int
        } else {
            0int
        }) + (if c.tiledata {
            0x10int
        } else {
            0int
        }) + (if c.bgmap {
            8int
        } else {
            0int
        }) + (if c.objsize {
            4int
        } else {
            0int
        }) + (if c.objon {
            2int
        } else {
            0int
        }) + (if c.bgon {
            1int
        } else {
            0int
        })) as u8
    } else if off == 0x41 {
        ((if c.lycly {
            0x40int
        } else {
            0int
        }) + (if c.mode2int {
            0x20int
        } else {
            0int
        }) + (if c.mode1int {
            0x10int
        } else {
            0int
        }) + (if c.mode0int {
            8int
        } else {
            0int
        }) + (if (if c.lycly {
            1int
        } else {
            0int
        }) == c.ly {
            4int
        } else {
            0int
        }) + mode_bits(c.mode)) as u8
    } else if off == 0x42 {
        c.scy
    } else if off == 0x43 {
        c.scx
    } else if off == 0x44 {
        0
    } else if off == 0x45 {
        c.lyc
    } else if off == 0x47 {
        c.bgp
    } else if off == 0x48 {
        c.obp0
    } else if off == 0x49 {
        c.obp1
    } else if off == 0x4A {
        c.wy
    } else if off == 0x4B {
        c.wx
    } else if off == 0x4F {
        c.vrambank_sel
    } else {
        0xFF
    }
}

/// The control state after a write to a memory-mapped register.  Turning
/// the display on restarts the frame at a fixed early clock; the palette
/// registers additionally recompile their cached palette, which
/// `Gpu::wb` states separately.  Unmapped offsets are ignored.
pub open spec fn write_ctrl(c: Ctrl, addr: u16, val: u8) -> Ctrl {
    let off = addr % 0x100;
    if off == 0x40 {
        let lcdon1 = val / 128 % 2 == 1;
        let c1 = Ctrl {
            lcdon: lcdon1,
            winmap: val / 64 % 2 == 1,
            winon: val / 32 % 2 == 1,
            tiledata: val / 16 % 2 == 1,
            bgmap: val / 8 % 2 == 1,
            objsize: val / 4 % 2 == 1,
            objon: val / 2 % 2 == 1,
            bgon: val % 2 == 1,
            ..c
        };
        if !c.lcdon && lcdon1 {
            Ctrl { clock: 4, ly: 0, ..c1 }
        } else {
            c1
        }
    } else if off == 0x41 {
        Ctrl {
            lycly: val / 64 % 2 == 1,
            mode2int: val / 32 % 2 == 1,
            mode1int: val / 16 % 2 == 1,
            mode0int: val / 8 % 2 == 1,
            ..c
        }
    } else if off == 0x42 {
        Ctrl { scy: val, ..c }
    } else if off == 0x43 {
        Ctrl { scx: val, ..c }
    } else if off == 0x45 {
        Ctrl { lyc: val, ..c }
    } else if off == 0x47 {
        Ctrl { bgp: val, ..c }
    } else if off == 0x48 {
        Ctrl { obp0: val, ..c }
    } else if off == 0x49 {
        Ctrl { obp1: val, ..c }
    } else if off == 0x4A {
        Ctrl { wy: val, ..c }
    } else if off == 0x4B {
        Ctrl { wx: val, ..c }
    } else if off == 0x4F {
        if c.is_cgb {
            Ctrl { vrambank_sel: val % 2, ..c }
        } else {
            c
        }
    } else {
        c
    }
}

impl Gpu {
    /// Reads a memory-mapped control register.
    #[verifier::rlimit(100)]
    pub fn rb(&self, addr: u16) -> (v: u8)
        ensures
            v == read_reg(ctrl(*self), addr),
    {
        match (addr % 0x100) as u8 {
            0x40 => {
                (if self.lcdon {
                    0x80u8
                } else {
                    0u8
                }) + (if self.winmap {
                    0x40u8
                } else {
                    0u8
                }) + (if self.winon {
                    0x20u8
                } else {
                    0u8
                }) + (if self.tiledata {
                    0x10u8
                } else {
                    0u8
                }) + (if self.bgmap {
                    8u8
                } else {
                    0u8
                }) + (if self.objsize {
                    4u8
                } else {
                    0u8
                }) + (if self.objon {
                    2u8
                } else {
                    0u8
                }) + (if self.bgon {
                    1u8
                } else {
                    0u8
                })
            },
            0x41 => {
                let lyly: u8 = if self.lycly {
                    1
                } else {
                    0
                };
                let mb: u8 = match self.mode {
                    Mode::HBlank => 0,
                    Mode::VBlank => 1,
                    Mode::RdOam => 2,
                    Mode::RdVram => 3,
                };
                (if self.lycly {
                    0x40u8
                } else {
                    0u8
                }) + (if self.mode2int {
                    0x20u8
                } else {
                    0u8
                }) + (if self.mode1int {
                    0x10u8
                } else {
                    0u8
                }) + (if self.mode0int {
                    8u8
                } else {
                    0u8
                }) + (if lyly == self.ly {
                    4u8
                } else {
                    0u8
                }) + mb
            },
            0x42 => self.scy,
            0x43 => self.scx,
            0x44 => 0,
            0x45 => self.lyc,
            0x47 => self.bgp,
            0x48 => self.obp0,
            0x49 => self.obp1,
            0x4A => self.wy,
            0x4B => self.wx,
            0x4F => self.vrambank_sel,
            _ => 0xFF,
        }
    }

    /// Writes a memory-mapped control register, recompiling the touched
    /// cached palette when a palette register is written.  Writes to
    /// unmapped offsets are ignored.
    #[verifier::rlimit(100)]
    pub fn wb(&mut self, addr: u16, val: u8)
        requires
            old(self).wf(),
        ensures
            final(self).wf(),
            ctrl(*final(self)) == write_ctrl(ctrl(*old(self)), addr, val),
            final(self).pal.bg@ == (if addr % 0x100 == 0x47 {
                pal_compiled(val)
            } else {
                old(self).pal.bg@
            }),
            final(self).pal.obp0@ == (if addr % 0x100 == 0x48 {
                pal_compiled(val)
            } else {
                old(self).pal.obp0@
            }),
            final(self).pal.obp1@ == (if addr % 0x100 == 0x49 {
                pal_compiled(val)
            } else {
                old(self).pal.obp1@
            }),
            final(self).oam@ == old(self).oam@,
            final(self).vrambank@ == old(self).vrambank@,
            final(self).image_data@ == old(self).image_data@,
            final(self).tiles.data@ == old(self).tiles.data@,
            final(self).tiles.need_update == old(self).tiles.need_update,
            final(self).tiles.to_update@ == old(self).tiles.to_update@,
    {
        match (addr % 0x100) as u8 {
            0x40 => self.wb_lcdc(addr, val),
            0x41 => self.wb_stat(addr, val),
            0x42 => self.wb_scy(addr, val),
            0x43 => self.wb_scx(addr, val),
            0x45 => self.wb_lyc(addr, val),
            0x47 => self.wb_bgp(addr, val),
            0x48 => self.wb_obp0(addr, val),
            0x49 => self.wb_obp1(addr, val),
            0x4A => self.wb_wy(addr, val),
            0x4B => self.wb_wx(addr, val),
            0x4F => self.wb_vbk(addr, val),
            _ => {},
        }
    }

    /// One control-register write, at offset 0x40.
    #[verifier::rlimit(100)]
    fn wb_lcdc(&mut self, addr: u16, val: u8)
        requires
            old(self).wf(),
            addr % 0x100 == 0x40,
        ensures
            final(self).wf(),
            ctrl(*final(self)) == write_ctrl(ctrl(*old(self)), addr, val),
            final(self).pal.bg@ == old(self).pal.bg@,
            final(self).pal.obp0@ == old(self).pal.obp0@,
            final(self).pal.obp1@ == old(self).pal.obp1@,
            final(self).oam@ == old(self).oam@,
            final(self).vrambank@ == old(self).vrambank@,
            final(self).image_data@ == old(self).image_data@,
            final(self).tiles.data@ == old(self).tiles.data@,
            final(self).tiles.need_update == old(self).tiles.need_update,
            final(self).tiles.to_update@ == old(self).tiles.to_update@,
    {
        let before = self.lcdon;
        self.lcdon = val / 128 % 2 == 1;
        self.winmap = val / 64 % 2 == 1;
        self.winon = val / 32 % 2 == 1;
        self.tiledata = val / 16 % 2 == 1;
        self.bgmap = val / 8 % 2 == 1;
        self.objsize = val / 4 % 2 == 1;
        self.objon = val / 2 % 2 == 1;
        self.bgon = val % 2 == 1;
        if !before && self.lcdon {
            self.clock = 4;
            self.ly = 0;
        }
    }

    /// One control-register write, at offset 0x41.
    #[verifier::rlimit(100)]
    fn wb_stat(&mut self, addr: u16, val: u8)
        requires
            old(self).wf(),
            addr % 0x100 == 0x41,
        ensures
            final(self).wf(),
            ctrl(*final(self)) == write_ctrl(ctrl(*old(self)), addr, val),
            final(self).pal.bg@ == old(self).pal.bg@,
            final(self).pal.obp0@ == old(self).pal.obp0@,
            final(self).pal.obp1@ == old(self).pal.obp1@,
            final(self).oam@ == old(self).oam@,
            final(self).vrambank@ == old(self).vrambank@,
            final(self).image_data@ == old(self).image_data@,
            final(self).tiles.data@ == old(self).tiles.data@,
            final(self).tiles.need_update == old(self).tiles.need_update,
            final(self).tiles.to_update@ == old(self).tiles.to_update@,
    {
        self.lycly = val / 64 % 2 == 1;
        self.mode2int = val / 32 % 2 == 1;
        self.mode1int = val / 16 % 2 == 1;
        self.mode0int = val / 8 % 2 == 1;
    }

    /// One control-register write, at offset 0x42.
    #[verifier::rlimit(100)]
    fn wb_scy(&mut self, addr: u16, val: u8)
        requires
            old(self).wf(),
            addr % 0x100 == 0x42,
        ensures
            final(self).wf(),
            ctrl(*final(self)) == write_ctrl(ctrl(*old(self)), addr, val),
            final(self).pal.bg@ == old(self).pal.bg@,
            final(self).pal.obp0@ == old(self).pal.obp0@,
            final(self).pal.obp1@ == old(self).pal.obp1@,
            final(self).oam@ == old(self).oam@,
            final(self).vrambank@ == old(self).vrambank@,
            final(self).image_data@ == old(self).image_data@,
            final(self).tiles.data@ == old(self).tiles.data@,
            final(self).tiles.need_update == old(self).tiles.need_update,
            final(self).tiles.to_update@ == old(self).tiles.to_update@,
    {
        self.scy = val;
    }

    /// One control-register write, at offset 0x43.
    #[verifier::rlimit(100)]
    fn wb_scx(&mut self, addr: u16, val: u8)
        requires
            old(self).wf(),
            addr % 0x100 == 0x43,
        ensures
            final(self).wf(),
            ctrl(*final(self)) == write_ctrl(ctrl(*old(self)), addr, val),
            final(self).pal.bg@ == old(self).pal.bg@,
            final(self).pal.obp0@ == old(self).pal.obp0@,
            final(self).pal.obp1@ == old(self).pal.obp1@,
            final(self).oam@ == old(self).oam@,
            final(self).vrambank@ == old(self).vrambank@,
            final(self).image_data@ == old(self).image_data@,
            final(self).tiles.data@ == old(self).tiles.data@,
            final(self).tiles.need_update == old(self).tiles.need_update,
            final(self).tiles.to_update@ == old(self).tiles.to_update@,
    {
        self.scx = val;
    }

    /// One control-register write, at offset 0x45.
    #[verifier::rlimit(100)]
    fn wb_lyc(&mut self, addr: u16, val: u8)
        requires
            old(self).wf(),
            addr % 0x100 == 0x45,
        ensures
            final(self).wf(),
            ctrl(*final(self)) == write_ctrl(ctrl(*old(self)), addr, val),
            final(self).pal.bg@ == old(self).pal.bg@,
            final(self).pal.obp0@ == old(self).pal.obp0@,
            final(self).pal.obp1@ == old(self).pal.obp1@,
            final(self).oam@ == old(self).oam@,
            final(self).vrambank@ == old(self).vrambank@,
            final(self).image_data@ == old(self).image_data@,
            final(self).tiles.data@ == old(self).tiles.data@,
            final(self).tiles.need_update == old(self).tiles.need_update,
            final(self).tiles.to_update@ == old(self).tiles.to_update@,
    {
        self.lyc = val;
    }

    /// One control-register write, at offset 0x47.
    #[verifier::rlimit(100)]
    fn wb_bgp(&mut self, addr: u16, val: u8)
        requires
            old(self).wf(),
            addr % 0x100 == 0x47,
        ensures
            final(self).wf(),
            ctrl(*final(self)) == write_ctrl(ctrl(*old(self)), addr, val),
            final(self).pal.bg@ == pal_compiled(val),
            final(self).pal.obp0@ == old(self).pal.obp0@,
            final(self).pal.obp1@ == old(self).pal.obp1@,
            final(self).oam@ == old(self).oam@,
            final(self).vrambank@ == old(self).vrambank@,
            final(self).image_data@ == old(self).image_data@,
            final(self).tiles.data@ == old(self).tiles.data@,
            final(self).tiles.need_update == old(self).tiles.need_update,
            final(self).tiles.to_update@ == old(self).tiles.to_update@,
    {
        self.bgp = val;
        update_pal(&mut self.pal.bg, val);
    }

    /// One control-register write, at offset 0x48.
    #[verifier::rlimit(100)]
    fn wb_obp0(&mut self, addr: u16, val: u8)
        requires
            old(self).wf(),
            addr % 0x100 == 0x48,
        ensures
            final(self).wf(),
            ctrl(*final(self)) == write_ctrl(ctrl(*old(self)), addr, val),
            final(self).pal.bg@ == old(self).pal.bg@,
            final(self).pal.obp0@ == pal_compiled(val),
            final(self).pal.obp1@ == old(self).pal.obp1@,
            final(self).oam@ == old(self).oam@,
            final(self).vrambank@ == old(self).vrambank@,
            final(self).image_data@ == old(self).image_data@,
            final(self).tiles.data@ == old(self).tiles.data@,
            final(self).tiles.need_update == old(self).tiles.need_update,
            final(self).tiles.to_update@ == old(self).tiles.to_update@,
    {
        self.obp0 = val;
        update_pal(&mut self.pal.obp0, val);
    }

    /// One control-register write, at offset 0x49.
    #[verifier::rlimit(100)]
    fn wb_obp1(&mut self, addr: u16, val: u8)
        requires
            old(self).wf(),
            addr % 0x100 == 0x49,
        ensures
            final(self).wf(),
            ctrl(*final(self)) == write_ctrl(ctrl(*old(self)), addr, val),
            final(self).pal.bg@ == old(self).pal.bg@,
            final(self).pal.obp0@ == old(self).pal.obp0@,
            final(self).pal.obp1@ == pal_compiled(val),
            final(self).oam@ == old(self).oam@,
            final(self).vrambank@ == old(self).vrambank@,
            final(self).image_data@ == old(self).image_data@,
            final(self).tiles.data@ == old(self).tiles.data@,
            final(self).tiles.need_update == old(self).tiles.need_update,
            final(self).tiles.to_update@ == old(self).tiles.to_update@,
    {
        self.obp1 = val;
        update_pal(&mut self.pal.obp1, val);
    }

    /// One control-register write, at offset 0x4A.
    #[verifier::rlimit(100)]
    fn wb_wy(&mut self, addr: u16, val: u8)
        requires
            old(self).wf(),
            addr % 0x100 == 0x4A,
        ensures
            final(self).wf(),
            ctrl(*final(self)) == write_ctrl(ctrl(*old(self)), addr, val),
            final(self).pal.bg@ == old(self).pal.bg@,
            final(self).pal.obp0@ == old(self).pal.obp0@,
            final(self).pal.obp1@ == old(self).pal.obp1@,
            final(self).oam@ == old(self).oam@,
            final(self).vrambank@ == old(self).vrambank@,
            final(self).image_data@ == old(self).image_data@,
            final(self).tiles.data@ == old(self).tiles.data@,
            final(self).tiles.need_update == old(self).tiles.need_update,
            final(self).tiles.to_update@ == old(self).tiles.to_update@,
    {
        self.wy = val;
    }

    /// One control-register write, at offset 0x4B.
    #[verifier::rlimit(100)]
    fn wb_wx(&mut self, addr: u16, val: u8)
        requires
            old(self).wf(),
            addr % 0x100 == 0x4B,
        ensures
            final(self).wf(),
            ctrl(*final(self)) == write_ctrl(ctrl(*old(self)), addr, val),
            final(self).pal.bg@ == old(self).pal.bg@,
            final(self).pal.obp0@ == old(self).pal.obp0@,
            final(self).pal.obp1@ == old(self).pal.obp1@,
            final(self).oam@ == old(self).oam@,
            final(self).vrambank@ == old(self).vrambank@,
            final(self).image_data@ == old(self).image_data@,
            final(self).tiles.data@ == old(self).tiles.data@,
            final(self).tiles.need_update == old(self).tiles.need_update,
            final(self).tiles.to_update@ == old(self).tiles.to_update@,
    {
        self.wx = val;
    }

    /// One control-register write, at offset 0x4F.
    #[verifier::rlimit(100)]
    fn wb_vbk(&mut self, addr: u16, val: u8)
        requires
            old(self).wf(),
            addr % 0x100 == 0x4F,
        ensures
            final(self).wf(),
            ctrl(*final(self)) == write_ctrl(ctrl(*old(self)), addr, val),
            final(self).pal.bg@ == old(self).pal.bg@,
            final(self).pal.obp0@ == old(self).pal.obp0@,
            final(self).pal.obp1@ == old(self).pal.obp1@,
            final(self).oam@ == old(self).oam@,
            final(self).vrambank@ == old(self).vrambank@,
            final(self).image_data@ == old(self).image_data@,
            final(self).tiles.data@ == old(self).tiles.data@,
            final(self).tiles.need_update == old(self).tiles.need_update,
            final(self).tiles.to_update@ == old(self).tiles.to_update@,
    {
        if self.is_cgb {
            self.vrambank_sel = val % 2;
        }
    }

    /// Base offset of the background tile map inside video memory, as
    /// the map-select control bit chooses it.
    pub fn bgbase(&self) -> (b: usize)
        ensures
            b == (if self.bgmap {
                0x1C00int
            } else {
                0x1800int
            }),
    {
        if self.bgmap {
            0x1C00
        } else {
            0x1800
        }
    }

    /// Maps a tile index through the addressing-mode offset that the
    /// tile-data control bit selects: taken as unsigned when the bit is
    /// set, otherwise offset into the signed half of the table.
    pub fn add_tilei(&self, base: usize, tilei: u8) -> (t: usize)
        requires
            base + 384 <= usize::MAX,
        ensures
            t == base + (if self.tiledata {
                tilei as int
            } else {
                tilei + 128
            }),
    {
        if self.tiledata {
            base + tilei as usize
        } else {
            base + (tilei as usize + 128)
        }
    }
}

/// One decoded colour index of the tile cache, by flat cache position:
/// tile `n / 64`, row `(n % 64) / 8`, column `n % 8`.  Each tile row is
/// two interleaved bit planes of raw video memory, the second byte
/// holding the high bit of each index, the most significant source bit
/// mapping to the leftmost pixel.
pub open spec fn tile_pixel(vram: Seq<u8>, n: int) -> u8 {
    let i = n / 64;
    let j = (n % 64) / 8;
    let k = n % 8;
    let lsb = vram[i * 16 + j * 2];
    let msb = vram[i * 16 + j * 2 + 1];
    (((msb >> ((7 - k) as u8)) % 2) * 2 + ((lsb >> ((7 - k) as u8)) % 2)) as u8
}

/// The tile cache after a rebuild: every dirty tile is decoded afresh
/// from video memory, every clean one is kept.
#[verifier::opaque]
pub open spec fn rebuilt_tiles(data: Seq<u8>, dirty: Seq<bool>, vram: Seq<u8>) -> Seq<u8> {
    Seq::new(data.len(), |n: int| if dirty[n / 64] { tile_pixel(vram, n) } else { data[n] })
}

/// Flat coordinates of a cache position, for the rebuild proof.
proof fn lemma_tile_coords(i: int, j: int, k: int)
    requires
        0 <= i,
        0 <= j < 8,
        0 <= k < 8,
    ensures
        (i * 64 + j * 8 + k) / 64 == i,
        ((i * 64 + j * 8 + k) % 64) / 8 == j,
        (i * 64 + j * 8 + k) % 8 == k,
{
    let n = i * 64 + j * 8 + k;
    lemma_fundamental_div_mod_converse_div(n, 64, i, j * 8 + k);
    lemma_fundamental_div_mod_converse_mod(n, 64, i, j * 8 + k);
    lemma_fundamental_div_mod_converse_div(j * 8 + k, 8, j, k);
    lemma_fundamental_div_mod_converse_mod(n, 8, i * 8 + j, k);
}

/// Byte offset of the row of the background map that the current
/// scanline falls on, inside video memory.
pub open spec fn bg_map_base(c: Ctrl) -> int {
    (if c.bgmap {
        0x1C00int
    } else {
        0x1800int
    }) + (c.ly + c.scy) % 256 / 8 * 32
}

/// The cache slot that the tile index of screen column `i` selects,
/// after the addressing-mode offset; slots reduce modulo the cache size.
pub open spec fn bg_tile_slot(c: Ctrl, vram: Seq<u8>, i: int) -> int {
    let tilei = vram[bg_map_base(c) + (i + c.scx) % 256 / 8];
    (if c.tiledata {
        tilei as int
    } else {
        tilei + 128
    }) % (NUM_TILES as int)
}

/// The two-bit colour index composed at screen column `i` of the current
/// scanline.
pub open spec fn bg_color_index(c: Ctrl, vram: Seq<u8>, data: Seq<u8>, i: int) -> u8 {
    data[bg_tile_slot(c, vram, i) * 64 + (c.ly + c.scy) % 8 * 8 + (c.scx + i) % 8]
}

/// The framebuffer after background composition of the current scanline:
/// each of its 160 pixels becomes the four palette bytes of its composed
/// colour index; every other line is kept.
#[verifier::opaque]
pub open spec fn bg_rendered(
    img: Seq<u8>,
    c: Ctrl,
    vram: Seq<u8>,
    data: Seq<u8>,
    pal_bg: Seq<u8>,
) -> Seq<u8> {
    Seq::new(
        img.len(),
        |n: int|
            if c.ly * 640 <= n < c.ly * 640 + 640 {
                pal_bg[bg_color_index(c, vram, data, (n - c.ly * 640) / 4) * 4 + n % 4]
            } else {
                img[n]
            },
    )
}

/// The scanline-advance half of one step: accumulate the elapsed clocks;
/// on completing a 456-clock line, advance the scanline index modulo 154
/// and, entering the vertical-blank region, switch to that mode.
pub open spec fn scan_ctrl(c: Ctrl, clocks: u32) -> Ctrl {
    let total = c.clock + clocks;
    if total >= 456 {
        let ly1 = ((c.ly + 1) % 154) as u8;
        Ctrl {
            clock: (total - 456) as u32,
            ly: ly1,
            mode: if ly1 >= 144 && c.mode != Mode::VBlank {
                Mode::VBlank
            } else {
                c.mode
            },
            ..c
        }
    } else {
        Ctrl { clock: total as u32, ..c }
    }
}

/// The visible-region phase that the per-scanline clock selects.
pub open spec fn visible_phase(clock: u32) -> Mode {
    if clock <= 80 {
        Mode::RdOam
    } else if clock <= 252 {
        Mode::RdVram
    } else {
        Mode::HBlank
    }
}

/// The control state after one step: the scanline advance, then, on a
/// visible line, the phase that the clock selects.
pub open spec fn gpu_after_step(c: Ctrl, clocks: u32) -> Ctrl {
    let c1 = scan_ctrl(c, clocks);
    if c1.ly < 144 {
        Ctrl { mode: visible_phase(c1.clock), ..c1 }
    } else {
        c1
    }
}

/// Whether one step enters the horizontal-blank phase, which is when
/// scanline composition runs.
pub open spec fn step_enters_hblank(c: Ctrl, clocks: u32) -> bool {
    let c1 = scan_ctrl(c, clocks);
    c1.ly < 144 && visible_phase(c1.clock) == Mode::HBlank && c1.mode != Mode::HBlank
}

/// The interrupt bits a phase entry ORs into the request byte: the
/// vertical-blank bit (plus the status bit if enabled) on entering
/// vertical blank, and the status bit on entering a visible phase whose
/// source is enabled; entering the video-read phase raises nothing.
pub open spec fn switch_bits(c: Ctrl, mode: Mode, if0: u8) -> u8 {
    match mode {
        Mode::HBlank => if c.mode0int {
            if0 | INT_LCDSTAT
        } else {
            if0
        },
        Mode::VBlank => {
            let x = if0 | INT_VBLANK;
            if c.mode1int {
                x | INT_LCDSTAT
            } else {
                x
            }
        },
        Mode::RdOam => if c.mode2int {
            if0 | INT_LCDSTAT
        } else {
            if0
        },
        Mode::RdVram => if0,
    }
}

/// The interrupt-request byte after the scanline-advance half of one
/// step: the vertical-blank entry bits, then the scanline-compare bit.
pub open spec fn scan_if(c: Ctrl, clocks: u32, if0: u8) -> u8 {
    let total = c.clock + clocks;
    let c1 = scan_ctrl(c, clocks);
    let if1 = if total >= 456 && c1.ly >= 144 && c.mode != Mode::VBlank {
        switch_bits(c, Mode::VBlank, if0)
    } else {
        if0
    };
    if total >= 456 && c1.ly == c.lyc && c.lycly {
        if1 | INT_LCDSTAT
    } else {
        if1
    }
}

/// The interrupt-request byte after one step: the vertical-blank entry
/// bits, then the scanline-compare bit, then the visible-phase entry
/// bits, in the order the hardware model raises them.
pub open spec fn step_if_result(c: Ctrl, clocks: u32, if0: u8) -> u8 {
    let total = c.clock + clocks;
    let crossed = total >= 456;
    let c1 = scan_ctrl(c, clocks);
    let if1 = if crossed && c1.ly >= 144 && c.mode != Mode::VBlank {
        switch_bits(c, Mode::VBlank, if0)
    } else {
        if0
    };
    let if2 = if crossed && c1.ly == c.lyc && c.lycly {
        if1 | INT_LCDSTAT
    } else {
        if1
    };
    if c1.ly < 144 && visible_phase(c1.clock) != c1.mode {
        switch_bits(c, visible_phase(c1.clock), if2)
    } else {
        if2
    }
}

/// The tile cache data after one step: rebuilt when the step composes a
/// scanline on an enabled display over a stale cache.
pub open spec fn step_tiles_data(g: Gpu, clocks: u32) -> Seq<u8> {
    if step_enters_hblank(ctrl(g), clocks) && g.lcdon && g.tiles.need_update {
        rebuilt_tiles(g.tiles.data@, g.tiles.to_update@, g.vrambank@)
    } else {
        g.tiles.data@
    }
}

/// The per-tile dirty bits after one step: all cleared by a rebuild.
pub open spec fn step_tiles_dirty(g: Gpu, clocks: u32) -> Seq<bool> {
    if step_enters_hblank(ctrl(g), clocks) && g.lcdon && g.tiles.need_update {
        Seq::new(NUM_TILES as nat, |i: int| false)
    } else {
        g.tiles.to_update@
    }
}

/// The framebuffer after one step: the newly completed scanline is
/// composed from the background layer when the step enters horizontal
/// blank with the display and the background enabled.
pub open spec fn step_image(g: Gpu, clocks: u32) -> Seq<u8> {
    if step_enters_hblank(ctrl(g), clocks) && g.lcdon && g.bgon {
        bg_rendered(
            g.image_data@,
            gpu_after_step(ctrl(g), clocks),
            g.vrambank@,
            step_tiles_data(g, clocks),
            g.pal.bg@,
        )
    } else {
        g.image_data@
    }
}

impl Gpu {
    /// Decodes every dirty tile of the cache afresh from video memory and
    /// clears its dirty bit; clean tiles are untouched.
    #[verifier::rlimit(100)]
    pub fn update_tileset(&mut self)
        requires
            old(self).wf(),
        ensures
            final(self).wf(),
            ctrl(*final(self)) == ctrl(*old(self)),
            final(self).oam@ == old(self).oam@,
            final(self).vrambank@ == old(self).vrambank@,
            final(self).image_data@ == old(self).image_data@,
            final(self).pal.bg@ == old(self).pal.bg@,
            final(self).pal.obp0@ == old(self).pal.obp0@,
            final(self).pal.obp1@ == old(self).pal.obp1@,
            final(self).tiles.need_update == old(self).tiles.need_update,
            final(self).tiles.data@ == rebuilt_tiles(
                old(self).tiles.data@,
                old(self).tiles.to_update@,
                old(self).vrambank@,
            ),
            final(self).tiles.to_update@ == Seq::new(NUM_TILES as nat, |t: int| false),
    {
        let ghost target = rebuilt_tiles(
            old(self).tiles.data@,
            old(self).tiles.to_update@,
            old(self).vrambank@,
        );
        let mut i: usize = 0;
        while i < NUM_TILES
            invariant
                old(self).wf(),
                i <= NUM_TILES,
                target == rebuilt_tiles(
                    old(self).tiles.data@,
                    old(self).tiles.to_update@,
                    old(self).vrambank@,
                ),
                self.tiles.data@.len() == NUM_TILES * 64,
                self.tiles.to_update@.len() == NUM_TILES,
                forall|n: int| 0 <= n < i * 64 ==> self.tiles.data@[n] == target[n],
                forall|n: int|
                    i * 64 <= n < NUM_TILES * 64 ==> self.tiles.data@[n] == old(
                        self,
                    ).tiles.data@[n],
                forall|t: int| 0 <= t < i ==> self.tiles.to_update@[t] == false,
                forall|t: int|
                    i <= t < NUM_TILES ==> self.tiles.to_update@[t] == old(
                        self,
                    ).tiles.to_update@[t],
                self.tiles.need_update == old(self).tiles.need_update,
                self.oam@ == old(self).oam@,
                self.vrambank@ == old(self).vrambank@,
                self.image_data@ == old(self).image_data@,
                self.pal.bg@ == old(self).pal.bg@,
                self.pal.obp0@ == old(self).pal.obp0@,
                self.pal.obp1@ == old(self).pal.obp1@,
                ctrl(*self) == ctrl(*old(self)),
            decreases NUM_TILES - i,
        {
            if self.tiles.to_update[i] {
                self.tiles.to_update.set(i, false);
                let mut j: usize = 0;
                while j < 8
                    invariant
                        old(self).wf(),
                        i < NUM_TILES,
                        j <= 8,
                        old(self).tiles.to_update@[i as int] == true,
                        target == rebuilt_tiles(
                            old(self).tiles.data@,
                            old(self).tiles.to_update@,
                            old(self).vrambank@,
                        ),
                        self.tiles.data@.len() == NUM_TILES * 64,
                        self.tiles.to_update@.len() == NUM_TILES,
                        forall|n: int|
                            0 <= n < i * 64 + j * 8 ==> self.tiles.data@[n] == target[n],
                        forall|n: int|
                            i * 64 + j * 8 <= n < NUM_TILES * 64 ==> self.tiles.data@[n] == old(
                                self,
                            ).tiles.data@[n],
                        forall|t: int| 0 <= t <= i ==> self.tiles.to_update@[t] == false,
                        forall|t: int|
                            i < t < NUM_TILES ==> self.tiles.to_update@[t] == old(
                                self,
                            ).tiles.to_update@[t],
                        self.tiles.need_update == old(self).tiles.need_update,
                        self.oam@ == old(self).oam@,
                        self.vrambank@ == old(self).vrambank@,
                        self.image_data@ == old(self).image_data@,
                        self.pal.bg@ == old(self).pal.bg@,
                        self.pal.obp0@ == old(self).pal.obp0@,
                        self.pal.obp1@ == old(self).pal.obp1@,
                        ctrl(*self) == ctrl(*old(self)),
                    decreases 8 - j,
                {
                    let addr: usize = i * 16 + j * 2;
                    let lsb = self.vrambank[addr];
                    let msb = self.vrambank[addr + 1];
                    let mut k: usize = 0;
                    while k < 8
                        invariant
                            old(self).wf(),
                            i < NUM_TILES,
                            j < 8,
                            k <= 8,
                            old(self).tiles.to_update@[i as int] == true,
                            lsb == old(self).vrambank@[i * 16 + j * 2],
                            msb == old(self).vrambank@[i * 16 + j * 2 + 1],
                            target == rebuilt_tiles(
                                old(self).tiles.data@,
                                old(self).tiles.to_update@,
                                old(self).vrambank@,
                            ),
                            self.tiles.data@.len() == NUM_TILES * 64,
                            self.tiles.to_update@.len() == NUM_TILES,
                            forall|n: int|
                                0 <= n < i * 64 + j * 8 + k ==> self.tiles.data@[n] == target[n],
                            forall|n: int|
                                i * 64 + j * 8 + k <= n < NUM_TILES * 64 ==> self.tiles.data@[n]
                                    == old(self).tiles.data@[n],
                            forall|t: int| 0 <= t <= i ==> self.tiles.to_update@[t] == false,
                            forall|t: int|
                                i < t < NUM_TILES ==> self.tiles.to_update@[t] == old(
                                    self,
                                ).tiles.to_update@[t],
                            self.tiles.need_update == old(self).tiles.need_update,
                            self.oam@ == old(self).oam@,
                            self.vrambank@ == old(self).vrambank@,
                            self.image_data@ == old(self).image_data@,
                            self.pal.bg@ == old(self).pal.bg@,
                            self.pal.obp0@ == old(self).pal.obp0@,
                            self.pal.obp1@ == old(self).pal.obp1@,
                            ctrl(*self) == ctrl(*old(self)),
                        decreases 8 - k,
                    {
                        let sh: u8 = 7 - (k as u8);
                        let px: u8 = ((msb >> sh) % 2) * 2 + ((lsb >> sh) % 2);
                        let n: usize = i * 64 + j * 8 + k;
                        self.tiles.data.set(n, px);
                        proof {
                            reveal(rebuilt_tiles);
                            lemma_tile_coords(i as int, j as int, k as int);
                            assert(self.tiles.data@[n as int] == target[n as int]);
                        }
                        k = k + 1;
                    }
                    j = j + 1;
                }
            } else {
                proof {
                    reveal(rebuilt_tiles);
                    assert forall|n: int| i * 64 <= n < i * 64 + 64 implies self.tiles.data@[n]
                        == target[n] by {
                        lemma_fundamental_div_mod_converse_div(n, 64, i as int, n - i * 64);
                        assert(!old(self).tiles.to_update@[n / 64]);
                    }
                }
            }
            i = i + 1;
        }
        proof {
            reveal(rebuilt_tiles);
            assert(self.tiles.data@ =~= target);
            assert(self.tiles.to_update@ =~= Seq::new(NUM_TILES as nat, |t: int| false));
            assert forall|n: int| 0 <= n < NUM_TILES * 64 implies self.tiles.data@[n] < 4 by {
                assert(self.tiles.data@[n] == target[n]);
                if old(self).tiles.to_update@[n / 64] {
                    assert(target[n] == tile_pixel(old(self).vrambank@, n));
                } else {
                    assert(target[n] == old(self).tiles.data@[n]);
                    assert(old(self).tiles.data@[n] < 4);
                }
            }
        }
    }
}

impl Gpu {
    /// Composes the background layer of the current scanline into the
    /// framebuffer: each pixel's tile is found through the background
    /// map, its colour index read from the tile cache, resolved through
    /// the compiled background palette and written as four channel bytes.
    #[verifier::rlimit(100)]
    fn render_background(&mut self)
        requires
            old(self).wf(),
            old(self).ly < 144,
        ensures
            final(self).wf(),
            ctrl(*final(self)) == ctrl(*old(self)),
            final(self).oam@ == old(self).oam@,
            final(self).vrambank@ == old(self).vrambank@,
            final(self).pal.bg@ == old(self).pal.bg@,
            final(self).pal.obp0@ == old(self).pal.obp0@,
            final(self).pal.obp1@ == old(self).pal.obp1@,
            final(self).tiles.data@ == old(self).tiles.data@,
            final(self).tiles.need_update == old(self).tiles.need_update,
            final(self).tiles.to_update@ == old(self).tiles.to_update@,
            final(self).image_data@ == bg_rendered(
                old(self).image_data@,
                ctrl(*old(self)),
                old(self).vrambank@,
                old(self).tiles.data@,
                old(self).pal.bg@,
            ),
    {
        let ghost target = bg_rendered(
            old(self).image_data@,
            ctrl(*old(self)),
            old(self).vrambank@,
            old(self).tiles.data@,
            old(self).pal.bg@,
        );
        let mapbase: usize = (if self.bgmap {
            0x1C00
        } else {
            0x1800
        }) + (self.ly as usize + self.scy as usize) % 256 / 8 * 32;
        let y: usize = (self.ly as usize + self.scy as usize) % 8;
        let base_coff: usize = self.ly as usize * 640;
        let mut i: usize = 0;
        while i < WIDTH
            invariant
                old(self).wf(),
                old(self).ly < 144,
                i <= WIDTH,
                mapbase == bg_map_base(ctrl(*old(self))),
                y == (old(self).ly + old(self).scy) % 8,
                base_coff == old(self).ly * 640,
                target == bg_rendered(
                    old(self).image_data@,
                    ctrl(*old(self)),
                    old(self).vrambank@,
                    old(self).tiles.data@,
                    old(self).pal.bg@,
                ),
                self.image_data@.len() == WIDTH * HEIGHT * 4,
                forall|n: int| 0 <= n < base_coff ==> self.image_data@[n] == old(self).image_data@[n],
                forall|n: int|
                    base_coff <= n < base_coff + i * 4 ==> self.image_data@[n] == target[n],
                forall|n: int|
                    base_coff + i * 4 <= n < WIDTH * HEIGHT * 4 ==> self.image_data@[n] == old(
                        self,
                    ).image_data@[n],
                self.oam@ == old(self).oam@,
                self.vrambank@ == old(self).vrambank@,
                self.pal.bg@ == old(self).pal.bg@,
                self.pal.obp0@ == old(self).pal.obp0@,
                self.pal.obp1@ == old(self).pal.obp1@,
                self.tiles.data@ == old(self).tiles.data@,
                self.tiles.need_update == old(self).tiles.need_update,
                self.tiles.to_update@ == old(self).tiles.to_update@,
                ctrl(*self) == ctrl(*old(self)),
            decreases WIDTH - i,
        {
            let mapoff: usize = (i + self.scx as usize) % 256 / 8;
            let tilei: u8 = self.vrambank[mapbase + mapoff];
            let slot: usize = (if self.tiledata {
                tilei as usize
            } else {
                tilei as usize + 128
            }) % NUM_TILES;
            let x: usize = (self.scx as usize + i) % 8;
            let ci: u8 = self.tiles.data[slot * 64 + y * 8 + x];
            let pb: usize = ci as usize * 4;
            let coff: usize = base_coff + i * 4;
            let b0 = self.pal.bg[pb];
            let b1 = self.pal.bg[pb + 1];
            let b2 = self.pal.bg[pb + 2];
            let b3 = self.pal.bg[pb + 3];
            proof {
                assert(slot == bg_tile_slot(ctrl(*old(self)), old(self).vrambank@, i as int));
                assert(ci == bg_color_index(
                    ctrl(*old(self)),
                    old(self).vrambank@,
                    old(self).tiles.data@,
                    i as int,
                ));
            }
            set_image_byte(&mut self.image_data, coff, b0);
            set_image_byte(&mut self.image_data, coff + 1, b1);
            set_image_byte(&mut self.image_data, coff + 2, b2);
            set_image_byte(&mut self.image_data, coff + 3, b3);
            proof {
                reveal(bg_rendered);
                let c = ctrl(*old(self));
                lemma_fundamental_div_mod_converse_div(i * 4 + 0, 4, i as int, 0);
                lemma_fundamental_div_mod_converse_div(i * 4 + 1, 4, i as int, 1);
                lemma_fundamental_div_mod_converse_div(i * 4 + 2, 4, i as int, 2);
                lemma_fundamental_div_mod_converse_div(i * 4 + 3, 4, i as int, 3);
                lemma_fundamental_div_mod_converse_mod(coff + 0, 4, 160 * c.ly + i, 0);
                lemma_fundamental_div_mod_converse_mod(coff + 1, 4, 160 * c.ly + i, 1);
                lemma_fundamental_div_mod_converse_mod(coff + 2, 4, 160 * c.ly + i, 2);
                lemma_fundamental_div_mod_converse_mod(coff + 3, 4, 160 * c.ly + i, 3);
                assert(self.image_data@[coff + 0] == target[coff + 0]);
                assert(self.image_data@[coff + 1] == target[coff + 1]);
                assert(self.image_data@[coff + 2] == target[coff + 2]);
                assert(self.image_data@[coff + 3] == target[coff + 3]);
            }
            i = i + 1;
        }
        proof {
            reveal(bg_rendered);
            assert(self.image_data@ =~= target);
        }
    }

    /// Composes the current scanline if the display is enabled,
    /// rebuilding the tile cache first when it is stale.  Only the
    /// background layer is composed; the window and sprite layers are
    /// deliberately left out of the composition.
    #[verifier::rlimit(100)]
    fn render_line(&mut self)
        requires
            old(self).wf(),
            old(self).ly < 144,
        ensures
            final(self).wf(),
            ctrl(*final(self)) == ctrl(*old(self)),
            final(self).oam@ == old(self).oam@,
            final(self).vrambank@ == old(self).vrambank@,
            final(self).pal.bg@ == old(self).pal.bg@,
            final(self).pal.obp0@ == old(self).pal.obp0@,
            final(self).pal.obp1@ == old(self).pal.obp1@,
            final(self).tiles.data@ == (if old(self).lcdon && old(self).tiles.need_update {
                rebuilt_tiles(old(self).tiles.data@, old(self).tiles.to_update@, old(self).vrambank@)
            } else {
                old(self).tiles.data@
            }),
            final(self).tiles.to_update@ == (if old(self).lcdon && old(self).tiles.need_update {
                Seq::new(NUM_TILES as nat, |t: int| false)
            } else {
                old(self).tiles.to_update@
            }),
            final(self).tiles.need_update == (old(self).tiles.need_update && !old(self).lcdon),
            final(self).image_data@ == (if old(self).lcdon && old(self).bgon {
                bg_rendered(
                    old(self).image_data@,
                    ctrl(*old(self)),
                    old(self).vrambank@,
                    (if old(self).tiles.need_update {
                        rebuilt_tiles(
                            old(self).tiles.data@,
                            old(self).tiles.to_update@,
                            old(self).vrambank@,
                        )
                    } else {
                        old(self).tiles.data@
                    }),
                    old(self).pal.bg@,
                )
            } else {
                old(self).image_data@
            }),
    {
        if !self.lcdon {
            return ;
        }
        if self.tiles.need_update {
            self.update_tileset();
            self.tiles.need_update = false;
        }
        if self.bgon {
            self.render_background();
        }
    }

    /// Enters a rendering phase: records the mode, raises the phase's
    /// enabled interrupt sources, and on entering horizontal blank
    /// composes the just-completed scanline.
    #[verifier::rlimit(100)]
    fn switch(&mut self, mode: Mode, if_: &mut u8)
        requires
            old(self).wf(),
            mode == Mode::HBlank ==> old(self).ly < 144,
        ensures
            final(self).wf(),
            ctrl(*final(self)) == (Ctrl { mode, ..ctrl(*old(self)) }),
            *final(if_) == switch_bits(ctrl(*old(self)), mode, *old(if_)),
            final(self).oam@ == old(self).oam@,
            final(self).vrambank@ == old(self).vrambank@,
            final(self).pal.bg@ == old(self).pal.bg@,
            final(self).pal.obp0@ == old(self).pal.obp0@,
            final(self).pal.obp1@ == old(self).pal.obp1@,
            final(self).tiles.data@ == (if mode == Mode::HBlank && old(self).lcdon && old(
                self,
            ).tiles.need_update {
                rebuilt_tiles(old(self).tiles.data@, old(self).tiles.to_update@, old(self).vrambank@)
            } else {
                old(self).tiles.data@
            }),
            final(self).tiles.to_update@ == (if mode == Mode::HBlank && old(self).lcdon && old(
                self,
            ).tiles.need_update {
                Seq::new(NUM_TILES as nat, |t: int| false)
            } else {
                old(self).tiles.to_update@
            }),
            final(self).tiles.need_update == (old(self).tiles.need_update && !(mode
                == Mode::HBlank && old(self).lcdon)),
            final(self).image_data@ == (if mode == Mode::HBlank && old(self).lcdon && old(
                self,
            ).bgon {
                bg_rendered(
                    old(self).image_data@,
                    (Ctrl { mode, ..ctrl(*old(self)) }),
                    old(self).vrambank@,
                    (if old(self).tiles.need_update {
                        rebuilt_tiles(
                            old(self).tiles.data@,
                            old(self).tiles.to_update@,
                            old(self).vrambank@,
                        )
                    } else {
                        old(self).tiles.data@
                    }),
                    old(self).pal.bg@,
                )
            } else {
                old(self).image_data@
            }),
    {
        self.mode = mode;
        match mode {
            Mode::HBlank => {
                self.render_line();
                if self.mode0int {
                    *if_ = *if_ | INT_LCDSTAT;
                }
            },
            Mode::VBlank => {
                *if_ = *if_ | INT_VBLANK;
                if self.mode1int {
                    *if_ = *if_ | INT_LCDSTAT;
                }
            },
            Mode::RdOam => {
                if self.mode2int {
                    *if_ = *if_ | INT_LCDSTAT;
                }
            },
            Mode::RdVram => {},
        }
    }

    /// Advances the mode state machine by `clocks` elapsed cycles.
    ///
    /// Completing a 456-clock scanline advances the scanline index modulo
    /// 154; reaching the vertical-blank region raises the vertical-blank
    /// interrupt (edge-triggered, once per frame), and a scanline-compare
    /// match with its source enabled raises the LCD-status interrupt.  On
    /// visible lines the per-scanline clock selects among the three
    /// visible phases, each entry edge-triggered; entering horizontal
    /// blank composes the just-completed scanline, rebuilding the tile
    /// cache first if it is stale.
    #[verifier::rlimit(100)]
    pub fn step(&mut self, clocks: u32, if_: &mut u8)
        requires
            old(self).wf(),
            old(self).clock + clocks <= u32::MAX,
        ensures
            final(self).wf(),
            ctrl(*final(self)) == gpu_after_step(ctrl(*old(self)), clocks),
            *final(if_) == step_if_result(ctrl(*old(self)), clocks, *old(if_)),
            final(self).oam@ == old(self).oam@,
            final(self).vrambank@ == old(self).vrambank@,
            final(self).pal.bg@ == old(self).pal.bg@,
            final(self).pal.obp0@ == old(self).pal.obp0@,
            final(self).pal.obp1@ == old(self).pal.obp1@,
            final(self).tiles.data@ == step_tiles_data(*old(self), clocks),
            final(self).tiles.to_update@ == step_tiles_dirty(*old(self), clocks),
            final(self).tiles.need_update == (old(self).tiles.need_update && !(step_enters_hblank(
                ctrl(*old(self)),
                clocks,
            ) && old(self).lcdon)),
            final(self).image_data@ == step_image(*old(self), clocks),
    {
        self.step_scan(clocks, if_);
        self.step_phase(if_);
    }

    /// The scanline-advance half of one step: accumulates the clock and,
    /// on completing a line, advances the scanline index, enters
    /// vertical blank at its region, and raises the scanline-compare
    /// interrupt on a match.
    #[verifier::rlimit(100)]
    fn step_scan(&mut self, clocks: u32, if_: &mut u8)
        requires
            old(self).wf(),
            old(self).clock + clocks <= u32::MAX,
        ensures
            final(self).wf(),
            ctrl(*final(self)) == scan_ctrl(ctrl(*old(self)), clocks),
            *final(if_) == scan_if(ctrl(*old(self)), clocks, *old(if_)),
            final(self).oam@ == old(self).oam@,
            final(self).vrambank@ == old(self).vrambank@,
            final(self).pal.bg@ == old(self).pal.bg@,
            final(self).pal.obp0@ == old(self).pal.obp0@,
            final(self).pal.obp1@ == old(self).pal.obp1@,
            final(self).tiles.data@ == old(self).tiles.data@,
            final(self).tiles.to_update@ == old(self).tiles.to_update@,
            final(self).tiles.need_update == old(self).tiles.need_update,
            final(self).image_data@ == old(self).image_data@,
    {
        self.clock = self.clock + clocks;
        if self.clock >= 456 {
            self.clock = self.clock - 456;
            self.ly = (self.ly + 1) % 154;

            if self.ly >= 144 && self.mode != Mode::VBlank {
                self.switch(Mode::VBlank, if_);
            }
            if self.ly == self.lyc && self.lycly {
                *if_ = *if_ | INT_LCDSTAT;
            }
        }
    }

    /// The phase-selection half of one step: on a visible line, hops to
    /// the phase that the per-scanline clock selects, rendering on entry
    /// into horizontal blank.
    #[verifier::rlimit(100)]
    fn step_phase(&mut self, if_: &mut u8)
        requires
            old(self).wf(),
        ensures
            final(self).wf(),
            ctrl(*final(self)) == (if old(self).ly < 144 {
                Ctrl { mode: visible_phase(old(self).clock), ..ctrl(*old(self)) }
            } else {
                ctrl(*old(self))
            }),
            *final(if_) == (if old(self).ly < 144 && visible_phase(old(self).clock) != old(
                self,
            ).mode {
                switch_bits(ctrl(*old(self)), visible_phase(old(self).clock), *old(if_))
            } else {
                *old(if_)
            }),
            final(self).oam@ == old(self).oam@,
            final(self).vrambank@ == old(self).vrambank@,
            final(self).pal.bg@ == old(self).pal.bg@,
            final(self).pal.obp0@ == old(self).pal.obp0@,
            final(self).pal.obp1@ == old(self).pal.obp1@,
            final(self).tiles.data@ == (if old(self).ly < 144 && visible_phase(old(self).clock)
                == Mode::HBlank && old(self).mode != Mode::HBlank && old(self).lcdon && old(
                self,
            ).tiles.need_update {
                rebuilt_tiles(old(self).tiles.data@, old(self).tiles.to_update@, old(self).vrambank@)
            } else {
                old(self).tiles.data@
            }),
            final(self).tiles.to_update@ == (if old(self).ly < 144 && visible_phase(
                old(self).clock,
            ) == Mode::HBlank && old(self).mode != Mode::HBlank && old(self).lcdon && old(
                self,
            ).tiles.need_update {
                Seq::new(NUM_TILES as nat, |t: int| false)
            } else {
                old(self).tiles.to_update@
            }),
            final(self).tiles.need_update == (old(self).tiles.need_update && !(old(self).ly < 144
                && visible_phase(old(self).clock) == Mode::HBlank && old(self).mode
                != Mode::HBlank && old(self).lcdon)),
            final(self).image_data@ == (if old(self).ly < 144 && visible_phase(old(self).clock)
                == Mode::HBlank && old(self).mode != Mode::HBlank && old(self).lcdon && old(
                self,
            ).bgon {
                bg_rendered(
                    old(self).image_data@,
                    (Ctrl { mode: Mode::HBlank, ..ctrl(*old(self)) }),
                    old(self).vrambank@,
                    (if old(self).tiles.need_update {
                        rebuilt_tiles(
                            old(self).tiles.data@,
                            old(self).tiles.to_update@,
                            old(self).vrambank@,
                        )
                    } else {
                        old(self).tiles.data@
                    }),
                    old(self).pal.bg@,
                )
            } else {
                old(self).image_data@
            }),
    {
        if self.ly < 144 {
            let phase = if self.clock <= 80 {
                Mode::RdOam
            } else if self.clock <= 252 {
                Mode::RdVram
            } else {
                Mode::HBlank
            };
            if self.mode != phase {
                self.switch(phase, if_);
            }
        }
    }
}

/// Writes one framebuffer byte; split out so the composition loop stays
/// readable.
fn set_image_byte(img: &mut Vec<u8>, i: usize, v: u8)
    requires
        i < old(img)@.len(),
    ensures
        final(img)@ == old(img)@.update(i as int, v),
{
    img.set(i, v);
}

} // verus!
