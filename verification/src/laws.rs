//! The general laws of the instruction set and the peripherals, stated
//! over the specification functions and proved once for all inputs.
//! The timer's corresponding law — that a step with the enable bit clear
//! never changes the main counter yet always advances the divider — is
//! stated directly in the `ensures` of `Timer::step`.

use vstd::prelude::*;
use vstd::arithmetic::div_mod::lemma_mod_multiples_vanish;
use crate::registers::{Flags, Registers};
use crate::alu::{carry_in, daa_correction, sem_adc, sem_add, sem_daa, sem_sbc, sem_sub};
use crate::cpu::{base_step, sext16};
use crate::memory::{mem_rb, mem_rw, mem_ww};
use crate::gpu::{scan_ctrl, visible_phase, Ctrl, Mode};

verus! {

/// The low nibble of a byte, by mask or by modulus.
proof fn lemma_low_nibble(x: u8)
    ensures
        x & 0xF == x % 16,
{
    assert(x & 0xF == x % 16) by (bit_vector);
}

/// 8-bit add: half-carry is exactly the low nibbles crossing the nibble
/// boundary, carry exactly unsigned 8-bit overflow, zero exactly the
/// result truncated to 8 bits being zero, for all operand pairs.
pub proof fn add_flags_law(r: Registers, v: u8)
    ensures
        sem_add(r, v).f.h.on <==> (r.a & 0xF) + (v & 0xF) > 0xF,
        sem_add(r, v).f.c.on <==> r.a + v > 0xFF,
        sem_add(r, v).f.z.on <==> (r.a + v) % 0x100 == 0,
        sem_add(r, v).a == (r.a + v) % 0x100,
        sem_add(r, v).f.n.on == false,
{
    lemma_low_nibble(r.a);
    lemma_low_nibble(v);
}

/// 8-bit add with carry: the same three rules with the carry-in counted
/// into both the nibble sum and the full sum, for all operand pairs.
pub proof fn adc_flags_law(r: Registers, v: u8)
    ensures
        sem_adc(r, v).f.h.on <==> (r.a & 0xF) + (v & 0xF) + carry_in(r.f) > 0xF,
        sem_adc(r, v).f.c.on <==> r.a + v + carry_in(r.f) > 0xFF,
        sem_adc(r, v).f.z.on <==> (r.a + v + carry_in(r.f)) % 0x100 == 0,
        sem_adc(r, v).a == (r.a + v + carry_in(r.f)) % 0x100,
        sem_adc(r, v).f.n.on == false,
{
    lemma_low_nibble(r.a);
    lemma_low_nibble(v);
}

/// 8-bit subtract: half-carry is exactly a borrow into the low nibble,
/// carry exactly an unsigned borrow, zero exactly equality of the
/// operands, for all operand pairs.
pub proof fn sub_flags_law(r: Registers, v: u8)
    ensures
        sem_sub(r, v).f.h.on <==> (r.a & 0xF) < (v & 0xF),
        sem_sub(r, v).f.c.on <==> r.a < v,
        sem_sub(r, v).f.z.on <==> r.a == v,
        sem_sub(r, v).a == (r.a - v + 0x100) % 0x100,
        sem_sub(r, v).f.n.on == true,
{
    lemma_low_nibble(r.a);
    lemma_low_nibble(v);
}

/// 8-bit subtract with carry: the borrow rules extended by the carry-in,
/// for all operand pairs.
pub proof fn sbc_flags_law(r: Registers, v: u8)
    ensures
        sem_sbc(r, v).f.h.on <==> (r.a & 0xF) < (v & 0xF) + carry_in(r.f),
        sem_sbc(r, v).f.c.on <==> r.a < v + carry_in(r.f),
        sem_sbc(r, v).f.z.on <==> (r.a - v - carry_in(r.f) + 0x200) % 0x100 == 0,
        sem_sbc(r, v).a == (r.a - v - carry_in(r.f) + 0x200) % 0x100,
        sem_sbc(r, v).f.n.on == true,
{
    lemma_low_nibble(r.a);
    lemma_low_nibble(v);
}

/// Decimal adjust, for every accumulator value and every flag
/// combination: half-carry is always clear afterwards; the subtract flag
/// is preserved; carry comes out exactly when the correction touched the
/// high nibble, which is when carry was already set or (after an add)
/// the byte exceeded 0x99; and the result is the accumulator plus or
/// minus the correction value, modulo 256, by the direction the subtract
/// flag selects.
pub proof fn daa_law(r: Registers)
    ensures
        sem_daa(r).f.h.on == false,
        sem_daa(r).f.n == r.f.n,
        sem_daa(r).f.c.on <==> (r.f.c.on || (!r.f.n.on && r.a > 0x99)),
        !r.f.n.on ==> sem_daa(r).a == (r.a + daa_correction(r)) % 0x100,
        r.f.n.on ==> sem_daa(r).a == (r.a - daa_correction(r) + 0x10000) % 0x100,
        sem_daa(r).f.z.on <==> sem_daa(r).a == 0,
{
    let corr = daa_correction(r);
    if r.f.n.on {
        lemma_mod_multiples_vanish(256, r.a - corr, 0x100);
    }
}

/// A conditional instruction's condition: not-zero, zero, not-carry or
/// carry, by the opcode's column.
pub open spec fn cond_holds(inst: u8, f: Flags) -> bool {
    if inst == 0x20 || inst == 0xC0 || inst == 0xC2 || inst == 0xC4 {
        !f.z.on
    } else if inst == 0x28 || inst == 0xC8 || inst == 0xCA || inst == 0xCC {
        f.z.on
    } else if inst == 0x30 || inst == 0xD0 || inst == 0xD2 || inst == 0xD4 {
        !f.c.on
    } else {
        f.c.on
    }
}

/// Conditional relative jumps: when the condition fails the cost is the
/// constant 2, strictly less than the taken cost 3, and the program
/// counter just skips the offset byte; when it holds, the program
/// counter lands on the address after the offset byte plus the signed
/// offset.
pub proof fn jr_cond_law(inst: u8, r: Registers, m: Seq<u8>)
    requires
        inst == 0x20 || inst == 0x28 || inst == 0x30 || inst == 0x38,
    ensures
        cond_holds(inst, r.f) ==> base_step(inst, r, m).cycles == 3 && base_step(inst, r, m).r.pc
            == r.pc.wrapping_add(sext16(mem_rb(m, r.pc))).wrapping_add(1),
        !cond_holds(inst, r.f) ==> base_step(inst, r, m).cycles == 2 && base_step(
            inst,
            r,
            m,
        ).r.pc == r.pc.wrapping_add(1),
        2 < 3,
{
}

/// Conditional absolute jumps: not-taken costs the constant 3, strictly
/// less than the taken cost 4; taken, the program counter equals the
/// encoded operand word.
pub proof fn jp_cond_law(inst: u8, r: Registers, m: Seq<u8>)
    requires
        inst == 0xC2 || inst == 0xCA || inst == 0xD2 || inst == 0xDA,
    ensures
        cond_holds(inst, r.f) ==> base_step(inst, r, m).cycles == 4 && base_step(inst, r, m).r.pc
            == mem_rw(m, r.pc),
        !cond_holds(inst, r.f) ==> base_step(inst, r, m).cycles == 3 && base_step(
            inst,
            r,
            m,
        ).r.pc == r.pc.wrapping_add(2),
        3 < 4,
{
}

/// Conditional calls: not-taken costs the constant 3, strictly less than
/// the taken cost 6; taken, the program counter equals the operand word
/// as read after the return address was pushed.
pub proof fn call_cond_law(inst: u8, r: Registers, m: Seq<u8>)
    requires
        inst == 0xC4 || inst == 0xCC || inst == 0xD4 || inst == 0xDC,
    ensures
        cond_holds(inst, r.f) ==> base_step(inst, r, m).cycles == 6 && base_step(inst, r, m).r.pc
            == mem_rw(
            mem_ww(m, r.sp.wrapping_sub(2), r.pc.wrapping_add(2)),
            r.pc,
        ) && base_step(inst, r, m).r.sp == r.sp.wrapping_sub(2),
        !cond_holds(inst, r.f) ==> base_step(inst, r, m).cycles == 3 && base_step(
            inst,
            r,
            m,
        ).r.pc == r.pc.wrapping_add(2),
        3 < 6,
{
}

/// Conditional returns: not-taken costs the constant 2, strictly less
/// than the taken cost 5; taken, the program counter is popped from the
/// stack.
pub proof fn ret_cond_law(inst: u8, r: Registers, m: Seq<u8>)
    requires
        inst == 0xC0 || inst == 0xC8 || inst == 0xD0 || inst == 0xD8,
    ensures
        cond_holds(inst, r.f) ==> base_step(inst, r, m).cycles == 5 && base_step(inst, r, m).r.pc
            == mem_rw(m, r.sp) && base_step(inst, r, m).r.sp == r.sp.wrapping_add(2),
        !cond_holds(inst, r.f) ==> base_step(inst, r, m).cycles == 2 && base_step(inst, r, m).r
            == r,
        2 < 5,
{
}

/// Completing a scanline: the index advances modulo 154, returning to
/// zero after the last vertical-blank line, and vertical blank is
/// entered exactly on reaching line 144.
pub proof fn gpu_scanline_law(c: Ctrl, clocks: u32)
    requires
        c.clock + clocks >= 456,
        c.clock + clocks <= u32::MAX,
        c.ly < 154,
    ensures
        scan_ctrl(c, clocks).ly == (c.ly + 1) % 154,
        c.ly == 153 ==> scan_ctrl(c, clocks).ly == 0,
        c.ly == 143 && c.mode != Mode::VBlank ==> scan_ctrl(c, clocks).mode == Mode::VBlank,
        c.ly < 143 ==> scan_ctrl(c, clocks).mode == c.mode,
{
}

/// The visible-phase thresholds: up to 80 clocks into a scanline the
/// object memory is scanned, up to 252 the video memory is read, and the
/// rest of the line is horizontal blank.
pub proof fn gpu_phase_law(clock: u32)
    ensures
        clock <= 80 ==> visible_phase(clock) == Mode::RdOam,
        80 < clock <= 252 ==> visible_phase(clock) == Mode::RdVram,
        252 < clock ==> visible_phase(clock) == Mode::HBlank,
{
}

} // verus!
