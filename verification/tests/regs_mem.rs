use gbcore::cpu::Cpu;
use gbcore::memory::Memory;
use gbcore::registers::Registers;

#[test]
fn paired_views_keep_bytes_consistent() {
    let mut r = Registers::new();
    r.bc_set(0x1234);
    assert_eq!(r.b, 0x12);
    assert_eq!(r.c, 0x34);
    assert_eq!(r.bc(), 0x1234);
    r.de_set(0xBEEF);
    assert_eq!(r.de(), 0xBEEF);
    r.hl_set(0xFFFF);
    r.inc_hl();
    assert_eq!(r.hl(), 0x0000);
    r.dec_hl();
    assert_eq!(r.hl(), 0xFFFF);
}

#[test]
fn flag_register_packs_into_high_nibble() {
    let mut r = Registers::new();
    r.a = 0x5A;
    r.f.z.set();
    r.f.n.unset();
    r.f.h.set();
    r.f.c.unset();
    assert_eq!(r.af(), 0x5AA0);
    r.af_set(0x12FF); // the low nibble of the flag byte is dropped
    assert_eq!(r.a, 0x12);
    assert!(r.f.z.on && r.f.n.on && r.f.h.on && r.f.c.on);
    assert_eq!(r.af(), 0x12F0);
}

#[test]
fn flag_primitives() {
    let mut r = Registers::new();
    r.f.c.unset();
    r.f.c.toggle();
    assert!(r.f.c.get());
    r.f.c.set_if(false);
    assert!(!r.f.c.get());
    r.f.z.set();
    r.f.reset();
    assert!(!r.f.z.on && !r.f.n.on && !r.f.h.on && !r.f.c.on);
}

#[test]
fn program_counter_bump() {
    let mut r = Registers::new();
    r.pc = 0xFFFF;
    assert_eq!(r.bump(), 0xFFFF);
    assert_eq!(r.pc, 0x0000);
}

#[test]
fn memory_words_are_little_endian() {
    let mut m = Memory::new();
    m.ww(0xC000, 0x1234);
    assert_eq!(m.rb(0xC000), 0x34);
    assert_eq!(m.rb(0xC001), 0x12);
    assert_eq!(m.rw(0xC000), 0x1234);
}

#[test]
fn memory_word_wraps_at_top_of_address_space() {
    let mut m = Memory::new();
    m.ww(0xFFFF, 0xABCD);
    assert_eq!(m.rb(0xFFFF), 0xCD);
    assert_eq!(m.rb(0x0000), 0xAB);
    assert_eq!(m.rw(0xFFFF), 0xABCD);
}

#[test]
fn stop_clears_running_latch() {
    let mut c = Cpu::new();
    assert!(c.is_running);
    c.stop();
    assert!(!c.is_running);
    assert_eq!(c.regs.pc, 0x0100);
}
