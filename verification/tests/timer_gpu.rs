use gbcore::gpu::{Gpu, Mode};
use gbcore::interrupt::{INT_LCDSTAT, INT_TIMER, INT_VBLANK};
use gbcore::timer::Timer;

#[test]
fn timer_disabled_keeps_main_counter() {
    let mut t = Timer::new();
    t.tima = 0x12;
    let mut if_ = 0u8;
    t.step(1000, &mut if_);
    assert_eq!(t.tima, 0x12);
    assert_eq!(t.div, (1000 / 64) as u8); // the divider always advances
    assert_eq!(t.clock.div, 1000 % 64);
    assert_eq!(if_, 0);
}

#[test]
fn timer_single_reload_and_interrupt() {
    // enabled at the 1/256 rate: 256 ticks give exactly one increment,
    // which overflows and reloads from the modulo register
    let mut t = Timer::new();
    t.tac = 0x04;
    t.update();
    t.tima = 0xFF;
    t.tma = 0xAB;
    let mut if_ = 0u8;
    t.step(256, &mut if_);
    assert_eq!(t.tima, 0xAB);
    assert_eq!(if_, INT_TIMER);
}

#[test]
fn timer_multiple_overflows_in_one_step() {
    // at the 1/4 rate, twelve ticks are three increments; starting at
    // 0xFE with reload 0x10: 0xFF, reload to 0x10, 0x11
    let mut t = Timer::new();
    t.tac = 0x05;
    t.update();
    assert_eq!(t.tima_speed, 4);
    t.tima = 0xFE;
    t.tma = 0x10;
    let mut if_ = 0u8;
    t.step(12, &mut if_);
    assert_eq!(t.tima, 0x11);
    assert_eq!(if_, INT_TIMER);
}

#[test]
fn timer_rate_table() {
    let mut t = Timer::new();
    for (tac, speed) in [(0u8, 256u32), (1, 4), (2, 16), (3, 64)] {
        t.tac = tac;
        t.update();
        assert_eq!(t.tima_speed, speed);
    }
}

#[test]
fn timer_divider_wraps() {
    let mut t = Timer::new();
    t.div = 0xFF;
    let mut if_ = 0u8;
    t.step(64, &mut if_);
    assert_eq!(t.div, 0);
    assert_eq!(if_, 0);
}

fn gpu_at_line_start() -> Gpu {
    let mut g = Gpu::new();
    g.clock = 0;
    g.ly = 0;
    g.mode = Mode::RdOam;
    g
}

#[test]
fn gpu_mode_cycle_over_a_frame() {
    let mut g = gpu_at_line_start();
    let mut if_ = 0u8;
    for line in 0..144u32 {
        assert_eq!(g.ly, line as u8);
        g.step(80, &mut if_);
        assert_eq!(g.mode, Mode::RdOam, "line {}", line);
        g.step(172, &mut if_);
        assert_eq!(g.mode, Mode::RdVram, "line {}", line);
        g.step(120, &mut if_);
        assert_eq!(g.mode, Mode::HBlank, "line {}", line);
        g.step(84, &mut if_); // completes the 456-clock line
    }
    // reaching line 144 enters vertical blank exactly once
    assert_eq!(g.ly, 144);
    assert_eq!(g.mode, Mode::VBlank);
    assert_eq!(if_ & INT_VBLANK, INT_VBLANK);
    // ten more blank lines bring the frame back to line zero
    for _ in 0..10 {
        g.step(456, &mut if_);
    }
    assert_eq!(g.ly, 0);
    assert_eq!(g.mode, Mode::RdOam);
}

#[test]
fn gpu_scanline_compare_interrupt() {
    let mut g = gpu_at_line_start();
    g.lyc = 1;
    g.lycly = true;
    let mut if_ = 0u8;
    g.step(456, &mut if_);
    assert_eq!(g.ly, 1);
    assert_eq!(if_ & INT_LCDSTAT, INT_LCDSTAT);
}

#[test]
fn gpu_registers_read_back() {
    let mut g = Gpu::new();
    g.wb(0xFF42, 0x33);
    g.wb(0xFF43, 0x44);
    g.wb(0xFF45, 0x55);
    g.wb(0xFF4A, 0x66);
    g.wb(0xFF4B, 0x77);
    assert_eq!(g.rb(0xFF42), 0x33);
    assert_eq!(g.rb(0xFF43), 0x44);
    assert_eq!(g.rb(0xFF45), 0x55);
    assert_eq!(g.rb(0xFF4A), 0x66);
    assert_eq!(g.rb(0xFF4B), 0x77);
    // the scanline register reads as zero in this hardware model
    g.ly = 17;
    assert_eq!(g.rb(0xFF44), 0);
    // unmapped offsets read 0xFF
    assert_eq!(g.rb(0xFF46), 0xFF);
}

#[test]
fn gpu_display_control_edge() {
    let mut g = Gpu::new();
    g.clock = 200;
    g.ly = 30;
    g.wb(0xFF40, 0x91);
    assert!(g.lcdon);
    assert!(g.tiledata);
    assert!(g.bgon);
    // the off-to-on edge restarts the frame
    assert_eq!(g.clock, 4);
    assert_eq!(g.ly, 0);
    assert_eq!(g.rb(0xFF40), 0x91);
}

#[test]
fn gpu_palette_compilation() {
    let mut g = Gpu::new();
    g.wb(0xFF47, 0x1B); // colours 3,2,1,0 from darkest to lightest
    assert_eq!(&g.pal.bg[0..4], &[7, 24, 31, 255]);
    assert_eq!(&g.pal.bg[4..8], &[49, 106, 74, 255]);
    assert_eq!(&g.pal.bg[8..12], &[136, 193, 107, 255]);
    assert_eq!(&g.pal.bg[12..16], &[225, 247, 207, 255]);
    assert_eq!(g.rb(0xFF47), 0x1B);
}

#[test]
fn gpu_vram_round_trip() {
    let mut g = Gpu::new();
    g.wb_vram(0x8123, 0xAB);
    assert_eq!(g.rb_vram(0x8123), 0xAB);
    assert_eq!(g.rb_vram(0x8124), 0x00);
}

#[test]
fn gpu_background_composition() {
    let mut g = Gpu::new();
    // tile 0, row 0: low plane all ones, high plane all zeros, so every
    // pixel of that row has colour index 1
    g.wb_vram(0x8000, 0xFF);
    g.wb_vram(0x8001, 0x00);
    // the background map is all zeros, selecting tile 0 everywhere;
    // unsigned tile addressing, display and background on
    g.wb(0xFF40, 0x91);
    g.wb(0xFF47, 0xE4); // identity palette: index 1 is the second shade
    let mut if_ = 0u8;
    // from the frame restart (clock 4, line 0), step into horizontal
    // blank of line 0, which composes the line
    g.step(300, &mut if_);
    assert_eq!(g.mode, Mode::HBlank);
    assert_eq!(&g.image_data[0..4], &[136, 193, 107, 255]);
    assert_eq!(&g.image_data[636..640], &[136, 193, 107, 255]);
    // the next line is untouched
    assert_eq!(&g.image_data[640..644], &[0, 0, 0, 0]);
    // the cache was rebuilt and is clean now
    assert!(!g.tiles.need_update);
    assert!(g.tiles.to_update.iter().all(|d| !d));
    assert_eq!(g.tiles.data[0], 1); // decoded colour index of pixel (0,0)
}

#[test]
fn gpu_tile_index_mapping() {
    let mut g = Gpu::new();
    g.tiledata = true;
    assert_eq!(g.add_tilei(0, 17), 17);
    g.tiledata = false;
    assert_eq!(g.add_tilei(0, 17), 145);
    g.bgmap = false;
    assert_eq!(g.bgbase(), 0x1800);
    g.bgmap = true;
    assert_eq!(g.bgbase(), 0x1C00);
}
