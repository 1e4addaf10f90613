use nes_emu::cartridge::Cartridge;
use nes_emu::ppu::{PPUControlFlags, PPUMaskFlags, PPUStatusFlags, PPU};

/// A UNROM image (mapper 2) with pattern RAM and horizontal mirroring.
fn ppu_cartridge() -> Cartridge {
    let mut d = vec![0u8; 16 + 0x4000];
    d[0] = 0x4E;
    d[1] = 0x45;
    d[2] = 0x53;
    d[3] = 0x1A;
    d[4] = 1;
    d[6] = 0x20;
    Cartridge::load_ines("ppu.nes".to_string(), &d, None).unwrap()
}

fn set_address(p: &mut PPU, addr: u16) {
    p.ppuaddr_write((addr >> 8) as u8);
    p.ppuaddr_write(addr as u8);
}

#[test]
fn ppu_power_up_state() {
    let p = PPU::new();
    assert_eq!(p.scanline, 261);
    assert_eq!(p.cycle, 0);
    assert_eq!(p.frame, 0);
    assert_eq!(p.palette_index, 0x3F00);
    assert_eq!(p.control, 0);
    assert_eq!(p.status, 0);
    assert!(!p.signaling_nmi());
}

#[test]
fn vblank_starts_at_scanline_241_dot_1() {
    let mut cart = ppu_cartridge();
    let mut p = Box::new(PPU::new());
    for _ in 0..82523 {
        p.tick(&mut cart);
    }
    assert_eq!(p.status & 0x80, 0);
    p.tick(&mut cart);
    assert_eq!(p.scanline, 241);
    assert_eq!(p.cycle, 2);
    assert_eq!(p.status & 0x80, 0x80);
    assert!(!p.signaling_nmi());
    p.ppuctrl_write(0x80);
    assert!(p.signaling_nmi());
    p.disable_nmi_this_frame();
    assert!(!p.signaling_nmi());
    assert_eq!(p.ppustatus_read(), 0x80);
    assert_eq!(p.status & 0x80, 0);
}

#[test]
fn frame_ends_after_262_scanlines_and_prerender_clears_status() {
    let mut cart = ppu_cartridge();
    let mut p = Box::new(PPU::new());
    for _ in 0..(262 * 341) {
        p.tick(&mut cart);
    }
    assert_eq!(p.frame, 1);
    assert_eq!(p.scanline, 261);
    assert_eq!(p.cycle, 0);
    assert_eq!(p.status & 0x80, 0x80);
    p.tick(&mut cart);
    p.tick(&mut cart);
    assert_eq!(p.cycle, 2);
    assert_eq!(p.status & 0xE0, 0);
}

#[test]
fn outputting_pixels_on_visible_dots_only() {
    let mut p = PPU::new();
    assert!(!p.outputting_pixels());
    p.scanline = 0;
    p.cycle = 256;
    assert!(p.outputting_pixels());
    p.cycle = 257;
    assert!(!p.outputting_pixels());
}

#[test]
fn scroll_writes_fill_t_and_fine_x() {
    let mut p = PPU::new();
    p.ppuscroll_write(0x7D);
    assert!(p.w);
    assert_eq!(p.x, 5);
    assert_eq!(p.t, 0x000F);
    p.ppuscroll_write(0x5E);
    assert!(!p.w);
    assert_eq!(p.t, 0x616F);
}

#[test]
fn ctrl_write_selects_the_nametable() {
    let mut p = PPU::new();
    p.ppuctrl_write(0x03);
    assert_eq!(p.t, 0x0C00);
    assert_eq!(p.control, 0x03);
}

#[test]
fn two_address_writes_set_v() {
    let mut p = PPU::new();
    set_address(&mut p, 0x2108);
    assert_eq!(p.v, 0x2108);
    assert_eq!(p.t, 0x2108);
    assert!(!p.w);
    // The top two bits of the high byte are dropped.
    set_address(&mut p, 0xFF00);
    assert_eq!(p.v & 0x3FFF, 0x3F00);
}

#[test]
fn palette_write_and_read_back() {
    let mut cart = ppu_cartridge();
    let mut p = PPU::new();
    set_address(&mut p, 0x3F05);
    p.ppudata_write(&mut cart, 0xFF);
    assert_eq!(p.pal_read(0x3F05), 0x3F);
    set_address(&mut p, 0x3F05);
    assert_eq!(p.ppudata_read(&mut cart), 0x3F);
    assert_eq!(p.v, 0x3F06);
}

#[test]
fn sprite_backdrops_mirror_background_ones() {
    let mut cart = ppu_cartridge();
    let mut p = PPU::new();
    set_address(&mut p, 0x3F10);
    p.ppudata_write(&mut cart, 0x12);
    assert_eq!(p.pal_read(0x3F00), 0x12);
    set_address(&mut p, 0x3F0C);
    p.ppudata_write(&mut cart, 0x2A);
    assert_eq!(p.pal_read(0x3F1C), 0x2A);
    assert_eq!(p.pal_read(0x3F2C), 0x2A);
    assert_eq!(p.pal_read(0x3FEC), 0x2A);
}

#[test]
fn nametable_reads_go_through_the_buffer() {
    let mut cart = ppu_cartridge();
    let mut p = PPU::new();
    set_address(&mut p, 0x2400);
    p.ppudata_write(&mut cart, 0x99);
    set_address(&mut p, 0x2000);
    // Horizontal mirroring: 0x2400 is 0x2000.
    assert_eq!(p.ppudata_read(&mut cart), 0x00);
    assert_eq!(p.ppudata_read(&mut cart), 0x99);
}

#[test]
fn ppudata_increments_by_32_when_asked() {
    let mut cart = ppu_cartridge();
    let mut p = PPU::new();
    p.ppuctrl_write(0x04);
    set_address(&mut p, 0x2000);
    p.ppudata_write(&mut cart, 1);
    assert_eq!(p.v, 0x2020);
}

#[test]
fn pattern_ram_write_then_read() {
    let mut cart = ppu_cartridge();
    let mut p = PPU::new();
    set_address(&mut p, 0x0123);
    p.ppudata_write(&mut cart, 0x77);
    set_address(&mut p, 0x0123);
    p.ppudata_read(&mut cart);
    assert_eq!(p.ppudata_read(&mut cart), 0x77);
}

#[test]
fn oam_port_writes_and_reads() {
    let mut p = PPU::new();
    p.oamaddr_write(0xFF);
    p.oamdata_write(0xAB);
    assert_eq!(p.oam[0xFF], 0xAB);
    assert_eq!(p.oam_addr, 0x00);
    p.oamaddr_write(0xFF);
    assert_eq!(p.oamdata_read(), 0xAB);
    assert_eq!(p.oam_addr, 0xFF);
}

#[test]
fn overwrite_oam_replaces_everything() {
    let mut p = PPU::new();
    let mut new = [0u8; 0x100];
    for (i, b) in new.iter_mut().enumerate() {
        *b = (255 - i) as u8;
    }
    p.overwrite_oam(new);
    assert_eq!(p.oam[0], 255);
    assert_eq!(p.oam[255], 0);
}

#[test]
fn flag_indices() {
    assert_eq!(PPUControlFlags::NMIEnabled.index(), 7);
    assert_eq!(PPUMaskFlags::EnableBg.index(), 3);
    assert_eq!(PPUStatusFlags::VBlank.index(), 7);
}

#[test]
fn nmi_stays_off_until_the_next_vblank() {
    let mut cart = ppu_cartridge();
    let mut p = Box::new(PPU::new());
    p.ppuctrl_write(0x80);
    for _ in 0..82524 {
        p.tick(&mut cart);
    }
    assert!(p.signaling_nmi());
    p.disable_nmi_this_frame();
    // Through the rest of this frame and up to the next vblank start.
    for _ in 0..(262 * 341 - 1) {
        p.tick(&mut cart);
        assert!(!p.signaling_nmi());
    }
    assert_eq!((p.scanline, p.cycle), (241, 1));
    p.tick(&mut cart);
    assert!(p.signaling_nmi());
}

#[test]
fn dot_counter_wraps_lines_and_frames() {
    let mut cart = ppu_cartridge();
    let mut p = PPU::new();
    p.scanline = 10;
    p.cycle = 340;
    p.tick(&mut cart);
    assert_eq!((p.scanline, p.cycle, p.frame), (11, 0, 0));
    p.scanline = 260;
    p.cycle = 340;
    p.tick(&mut cart);
    assert_eq!((p.scanline, p.cycle, p.frame), (261, 0, 1));
}
