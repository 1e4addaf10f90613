use nes_emu::cartridge::{ines_check, Cartridge};
use nes_emu::mappers::AnyMapper;

fn image(prg_banks: u8, chr_banks: u8, byte_6: u8, byte_8: u8) -> Vec<u8> {
    let len = 16 + 0x4000 * prg_banks as usize + 0x2000 * chr_banks as usize;
    let mut d = vec![0u8; len];
    d[0] = 0x4E;
    d[1] = 0x45;
    d[2] = 0x53;
    d[3] = 0x1A;
    d[4] = prg_banks;
    d[5] = chr_banks;
    d[6] = byte_6;
    d[8] = byte_8;
    for i in 0..0x4000 * prg_banks as usize {
        d[16 + i] = (i % 253) as u8;
    }
    d
}

#[test]
fn check_refuses_short_or_truncated_images() {
    assert!(!ines_check(&vec![0x4E, 0x45, 0x53]));
    let mut d = image(1, 1, 0, 0);
    d.truncate(16 + 0x4000);
    assert!(!ines_check(&d));
}

#[test]
fn check_refuses_unsupported_boards() {
    assert!(!ines_check(&image(1, 1, 0x30, 0)));
    assert!(ines_check(&image(1, 1, 0x40, 0)));
}

#[test]
fn data_without_the_magic_number_loads_nothing() {
    let mut d = image(1, 1, 0, 0);
    d[0] = b'X';
    assert!(ines_check(&d));
    assert!(Cartridge::load_ines("bad.nes".to_string(), &d, None).is_none());
}

#[test]
fn nrom_image_loads() {
    let d = image(1, 1, 0, 0);
    assert!(ines_check(&d));
    let mut cart = Cartridge::load_ines("game.nes".to_string(), &d, None).unwrap();
    assert_eq!(cart.name, "game.nes");
    assert!(matches!(cart.mapper, AnyMapper::NROM(_)));
    assert_eq!(cart.prg_read(0x8000), 0);
    assert_eq!(cart.prg_read(0x8005), 5);
    assert_eq!(cart.prg_read(0xC005), 5);
}

#[test]
fn mapper_number_selects_the_board() {
    let d = image(2, 0, 0x40, 0);
    let cart = Cartridge::load_ines("mmc3.nes".to_string(), &d, None).unwrap();
    assert!(matches!(cart.mapper, AnyMapper::MMC3(_)));
    let d = image(1, 0, 0x20, 0);
    let cart = Cartridge::load_ines("unrom.nes".to_string(), &d, None).unwrap();
    assert!(matches!(cart.mapper, AnyMapper::UNROM(_)));
}

#[test]
fn missing_pattern_rom_becomes_pattern_ram() {
    let d = image(1, 0, 0x20, 0);
    let mut cart = Cartridge::load_ines("ram.nes".to_string(), &d, None).unwrap();
    assert_eq!(cart.chr_read(0x1234), 0);
    cart.chr_write(0x1234, 0x66);
    assert_eq!(cart.chr_read(0x1234), 0x66);
}

#[test]
fn battery_backed_boards_use_the_save_image() {
    let d = image(2, 1, 0x12, 0);
    let mut save = vec![0u8; 0x2000];
    save[0] = 0x5A;
    save[0x1FFF] = 0xA5;
    let mut cart = Cartridge::load_ines("saved.nes".to_string(), &d, Some(save.clone())).unwrap();
    assert!(matches!(cart.mapper, AnyMapper::MMC1(_)));
    assert_eq!(cart.prg_ram_read(0x6000), 0x5A);
    cart.prg_ram_write(0x6001, 0x33);
    let image = cart.sram_image();
    assert_eq!(image.len(), 0x2000);
    assert_eq!(image[0], 0x5A);
    assert_eq!(image[1], 0x33);
    assert_eq!(image[0x1FFF], 0xA5);
}

#[test]
fn boards_without_battery_start_with_cleared_ram() {
    let d = image(2, 1, 0x10, 1);
    let mut save = vec![0u8; 0x2000];
    save[0] = 0x5A;
    let mut cart = Cartridge::load_ines("fresh.nes".to_string(), &d, Some(save)).unwrap();
    assert_eq!(cart.prg_ram_read(0x6000), 0);
}

#[test]
fn nametables_follow_the_header_mirroring() {
    let d = image(1, 0, 0x21, 0);
    let mut cart = Cartridge::load_ines("vertical.nes".to_string(), &d, None).unwrap();
    cart.vram_write(0x2005, 0x12);
    assert_eq!(cart.vram_read(0x2805), 0x12);
    assert_eq!(cart.vram_read(0x2405), 0x00);
}
