use nes_emu::mapper::{Mapper, NametableMirroring};
use nes_emu::mappers::{fixed_mirroring, mirrored_address, new_mapper, AnyMapper, MMC1, MMC3, NROM, UNROM};

fn numbered(len: usize) -> Vec<u8> {
    (0..len).map(|i| (i / 0x2000) as u8 ^ (i as u8)).collect()
}

fn header(byte_6: u8) -> [u8; 0x10] {
    let mut h = [0u8; 0x10];
    h[0] = 0x4E;
    h[1] = 0x45;
    h[2] = 0x53;
    h[3] = 0x1A;
    h[6] = byte_6;
    h
}

#[test]
fn header_bit_zero_selects_mirroring() {
    assert_eq!(fixed_mirroring(0x01), NametableMirroring::Vertical);
    assert_eq!(fixed_mirroring(0x10), NametableMirroring::Horizontal);
}

#[test]
fn mirroring_folds_nametables() {
    assert_eq!(mirrored_address(NametableMirroring::Horizontal, 0x0000), 0x0000);
    assert_eq!(mirrored_address(NametableMirroring::Horizontal, 0x0412), 0x0012);
    assert_eq!(mirrored_address(NametableMirroring::Horizontal, 0x0812), 0x0412);
    assert_eq!(mirrored_address(NametableMirroring::Horizontal, 0x0C12), 0x0412);
    assert_eq!(mirrored_address(NametableMirroring::Vertical, 0x0412), 0x0412);
    assert_eq!(mirrored_address(NametableMirroring::Vertical, 0x0812), 0x0012);
    assert_eq!(mirrored_address(NametableMirroring::Vertical, 0x0C12), 0x0412);
    assert_eq!(mirrored_address(NametableMirroring::FourScreen, 0x0C12), 0x0C12);
}

#[test]
fn nrom_mirrors_sixteen_kilobytes() {
    let prg: Vec<u8> = (0..0x4000).map(|i| (i % 251) as u8).collect();
    let mut m = NROM::new(prg.clone(), vec![7u8; 0x2000]);
    assert!(!m.is_32k);
    assert_eq!(m.prg_read(0x0123), prg[0x123]);
    assert_eq!(m.prg_read(0x4123), prg[0x123]);
    assert_eq!(m.chr_read(0x1FFF), 7);
    m.vram_write(0x0400, 0x42);
    assert_eq!(m.vram_read(0x0400), 0x42);
    // NROM has no pattern RAM: writes are ignored.
    m.chr_write(0x0000, 0x99);
    assert_eq!(m.chr_read(0x0000), 7);
    assert!(!m.signaling_irq());
}

#[test]
fn nrom_thirty_two_kilobytes_is_not_mirrored() {
    let prg: Vec<u8> = (0..0x8000).map(|i| (i >> 8) as u8).collect();
    let mut m = NROM::new(prg, vec![0u8; 0x2000]);
    assert!(m.is_32k);
    assert_eq!(m.prg_read(0x4100), 0x41);
}

#[test]
fn mmc1_loads_a_register_every_fifth_write() {
    let mut m = MMC1::new(numbered(0x20000), vec![0u8; 0x2000], None, &header(0x10));
    assert_eq!(m.control, 0b01100);
    for bit in [1u8, 1, 1, 1, 0] {
        m.prg_write(0x0000, bit);
    }
    assert_eq!(m.control, 0b01111);
    assert_eq!(m.writes, 0);
    assert_eq!(m.shift, 0);
}

#[test]
fn mmc1_reset_bit_clears_the_shift_register() {
    let mut m = MMC1::new(numbered(0x20000), vec![0u8; 0x2000], None, &header(0x10));
    m.prg_write(0x0000, 1);
    m.prg_write(0x0000, 1);
    assert_eq!(m.writes, 2);
    m.prg_write(0x0000, 0x80);
    assert_eq!(m.writes, 0);
    assert_eq!(m.shift, 0);
    assert_eq!(m.control, 0b01100);
}

#[test]
fn mmc1_switches_the_low_program_bank() {
    let prg = numbered(0x20000);
    let mut m = MMC1::new(prg.clone(), vec![0u8; 0x2000], None, &header(0x10));
    // Program mode 3: bank at 0x8000, last bank fixed at 0xC000.
    for bit in [1u8, 0, 0, 0, 0] {
        m.prg_write(0x6000, bit);
    }
    assert_eq!(m.prg_bank, 1);
    assert_eq!(m.prg_read(0x0005), prg[0x4005]);
    assert_eq!(m.prg_read(0x4005), prg[0x1C005]);
}

#[test]
fn mmc1_program_ram() {
    let mut m = MMC1::new(numbered(0x8000), vec![0u8; 0x2000], Some(vec![9u8; 0x2000]), &header(0x12));
    assert_eq!(m.prg_ram_read(0x0010), 9);
    m.prg_ram_write(0x0010, 3);
    assert_eq!(m.prg_ram_read(0x0010), 3);
}

#[test]
fn mmc1_pattern_ram_round_trip() {
    let mut m = MMC1::new(numbered(0x8000), vec![0u8; 0x2000], None, &header(0x10));
    m.chr_write(0x0321, 0x5A);
    assert_eq!(m.chr_read(0x0321), 0x5A);
}

#[test]
fn unrom_switches_the_low_bank() {
    let prg = numbered(0x10000);
    let mut m = UNROM::new(prg.clone(), vec![0u8; 0x2000], None, &header(0x21));
    assert_eq!(m.mirroring, NametableMirroring::Vertical);
    assert_eq!(m.prg_read(0x0001), prg[0x0001]);
    m.prg_write(0x0000, 2);
    assert_eq!(m.bank, 2);
    assert_eq!(m.prg_read(0x0001), prg[0x8001]);
    assert_eq!(m.prg_read(0x4001), prg[0xC001]);
    // Vertical mirroring: 0x2800 shows 0x2000.
    m.vram_write(0x0805, 0x11);
    assert_eq!(m.vram_read(0x0005), 0x11);
}

#[test]
fn mmc3_bank_select_and_data() {
    let prg = numbered(0x10000);
    let mut m = MMC3::new(prg.clone(), numbered(0x8000), None, &header(0x40));
    assert_eq!(m.mirroring, NametableMirroring::Horizontal);
    // Select R6, load 8 KiB bank 3 at 0x8000.
    m.prg_write(0x0000, 6);
    m.prg_write(0x0001, 3);
    assert_eq!(m.prg_8kb_1, 3);
    assert_eq!(m.prg_read(0x0010), prg[0x6010]);
    // The last two banks sit at 0xC000 and 0xE000.
    assert_eq!(m.prg_read(0x4010), prg[0xC010]);
    assert_eq!(m.prg_read(0x6010), prg[0xE010]);
    // Mirroring register.
    m.prg_write(0x2000, 0);
    assert_eq!(m.mirroring, NametableMirroring::Vertical);
}

#[test]
fn mmc3_counts_a12_rises_and_raises_irq() {
    let mut m = MMC3::new(numbered(0x10000), numbered(0x8000), None, &header(0x40));
    m.prg_write(0x4000, 1);
    m.prg_write(0x4001, 0);
    m.prg_write(0x6001, 0);
    assert!(m.irq_enabled);
    m.chr_read(0x0000);
    m.chr_read(0x1000);
    assert_eq!(m.irq_counter, 1);
    assert!(!m.signaling_irq());
    m.chr_read(0x0000);
    m.chr_read(0x1000);
    assert_eq!(m.irq_counter, 0);
    assert!(m.signaling_irq());
    m.irq_acknowledged();
    assert!(!m.signaling_irq());
}

#[test]
fn new_mapper_picks_the_board() {
    let m = new_mapper(numbered(0x8000), vec![0u8; 0x2000], None, &header(0x00), 0);
    assert!(matches!(m, AnyMapper::NROM(_)));
    let m = new_mapper(numbered(0x8000), vec![0u8; 0x2000], None, &header(0x10), 1);
    assert!(matches!(m, AnyMapper::MMC1(_)));
    let m = new_mapper(numbered(0x8000), vec![0u8; 0x2000], None, &header(0x20), 2);
    assert!(matches!(m, AnyMapper::UNROM(_)));
    let m = new_mapper(numbered(0x8000), vec![0u8; 0x2000], None, &header(0x40), 4);
    assert!(matches!(m, AnyMapper::MMC3(_)));
    assert!(!m.signaling_irq());
}

#[test]
fn mmc3_program_ram_enable_and_protect() {
    let mut m = MMC3::new(numbered(0x10000), numbered(0x8000), Some(vec![0u8; 0x2000]), &header(0x40));
    assert_eq!(m.prg_ram_read(0x0010), 0);
    m.prg_write(0x2001, 0x80);
    m.prg_ram_write(0x0010, 0x42);
    assert_eq!(m.prg_ram_read(0x0010), 0x42);
    m.prg_write(0x2001, 0xC0);
    m.prg_ram_write(0x0010, 0x99);
    assert_eq!(m.prg_ram_read(0x0010), 0x42);
    m.prg_write(0x2001, 0x00);
    assert_eq!(m.prg_ram_read(0x0010), 0);
}
