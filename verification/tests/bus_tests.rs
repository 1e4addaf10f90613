use nes_emu::cartridge::Cartridge;
use nes_emu::controller::Controller;
use nes_emu::memory_bus::MemoryBus;

fn image(prg_first: &[u8]) -> Vec<u8> {
    let mut d = vec![0u8; 16 + 0x4000 + 0x2000];
    d[0] = 0x4E;
    d[1] = 0x45;
    d[2] = 0x53;
    d[3] = 0x1A;
    d[4] = 1;
    d[5] = 1;
    d[16..16 + prg_first.len()].copy_from_slice(prg_first);
    d
}

fn unrom_bus() -> Box<MemoryBus> {
    let mut d = image(&[]);
    d[5] = 0;
    d[6] = 0x20;
    d.truncate(16 + 0x4000);
    let cart = Cartridge::load_ines("unrom.nes".to_string(), &d, None).unwrap();
    Box::new(MemoryBus::new(cart, None, None))
}

fn bus_with(prg_first: &[u8], p1: Option<Controller>, p2: Option<Controller>) -> Box<MemoryBus> {
    let cart = Cartridge::load_ines("bus.nes".to_string(), &image(prg_first), None).unwrap();
    Box::new(MemoryBus::new(cart, p1, p2))
}

#[test]
fn ram_is_mirrored_every_two_kilobytes() {
    let mut bus = bus_with(&[], None, None);
    bus.write(0x0005, 0x77);
    assert_eq!(bus.read(0x0005), 0x77);
    assert_eq!(bus.read(0x0805), 0x77);
    assert_eq!(bus.read(0x1005), 0x77);
    assert_eq!(bus.read(0x1805), 0x77);
    bus.write(0x1FFF, 0x01);
    assert_eq!(bus.ram[0x7FF], 0x01);
}

#[test]
fn new_bus_has_cleared_ram() {
    let bus = bus_with(&[], None, None);
    assert!(bus.ram.iter().all(|b| *b == 0));
    assert!(!bus.dma_signal);
}

#[test]
fn ppu_registers_repeat_every_eight_bytes() {
    let mut bus = bus_with(&[], None, None);
    bus.write(0x3FF8, 0x80);
    assert_eq!(bus.ppu.control, 0x80);
    bus.write(0x2001, 0x1E);
    assert_eq!(bus.ppu.mask, 0x1E);
}

#[test]
fn status_read_clears_vblank_and_toggle() {
    let mut bus = bus_with(&[], None, None);
    bus.ppu.status = 0xE0;
    bus.ppu.w = true;
    assert_eq!(bus.read(0x2002), 0xE0);
    assert_eq!(bus.ppu.status, 0x60);
    assert!(!bus.ppu.w);
    assert_eq!(bus.read(0x200A), 0x60);
}

#[test]
fn palette_write_then_read_through_ppudata() {
    let mut bus = unrom_bus();
    bus.write(0x2006, 0x3F);
    bus.write(0x2006, 0x01);
    bus.write(0x2007, 0xE5);
    assert_eq!(bus.ppu.v, 0x3F02);
    bus.write(0x2006, 0x3F);
    bus.write(0x2006, 0x01);
    assert_eq!(bus.read(0x2007), 0x25);
}

#[test]
fn nametable_reads_are_buffered() {
    let mut bus = bus_with(&[], None, None);
    bus.write(0x2006, 0x20);
    bus.write(0x2006, 0x10);
    bus.write(0x2007, 0x5A);
    bus.write(0x2006, 0x20);
    bus.write(0x2006, 0x10);
    assert_eq!(bus.read(0x2007), 0x00);
    assert_eq!(bus.read(0x2007), 0x5A);
}

#[test]
fn oam_dma_copies_a_page_and_signals() {
    let mut bus = bus_with(&[], None, None);
    for i in 0..0x100u16 {
        bus.write(0x0200 + i, i as u8);
    }
    bus.write(0x4014, 0x02);
    assert!(bus.dma_signal);
    for i in 0..0x100usize {
        assert_eq!(bus.ppu.oam[i], i as u8);
    }
    bus.stop_dma_signal();
    assert!(!bus.dma_signal);
}

#[test]
fn oam_data_port() {
    let mut bus = bus_with(&[], None, None);
    bus.write(0x2003, 0x10);
    bus.write(0x2004, 0xAB);
    bus.write(0x2004, 0xCD);
    assert_eq!(bus.ppu.oam[0x10], 0xAB);
    assert_eq!(bus.ppu.oam[0x11], 0xCD);
    bus.write(0x2003, 0x11);
    assert_eq!(bus.read(0x2004), 0xCD);
}

#[test]
fn controllers_report_through_the_joypad_ports() {
    let mut c1 = Controller::new();
    c1.a = true;
    c1.start = true;
    let mut c2 = Controller::new();
    c2.right = true;
    let mut bus = bus_with(&[], Some(c1), Some(c2));
    bus.write(0x4016, 1);
    bus.write(0x4016, 0);
    let reads: Vec<u8> = (0..8).map(|_| bus.read(0x4016)).collect();
    assert_eq!(reads, vec![1, 0, 0, 1, 0, 0, 0, 0]);
    let reads2: Vec<u8> = (0..8).map(|_| bus.read(0x4017)).collect();
    assert_eq!(reads2, vec![0, 0, 0, 0, 0, 0, 0, 1]);
}

#[test]
fn missing_controllers_read_zero() {
    let mut bus = bus_with(&[], None, None);
    bus.write(0x4016, 1);
    assert_eq!(bus.read(0x4016), 0);
    assert_eq!(bus.read(0x4017), 0);
}

#[test]
fn program_rom_is_mirrored_for_sixteen_kilobytes() {
    let mut bus = bus_with(&[0xDE, 0xAD], None, None);
    assert_eq!(bus.read(0x8000), 0xDE);
    assert_eq!(bus.read(0xC001), 0xAD);
}

#[test]
fn unmapped_addresses_read_zero() {
    let mut bus = bus_with(&[], None, None);
    assert_eq!(bus.read(0x4018), 0);
    assert_eq!(bus.read(0x5000), 0);
}

#[test]
fn bus_accesses_keep_the_cartridge_name() {
    let mut bus = bus_with(&[], None, None);
    bus.write(0x2006, 0x20);
    bus.write(0x2006, 0x00);
    bus.write(0x2007, 0x11);
    bus.read(0x2007);
    bus.write(0x8000, 0x01);
    bus.read(0x8000);
    assert_eq!(bus.cartridge.name, "bus.nes");
}
