use nes_emu::bit_utils::address_from_bytes;
use nes_emu::cartridge::Cartridge;
use nes_emu::cpu::CPUFlags;
use nes_emu::nes::{NES, NES_PALETTE};

fn boot(program: &[u8], extra: &[(usize, u8)]) -> Box<NES> {
    let mut d = vec![0u8; 16 + 0x4000 + 0x2000];
    d[0] = 0x4E;
    d[1] = 0x45;
    d[2] = 0x53;
    d[3] = 0x1A;
    d[4] = 1;
    d[5] = 1;
    d[16..16 + program.len()].copy_from_slice(program);
    for &(offset, value) in extra {
        d[16 + offset] = value;
    }
    d[16 + 0x3FFA] = 0x00;
    d[16 + 0x3FFB] = 0x90;
    d[16 + 0x3FFC] = 0x00;
    d[16 + 0x3FFD] = 0x80;
    let cart = Cartridge::load_ines("nes.nes".to_string(), &d, None).unwrap();
    let mut nes = Box::new(NES::new(cart, None, None));
    nes.reset();
    nes
}

#[test]
fn new_console_is_blank() {
    let nes = boot(&[0x4C, 0x00, 0x80], &[]);
    assert!(nes.framebuffer.iter().all(|p| *p == (0, 0, 0)));
    assert_eq!(nes.cpu.pc, 0x8000);
    assert_eq!(nes.bus.ppu.scanline, 261);
}

#[test]
fn palette_table() {
    assert_eq!(NES_PALETTE[0x00], (98, 98, 98));
    assert_eq!(NES_PALETTE[0x21], (87, 165, 255));
    assert_eq!(NES_PALETTE[0x3F], (0, 0, 0));
}

#[test]
fn visible_dots_paint_the_backdrop() {
    let mut nes = boot(&[0x4C, 0x00, 0x80], &[]);
    nes.bus.ppu.palette_ram[0] = 0x21;
    for _ in 0..200 {
        nes.tick();
    }
    assert_eq!(nes.bus.ppu.scanline, 0);
    assert_eq!(nes.bus.ppu.cycle, 259);
    for x in 0..256 {
        assert_eq!(nes.framebuffer[x], (87, 165, 255));
    }
    assert_eq!(nes.framebuffer[256], (0, 0, 0));
}

#[test]
fn each_tick_is_one_cpu_cycle_and_three_dots() {
    let mut nes = boot(&[0x4C, 0x00, 0x80], &[]);
    nes.tick();
    assert_eq!(nes.cpu.cycles, 1);
    assert_eq!(nes.cpu.delay, 6);
    assert_eq!(nes.bus.ppu.cycle, 3);
}

#[test]
fn vertical_blank_interrupt_runs_the_nmi_handler_once() {
    // Enable the NMI, then loop; the handler at 0x9000 loops too.
    let mut nes = boot(&[0xA9, 0x80, 0x8D, 0x00, 0x20, 0x4C, 0x05, 0x80], &[(0x1000, 0x4C), (0x1001, 0x00), (0x1002, 0x90)]);
    for _ in 0..28000 {
        nes.tick();
    }
    assert!(nes.cpu.pc >= 0x9000 && nes.cpu.pc <= 0x9002);
    assert_eq!(nes.cpu.sp, 0xFA);
    assert!(nes.cpu.flag_set(CPUFlags::InterruptDisable));
    let ret = address_from_bytes(nes.bus.ram[0x1FC], nes.bus.ram[0x1FD]);
    assert!((0x8005..=0x8007).contains(&ret));
}

#[test]
fn oam_dma_stalls_the_cpu() {
    let mut nes = boot(&[0xA9, 0x02, 0x8D, 0x14, 0x40, 0x4C, 0x05, 0x80], &[]);
    nes.bus.ram[0x200] = 0x44;
    nes.bus.ram[0x2FF] = 0x55;
    while nes.cpu.delay > 0 {
        nes.tick();
    }
    nes.tick();
    while nes.cpu.delay > 0 {
        nes.tick();
    }
    let start = nes.cpu.cycles;
    nes.tick();
    assert!(!nes.bus.dma_signal);
    assert_eq!(nes.cpu.delay, 3 + 514);
    while nes.cpu.delay > 0 {
        nes.tick();
    }
    assert_eq!(nes.cpu.cycles - start, 518);
    assert_eq!(nes.bus.ppu.oam[0], 0x44);
    assert_eq!(nes.bus.ppu.oam[0xFF], 0x55);
}

#[test]
fn bytes_combine_little_endian() {
    assert_eq!(address_from_bytes(0x34, 0x12), 0x1234);
    assert_eq!(address_from_bytes(0xFF, 0x00), 0x00FF);
}

#[test]
fn running_the_console_keeps_the_cartridge_name() {
    let mut nes = boot(&[0xA9, 0x80, 0x8D, 0x00, 0x20, 0x4C, 0x05, 0x80], &[(0x1000, 0x40)]);
    assert_eq!(nes.bus.cartridge.name, "nes.nes");
    for _ in 0..30000 {
        nes.tick();
    }
    assert_eq!(nes.bus.cartridge.name, "nes.nes");
    nes.reset();
    assert_eq!(nes.bus.cartridge.name, "nes.nes");
}
