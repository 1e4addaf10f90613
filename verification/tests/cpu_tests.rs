use nes_emu::cartridge::Cartridge;
use nes_emu::cpu::{AddressingMode, CPUFlags, CPU};
use nes_emu::instructions::{decode_opcode, Instruction};
use nes_emu::memory_bus::MemoryBus;
use nes_emu::nes::NES;

/// A 16 KiB NROM image holding `program` at 0x8000, with the NMI vector at
/// 0x9000, the reset vector at 0x8000 and the IRQ/BRK vector at 0xA000.
fn image(program: &[u8], extra: &[(usize, u8)]) -> Vec<u8> {
    let mut d = vec![0u8; 16 + 0x4000 + 0x2000];
    d[0] = 0x4E;
    d[1] = 0x45;
    d[2] = 0x53;
    d[3] = 0x1A;
    d[4] = 1;
    d[5] = 1;
    d[16..16 + program.len()].copy_from_slice(program);
    for &(offset, value) in extra {
        d[16 + offset] = value;
    }
    d[16 + 0x3FFA] = 0x00;
    d[16 + 0x3FFB] = 0x90;
    d[16 + 0x3FFC] = 0x00;
    d[16 + 0x3FFD] = 0x80;
    d[16 + 0x3FFE] = 0x00;
    d[16 + 0x3FFF] = 0xA0;
    d
}

fn nrom_cartridge(program: &[u8], extra: &[(usize, u8)]) -> Cartridge {
    let data = image(program, extra);
    Cartridge::load_ines("test.nes".to_string(), &data, None).unwrap()
}

fn boot_with(program: &[u8], extra: &[(usize, u8)]) -> Box<NES> {
    let mut nes = Box::new(NES::new(nrom_cartridge(program, extra), None, None));
    nes.reset();
    nes
}

fn boot(program: &[u8]) -> Box<NES> {
    boot_with(program, &[])
}

/// Runs the next instruction to its end; returns the cycles it took.
fn run_one(nes: &mut NES) -> usize {
    while nes.cpu.delay > 0 {
        nes.tick();
    }
    let start = nes.cpu.cycles;
    nes.tick();
    while nes.cpu.delay > 0 {
        nes.tick();
    }
    nes.cpu.cycles - start
}

#[test]
fn reset_loads_the_reset_vector() {
    let nes = boot(&[0xEA]);
    assert_eq!(nes.cpu.pc, 0x8000);
    assert_eq!(nes.cpu.delay, 7);
    assert_eq!(nes.cpu.sp, 0xFD);
    assert_eq!(nes.cpu.p, 0b0011_0000);
}

#[test]
fn lda_immediate_sets_zero_and_negative() {
    let mut nes = boot(&[0xA9, 0x00, 0xA9, 0x80]);
    assert_eq!(run_one(&mut nes), 2);
    assert_eq!(nes.cpu.a, 0);
    assert!(nes.cpu.flag_set(CPUFlags::Zero));
    assert!(!nes.cpu.flag_set(CPUFlags::Negative));
    assert_eq!(run_one(&mut nes), 2);
    assert_eq!(nes.cpu.a, 0x80);
    assert!(!nes.cpu.flag_set(CPUFlags::Zero));
    assert!(nes.cpu.flag_set(CPUFlags::Negative));
    assert_eq!(nes.cpu.pc, 0x8004);
}

#[test]
fn adc_sets_overflow_on_signed_overflow() {
    let mut nes = boot(&[0x18, 0xA9, 0x50, 0x69, 0x50]);
    run_one(&mut nes);
    run_one(&mut nes);
    run_one(&mut nes);
    assert_eq!(nes.cpu.a, 0xA0);
    assert!(nes.cpu.flag_set(CPUFlags::Overflow));
    assert!(!nes.cpu.flag_set(CPUFlags::Carry));
    assert!(nes.cpu.flag_set(CPUFlags::Negative));
}

#[test]
fn adc_carries_out_of_bit_seven() {
    let mut nes = boot(&[0x18, 0xA9, 0xFF, 0x69, 0x01]);
    run_one(&mut nes);
    run_one(&mut nes);
    run_one(&mut nes);
    assert_eq!(nes.cpu.a, 0x00);
    assert!(nes.cpu.flag_set(CPUFlags::Carry));
    assert!(nes.cpu.flag_set(CPUFlags::Zero));
    assert!(!nes.cpu.flag_set(CPUFlags::Overflow));
}

#[test]
fn adc_adds_the_carry_in() {
    let mut nes = boot(&[0x38, 0xA9, 0x10, 0x69, 0x20]);
    run_one(&mut nes);
    run_one(&mut nes);
    run_one(&mut nes);
    assert_eq!(nes.cpu.a, 0x31);
    assert!(!nes.cpu.flag_set(CPUFlags::Carry));
}

#[test]
fn sbc_borrows_and_overflows() {
    let mut nes = boot(&[0x38, 0xA9, 0x50, 0xE9, 0xB0]);
    run_one(&mut nes);
    run_one(&mut nes);
    run_one(&mut nes);
    assert_eq!(nes.cpu.a, 0xA0);
    assert!(!nes.cpu.flag_set(CPUFlags::Carry));
    assert!(nes.cpu.flag_set(CPUFlags::Overflow));
    assert!(nes.cpu.flag_set(CPUFlags::Negative));
}

#[test]
fn sbc_without_borrow_keeps_carry() {
    let mut nes = boot(&[0x38, 0xA9, 0x05, 0xE9, 0x03]);
    run_one(&mut nes);
    run_one(&mut nes);
    run_one(&mut nes);
    assert_eq!(nes.cpu.a, 0x02);
    assert!(nes.cpu.flag_set(CPUFlags::Carry));
}

#[test]
fn sbc_with_clear_carry_subtracts_one_more() {
    let mut nes = boot(&[0x18, 0xA9, 0x05, 0xE9, 0x03]);
    run_one(&mut nes);
    run_one(&mut nes);
    run_one(&mut nes);
    assert_eq!(nes.cpu.a, 0x01);
    assert!(nes.cpu.flag_set(CPUFlags::Carry));
}

#[test]
fn cmp_equal_and_less() {
    let mut nes = boot(&[0xA9, 0x40, 0xC9, 0x40, 0xC9, 0x41]);
    run_one(&mut nes);
    run_one(&mut nes);
    assert!(nes.cpu.flag_set(CPUFlags::Zero));
    assert!(nes.cpu.flag_set(CPUFlags::Carry));
    assert!(!nes.cpu.flag_set(CPUFlags::Negative));
    run_one(&mut nes);
    assert!(!nes.cpu.flag_set(CPUFlags::Zero));
    assert!(!nes.cpu.flag_set(CPUFlags::Carry));
    assert!(nes.cpu.flag_set(CPUFlags::Negative));
    assert_eq!(nes.cpu.a, 0x40);
}

#[test]
fn cpx_and_cpy_compare_index_registers() {
    let mut nes = boot(&[0xA2, 0x10, 0xE0, 0x08, 0xA0, 0x01, 0xC0, 0x02]);
    run_one(&mut nes);
    run_one(&mut nes);
    assert!(nes.cpu.flag_set(CPUFlags::Carry));
    assert!(!nes.cpu.flag_set(CPUFlags::Zero));
    run_one(&mut nes);
    run_one(&mut nes);
    assert!(!nes.cpu.flag_set(CPUFlags::Carry));
    assert!(nes.cpu.flag_set(CPUFlags::Negative));
}

#[test]
fn store_then_load_through_zero_page() {
    let mut nes = boot(&[0xA9, 0x42, 0x85, 0x10, 0xA6, 0x10]);
    run_one(&mut nes);
    assert_eq!(run_one(&mut nes), 3);
    assert_eq!(nes.bus.ram[0x10], 0x42);
    assert_eq!(run_one(&mut nes), 3);
    assert_eq!(nes.cpu.x, 0x42);
}

#[test]
fn zero_page_x_wraps_within_the_zero_page() {
    let mut nes = boot(&[0xA2, 0x01, 0xA9, 0x66, 0x95, 0xFF]);
    run_one(&mut nes);
    run_one(&mut nes);
    assert_eq!(run_one(&mut nes), 4);
    assert_eq!(nes.bus.ram[0x00], 0x66);
}

#[test]
fn jsr_then_rts_returns_after_the_call() {
    let mut nes = boot_with(&[0x20, 0x10, 0x80, 0xEA], &[(0x10, 0x60)]);
    assert_eq!(run_one(&mut nes), 6);
    assert_eq!(nes.cpu.pc, 0x8010);
    assert_eq!(nes.cpu.sp, 0xFB);
    assert_eq!(nes.bus.ram[0x1FD], 0x80);
    assert_eq!(nes.bus.ram[0x1FC], 0x02);
    assert_eq!(run_one(&mut nes), 6);
    assert_eq!(nes.cpu.pc, 0x8003);
    assert_eq!(nes.cpu.sp, 0xFD);
}

#[test]
fn pha_then_pla_round_trips() {
    let mut nes = boot(&[0xA9, 0x37, 0x48, 0xA9, 0x00, 0x68]);
    run_one(&mut nes);
    assert_eq!(run_one(&mut nes), 3);
    assert_eq!(nes.cpu.sp, 0xFC);
    run_one(&mut nes);
    assert!(nes.cpu.flag_set(CPUFlags::Zero));
    assert_eq!(run_one(&mut nes), 4);
    assert_eq!(nes.cpu.a, 0x37);
    assert_eq!(nes.cpu.sp, 0xFD);
    assert!(!nes.cpu.flag_set(CPUFlags::Zero));
}

#[test]
fn php_sets_b_and_plp_clears_it() {
    let mut nes = boot(&[0x08, 0x38, 0x28]);
    run_one(&mut nes);
    assert_eq!(nes.bus.ram[0x1FD], 0x30);
    run_one(&mut nes);
    assert!(nes.cpu.flag_set(CPUFlags::Carry));
    run_one(&mut nes);
    assert_eq!(nes.cpu.p, 0x20);
    assert!(!nes.cpu.flag_set(CPUFlags::Carry));
}

#[test]
fn bne_taken_and_not_taken() {
    let mut nes = boot(&[0xA9, 0x01, 0xD0, 0x02, 0xEA, 0xEA, 0xA9, 0x00, 0xD0, 0x10]);
    run_one(&mut nes);
    assert_eq!(run_one(&mut nes), 3);
    assert_eq!(nes.cpu.pc, 0x8006);
    run_one(&mut nes);
    assert_eq!(run_one(&mut nes), 2);
    assert_eq!(nes.cpu.pc, 0x800A);
}

#[test]
fn branch_across_a_page_takes_four_cycles() {
    let mut nes = boot_with(&[0x4C, 0xF0, 0x80], &[(0xF0, 0xD0), (0xF1, 0x20)]);
    assert_eq!(run_one(&mut nes), 3);
    assert_eq!(nes.cpu.pc, 0x80F0);
    assert_eq!(run_one(&mut nes), 4);
    assert_eq!(nes.cpu.pc, 0x8112);
}

#[test]
fn backward_branch() {
    let mut nes = boot(&[0xEA, 0xEA, 0xD0, 0xFC]);
    run_one(&mut nes);
    run_one(&mut nes);
    run_one(&mut nes);
    assert_eq!(nes.cpu.pc, 0x8000);
}

#[test]
fn brk_enters_the_interrupt_handler() {
    let mut nes = boot(&[0x00, 0xFF]);
    assert_eq!(run_one(&mut nes), 7);
    assert_eq!(nes.cpu.pc, 0xA000);
    assert!(nes.cpu.flag_set(CPUFlags::InterruptDisable));
    assert_eq!(nes.cpu.sp, 0xFA);
    assert_eq!(nes.bus.ram[0x1FD], 0x80);
    assert_eq!(nes.bus.ram[0x1FC], 0x02);
    assert_eq!(nes.bus.ram[0x1FB], 0x30);
}

#[test]
fn rti_returns_from_brk() {
    let mut nes = boot_with(&[0x00, 0xFF], &[(0x2000, 0x40)]);
    run_one(&mut nes);
    assert_eq!(run_one(&mut nes), 6);
    assert_eq!(nes.cpu.pc, 0x8002);
    assert_eq!(nes.cpu.sp, 0xFD);
    assert_eq!(nes.cpu.p, 0x20);
}

#[test]
fn jmp_indirect_does_not_carry_into_the_page() {
    let mut nes = boot_with(&[0x6C, 0xFF, 0x80], &[(0xFF, 0x34)]);
    assert_eq!(run_one(&mut nes), 5);
    assert_eq!(nes.cpu.pc, 0x6C34);
}

#[test]
fn absolute_x_page_cross_costs_a_cycle() {
    let mut nes = boot_with(&[0xA2, 0x01, 0xBD, 0xFF, 0x80, 0xBD, 0x00, 0x81], &[(0x100, 0x99), (0x101, 0x77)]);
    run_one(&mut nes);
    assert_eq!(run_one(&mut nes), 5);
    assert_eq!(nes.cpu.a, 0x99);
    assert_eq!(run_one(&mut nes), 4);
    assert_eq!(nes.cpu.a, 0x77);
}

#[test]
fn indirect_indexed_reads_through_a_zero_page_pointer() {
    // (0x10) = 0x0200; LDA (0x10),Y with Y = 5 reads 0x0205.
    let mut nes = boot(&[
        0xA9, 0x00, 0x85, 0x10, 0xA9, 0x02, 0x85, 0x11, 0xA9, 0x5A, 0x8D, 0x05, 0x02, 0xA0, 0x05, 0xB1, 0x10,
    ]);
    for _ in 0..7 {
        run_one(&mut nes);
    }
    assert_eq!(run_one(&mut nes), 5);
    assert_eq!(nes.cpu.a, 0x5A);
}

#[test]
fn indexed_indirect_reads_through_x() {
    // (0x20 + X) with X = 4 holds 0x0300; LDA (0x20,X) reads 0x0300.
    let mut nes = boot(&[
        0xA9, 0x00, 0x85, 0x24, 0xA9, 0x03, 0x85, 0x25, 0xA9, 0xC3, 0x8D, 0x00, 0x03, 0xA2, 0x04, 0xA1, 0x20,
    ]);
    for _ in 0..7 {
        run_one(&mut nes);
    }
    assert_eq!(run_one(&mut nes), 6);
    assert_eq!(nes.cpu.a, 0xC3);
}

#[test]
fn inc_and_dec_memory_wrap() {
    let mut nes = boot(&[0xA9, 0xFF, 0x85, 0x20, 0xE6, 0x20, 0xC6, 0x20]);
    run_one(&mut nes);
    run_one(&mut nes);
    assert_eq!(run_one(&mut nes), 5);
    assert_eq!(nes.bus.ram[0x20], 0x00);
    assert!(nes.cpu.flag_set(CPUFlags::Zero));
    run_one(&mut nes);
    assert_eq!(nes.bus.ram[0x20], 0xFF);
    assert!(nes.cpu.flag_set(CPUFlags::Negative));
}

#[test]
fn register_increments_wrap() {
    let mut nes = boot(&[0xA2, 0xFF, 0xE8, 0xA0, 0x00, 0x88]);
    run_one(&mut nes);
    run_one(&mut nes);
    assert_eq!(nes.cpu.x, 0);
    assert!(nes.cpu.flag_set(CPUFlags::Zero));
    run_one(&mut nes);
    run_one(&mut nes);
    assert_eq!(nes.cpu.y, 0xFF);
    assert!(nes.cpu.flag_set(CPUFlags::Negative));
}

#[test]
fn shifts_and_rotates_move_the_carry() {
    let mut nes = boot(&[0xA9, 0x81, 0x0A, 0x4A, 0x38, 0xA9, 0x01, 0x6A, 0x2A]);
    run_one(&mut nes);
    assert_eq!(run_one(&mut nes), 2);
    assert_eq!(nes.cpu.a, 0x02);
    assert!(nes.cpu.flag_set(CPUFlags::Carry));
    run_one(&mut nes);
    assert_eq!(nes.cpu.a, 0x01);
    assert!(!nes.cpu.flag_set(CPUFlags::Carry));
    run_one(&mut nes);
    run_one(&mut nes);
    run_one(&mut nes);
    assert_eq!(nes.cpu.a, 0x80);
    assert!(nes.cpu.flag_set(CPUFlags::Carry));
    run_one(&mut nes);
    assert_eq!(nes.cpu.a, 0x01);
    assert!(nes.cpu.flag_set(CPUFlags::Carry));
}

#[test]
fn asl_on_memory_takes_five_cycles() {
    let mut nes = boot(&[0xA9, 0x40, 0x85, 0x30, 0x06, 0x30]);
    run_one(&mut nes);
    run_one(&mut nes);
    assert_eq!(run_one(&mut nes), 5);
    assert_eq!(nes.bus.ram[0x30], 0x80);
    assert!(nes.cpu.flag_set(CPUFlags::Negative));
}

#[test]
fn bit_copies_bits_six_and_seven() {
    let mut nes = boot(&[0xA9, 0xC0, 0x85, 0x10, 0xA9, 0x01, 0x24, 0x10]);
    run_one(&mut nes);
    run_one(&mut nes);
    run_one(&mut nes);
    assert_eq!(run_one(&mut nes), 3);
    assert!(nes.cpu.flag_set(CPUFlags::Zero));
    assert!(nes.cpu.flag_set(CPUFlags::Overflow));
    assert!(nes.cpu.flag_set(CPUFlags::Negative));
}

#[test]
fn logic_operations() {
    let mut nes = boot(&[0xA9, 0xF0, 0x29, 0x3C, 0x09, 0x01, 0x49, 0xFF]);
    run_one(&mut nes);
    run_one(&mut nes);
    assert_eq!(nes.cpu.a, 0x30);
    run_one(&mut nes);
    assert_eq!(nes.cpu.a, 0x31);
    run_one(&mut nes);
    assert_eq!(nes.cpu.a, 0xCE);
    assert!(nes.cpu.flag_set(CPUFlags::Negative));
}

#[test]
fn transfers_between_registers() {
    let mut nes = boot(&[0xA2, 0x80, 0x9A, 0xBA, 0xA9, 0x07, 0xAA, 0xA8, 0x8A, 0x98]);
    run_one(&mut nes);
    run_one(&mut nes);
    assert_eq!(nes.cpu.sp, 0x80);
    run_one(&mut nes);
    assert_eq!(nes.cpu.x, 0x80);
    assert!(nes.cpu.flag_set(CPUFlags::Negative));
    run_one(&mut nes);
    run_one(&mut nes);
    run_one(&mut nes);
    assert_eq!(nes.cpu.x, 7);
    assert_eq!(nes.cpu.y, 7);
    run_one(&mut nes);
    run_one(&mut nes);
    assert_eq!(nes.cpu.a, 7);
}

#[test]
fn flag_instructions() {
    let mut nes = boot(&[0x38, 0x78, 0xF8, 0x18, 0x58, 0xD8, 0xB8]);
    run_one(&mut nes);
    run_one(&mut nes);
    run_one(&mut nes);
    assert!(nes.cpu.flag_set(CPUFlags::Carry));
    assert!(nes.cpu.flag_set(CPUFlags::InterruptDisable));
    assert!(nes.cpu.flag_set(CPUFlags::Decimal));
    run_one(&mut nes);
    run_one(&mut nes);
    run_one(&mut nes);
    run_one(&mut nes);
    assert_eq!(nes.cpu.p, 0x30);
}

#[test]
fn unofficial_opcode_is_not_executed() {
    let mut nes = boot(&[0x02]);
    let bus = &mut nes.bus;
    let cpu = &mut nes.cpu;
    for _ in 0..7 {
        assert!(cpu.step(bus));
    }
    let cycles = cpu.cycles;
    assert!(!cpu.step(bus));
    assert_eq!(cpu.pc, 0x8000);
    assert_eq!(cpu.cycles, cycles);
}

#[test]
fn decode_table() {
    assert_eq!(decode_opcode(0xA9), Some((Instruction::LDA, AddressingMode::Immediate)));
    assert_eq!(decode_opcode(0x6C), Some((Instruction::JMP, AddressingMode::Indirect)));
    assert_eq!(decode_opcode(0xB6), Some((Instruction::LDX, AddressingMode::ZeroPageY)));
    assert_eq!(decode_opcode(0x02), None);
    assert_eq!(decode_opcode(0xFF), None);
    let official = (0..=255u8).filter(|op| decode_opcode(*op).is_some()).count();
    assert_eq!(official, 151);
}

#[test]
fn set_flag_and_flag_set() {
    let mut cpu = CPU::new();
    cpu.set_flag(CPUFlags::Carry, true);
    assert!(cpu.flag_set(CPUFlags::Carry));
    assert_eq!(cpu.p, 0x31);
    cpu.set_flag(CPUFlags::Negative, true);
    assert_eq!(cpu.p, 0xB1);
    cpu.set_flag(CPUFlags::Carry, false);
    assert_eq!(cpu.p, 0xB0);
    assert!(!cpu.flag_set(CPUFlags::Zero));
    assert_eq!(CPUFlags::Overflow.index(), 6);
}

#[test]
fn stack_pushes_and_pops() {
    let mut bus = MemoryBus::new(nrom_cartridge(&[], &[]), None, None);
    let mut cpu = CPU::new();
    cpu.push8(&mut bus, 0xAB);
    assert_eq!(bus.ram[0x1FD], 0xAB);
    assert_eq!(cpu.sp, 0xFC);
    assert_eq!(cpu.pop8(&mut bus), 0xAB);
    assert_eq!(cpu.sp, 0xFD);
    cpu.push16(&mut bus, 0x1234);
    assert_eq!(bus.ram[0x1FD], 0x12);
    assert_eq!(bus.ram[0x1FC], 0x34);
    assert_eq!(cpu.pop16(&mut bus), 0x1234);
    assert_eq!(cpu.sp, 0xFD);
}

#[test]
fn stack_pointer_wraps() {
    let mut bus = MemoryBus::new(nrom_cartridge(&[], &[]), None, None);
    let mut cpu = CPU::new();
    cpu.sp = 0x00;
    cpu.push8(&mut bus, 0x11);
    assert_eq!(bus.ram[0x100], 0x11);
    assert_eq!(cpu.sp, 0xFF);
    assert_eq!(cpu.pop8(&mut bus), 0x11);
    assert_eq!(cpu.sp, 0x00);
}

#[test]
fn reads_combine_little_endian() {
    let mut bus = MemoryBus::new(nrom_cartridge(&[0x34, 0x12], &[]), None, None);
    let cpu = CPU::new();
    assert_eq!(cpu.read16(&mut bus, 0x8000), 0x1234);
    assert_eq!(cpu.read8(&mut bus, 0xC001), 0x12);
    let mut cpu = cpu;
    cpu.write8(&mut bus, 0x0002, 0x55);
    assert_eq!(bus.ram[2], 0x55);
}

#[test]
fn nmi_pushes_state_and_jumps_to_its_vector() {
    let mut bus = MemoryBus::new(nrom_cartridge(&[], &[]), None, None);
    let mut cpu = CPU::new();
    cpu.pc = 0x8123;
    cpu.jump_to_nmi_handler(&mut bus);
    assert_eq!(cpu.pc, 0x9000);
    assert_eq!(cpu.delay, 7);
    assert_eq!(cpu.sp, 0xFA);
    assert_eq!(bus.ram[0x1FD], 0x81);
    assert_eq!(bus.ram[0x1FC], 0x23);
    assert_eq!(bus.ram[0x1FB], 0x30);
    assert!(cpu.flag_set(CPUFlags::InterruptDisable));
}

#[test]
fn jump_to_startup_reads_the_reset_vector() {
    let mut bus = MemoryBus::new(nrom_cartridge(&[], &[]), None, None);
    let mut cpu = CPU::new();
    cpu.jump_to_startup(&mut bus);
    assert_eq!(cpu.pc, 0x8000);
    assert_eq!(cpu.delay, 7);
}
