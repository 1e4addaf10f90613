use nes_emu::apu::dmc::APUDMC;
use nes_emu::apu::noise::APUNoise;
use nes_emu::apu::{APU, LENGTH_TABLE};
use nes_emu::cartridge::Cartridge;

fn apu_cartridge() -> Cartridge {
    let mut d = vec![0u8; 16 + 0x4000 + 0x2000];
    d[0] = 0x4E;
    d[1] = 0x45;
    d[2] = 0x53;
    d[3] = 0x1A;
    d[4] = 1;
    d[5] = 1;
    Cartridge::load_ines("apu.nes".to_string(), &d, None).unwrap()
}

#[test]
fn apu_power_up_state() {
    let apu = APU::new();
    assert_eq!(apu.status, 0b11111);
    // The triangle outputs its sequence position even while silent.
    assert_eq!(apu.levels(), (0, 0, 15, 0, 0));
    assert!(!apu.signaling_irq());
    assert_eq!(apu.noise.shift, 1);
}

#[test]
fn length_counter_loads_from_the_table() {
    let mut apu = APU::new();
    apu.write(0x4003, 0x08);
    assert_eq!(apu.pulse_1.length_counter, LENGTH_TABLE[1]);
    assert_eq!(apu.pulse_1.length_counter, 254);
    apu.write(0x400B, 0xF8);
    assert_eq!(apu.triangle.length_counter, 30);
    assert_eq!(apu.read(0x4015), 0b0000_0101);
}

#[test]
fn disabling_a_channel_clears_its_length() {
    let mut apu = APU::new();
    apu.write(0x4003, 0x08);
    apu.write(0x400F, 0x08);
    apu.write(0x4015, 0x00);
    assert_eq!(apu.pulse_1.length_counter, 0);
    assert_eq!(apu.noise.length_counter, 0);
    assert_eq!(apu.read(0x4015), 0);
    // A disabled channel ignores length loads.
    apu.write(0x4003, 0x08);
    assert_eq!(apu.pulse_1.length_counter, 0);
}

#[test]
fn half_frames_decrement_length_counters() {
    let mut cart = apu_cartridge();
    let mut apu = APU::new();
    apu.write(0x4003, 0x08);
    for _ in 0..7458 {
        apu.tick(&mut cart);
    }
    assert_eq!(apu.pulse_1.length_counter, 253);
}

#[test]
fn four_step_sequence_raises_the_frame_interrupt() {
    let mut cart = apu_cartridge();
    let mut apu = APU::new();
    apu.write(0x4017, 0x00);
    for _ in 0..14915 {
        apu.tick(&mut cart);
    }
    assert!(!apu.signaling_irq());
    apu.tick(&mut cart);
    assert!(apu.signaling_irq());
    assert_eq!(apu.read(0x4015) & 0x40, 0x40);
    assert!(!apu.signaling_irq());
    assert_eq!(apu.read(0x4015) & 0x40, 0);
}

#[test]
fn interrupt_inhibit_keeps_the_frame_interrupt_off() {
    let mut cart = apu_cartridge();
    let mut apu = APU::new();
    apu.write(0x4017, 0x40);
    for _ in 0..20000 {
        apu.tick(&mut cart);
    }
    assert!(!apu.signaling_irq());
}

#[test]
fn disable_irq_until_next_clears_the_flag() {
    let mut apu = APU::new();
    apu.irq_pending = true;
    apu.disable_irq_until_next();
    assert!(!apu.signaling_irq());
}

#[test]
fn sample_channel_registers() {
    let mut apu = APU::new();
    apu.write(0x4011, 0xFF);
    assert_eq!(apu.dmc.output_level, 0x7F);
    assert_eq!(apu.levels().4, 0x7F);
    apu.write(0x4012, 0x01);
    assert_eq!(apu.dmc.sample_address, 0xC040);
    apu.write(0x4013, 0x01);
    assert_eq!(apu.dmc.sample_length, 17);
    apu.write(0x4015, 0x00);
    assert_eq!(apu.levels().4, 0);
}

#[test]
fn noise_shift_register_never_empties() {
    let mut n = APUNoise::new();
    assert_eq!(n.shift, 1);
    n.write_period(0x80);
    for _ in 0..5000 {
        n.tick();
        assert_ne!(n.shift, 0);
    }
}

#[test]
fn dmc_output_unit_steps_by_two() {
    let mut cart = apu_cartridge();
    let mut d = APUDMC::new();
    d.output_level = 10;
    d.output_shifter = 0b0000_0101;
    d.timer_reset = 3;
    d.tick(&mut cart);
    assert_eq!(d.output_level, 12);
    assert_eq!(d.timer, 3);
    assert_eq!(d.bits_remaining, 7);
    // The timer counts down before the next step.
    d.tick(&mut cart);
    assert_eq!(d.timer, 2);
    assert_eq!(d.output_level, 12);
    d.tick(&mut cart);
    d.tick(&mut cart);
    d.tick(&mut cart);
    // Bit 0 of the shifter is now 0: down by two.
    assert_eq!(d.output_level, 10);
    d.output_level = 126;
    d.output_shifter = 1;
    d.timer = 0;
    d.tick(&mut cart);
    assert_eq!(d.output_level, 126);
}
