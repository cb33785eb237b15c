//! End-to-end checks of the CPU flag behaviour, the timer, the sound
//! unit's counters, and the cartridge bank mapping.

use quarrygb::cpu::Cpu;
use quarrygb::timer::Timer;
use quarrygb::cartridge::{Cartridge, get_rtc_h, get_rtc_m, get_rtc_s};
use quarrygb::apu::Apu;
use quarrygb::apu::envelope::Envelope;
use quarrygb::apu::lengthcounter::LengthCounter;
use quarrygb::apu::noise::Noise;
use quarrygb::apu::wave::Wave;

#[test]
fn cpu_add_sets_all_flags() {
    let mut cpu = Cpu::new();
    cpu.a = 0x99;
    cpu.add_r8(0x67);
    assert_eq!(cpu.a, 0x00);
    // Z, H and C set; N clear.
    assert_eq!(cpu.f, 0xB0);
}

#[test]
fn cpu_add_no_flags() {
    let mut cpu = Cpu::new();
    cpu.a = 0x12;
    cpu.add_r8(0x34);
    assert_eq!(cpu.a, 0x46);
    assert_eq!(cpu.f, 0x00);
}

#[test]
fn cpu_sub_borrow() {
    let mut cpu = Cpu::new();
    cpu.a = 0x10;
    cpu.sub_r8(0x20);
    assert_eq!(cpu.a, 0xF0);
    // N and C set; Z and H clear.
    assert_eq!(cpu.f, 0x50);
}

#[test]
fn cpu_sub_equal_operands() {
    let mut cpu = Cpu::new();
    cpu.a = 0x42;
    cpu.sub_r8(0x42);
    assert_eq!(cpu.a, 0x00);
    assert_eq!(cpu.f, 0xC0);
}

#[test]
fn cpu_daa_after_bcd_add() {
    let mut cpu = Cpu::new();
    cpu.a = 0x19;
    cpu.add_r8(0x28);
    cpu.daa();
    assert_eq!(cpu.a, 0x47);
    assert_eq!(cpu.f & 0x10, 0x00);
}

#[test]
fn cpu_daa_with_decimal_carry() {
    let mut cpu = Cpu::new();
    cpu.a = 0x90;
    cpu.add_r8(0x20);
    cpu.daa();
    // 90 + 20 = 110 decimal: A holds 10, C reports the hundred.
    assert_eq!(cpu.a, 0x10);
    assert_eq!(cpu.f & 0x10, 0x10);
}

#[test]
fn cpu_rotate_round_trip() {
    let mut cpu = Cpu::new();
    cpu.a = 0x85;
    cpu.rlca();
    assert_eq!(cpu.a, 0x0B);
    assert_eq!(cpu.f, 0x10);
    cpu.rrca();
    assert_eq!(cpu.a, 0x85);
    assert_eq!(cpu.f, 0x10);
}

#[test]
fn cpu_logic_ops() {
    let mut cpu = Cpu::new();
    cpu.a = 0xF0;
    cpu.and_r8(0x0F);
    assert_eq!(cpu.a, 0x00);
    assert_eq!(cpu.f, 0xA0);
    cpu.a = 0xF0;
    cpu.or_r8(0x0F);
    assert_eq!(cpu.a, 0xFF);
    assert_eq!(cpu.f, 0x00);
    cpu.xor_r8(0xFF);
    assert_eq!(cpu.a, 0x00);
    assert_eq!(cpu.f, 0x80);
}

#[test]
fn cpu_bit_test() {
    let mut cpu = Cpu::new();
    cpu.bit_u3_r8(7, 0x80);
    assert_eq!(cpu.f & 0x80, 0x00);
    cpu.bit_u3_r8(6, 0x80);
    assert_eq!(cpu.f & 0x80, 0x80);
}

#[test]
fn cpu_register_pairs() {
    let mut cpu = Cpu::new();
    cpu.b = 0x12;
    cpu.c = 0x34;
    assert_eq!(cpu.bc(), 0x1234);
    let mut hi = 0xFFu8;
    let mut lo = 0xFFu8;
    Cpu::inc_r16(&mut hi, &mut lo);
    assert_eq!((hi, lo), (0x00, 0x00));
    Cpu::dec_r16(&mut hi, &mut lo);
    assert_eq!((hi, lo), (0xFF, 0xFF));
    assert_eq!(Cpu::as_word(0xAB, 0xCD), 0xABCD);
    assert_eq!(Cpu::as_bytes(0xABCD), (0xAB, 0xCD));
}

#[test]
fn cpu_post_boot_state() {
    let mut cpu = Cpu::new();
    cpu.after_bootup();
    assert_eq!(cpu.af(), 0x01B0);
    assert_eq!(cpu.bc(), 0x0013);
    assert_eq!(cpu.de(), 0x00D8);
    assert_eq!(cpu.hl(), 0x014D);
    assert_eq!(cpu.sp, 0xFFFE);
    assert_eq!(cpu.pc, 0x0100);
}

#[test]
fn timer_overflow_delayed_reload() {
    let mut t = Timer::new();
    t.write_tac(0x05);
    t.tima = 0xFF;
    t.tma = 0x00;
    let mut iff = 0u8;
    for _ in 0..16 {
        t.tick(&mut iff);
    }
    assert_eq!(t.tima, 0x00);
    assert_eq!(iff & 0x04, 0x04);
}

#[test]
fn timer_tac_round_trip() {
    let mut t = Timer::new();
    t.write_tac(0x05);
    assert_eq!(t.read_tac(), 0xF8 | 0x05);
    t.write_tac(0x02);
    assert_eq!(t.read_tac(), 0xF8 | 0x02);
}

#[test]
fn timer_div_is_high_byte() {
    let mut t = Timer::new();
    let mut iff = 0u8;
    for _ in 0..0x200 {
        t.tick(&mut iff);
    }
    assert_eq!(t.read_div(), 0x02);
}

#[test]
fn length_counter_expires_after_max_ticks() {
    let mut lc = LengthCounter::new(64);
    lc.trigger(true);
    assert_eq!(lc.counter, 64);
    lc.write_enable(0x40);
    let mut on = true;
    for _ in 0..64 {
        lc.tick(&mut on);
    }
    assert!(!on);
    assert_eq!(lc.counter, 0);
}

#[test]
fn apu_length_disables_channel() {
    let mut apu = Apu::new();
    apu.writeu8(0xFF26, 0x80);
    apu.writeu8(0xFF12, 0xF0);
    apu.writeu8(0xFF11, 0x3F);
    apu.writeu8(0xFF14, 0xC0);
    assert!(apu.ch1.enabled);
    assert_eq!(apu.ch1.length_counter.counter, 1);
    // A falling edge of divider bit 4 fires frame-sequencer step 0.
    apu.tick(0x10);
    apu.tick(0x00);
    assert!(!apu.ch1.enabled);
    assert_eq!(apu.ch1.output(), 0);
}

#[test]
fn apu_master_off_stays_silent() {
    let mut apu = Apu::new();
    // With the master off, trigger writes are dropped.
    apu.writeu8(0xFF12, 0xF0);
    apu.writeu8(0xFF14, 0x80);
    assert!(!apu.ch1.enabled);
    assert!(!apu.ch1.dac_active());
    assert_eq!(apu.ch1.output(), 0);
    assert_eq!(apu.ch2.output(), 0);
    assert_eq!(apu.ch3.output(), 0);
    assert_eq!(apu.ch4.output(), 0);
    for _ in 0..100 {
        apu.tick(0x10);
        apu.tick(0x00);
        assert_eq!(apu.ch1.output(), 0);
        assert_eq!(apu.ch4.output(), 0);
    }
}

#[test]
fn apu_register_masks_on_readback() {
    let mut apu = Apu::new();
    apu.writeu8(0xFF26, 0x80);
    apu.writeu8(0xFF10, 0x7F);
    assert_eq!(apu.readu8(0xFF10), 0xFF);
    apu.writeu8(0xFF11, 0xC0);
    assert_eq!(apu.readu8(0xFF11), 0xFF);
    apu.writeu8(0xFF13, 0x12);
    assert_eq!(apu.readu8(0xFF13), 0xFF);
    apu.writeu8(0xFF24, 0x77);
    assert_eq!(apu.readu8(0xFF24), 0x77);
    apu.writeu8(0xFF25, 0xA5);
    assert_eq!(apu.readu8(0xFF25), 0xA5);
    assert_eq!(apu.readu8(0xFF26) & 0xF0, 0xF0);
}

#[test]
fn noise_lfsr_full_period() {
    let mut n = Noise::new();
    n.trigger(true);
    assert_eq!(n.lsfr, 0x7FFF);
    let mut count = 0u32;
    loop {
        n.step_lsfr();
        count += 1;
        if n.lsfr == 0x7FFF {
            break;
        }
        assert!(count < 40000);
    }
    assert_eq!(count, 32767);
}

#[test]
fn envelope_walks_down() {
    let mut env = Envelope::new();
    env.write_envelope(0xF3);
    env.trigger();
    assert_eq!(env.current_vol, 15);
    env.tick();
    env.tick();
    env.tick();
    assert_eq!(env.current_vol, 14);
}

#[test]
fn wave_ram_round_trip() {
    let mut w = Wave::new();
    w.write_wave_ram(5, 0xAB);
    assert_eq!(w.read_wave_ram(5), 0xAB);
    assert_eq!(w.output(), 0);
}

fn make_rom(size_code: u8, mbc_code: u8) -> Vec<u8> {
    let size = 0x8000usize << size_code;
    let mut rom = vec![0u8; size];
    for (i, b) in rom.iter_mut().enumerate() {
        *b = (i % 251) as u8;
    }
    rom[0x0147] = mbc_code;
    rom[0x0148] = size_code;
    rom[0x0149] = 0x00;
    rom
}

#[test]
fn cartridge_rom_round_trip() {
    let rom = make_rom(0, 0x00);
    let cart = Cartridge::new(rom.clone(), vec![0u8; 256]);
    for addr in 0..0x8000u32 {
        assert_eq!(cart.readu8(addr as u16), rom[addr as usize]);
    }
}

#[test]
fn mbc1_bank_zero_write_bumps_to_one() {
    // A 1 MiB image: bank number 0x20 masks to zero, which selects
    // bank 1, so 0x4000 reads the second 16 KiB bank, not offset 0x80000.
    let rom = make_rom(5, 0x01);
    let mut cart = Cartridge::new(rom.clone(), vec![0u8; 256]);
    cart.writeu8(0x2000, 0x20);
    assert_eq!(cart.readu8(0x4000), rom[0x4000]);
    cart.writeu8(0x2000, 0x03);
    assert_eq!(cart.readu8(0x4000), rom[3 * 0x4000]);
}

#[test]
fn mbc1_ram_enable_gate() {
    let mut rom = make_rom(0, 0x03);
    rom[0x0149] = 0x02;
    let mut cart = Cartridge::new(rom, vec![0u8; 256]);
    cart.writeu8(0xA000, 0x55);
    assert_eq!(cart.readu8(0xA000), 0xFF);
    cart.writeu8(0x0000, 0x0A);
    cart.writeu8(0xA000, 0x55);
    assert_eq!(cart.readu8(0xA000), 0x55);
}

#[test]
fn cartridge_boot_rom_shadow() {
    let rom = make_rom(0, 0x00);
    let mut boot = vec![0u8; 256];
    boot[0x12] = 0x77;
    let cart = Cartridge::new(rom, boot);
    assert_eq!(cart.read_bootrom(0x0012), 0x77);
}

#[test]
fn rtc_fields_from_seconds() {
    let secs = 3661u64;
    assert_eq!(get_rtc_s(secs), 1);
    assert_eq!(get_rtc_m(secs), 1);
    assert_eq!(get_rtc_h(secs), 1);
}

#[test]
fn noise_register_round_trip() {
    let mut n = Noise::new();
    n.write_nr43(0x25);
    assert_eq!(n.read_nr43(), 0x25);
}

#[test]
fn apu_length_expiry_disables_channel() {
    let mut apu = Apu::new();
    apu.writeu8(0xFF26, 0x80);
    apu.writeu8(0xFF12, 0xF0);
    apu.writeu8(0xFF11, 0x3F);
    apu.writeu8(0xFF14, 0xC0);
    assert_eq!(apu.read_nr52() & 0x01, 0x01);
    // One falling edge of divider bit 4 fires sequencer step 0: a length
    // tick, which runs the single remaining count out.
    apu.tick(0x10);
    apu.tick(0x00);
    assert!(!apu.ch1.enabled);
    assert_eq!(apu.read_nr52() & 0x01, 0x00);
}

#[test]
fn apu_power_off_clears_registers() {
    let mut apu = Apu::new();
    apu.writeu8(0xFF26, 0x80);
    apu.writeu8(0xFF24, 0x77);
    apu.writeu8(0xFF25, 0xFF);
    apu.writeu8(0xFF10, 0x5E);
    assert_eq!(apu.readu8(0xFF24), 0x77);
    apu.writeu8(0xFF26, 0x00);
    assert_eq!(apu.readu8(0xFF24), 0x00);
    assert_eq!(apu.readu8(0xFF25), 0x00);
    // 0xFF10's unused top bit reads as one over a zeroed register.
    assert_eq!(apu.readu8(0xFF10), 0x80);
    // Writes while powered off are dropped.
    apu.writeu8(0xFF24, 0x33);
    assert_eq!(apu.readu8(0xFF24), 0x00);
}
