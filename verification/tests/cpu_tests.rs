use gameboy_emulator::bus::Bus;
use gameboy_emulator::cpu::Cpu;
use gameboy_emulator::machine::{Cond, CpuError, Flag, Mode, Reg16, Reg8};
use gameboy_emulator::mbc::Mbc;

/// A core over an all-zero cartridge image.
fn fresh_cpu() -> Cpu {
    let data = vec![0u8; 0x8000];
    Cpu::new(Bus::new(Mbc::new(&data)))
}

#[test]
fn power_on_state() {
    let cpu = fresh_cpu();
    assert_eq!(cpu.read_r8(Reg8::A), 0);
    assert_eq!(cpu.read_r16(Reg16::Bc), 0);
    assert_eq!(cpu.read_r16(Reg16::Sp), 0xFFFE);
    assert_eq!(cpu.pc(), 0x0100);
    assert_eq!(cpu.mode(), Mode::Running);
    assert_eq!(cpu.flags().as_byte(), 0x00);
}

#[test]
fn ld_a_b_then_ld_a_d8() {
    let mut cpu = fresh_cpu();
    cpu.write_r16(Reg16::Bc, 0x0100);
    assert_eq!(cpu.execute(0x78), Ok(4)); // LD A,B
    assert_eq!(cpu.read_r8(Reg8::A), 0x01);
    assert_eq!(cpu.pc(), 0x0101);
    cpu.write_m8(0x0102, 0x00); // immediate byte for LD A,d8
    assert_eq!(cpu.execute(0x3e), Ok(8));
    assert_eq!(cpu.read_r8(Reg8::A), 0x00);
    assert_eq!(cpu.pc(), 0x0103);
}

#[test]
fn inc_bc_then_inc_b() {
    let mut cpu = fresh_cpu();
    cpu.write_r16(Reg16::Bc, 0x0100);
    cpu.set_flags(Some(true), Some(true), Some(true), Some(true));
    assert_eq!(cpu.execute(0x03), Ok(8)); // INC BC
    assert_eq!(cpu.read_r16(Reg16::Bc), 0x0101);
    assert_eq!(
        cpu.flags(),
        Flag { z: true, n: true, h: true, c: true }
    );
    assert_eq!(cpu.execute(0x04), Ok(4)); // INC B
    assert_eq!(cpu.read_r16(Reg16::Bc), 0x0201);
    assert_eq!(
        cpu.flags(),
        Flag { z: false, n: false, h: false, c: true }
    );
}

#[test]
fn inc_sequence_matches_register_pairs() {
    let mut cpu = fresh_cpu();
    cpu.write_r16(Reg16::Bc, 0x0100);
    let prev = cpu.read_r16(Reg16::Bc);
    cpu.execute(0x03).unwrap(); // INC BC
    assert_eq!(cpu.read_r16(Reg16::Bc), prev + 0x0001);
    let prev = cpu.read_r16(Reg16::Bc);
    cpu.execute(0x04).unwrap(); // INC B
    assert_eq!(cpu.read_r16(Reg16::Bc), prev + 0x0100);
    let prev = cpu.read_r16(Reg16::Bc);
    cpu.execute(0x0c).unwrap(); // INC C
    assert_eq!(cpu.read_r16(Reg16::Bc), prev + 0x0001);
    let prev = cpu.read_r16(Reg16::De);
    cpu.execute(0x13).unwrap(); // INC DE
    assert_eq!(cpu.read_r16(Reg16::De), prev + 0x0001);
}

#[test]
fn illegal_opcode_mutates_nothing() {
    let mut cpu = fresh_cpu();
    cpu.write_r16(Reg16::Bc, 0x1234);
    cpu.set_flags(Some(true), None, None, Some(true));
    let pc = cpu.pc();
    let flags = cpu.flags();
    assert_eq!(
        cpu.execute(0xFD),
        Err(CpuError::IllegalOpcode { addr: 0x0100, opcode: 0xFD })
    );
    assert_eq!(cpu.pc(), pc);
    assert_eq!(cpu.flags(), flags);
    assert_eq!(cpu.read_r16(Reg16::Bc), 0x1234);
    assert_eq!(cpu.read_r16(Reg16::Sp), 0xFFFE);
    assert_eq!(cpu.read_r8(Reg8::A), 0);
}

#[test]
fn inc_memory_through_hl() {
    let mut cpu = fresh_cpu();
    cpu.write_r16(Reg16::Hl, 0x1000);
    cpu.write_m8(0x1000, 0x0F);
    assert_eq!(cpu.execute(0x34), Ok(12)); // INC (HL)
    assert_eq!(cpu.read_m8(0x1000), 0x10);
    let f = cpu.flags();
    assert!(f.h);
    assert!(!f.z);
    assert!(!f.n);
}

#[test]
fn inc_r8_wraps_and_sets_zero() {
    let mut cpu = fresh_cpu();
    cpu.write_r8(Reg8::A, 0xFF);
    cpu.execute(0x3c).unwrap(); // INC A
    assert_eq!(cpu.read_r8(Reg8::A), 0x00);
    let f = cpu.flags();
    assert!(f.z);
    assert!(!f.n);
    assert!(f.h);
    assert!(!f.c);
}

#[test]
fn dec_r8_wraps_and_sets_half_borrow() {
    let mut cpu = fresh_cpu();
    cpu.execute(0x3d).unwrap(); // DEC A from 0
    assert_eq!(cpu.read_r8(Reg8::A), 0xFF);
    let f = cpu.flags();
    assert!(!f.z);
    assert!(f.n);
    assert!(f.h);
}

#[test]
fn dec_r8_to_zero_sets_zero_flag() {
    let mut cpu = fresh_cpu();
    cpu.write_r8(Reg8::B, 0x01);
    cpu.execute(0x05).unwrap(); // DEC B
    assert_eq!(cpu.read_r8(Reg8::B), 0x00);
    let f = cpu.flags();
    assert!(f.z);
    assert!(f.n);
    assert!(!f.h);
}

#[test]
fn sixteen_bit_inc_dec_wrap_without_touching_flags() {
    let mut cpu = fresh_cpu();
    cpu.set_flags(Some(true), Some(false), Some(true), Some(false));
    cpu.write_r16(Reg16::Sp, 0xFFFF);
    cpu.execute(0x33).unwrap(); // INC SP
    assert_eq!(cpu.read_r16(Reg16::Sp), 0x0000);
    cpu.execute(0x3b).unwrap(); // DEC SP
    assert_eq!(cpu.read_r16(Reg16::Sp), 0xFFFF);
    assert_eq!(
        cpu.flags(),
        Flag { z: true, n: false, h: true, c: false }
    );
}

#[test]
fn push_then_pop_restores_value_and_stack_pointer() {
    let mut cpu = fresh_cpu();
    cpu.write_r16(Reg16::Bc, 0xABCD);
    assert_eq!(cpu.execute(0xc5), Ok(16)); // PUSH BC
    assert_eq!(cpu.read_r16(Reg16::Sp), 0xFFFC);
    assert_eq!(cpu.read_m8(0xFFFD), 0xAB);
    assert_eq!(cpu.read_m8(0xFFFC), 0xCD);
    cpu.write_r16(Reg16::Bc, 0x0000);
    assert_eq!(cpu.execute(0xc1), Ok(12)); // POP BC
    assert_eq!(cpu.read_r16(Reg16::Bc), 0xABCD);
    assert_eq!(cpu.read_r16(Reg16::Sp), 0xFFFE);
}

#[test]
fn ld_d16_loads_little_endian_immediate() {
    let mut cpu = fresh_cpu();
    cpu.write_m8(0x0101, 0x34);
    cpu.write_m8(0x0102, 0x12);
    assert_eq!(cpu.execute(0x21), Ok(12)); // LD HL,d16
    assert_eq!(cpu.read_r16(Reg16::Hl), 0x1234);
    assert_eq!(cpu.pc(), 0x0103);
}

#[test]
fn ld_sp_into_a16_stores_little_endian() {
    let mut cpu = fresh_cpu();
    cpu.write_r16(Reg16::Sp, 0x1234);
    cpu.write_m8(0x0101, 0x00);
    cpu.write_m8(0x0102, 0xC0);
    assert_eq!(cpu.execute(0x08), Ok(20)); // LD (a16),SP
    assert_eq!(cpu.read_m8(0xC000), 0x34);
    assert_eq!(cpu.read_m8(0xC001), 0x12);
    assert_eq!(cpu.pc(), 0x0103);
}

#[test]
fn ldh_round_trip_through_high_page() {
    let mut cpu = fresh_cpu();
    cpu.write_r8(Reg8::A, 0x5A);
    cpu.write_m8(0x0101, 0x80);
    assert_eq!(cpu.execute(0xe0), Ok(12)); // LDH (a8),A
    assert_eq!(cpu.read_m8(0xFF80), 0x5A);
    cpu.write_r8(Reg8::A, 0x00);
    cpu.write_m8(cpu.pc() + 1, 0x80);
    assert_eq!(cpu.execute(0xf0), Ok(12)); // LDH A,(a8)
    assert_eq!(cpu.read_r8(Reg8::A), 0x5A);
}

#[test]
fn ld_store_through_bc_advances_pc() {
    let mut cpu = fresh_cpu();
    cpu.write_r8(Reg8::A, 0x42);
    cpu.write_r16(Reg16::Bc, 0x2000);
    assert_eq!(cpu.execute(0x02), Ok(8)); // LD (BC),A
    assert_eq!(cpu.read_m8(0x2000), 0x42);
    assert_eq!(cpu.pc(), 0x0101);
}

#[test]
fn load_block_decodes_by_bit_pattern() {
    let mut cpu = fresh_cpu();
    cpu.write_r8(Reg8::C, 0x77);
    assert_eq!(cpu.execute(0x41), Ok(4)); // LD B,C
    assert_eq!(cpu.read_r8(Reg8::B), 0x77);
    cpu.write_r16(Reg16::Hl, 0x3000);
    cpu.write_r8(Reg8::B, 0x99);
    assert_eq!(cpu.execute(0x70), Ok(8)); // LD (HL),B
    assert_eq!(cpu.read_m8(0x3000), 0x99);
    // LD r,(HL) is not part of this core: an explicit illegal fetch.
    assert_eq!(
        cpu.execute(0x46),
        Err(CpuError::IllegalOpcode { addr: cpu.pc(), opcode: 0x46 })
    );
}

#[test]
fn ld_register_to_itself_only_advances_pc() {
    let mut cpu = fresh_cpu();
    cpu.write_r8(Reg8::D, 0x3C);
    let pc = cpu.pc();
    assert_eq!(cpu.execute(0x52), Ok(4)); // LD D,D
    assert_eq!(cpu.read_r8(Reg8::D), 0x3C);
    assert_eq!(cpu.read_r8(Reg8::A), 0x00);
    assert_eq!(cpu.pc(), pc + 1);
}

#[test]
fn halt_suspends_until_interrupt_pending() {
    let mut cpu = fresh_cpu();
    assert_eq!(cpu.execute(0x76), Ok(4)); // HALT
    assert_eq!(cpu.mode(), Mode::Halted);
    let pc = cpu.pc();
    assert_eq!(cpu.step(false), Ok(4));
    assert_eq!(cpu.mode(), Mode::Halted);
    assert_eq!(cpu.pc(), pc);
    assert_eq!(cpu.step(true), Ok(4));
    assert_eq!(cpu.mode(), Mode::Running);
    assert_eq!(cpu.pc(), pc);
}

#[test]
fn stop_is_a_two_byte_suspension() {
    let mut cpu = fresh_cpu();
    assert_eq!(cpu.execute(0x10), Ok(4)); // STOP
    assert_eq!(cpu.mode(), Mode::Stopped);
    assert_eq!(cpu.pc(), 0x0102);
}

#[test]
fn step_fetches_at_pc() {
    let mut cpu = fresh_cpu();
    cpu.write_m8(0x0100, 0x3C); // INC A
    assert_eq!(cpu.step(false), Ok(4));
    assert_eq!(cpu.read_r8(Reg8::A), 0x01);
    assert_eq!(cpu.pc(), 0x0101);
}

#[test]
fn flag_byte_packs_high_nibble() {
    let f = Flag { z: true, n: false, h: true, c: false };
    assert_eq!(f.as_byte(), 0xA0);
    let g = Flag { z: false, n: true, h: false, c: true };
    assert_eq!(g.as_byte(), 0x50);
    let all = Flag { z: true, n: true, h: true, c: true };
    assert_eq!(all.as_byte(), 0xF0);
}

#[test]
fn branch_conditions_follow_z_and_c() {
    let f = Flag { z: true, n: false, h: false, c: false };
    assert!(f.test(Cond::Z));
    assert!(!f.test(Cond::Nz));
    assert!(!f.test(Cond::C));
    assert!(f.test(Cond::Nc));
}

#[test]
fn half_carry_boundaries() {
    assert!(Cpu::is_half_carry_add(0x0F, 0x01));
    assert!(!Cpu::is_half_carry_add(0x0E, 0x01));
    assert!(Cpu::is_half_carry_add(0xFF, 0x01));
    assert!(Cpu::is_half_carry_sub(0x10, 0x01));
    assert!(!Cpu::is_half_carry_sub(0x11, 0x01));
    assert!(!Cpu::is_half_carry_sub(0x00, 0x00));
}

#[test]
fn set_pc_overrides_fetch_address() {
    let mut cpu = fresh_cpu();
    cpu.set_pc(0x4000);
    cpu.write_m8(0x4000, 0x04); // INC B
    assert_eq!(cpu.step(false), Ok(4));
    assert_eq!(cpu.read_r8(Reg8::B), 0x01);
    assert_eq!(cpu.pc(), 0x4001);
}
