use vstd::prelude::*;

use crate::bus::Bus;
use crate::machine::{
    cond_holds, dec8, dec_r8_spec, dec_r16_spec, flag_bits, halt_spec, hc_add, hc_sub,
    inc8, inc_r8_spec, inc_r16_spec, inc_r16a_spec, init_state, ld_d8_into_r8_spec,
    ld_d16_into_r16_spec, ld_r8_into_r8_spec, ld_r8_into_r16a_spec, ld_sp_into_a16_spec,
    ldh_a8_into_r8_spec, ldh_r8_into_a8_spec, nop_spec, pop_spec, push_spec, reg8_of_bits,
    step_spec, stop_spec, wadd16, wsub16, Cond, CpuError, Flag, Mode, Reg8, Reg16, State,
};

verus! {

impl Flag {
    /// The flags packed into a status byte: bits 7..4 are Z, N, H, C,
    /// the low nibble always zero.
    pub fn as_byte(&self) -> (r: u8)
        ensures
            r == flag_bits(*self),
    {
        (if self.z { 0x80u8 } else { 0u8 }) | (if self.n { 0x40u8 } else { 0u8 })
            | (if self.h { 0x20u8 } else { 0u8 }) | (if self.c { 0x10u8 } else { 0u8 })
    }

    /// Evaluates one of the four hardware branch conditions.
    pub fn test(&self, cond: Cond) -> (r: bool)
        ensures
            r == cond_holds(*self, cond),
    {
        match cond {
            Cond::Z => self.z,
            Cond::Nz => !self.z,
            Cond::C => self.c,
            Cond::Nc => !self.c,
        }
    }
}

/// 16-bit add wrapping at 0x10000.
fn wrapping_add16(x: u16, k: u16) -> (r: u16)
    ensures
        r == wadd16(x, k),
{
    let s: u32 = x as u32 + k as u32;
    (s % 0x10000) as u16
}

/// 16-bit subtract wrapping below zero.
fn wrapping_sub16(x: u16, k: u16) -> (r: u16)
    ensures
        r == wsub16(x, k),
{
    if x >= k {
        x - k
    } else {
        (x as u32 + 0x10000 - k as u32) as u16
    }
}

/// The instruction-execution core: register file, flag register, run
/// mode, and the bus it drives.
///
/// Every method's contract is stated against the abstract `State` view;
/// `execute` implements `step_spec` exactly, one instruction at a time.
pub struct Cpu {
    a: u8,
    b: u8,
    c: u8,
    d: u8,
    e: u8,
    h: u8,
    l: u8,
    f: Flag,
    sp: u16,
    pc: u16,
    mode: Mode,
    bus: Bus,
}

impl View for Cpu {
    type V = State;

    closed spec fn view(&self) -> State {
        State {
            a: self.a,
            b: self.b,
            c: self.c,
            d: self.d,
            e: self.e,
            h: self.h,
            l: self.l,
            f: self.f,
            sp: self.sp,
            pc: self.pc,
            mode: self.mode,
            mem: self.bus@,
        }
    }
}

/// Decodes the three-bit operand field of the 0x40..0x7F load block:
/// 6 selects memory through HL and yields `None`.
fn reg8_from_bits(bits: u8) -> (r: Option<Reg8>)
    ensures
        r == reg8_of_bits(bits),
{
    if bits == 0 {
        Some(Reg8::B)
    } else if bits == 1 {
        Some(Reg8::C)
    } else if bits == 2 {
        Some(Reg8::D)
    } else if bits == 3 {
        Some(Reg8::E)
    } else if bits == 4 {
        Some(Reg8::H)
    } else if bits == 5 {
        Some(Reg8::L)
    } else if bits == 7 {
        Some(Reg8::A)
    } else {
        None
    }
}

impl Cpu {
    /// The bus behind the core serves the full 16-bit address space.
    pub closed spec fn wf(self) -> bool {
        self.bus.wf()
    }

    /// Power-on state over the given bus: registers and flags clear,
    /// SP = 0xFFFE, PC = 0x0100, running.
    pub fn new(bus: Bus) -> (r: Cpu)
        requires
            bus.wf(),
        ensures
            r.wf(),
            r@ == init_state(bus@),
            r@.wf(),
    {
        let r = Cpu {
            a: 0,
            b: 0,
            c: 0,
            d: 0,
            e: 0,
            h: 0,
            l: 0,
            f: Flag { z: false, n: false, h: false, c: false },
            sp: 0xFFFE,
            pc: 0x0100,
            mode: Mode::Running,
            bus,
        };
        proof {
            assert(r@ =~= init_state(r.bus@));
        }
        r
    }

    /// Reads one 8-bit register.
    pub fn read_r8(&self, reg: Reg8) -> (r: u8)
        ensures
            r == self@.r8(reg),
    {
        match reg {
            Reg8::A => self.a,
            Reg8::B => self.b,
            Reg8::C => self.c,
            Reg8::D => self.d,
            Reg8::E => self.e,
            Reg8::H => self.h,
            Reg8::L => self.l,
        }
    }

    /// Overwrites one 8-bit register; nothing else changes.
    pub fn write_r8(&mut self, reg: Reg8, data: u8)
        requires
            old(self).wf(),
        ensures
            final(self).wf(),
            final(self)@ == old(self)@.with_r8(reg, data),
    {
        match reg {
            Reg8::A => {
                self.a = data;
            },
            Reg8::B => {
                self.b = data;
            },
            Reg8::C => {
                self.c = data;
            },
            Reg8::D => {
                self.d = data;
            },
            Reg8::E => {
                self.e = data;
            },
            Reg8::H => {
                self.h = data;
            },
            Reg8::L => {
                self.l = data;
            },
        }
        proof {
            assert(self@ =~= old(self)@.with_r8(reg, data));
        }
    }

    /// Reads a pair composed from its halves, high byte first, or SP.
    pub fn read_r16(&self, reg: Reg16) -> (r: u16)
        ensures
            r == self@.r16(reg),
    {
        match reg {
            Reg16::Bc => (self.b as u16) * 0x100 + (self.c as u16),
            Reg16::De => (self.d as u16) * 0x100 + (self.e as u16),
            Reg16::Hl => (self.h as u16) * 0x100 + (self.l as u16),
            Reg16::Sp => self.sp,
        }
    }

    /// Overwrites a pair through both halves atomically, or SP.
    pub fn write_r16(&mut self, reg: Reg16, data: u16)
        requires
            old(self).wf(),
        ensures
            final(self).wf(),
            final(self)@ == old(self)@.with_r16(reg, data),
    {
        match reg {
            Reg16::Bc => {
                self.b = (data / 0x100) as u8;
                self.c = (data % 0x100) as u8;
            },
            Reg16::De => {
                self.d = (data / 0x100) as u8;
                self.e = (data % 0x100) as u8;
            },
            Reg16::Hl => {
                self.h = (data / 0x100) as u8;
                self.l = (data % 0x100) as u8;
            },
            Reg16::Sp => {
                self.sp = data;
            },
        }
        proof {
            assert(self@ =~= old(self)@.with_r16(reg, data));
        }
    }

    /// The program counter.
    pub fn pc(&self) -> (r: u16)
        ensures
            r == self@.pc,
    {
        self.pc
    }

    /// Overrides the program counter, for seeding a test fixture.
    pub fn set_pc(&mut self, v: u16)
        requires
            old(self).wf(),
        ensures
            final(self).wf(),
            final(self)@ == (State { pc: v, ..old(self)@ }),
    {
        self.pc = v;
        proof {
            assert(self@ =~= (State { pc: v, ..old(self)@ }));
        }
    }

    /// The flag register.
    pub fn flags(&self) -> (r: Flag)
        ensures
            r == self@.f,
    {
        self.f
    }

    /// The run mode of the execution loop.
    pub fn mode(&self) -> (r: Mode)
        ensures
            r == self@.mode,
    {
        self.mode
    }

    /// Applies the optional flag overrides: `None` leaves a flag
    /// untouched, never resets it.
    pub fn set_flags(&mut self, z: Option<bool>, n: Option<bool>, h: Option<bool>, c: Option<bool>)
        requires
            old(self).wf(),
        ensures
            final(self).wf(),
            final(self)@ == old(self)@.with_flags(z, n, h, c),
    {
        if let Some(v) = z {
            self.f.z = v;
        }
        if let Some(v) = n {
            self.f.n = v;
        }
        if let Some(v) = h {
            self.f.h = v;
        }
        if let Some(v) = c {
            self.f.c = v;
        }
        proof {
            assert(self@ =~= old(self)@.with_flags(z, n, h, c));
        }
    }

    /// Stores one byte on the bus.
    pub fn write_m8(&mut self, addr: u16, data: u8)
        requires
            old(self).wf(),
        ensures
            final(self).wf(),
            final(self)@ == old(self)@.write8(addr, data),
    {
        self.bus.write(addr, data);
        proof {
            assert(self@ =~= old(self)@.write8(addr, data));
        }
    }

    /// Loads one byte from the bus.
    pub fn read_m8(&self, addr: u16) -> (r: u8)
        requires
            self.wf(),
        ensures
            r == self@.read8(addr),
    {
        self.bus.read(addr)
    }

    /// Little-endian 16-bit load: low byte at `addr`, high at `addr + 1`.
    pub fn read_m16(&self, addr: u16) -> (r: u16)
        requires
            self.wf(),
        ensures
            r == self@.read16(addr),
    {
        let lsb = self.read_m8(addr);
        let msb = self.read_m8(wrapping_add16(addr, 1));
        (msb as u16) * 0x100 + (lsb as u16)
    }

    /// Half-carry of an 8-bit add: the low-nibble sum exceeds 0xF.
    pub fn is_half_carry_add(left: u8, right: u8) -> (r: bool)
        ensures
            r == hc_add(left, right),
    {
        proof {
            assert(left & 0x0F <= 0x0F && right & 0x0F <= 0x0F) by (bit_vector);
        }
        (left & 0x0F) + (right & 0x0F) > 0x0F
    }

    /// Half-borrow of an 8-bit subtract: the minuend's low nibble is
    /// smaller than the subtrahend's.
    pub fn is_half_carry_sub(left: u8, right: u8) -> (r: bool)
        ensures
            r == hc_sub(left, right),
    {
        (left & 0x0F) < (right & 0x0F)
    }

    /// NOP: advances PC by one.
    pub fn nop(&mut self)
        requires
            old(self).wf(),
        ensures
            final(self).wf(),
            final(self)@ == nop_spec(old(self)@),
    {
        self.pc = wrapping_add16(self.pc, 1);
        proof {
            assert(self@ =~= nop_spec(old(self)@));
        }
    }

    /// LD dest, src between 8-bit registers.
    pub fn ld_r8_into_r8(&mut self, src: Reg8, dest: Reg8)
        requires
            old(self).wf(),
        ensures
            final(self).wf(),
            final(self)@ == ld_r8_into_r8_spec(old(self)@, src, dest),
    {
        let data = self.read_r8(src);
        self.write_r8(dest, data);
        self.pc = wrapping_add16(self.pc, 1);
        proof {
            assert(self@ =~= ld_r8_into_r8_spec(old(self)@, src, dest));
        }
    }

    /// LD dest, d8: the immediate byte follows the opcode.
    pub fn ld_d8_into_r8(&mut self, dest: Reg8)
        requires
            old(self).wf(),
        ensures
            final(self).wf(),
            final(self)@ == ld_d8_into_r8_spec(old(self)@, dest),
    {
        let imm_addr = wrapping_add16(self.pc, 1);
        let data = self.read_m8(imm_addr);
        self.write_r8(dest, data);
        self.pc = wrapping_add16(self.pc, 2);
        proof {
            assert(self@ =~= ld_d8_into_r8_spec(old(self)@, dest));
        }
    }

    /// LD (dest), src: stores a register at the address held by a pair.
    pub fn ld_r8_into_r16a(&mut self, src: Reg8, dest: Reg16)
        requires
            old(self).wf(),
        ensures
            final(self).wf(),
            final(self)@ == ld_r8_into_r16a_spec(old(self)@, src, dest),
    {
        let addr = self.read_r16(dest);
        let data = self.read_r8(src);
        self.write_m8(addr, data);
        self.pc = wrapping_add16(self.pc, 1);
        proof {
            assert(self@ =~= ld_r8_into_r16a_spec(old(self)@, src, dest));
        }
    }

    /// LDH (a8), A: stores A at 0xFF00 plus the immediate offset.
    pub fn ldh_r8_into_a8(&mut self)
        requires
            old(self).wf(),
        ensures
            final(self).wf(),
            final(self)@ == ldh_r8_into_a8_spec(old(self)@),
    {
        let offset = self.read_m8(wrapping_add16(self.pc, 1));
        let data = self.a;
        self.write_m8(0xFF00 + offset as u16, data);
        self.pc = wrapping_add16(self.pc, 2);
        proof {
            assert(self@ =~= ldh_r8_into_a8_spec(old(self)@));
        }
    }

    /// LDH A, (a8): loads A from 0xFF00 plus the immediate offset.
    pub fn ldh_a8_into_r8(&mut self)
        requires
            old(self).wf(),
        ensures
            final(self).wf(),
            final(self)@ == ldh_a8_into_r8_spec(old(self)@),
    {
        let offset = self.read_m8(wrapping_add16(self.pc, 1));
        self.a = self.read_m8(0xFF00 + offset as u16);
        self.pc = wrapping_add16(self.pc, 2);
        proof {
            assert(self@ =~= ldh_a8_into_r8_spec(old(self)@));
        }
    }

    /// LD dest, d16: little-endian immediate, low byte first.
    pub fn ld_d16_into_r16(&mut self, dest: Reg16)
        requires
            old(self).wf(),
        ensures
            final(self).wf(),
            final(self)@ == ld_d16_into_r16_spec(old(self)@, dest),
    {
        let data = self.read_m16(wrapping_add16(self.pc, 1));
        self.write_r16(dest, data);
        self.pc = wrapping_add16(self.pc, 3);
        proof {
            assert(self@ =~= ld_d16_into_r16_spec(old(self)@, dest));
        }
    }

    /// LD (a16), SP: stores the stack pointer little-endian at the
    /// immediate address.
    pub fn ld_sp_into_a16(&mut self)
        requires
            old(self).wf(),
        ensures
            final(self).wf(),
            final(self)@ == ld_sp_into_a16_spec(old(self)@),
    {
        let addr = self.read_m16(wrapping_add16(self.pc, 1));
        let lo = (self.sp % 0x100) as u8;
        let hi = (self.sp / 0x100) as u8;
        self.write_m8(addr, lo);
        self.write_m8(wrapping_add16(addr, 1), hi);
        self.pc = wrapping_add16(self.pc, 3);
        proof {
            assert(self@ =~= ld_sp_into_a16_spec(old(self)@));
        }
    }

    /// STOP: enters the low-power state; two bytes.
    pub fn stop(&mut self)
        requires
            old(self).wf(),
        ensures
            final(self).wf(),
            final(self)@ == stop_spec(old(self)@),
    {
        self.mode = Mode::Stopped;
        self.pc = wrapping_add16(self.pc, 2);
        proof {
            assert(self@ =~= stop_spec(old(self)@));
        }
    }

    /// HALT: suspends fetching until an interrupt is pending.
    pub fn halt(&mut self)
        requires
            old(self).wf(),
        ensures
            final(self).wf(),
            final(self)@ == halt_spec(old(self)@),
    {
        self.mode = Mode::Halted;
        self.pc = wrapping_add16(self.pc, 1);
        proof {
            assert(self@ =~= halt_spec(old(self)@));
        }
    }

    /// PUSH rr: high byte at SP-1, low byte at SP-2, SP down by two; the
    /// stack grows toward lower addresses.
    pub fn push(&mut self, reg: Reg16)
        requires
            old(self).wf(),
        ensures
            final(self).wf(),
            final(self)@ == push_spec(old(self)@, reg),
    {
        let v = self.read_r16(reg);
        let hi_addr = wrapping_sub16(self.sp, 1);
        let lo_addr = wrapping_sub16(self.sp, 2);
        self.write_m8(hi_addr, (v / 0x100) as u8);
        self.write_m8(lo_addr, (v % 0x100) as u8);
        self.sp = lo_addr;
        self.pc = wrapping_add16(self.pc, 1);
        proof {
            assert(self@ =~= push_spec(old(self)@, reg));
        }
    }

    /// POP rr: low byte at SP, high byte at SP+1, SP up by two.
    pub fn pop(&mut self, reg: Reg16)
        requires
            old(self).wf(),
        ensures
            final(self).wf(),
            final(self)@ == pop_spec(old(self)@, reg),
    {
        let lsb = self.read_m8(self.sp);
        let msb = self.read_m8(wrapping_add16(self.sp, 1));
        let v = (msb as u16) * 0x100 + (lsb as u16);
        self.sp = wrapping_add16(self.sp, 2);
        self.write_r16(reg, v);
        self.pc = wrapping_add16(self.pc, 1);
        proof {
            assert(self@ =~= pop_spec(old(self)@, reg));
        }
    }

    /// INC r8: the register wraps at 0x100; Z iff the result is zero,
    /// N cleared, H iff the low nibble overflows, C untouched.
    pub fn inc_r8(&mut self, reg: Reg8)
        requires
            old(self).wf(),
        ensures
            final(self).wf(),
            final(self)@ == inc_r8_spec(old(self)@, reg),
            final(self)@.r8(reg) == inc8(old(self)@.r8(reg)),
            final(self)@.f.z == (inc8(old(self)@.r8(reg)) == 0),
            !final(self)@.f.n,
            final(self)@.f.h == hc_add(old(self)@.r8(reg), 1),
            final(self)@.f.c == old(self)@.f.c,
    {
        let left = self.read_r8(reg);
        let res = if left == 0xFF { 0 } else { left + 1 };
        self.write_r8(reg, res);
        let half = Cpu::is_half_carry_add(left, 1);
        self.set_flags(Some(res == 0), Some(false), Some(half), None);
        self.pc = wrapping_add16(self.pc, 1);
        proof {
            assert(self@ =~= inc_r8_spec(old(self)@, reg));
        }
    }

    /// DEC r8: the register wraps below zero; Z iff the result is zero,
    /// N set, H iff the low nibble borrows, C untouched.
    pub fn dec_r8(&mut self, reg: Reg8)
        requires
            old(self).wf(),
        ensures
            final(self).wf(),
            final(self)@ == dec_r8_spec(old(self)@, reg),
            final(self)@.r8(reg) == dec8(old(self)@.r8(reg)),
            final(self)@.f.z == (dec8(old(self)@.r8(reg)) == 0),
            final(self)@.f.n,
            final(self)@.f.h == hc_sub(old(self)@.r8(reg), 1),
            final(self)@.f.c == old(self)@.f.c,
    {
        let left = self.read_r8(reg);
        let res = if left == 0 { 0xFF } else { left - 1 };
        self.write_r8(reg, res);
        let half = Cpu::is_half_carry_sub(left, 1);
        self.set_flags(Some(res == 0), Some(true), Some(half), None);
        self.pc = wrapping_add16(self.pc, 1);
        proof {
            assert(self@ =~= dec_r8_spec(old(self)@, reg));
        }
    }

    /// INC rr: wraps at 0xFFFF; touches no flag.
    pub fn inc_r16(&mut self, reg: Reg16)
        requires
            old(self).wf(),
        ensures
            final(self).wf(),
            final(self)@ == inc_r16_spec(old(self)@, reg),
            final(self)@.r16(reg) == wadd16(old(self)@.r16(reg), 1),
            final(self)@.f == old(self)@.f,
    {
        let left = self.read_r16(reg);
        let res = wrapping_add16(left, 1);
        self.write_r16(reg, res);
        self.pc = wrapping_add16(self.pc, 1);
        proof {
            assert(self@ =~= inc_r16_spec(old(self)@, reg));
            crate::machine::lemma_with_r16_reads_back(old(self)@, reg, res);
        }
    }

    /// DEC rr: wraps at 0x0000; touches no flag.
    pub fn dec_r16(&mut self, reg: Reg16)
        requires
            old(self).wf(),
        ensures
            final(self).wf(),
            final(self)@ == dec_r16_spec(old(self)@, reg),
            final(self)@.r16(reg) == wsub16(old(self)@.r16(reg), 1),
            final(self)@.f == old(self)@.f,
    {
        let left = self.read_r16(reg);
        let res = wrapping_sub16(left, 1);
        self.write_r16(reg, res);
        self.pc = wrapping_add16(self.pc, 1);
        proof {
            assert(self@ =~= dec_r16_spec(old(self)@, reg));
            crate::machine::lemma_with_r16_reads_back(old(self)@, reg, res);
        }
    }

    /// INC (rr): increments the byte at the address held by a pair, with
    /// the flags of an 8-bit increment.
    pub fn inc_r16a(&mut self, reg: Reg16)
        requires
            old(self).wf(),
        ensures
            final(self).wf(),
            final(self)@ == inc_r16a_spec(old(self)@, reg),
    {
        let addr = self.read_r16(reg);
        let left = self.read_m8(addr);
        let res = if left == 0xFF { 0 } else { left + 1 };
        self.write_m8(addr, res);
        let half = Cpu::is_half_carry_add(left, 1);
        self.set_flags(Some(res == 0), Some(false), Some(half), None);
        self.pc = wrapping_add16(self.pc, 1);
        proof {
            assert(self@ =~= inc_r16a_spec(old(self)@, reg));
        }
    }

    /// Decodes and runs one instruction, returning its cycle cost.
    ///
    /// An undefined opcode yields `IllegalOpcode` with the current PC and
    /// the byte, and mutates nothing.
    pub fn execute(&mut self, opcode: u8) -> (r: Result<u8, CpuError>)
        requires
            old(self).wf(),
        ensures
            final(self).wf(),
            match step_spec(old(self)@, opcode) {
                Some((s2, cycles)) => r == Ok::<u8, CpuError>(cycles) && final(self)@ == s2,
                None => r == Err::<u8, CpuError>(
                    CpuError::IllegalOpcode { addr: old(self)@.pc, opcode },
                ) && final(self)@ == old(self)@,
            },
    {
        if opcode == 0x76 {
            self.halt();
            Ok(4)
        } else if 0x40 <= opcode && opcode < 0x80 {
            let src = reg8_from_bits(opcode & 0x07);
            let dest = reg8_from_bits((opcode >> 3) & 0x07);
            match (src, dest) {
                (Some(s), Some(d)) => {
                    self.ld_r8_into_r8(s, d);
                    Ok(4)
                },
                (Some(s), None) => {
                    self.ld_r8_into_r16a(s, Reg16::Hl);
                    Ok(8)
                },
                (None, _) => Err(CpuError::IllegalOpcode { addr: self.pc, opcode }),
            }
        } else {
            match opcode {
                0x00 => {
                    self.nop();
                    Ok(4)
                },
                0x01 => {
                    self.ld_d16_into_r16(Reg16::Bc);
                    Ok(12)
                },
                0x02 => {
                    self.ld_r8_into_r16a(Reg8::A, Reg16::Bc);
                    Ok(8)
                },
                0x03 => {
                    self.inc_r16(Reg16::Bc);
                    Ok(8)
                },
                0x04 => {
                    self.inc_r8(Reg8::B);
                    Ok(4)
                },
                0x05 => {
                    self.dec_r8(Reg8::B);
                    Ok(4)
                },
                0x06 => {
                    self.ld_d8_into_r8(Reg8::B);
                    Ok(8)
                },
                0x08 => {
                    self.ld_sp_into_a16();
                    Ok(20)
                },
                0x0b => {
                    self.dec_r16(Reg16::Bc);
                    Ok(8)
                },
                0x0c => {
                    self.inc_r8(Reg8::C);
                    Ok(4)
                },
                0x0d => {
                    self.dec_r8(Reg8::C);
                    Ok(4)
                },
                0x0e => {
                    self.ld_d8_into_r8(Reg8::C);
                    Ok(8)
                },
                0x10 => {
                    self.stop();
                    Ok(4)
                },
                0x11 => {
                    self.ld_d16_into_r16(Reg16::De);
                    Ok(12)
                },
                0x12 => {
                    self.ld_r8_into_r16a(Reg8::A, Reg16::De);
                    Ok(8)
                },
                0x13 => {
                    self.inc_r16(Reg16::De);
                    Ok(8)
                },
                0x14 => {
                    self.inc_r8(Reg8::D);
                    Ok(4)
                },
                0x15 => {
                    self.dec_r8(Reg8::D);
                    Ok(4)
                },
                0x16 => {
                    self.ld_d8_into_r8(Reg8::D);
                    Ok(8)
                },
                0x1b => {
                    self.dec_r16(Reg16::De);
                    Ok(8)
                },
                0x1c => {
                    self.inc_r8(Reg8::E);
                    Ok(4)
                },
                0x1d => {
                    self.dec_r8(Reg8::E);
                    Ok(4)
                },
                0x1e => {
                    self.ld_d8_into_r8(Reg8::E);
                    Ok(8)
                },
                0x21 => {
                    self.ld_d16_into_r16(Reg16::Hl);
                    Ok(12)
                },
                0x23 => {
                    self.inc_r16(Reg16::Hl);
                    Ok(8)
                },
                0x24 => {
                    self.inc_r8(Reg8::H);
                    Ok(4)
                },
                0x25 => {
                    self.dec_r8(Reg8::H);
                    Ok(4)
                },
                0x26 => {
                    self.ld_d8_into_r8(Reg8::H);
                    Ok(8)
                },
                0x2b => {
                    self.dec_r16(Reg16::Hl);
                    Ok(8)
                },
                0x2c => {
                    self.inc_r8(Reg8::L);
                    Ok(4)
                },
                0x2d => {
                    self.dec_r8(Reg8::L);
                    Ok(4)
                },
                0x2e => {
                    self.ld_d8_into_r8(Reg8::L);
                    Ok(8)
                },
                0x31 => {
                    self.ld_d16_into_r16(Reg16::Sp);
                    Ok(12)
                },
                0x33 => {
                    self.inc_r16(Reg16::Sp);
                    Ok(8)
                },
                0x34 => {
                    self.inc_r16a(Reg16::Hl);
                    Ok(12)
                },
                0x3b => {
                    self.dec_r16(Reg16::Sp);
                    Ok(8)
                },
                0x3c => {
                    self.inc_r8(Reg8::A);
                    Ok(4)
                },
                0x3d => {
                    self.dec_r8(Reg8::A);
                    Ok(4)
                },
                0x3e => {
                    self.ld_d8_into_r8(Reg8::A);
                    Ok(8)
                },
                0xc1 => {
                    self.pop(Reg16::Bc);
                    Ok(12)
                },
                0xc5 => {
                    self.push(Reg16::Bc);
                    Ok(16)
                },
                0xd1 => {
                    self.pop(Reg16::De);
                    Ok(12)
                },
                0xd5 => {
                    self.push(Reg16::De);
                    Ok(16)
                },
                0xe1 => {
                    self.pop(Reg16::Hl);
                    Ok(12)
                },
                0xe5 => {
                    self.push(Reg16::Hl);
                    Ok(16)
                },
                0xe0 => {
                    self.ldh_r8_into_a8();
                    Ok(12)
                },
                0xf0 => {
                    self.ldh_a8_into_r8();
                    Ok(12)
                },
                _ => Err(CpuError::IllegalOpcode { addr: self.pc, opcode }),
            }
        }
    }

    /// One step of the execution loop. Running: fetch the opcode at PC,
    /// decode, execute. Halted or stopped: nothing happens until the
    /// external interrupt-pending signal is observed, which resumes
    /// running without yet executing an instruction.
    pub fn step(&mut self, interrupt_pending: bool) -> (r: Result<u8, CpuError>)
        requires
            old(self).wf(),
        ensures
            final(self).wf(),
            old(self)@.mode == Mode::Running ==> match step_spec(
                old(self)@,
                old(self)@.read8(old(self)@.pc),
            ) {
                Some((s2, cycles)) => r == Ok::<u8, CpuError>(cycles) && final(self)@ == s2,
                None => r == Err::<u8, CpuError>(
                    CpuError::IllegalOpcode {
                        addr: old(self)@.pc,
                        opcode: old(self)@.read8(old(self)@.pc),
                    },
                ) && final(self)@ == old(self)@,
            },
            old(self)@.mode != Mode::Running && !interrupt_pending ==> r == Ok::<u8, CpuError>(4)
                && final(self)@ == old(self)@,
            old(self)@.mode != Mode::Running && interrupt_pending ==> r == Ok::<u8, CpuError>(4)
                && final(self)@ == (State { mode: Mode::Running, ..old(self)@ }),
    {
        match self.mode {
            Mode::Running => {
                let opcode = self.read_m8(self.pc);
                self.execute(opcode)
            },
            _ => {
                if interrupt_pending {
                    self.mode = Mode::Running;
                    proof {
                        assert(self@ =~= (State { mode: Mode::Running, ..old(self)@ }));
                    }
                }
                Ok(4)
            },
        }
    }
}

} // verus!
