use vstd::prelude::*;

use crate::memory::MEM_SIZE;

verus! {

/// Selector for one of the seven 8-bit general registers.
#[derive(Clone, Copy, PartialEq, Eq, Structural, Debug)]
pub enum Reg8 {
    A,
    B,
    C,
    D,
    E,
    H,
    L,
}

/// Selector for a 16-bit register pair or the stack pointer.
#[derive(Clone, Copy, PartialEq, Eq, Structural, Debug)]
pub enum Reg16 {
    Bc,
    De,
    Hl,
    Sp,
}

/// The four condition flags, packed into the high nibble of F for export.
#[derive(Clone, Copy, PartialEq, Eq, Structural, Debug)]
pub struct Flag {
    pub z: bool,
    pub n: bool,
    pub h: bool,
    pub c: bool,
}

/// The four hardware branch conditions.
#[derive(Clone, Copy, PartialEq, Eq, Structural, Debug)]
pub enum Cond {
    Z,
    Nz,
    C,
    Nc,
}

/// Run state of the execution loop: `Halted` and `Stopped` suspend the
/// fetch-decode-execute cycle until an external interrupt is pending.
#[derive(Clone, Copy, PartialEq, Eq, Structural, Debug)]
pub enum Mode {
    Running,
    Halted,
    Stopped,
}

/// Failure of one execution step.
#[derive(Clone, Copy, PartialEq, Eq, Structural, Debug)]
pub enum CpuError {
    /// The opcode byte has no defined instruction; `addr` is where it was
    /// fetched from. The step mutates nothing.
    IllegalOpcode { addr: u16, opcode: u8 },
}

/// The whole machine as the contracts speak of it: registers, flags,
/// stack pointer, program counter, run mode, and the 64 KiB of memory
/// behind the bus.
#[verifier::ext_equal]
pub ghost struct State {
    pub a: u8,
    pub b: u8,
    pub c: u8,
    pub d: u8,
    pub e: u8,
    pub h: u8,
    pub l: u8,
    pub f: Flag,
    pub sp: u16,
    pub pc: u16,
    pub mode: Mode,
    pub mem: Seq<u8>,
}

/// 16-bit add that wraps around at 0x10000, as the hardware counters do.
pub open spec fn wadd16(x: u16, k: u16) -> u16 {
    ((x + k) % 0x10000) as u16
}

/// 16-bit subtract that wraps around below zero.
pub open spec fn wsub16(x: u16, k: u16) -> u16 {
    if x >= k {
        (x - k) as u16
    } else {
        (x + 0x10000 - k) as u16
    }
}

/// 8-bit increment, wrapping at 0x100.
pub open spec fn inc8(x: u8) -> u8 {
    if x == 0xFF {
        0
    } else {
        (x + 1) as u8
    }
}

/// 8-bit decrement, wrapping below zero.
pub open spec fn dec8(x: u8) -> u8 {
    if x == 0 {
        0xFF
    } else {
        (x - 1) as u8
    }
}

/// A register pair read: high byte first.
pub open spec fn combine16(hi: u8, lo: u8) -> u16 {
    (hi * 0x100 + lo) as u16
}

/// High byte of a 16-bit value.
pub open spec fn high_byte(v: u16) -> u8 {
    (v / 0x100) as u8
}

/// Low byte of a 16-bit value.
pub open spec fn low_byte(v: u16) -> u8 {
    (v % 0x100) as u8
}

/// Half-carry of an 8-bit add: the low-nibble sum leaves bit 3.
pub open spec fn hc_add(left: u8, right: u8) -> bool {
    (left & 0x0F) + (right & 0x0F) > 0x0F
}

/// Half-borrow of an 8-bit subtract: the minuend's low nibble is smaller.
pub open spec fn hc_sub(left: u8, right: u8) -> bool {
    (left & 0x0F) < (right & 0x0F)
}

/// Flags packed for status export: bits 7..4 are Z, N, H, C.
pub open spec fn flag_bits(f: Flag) -> u8 {
    (if f.z { 0x80u8 } else { 0u8 }) | (if f.n { 0x40u8 } else { 0u8 })
        | (if f.h { 0x20u8 } else { 0u8 }) | (if f.c { 0x10u8 } else { 0u8 })
}

/// Per-flag update: `None` leaves the flag untouched, `Some` overwrites it.
pub open spec fn apply_flags(
    f: Flag,
    z: Option<bool>,
    n: Option<bool>,
    h: Option<bool>,
    c: Option<bool>,
) -> Flag {
    Flag {
        z: match z { Some(v) => v, None => f.z },
        n: match n { Some(v) => v, None => f.n },
        h: match h { Some(v) => v, None => f.h },
        c: match c { Some(v) => v, None => f.c },
    }
}

/// What each branch condition tests.
pub open spec fn cond_holds(f: Flag, cond: Cond) -> bool {
    match cond {
        Cond::Z => f.z,
        Cond::Nz => !f.z,
        Cond::C => f.c,
        Cond::Nc => !f.c,
    }
}

/// The power-on state: registers clear, SP at 0xFFFE, PC at the
/// post-boot-ROM entry point 0x0100, running, over the given memory.
pub open spec fn init_state(mem: Seq<u8>) -> State {
    State {
        a: 0,
        b: 0,
        c: 0,
        d: 0,
        e: 0,
        h: 0,
        l: 0,
        f: Flag { z: false, n: false, h: false, c: false },
        sp: 0xFFFE,
        pc: 0x0100,
        mode: Mode::Running,
        mem,
    }
}

impl State {
    /// One byte per address over the full 16-bit space.
    pub open spec fn wf(self) -> bool {
        self.mem.len() == MEM_SIZE
    }

    /// Reads one 8-bit register.
    pub open spec fn r8(self, r: Reg8) -> u8 {
        match r {
            Reg8::A => self.a,
            Reg8::B => self.b,
            Reg8::C => self.c,
            Reg8::D => self.d,
            Reg8::E => self.e,
            Reg8::H => self.h,
            Reg8::L => self.l,
        }
    }

    /// Overwrites one 8-bit register.
    pub open spec fn with_r8(self, r: Reg8, v: u8) -> State {
        match r {
            Reg8::A => State { a: v, ..self },
            Reg8::B => State { b: v, ..self },
            Reg8::C => State { c: v, ..self },
            Reg8::D => State { d: v, ..self },
            Reg8::E => State { e: v, ..self },
            Reg8::H => State { h: v, ..self },
            Reg8::L => State { l: v, ..self },
        }
    }

    /// Reads a pair as its two halves, high byte first, or the stack pointer.
    pub open spec fn r16(self, r: Reg16) -> u16 {
        match r {
            Reg16::Bc => combine16(self.b, self.c),
            Reg16::De => combine16(self.d, self.e),
            Reg16::Hl => combine16(self.h, self.l),
            Reg16::Sp => self.sp,
        }
    }

    /// Overwrites a pair through both its halves, or the stack pointer.
    pub open spec fn with_r16(self, r: Reg16, v: u16) -> State {
        match r {
            Reg16::Bc => State { b: high_byte(v), c: low_byte(v), ..self },
            Reg16::De => State { d: high_byte(v), e: low_byte(v), ..self },
            Reg16::Hl => State { h: high_byte(v), l: low_byte(v), ..self },
            Reg16::Sp => State { sp: v, ..self },
        }
    }

    /// The byte in memory at `addr`.
    pub open spec fn read8(self, addr: u16) -> u8 {
        self.mem[addr as int]
    }

    /// Memory with one byte overwritten.
    pub open spec fn write8(self, addr: u16, v: u8) -> State {
        State { mem: self.mem.update(addr as int, v), ..self }
    }

    /// Little-endian 16-bit read: low byte at `addr`, high at `addr + 1`.
    pub open spec fn read16(self, addr: u16) -> u16 {
        combine16(self.read8(wadd16(addr, 1)), self.read8(addr))
    }

    /// Applies the optional flag overrides.
    pub open spec fn with_flags(
        self,
        z: Option<bool>,
        n: Option<bool>,
        h: Option<bool>,
        c: Option<bool>,
    ) -> State {
        State { f: apply_flags(self.f, z, n, h, c), ..self }
    }

    /// Advances the program counter by the instruction's byte length.
    pub open spec fn advance(self, k: u16) -> State {
        State { pc: wadd16(self.pc, k), ..self }
    }
}

/// NOP: one byte, no effect.
pub open spec fn nop_spec(s: State) -> State {
    s.advance(1)
}

/// LD dest, src between 8-bit registers.
pub open spec fn ld_r8_into_r8_spec(s: State, src: Reg8, dest: Reg8) -> State {
    s.with_r8(dest, s.r8(src)).advance(1)
}

/// LD dest, d8: the immediate byte follows the opcode.
pub open spec fn ld_d8_into_r8_spec(s: State, dest: Reg8) -> State {
    s.with_r8(dest, s.read8(wadd16(s.pc, 1))).advance(2)
}

/// LD (dest), src: store a register at the address held by a pair.
pub open spec fn ld_r8_into_r16a_spec(s: State, src: Reg8, dest: Reg16) -> State {
    s.write8(s.r16(dest), s.r8(src)).advance(1)
}

/// LD dest, d16: little-endian immediate, low byte first.
pub open spec fn ld_d16_into_r16_spec(s: State, dest: Reg16) -> State {
    s.with_r16(dest, s.read16(wadd16(s.pc, 1))).advance(3)
}

/// LD (a16), SP: the stack pointer stored little-endian at the immediate
/// address.
pub open spec fn ld_sp_into_a16_spec(s: State) -> State {
    let addr = s.read16(wadd16(s.pc, 1));
    s.write8(addr, low_byte(s.sp)).write8(wadd16(addr, 1), high_byte(s.sp)).advance(3)
}

/// LDH (a8), A: store A at the high-page offset in the immediate byte.
pub open spec fn ldh_r8_into_a8_spec(s: State) -> State {
    s.write8((0xFF00 + s.read8(wadd16(s.pc, 1))) as u16, s.a).advance(2)
}

/// LDH A, (a8): load A from the high-page offset in the immediate byte.
pub open spec fn ldh_a8_into_r8_spec(s: State) -> State {
    s.with_r8(Reg8::A, s.read8((0xFF00 + s.read8(wadd16(s.pc, 1))) as u16)).advance(2)
}

/// INC r8: Z iff the result is zero, N clear, H on low-nibble overflow,
/// C untouched.
pub open spec fn inc_r8_spec(s: State, r: Reg8) -> State {
    let x = s.r8(r);
    s.with_r8(r, inc8(x)).with_flags(
        Some(inc8(x) == 0),
        Some(false),
        Some(hc_add(x, 1)),
        None,
    ).advance(1)
}

/// DEC r8: Z iff the result is zero, N set, H on low-nibble borrow,
/// C untouched.
pub open spec fn dec_r8_spec(s: State, r: Reg8) -> State {
    let x = s.r8(r);
    s.with_r8(r, dec8(x)).with_flags(
        Some(dec8(x) == 0),
        Some(true),
        Some(hc_sub(x, 1)),
        None,
    ).advance(1)
}

/// INC rr: wraps at 0xFFFF, touches no flag.
pub open spec fn inc_r16_spec(s: State, r: Reg16) -> State {
    s.with_r16(r, wadd16(s.r16(r), 1)).advance(1)
}

/// DEC rr: wraps at 0x0000, touches no flag.
pub open spec fn dec_r16_spec(s: State, r: Reg16) -> State {
    s.with_r16(r, wsub16(s.r16(r), 1)).advance(1)
}

/// INC (rr): increment the byte at the address held by a pair, with the
/// flags of an 8-bit increment.
pub open spec fn inc_r16a_spec(s: State, r: Reg16) -> State {
    let addr = s.r16(r);
    let x = s.read8(addr);
    s.write8(addr, inc8(x)).with_flags(
        Some(inc8(x) == 0),
        Some(false),
        Some(hc_add(x, 1)),
        None,
    ).advance(1)
}

/// PUSH rr: high byte at SP-1, low byte at SP-2, SP down by two.
pub open spec fn push_spec(s: State, r: Reg16) -> State {
    let v = s.r16(r);
    let stored = s.write8(wsub16(s.sp, 1), high_byte(v)).write8(wsub16(s.sp, 2), low_byte(v));
    State { sp: wsub16(s.sp, 2), ..stored }.advance(1)
}

/// POP rr: low byte at SP, high byte at SP+1, SP up by two.
pub open spec fn pop_spec(s: State, r: Reg16) -> State {
    let v = combine16(s.read8(wadd16(s.sp, 1)), s.read8(s.sp));
    State { sp: wadd16(s.sp, 2), ..s }.with_r16(r, v).advance(1)
}

/// HALT: suspend fetching until an interrupt is pending.
pub open spec fn halt_spec(s: State) -> State {
    State { mode: Mode::Halted, ..s }.advance(1)
}

/// STOP: two bytes; suspend in low-power state.
pub open spec fn stop_spec(s: State) -> State {
    State { mode: Mode::Stopped, ..s }.advance(2)
}

/// The operand encoding of the 0x40..0x7F load block: three bits select a
/// register, with 6 standing for memory through HL.
pub open spec fn reg8_of_bits(bits: u8) -> Option<Reg8> {
    if bits == 0 {
        Some(Reg8::B)
    } else if bits == 1 {
        Some(Reg8::C)
    } else if bits == 2 {
        Some(Reg8::D)
    } else if bits == 3 {
        Some(Reg8::E)
    } else if bits == 4 {
        Some(Reg8::H)
    } else if bits == 5 {
        Some(Reg8::L)
    } else if bits == 7 {
        Some(Reg8::A)
    } else {
        None
    }
}

/// One decoded execution step: the state after the instruction at `op`
/// and its cycle cost, or `None` where the opcode is undefined here.
pub open spec fn step_spec(s: State, op: u8) -> Option<(State, u8)> {
    if op == 0x76 {
        Some((halt_spec(s), 4))
    } else if 0x40 <= op && op < 0x80 {
        match (reg8_of_bits(op & 0x07), reg8_of_bits((op >> 3) & 0x07)) {
            (Some(src), Some(dest)) => Some((ld_r8_into_r8_spec(s, src, dest), 4)),
            (Some(src), None) => Some((ld_r8_into_r16a_spec(s, src, Reg16::Hl), 8)),
            (None, _) => None,
        }
    } else {
        match op {
            0x00 => Some((nop_spec(s), 4)),
            0x01 => Some((ld_d16_into_r16_spec(s, Reg16::Bc), 12)),
            0x02 => Some((ld_r8_into_r16a_spec(s, Reg8::A, Reg16::Bc), 8)),
            0x03 => Some((inc_r16_spec(s, Reg16::Bc), 8)),
            0x04 => Some((inc_r8_spec(s, Reg8::B), 4)),
            0x05 => Some((dec_r8_spec(s, Reg8::B), 4)),
            0x06 => Some((ld_d8_into_r8_spec(s, Reg8::B), 8)),
            0x08 => Some((ld_sp_into_a16_spec(s), 20)),
            0x0b => Some((dec_r16_spec(s, Reg16::Bc), 8)),
            0x0c => Some((inc_r8_spec(s, Reg8::C), 4)),
            0x0d => Some((dec_r8_spec(s, Reg8::C), 4)),
            0x0e => Some((ld_d8_into_r8_spec(s, Reg8::C), 8)),
            0x10 => Some((stop_spec(s), 4)),
            0x11 => Some((ld_d16_into_r16_spec(s, Reg16::De), 12)),
            0x12 => Some((ld_r8_into_r16a_spec(s, Reg8::A, Reg16::De), 8)),
            0x13 => Some((inc_r16_spec(s, Reg16::De), 8)),
            0x14 => Some((inc_r8_spec(s, Reg8::D), 4)),
            0x15 => Some((dec_r8_spec(s, Reg8::D), 4)),
            0x16 => Some((ld_d8_into_r8_spec(s, Reg8::D), 8)),
            0x1b => Some((dec_r16_spec(s, Reg16::De), 8)),
            0x1c => Some((inc_r8_spec(s, Reg8::E), 4)),
            0x1d => Some((dec_r8_spec(s, Reg8::E), 4)),
            0x1e => Some((ld_d8_into_r8_spec(s, Reg8::E), 8)),
            0x21 => Some((ld_d16_into_r16_spec(s, Reg16::Hl), 12)),
            0x23 => Some((inc_r16_spec(s, Reg16::Hl), 8)),
            0x24 => Some((inc_r8_spec(s, Reg8::H), 4)),
            0x25 => Some((dec_r8_spec(s, Reg8::H), 4)),
            0x26 => Some((ld_d8_into_r8_spec(s, Reg8::H), 8)),
            0x2b => Some((dec_r16_spec(s, Reg16::Hl), 8)),
            0x2c => Some((inc_r8_spec(s, Reg8::L), 4)),
            0x2d => Some((dec_r8_spec(s, Reg8::L), 4)),
            0x2e => Some((ld_d8_into_r8_spec(s, Reg8::L), 8)),
            0x31 => Some((ld_d16_into_r16_spec(s, Reg16::Sp), 12)),
            0x33 => Some((inc_r16_spec(s, Reg16::Sp), 8)),
            0x34 => Some((inc_r16a_spec(s, Reg16::Hl), 12)),
            0x3b => Some((dec_r16_spec(s, Reg16::Sp), 8)),
            0x3c => Some((inc_r8_spec(s, Reg8::A), 4)),
            0x3d => Some((dec_r8_spec(s, Reg8::A), 4)),
            0x3e => Some((ld_d8_into_r8_spec(s, Reg8::A), 8)),
            0xc1 => Some((pop_spec(s, Reg16::Bc), 12)),
            0xc5 => Some((push_spec(s, Reg16::Bc), 16)),
            0xd1 => Some((pop_spec(s, Reg16::De), 12)),
            0xd5 => Some((push_spec(s, Reg16::De), 16)),
            0xe1 => Some((pop_spec(s, Reg16::Hl), 12)),
            0xe5 => Some((push_spec(s, Reg16::Hl), 16)),
            0xe0 => Some((ldh_r8_into_a8_spec(s), 12)),
            0xf0 => Some((ldh_a8_into_r8_spec(s), 12)),
            _ => None,
        }
    }
}

/// Splitting a 16-bit value into its bytes and recombining them, high
/// byte first, is the identity.
pub proof fn lemma_combine_split(v: u16)
    ensures
        combine16(high_byte(v), low_byte(v)) == v,
{
    vstd::arithmetic::div_mod::lemma_fundamental_div_mod(v as int, 0x100);
}

/// Writing a pair and reading it back yields the written value.
pub proof fn lemma_with_r16_reads_back(s: State, r: Reg16, v: u16)
    ensures
        s.with_r16(r, v).r16(r) == v,
{
    lemma_combine_split(v);
}

/// Loading a register into itself changes nothing but the program
/// counter.
pub proof fn lemma_ld_r8_same(s: State, r: Reg8)
    ensures
        ld_r8_into_r8_spec(s, r, r) == s.advance(1),
{
    assert(ld_r8_into_r8_spec(s, r, r) =~= s.advance(1));
}

/// After LD dest, src the destination holds the source's old value and
/// every other register, the flags, and memory are unchanged.
pub proof fn lemma_ld_r8_frame(s: State, src: Reg8, dest: Reg8, other: Reg8)
    requires
        other != dest,
    ensures
        ld_r8_into_r8_spec(s, src, dest).r8(dest) == s.r8(src),
        ld_r8_into_r8_spec(s, src, dest).r8(other) == s.r8(other),
        ld_r8_into_r8_spec(s, src, dest).sp == s.sp,
        ld_r8_into_r8_spec(s, src, dest).f == s.f,
        ld_r8_into_r8_spec(s, src, dest).mem == s.mem,
{
}

/// PUSH then POP of the same pair restores both the pair and the stack
/// pointer (stack pointers below 2, where the push wraps, are left out).
pub proof fn lemma_push_pop(s: State, r: Reg16)
    requires
        s.wf(),
        s.sp >= 2,
    ensures
        pop_spec(push_spec(s, r), r).r16(r) == s.r16(r),
        pop_spec(push_spec(s, r), r).sp == s.sp,
{
    let v = s.r16(r);
    let pushed = push_spec(s, r);
    assert(pushed.sp == wsub16(s.sp, 2));
    assert(pushed.read8(pushed.sp) == low_byte(v));
    assert(pushed.read8(wadd16(pushed.sp, 1)) == high_byte(v));
    lemma_combine_split(v);
}

} // verus!
