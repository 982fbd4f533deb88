//! CPU register file: eight 8-bit slots, SP and PC, virtual 16-bit pairs,
//! and the four status flags held in the high nibble of F.
use vstd::prelude::*;

verus! {

/// A 16-bit sum reduced into register width (addition modulo $10000).
pub open spec fn add16(a: int, b: int) -> u16 {
    ((a + b) % 0x10000) as u16
}

/// A 16-bit difference reduced into register width (subtraction modulo $10000).
pub open spec fn sub16(a: int, b: int) -> u16 {
    ((a - b) % 0x10000) as u16
}

/// An 8-bit sum reduced into register width (addition modulo $100).
pub open spec fn add8(a: int, b: int) -> u8 {
    ((a + b) % 0x100) as u8
}

/// An 8-bit difference reduced into register width (subtraction modulo $100).
pub open spec fn sub8(a: int, b: int) -> u8 {
    ((a - b) % 0x100) as u8
}

/// 16-bit wrapping addition.
pub fn wrap_add16(a: u16, b: u16) -> (r: u16)
    ensures
        r == add16(a as int, b as int),
{
    let s: u32 = a as u32 + b as u32;
    (s % 0x10000) as u16
}

/// 16-bit wrapping subtraction.
pub fn wrap_sub16(a: u16, b: u16) -> (r: u16)
    ensures
        r == sub16(a as int, b as int),
{
    let s: u32 = a as u32 + 0x10000 - b as u32;
    proof {
        vstd::arithmetic::div_mod::lemma_mod_add_multiples_vanish(a - b, 0x10000);
    }
    (s % 0x10000) as u16
}

/// 8-bit wrapping addition.
pub fn wrap_add8(a: u8, b: u8) -> (r: u8)
    ensures
        r == add8(a as int, b as int),
{
    let s: u16 = a as u16 + b as u16;
    (s % 0x100) as u8
}

/// 8-bit wrapping subtraction.
pub fn wrap_sub8(a: u8, b: u8) -> (r: u8)
    ensures
        r == sub8(a as int, b as int),
{
    let s: u16 = a as u16 + 0x100 - b as u16;
    proof {
        vstd::arithmetic::div_mod::lemma_mod_add_multiples_vanish(a - b, 0x100);
    }
    (s % 0x100) as u8
}

/// Wrapping 16-bit steps compose: stepping by `b` and then by `c` is one
/// step by `b + c`, for both addition and subtraction.
pub proof fn lemma_wrap16_chain(a: int, b: int, c: int)
    requires
        0 <= c < 0x10000,
    ensures
        add16(add16(a, b) as int, c) == add16(a, b + c),
        sub16(sub16(a, b) as int, c) == sub16(a, b + c),
        sub16(add16(a, b) as int, c) == add16(a, b - c),
{
    vstd::arithmetic::div_mod::lemma_mod_bound(a + b, 0x10000);
    vstd::arithmetic::div_mod::lemma_mod_bound(a - b, 0x10000);
    vstd::arithmetic::div_mod::lemma_add_mod_noop_right(c, a + b, 0x10000);
    vstd::arithmetic::div_mod::lemma_sub_mod_noop(a - b, c, 0x10000);
    vstd::arithmetic::div_mod::lemma_sub_mod_noop(a + b, c, 0x10000);
    vstd::arithmetic::div_mod::lemma_small_mod(c as nat, 0x10000);
}

/// Masking a byte to its high nibble leaves the low nibble clear: how every
/// write into F keeps the register well formed.
pub proof fn lemma_high_nibble_wf(v: u8)
    by (bit_vector)
    ensures
        (v & 0xF0) & 0x0F == 0,
{
}

/// One of the eight 8-bit register slots.
#[derive(Clone, Copy, PartialEq, Eq, Structural, Debug)]
pub enum Register8 {
    A,
    F,
    B,
    C,
    D,
    E,
    H,
    L,
}

/// A 16-bit register or register pair; `HLInd` marks the indirect-HL
/// pseudo-register used by the 3-bit operand encoding.
#[derive(Clone, Copy, PartialEq, Eq, Structural, Debug)]
pub enum Register16 {
    AF,
    BC,
    DE,
    HL,
    HLInd,
    SP,
    PC,
}

/// An instruction operand decoded from a 3-bit register code:
/// either a plain register or a byte in memory at address HL.
#[derive(Clone, Copy, PartialEq, Eq, Structural, Debug)]
pub enum Operand {
    Reg(Register8),
    IndirectHL,
}

/// The plain register a 3-bit code names, for codes other than 6:
/// {0:B, 1:C, 2:D, 3:E, 4:H, 5:L, 7:A}.
pub open spec fn spec_operand_reg(code: u8) -> Register8 {
    if code == 0 {
        Register8::B
    } else if code == 1 {
        Register8::C
    } else if code == 2 {
        Register8::D
    } else if code == 3 {
        Register8::E
    } else if code == 4 {
        Register8::H
    } else if code == 5 {
        Register8::L
    } else {
        Register8::A
    }
}

/// The canonical 3-bit register code: {0:B, 1:C, 2:D, 3:E, 4:H, 5:L, 6:(HL), 7:A}.
pub open spec fn spec_operand(code: u8) -> Operand {
    if code == 6 {
        Operand::IndirectHL
    } else {
        Operand::Reg(spec_operand_reg(code))
    }
}

/// The destination code of an opcode: its bits 5:3.
pub fn decode_dst(opcode: u8) -> (code: u8)
    ensures
        code == (opcode / 8) % 8,
        code < 8,
{
    let code = (opcode >> 3) & 7;
    proof {
        assert(((opcode >> 3) & 7) < 8 && ((opcode >> 3) & 7) == (opcode / 8) % 8) by (bit_vector);
    }
    code
}

/// The source code of an opcode: its bits 2:0.
pub fn decode_src(opcode: u8) -> (code: u8)
    ensures
        code == opcode % 8,
        code < 8,
{
    let code = opcode & 7;
    proof {
        assert((opcode & 7) < 8 && (opcode & 7) == opcode % 8) by (bit_vector);
    }
    code
}

/// The plain register a 3-bit code other than 6 names (code 6 is the
/// indirect-HL pseudo-register; here it falls to A, and every caller
/// routes it to memory before asking).
pub fn reg8_of(code: u8) -> (r: Register8)
    requires
        code < 8,
    ensures
        r == spec_operand_reg(code),
{
    match code {
        0 => Register8::B,
        1 => Register8::C,
        2 => Register8::D,
        3 => Register8::E,
        4 => Register8::H,
        5 => Register8::L,
        _ => Register8::A,
    }
}

/// Decodes a 3-bit register code into an operand.
pub fn operand_decode(code: u8) -> (op: Operand)
    requires
        code < 8,
    ensures
        op == spec_operand(code),
{
    match code {
        0 => Operand::Reg(Register8::B),
        1 => Operand::Reg(Register8::C),
        2 => Operand::Reg(Register8::D),
        3 => Operand::Reg(Register8::E),
        4 => Operand::Reg(Register8::H),
        5 => Operand::Reg(Register8::L),
        6 => Operand::IndirectHL,
        _ => Operand::Reg(Register8::A),
    }
}

/// Packs the four flags into an F byte: Z in bit 7, N in bit 6, H in bit 5,
/// C in bit 4; the low nibble is zero.
pub open spec fn spec_flags(z: bool, n: bool, h: bool, c: bool) -> u8 {
    (if z {
        0x80u8
    } else {
        0u8
    }) | (if n {
        0x40u8
    } else {
        0u8
    }) | (if h {
        0x20u8
    } else {
        0u8
    }) | (if c {
        0x10u8
    } else {
        0u8
    })
}

/// Builds an F byte from the four flags.
pub fn flags_byte(z: bool, n: bool, h: bool, c: bool) -> (f: u8)
    ensures
        f == spec_flags(z, n, h, c),
{
    (if z {
        0x80u8
    } else {
        0u8
    }) | (if n {
        0x40u8
    } else {
        0u8
    }) | (if h {
        0x20u8
    } else {
        0u8
    }) | (if c {
        0x10u8
    } else {
        0u8
    })
}

/// An F byte with one flag bit set to `v` and all other bits kept.
pub open spec fn spec_set_flag(f: u8, mask: u8, v: bool) -> u8 {
    if v {
        f | mask
    } else {
        f & !mask
    }
}

/// Facts about flag packing: each flag lands in its own bit, the low nibble
/// stays clear, and setting one flag leaves the others alone.
pub proof fn lemma_flag_bits()
    by (bit_vector)
    ensures
        forall|z: bool, n: bool, h: bool, c: bool| (#[trigger] spec_flags(z, n, h, c)) & 0x0F == 0,
        forall|z: bool, n: bool, h: bool, c: bool|
            ((#[trigger] spec_flags(z, n, h, c)) & 0x80 != 0 <==> z) && (spec_flags(z, n, h, c)
                & 0x40 != 0 <==> n) && (spec_flags(z, n, h, c) & 0x20 != 0 <==> h) && (spec_flags(
                z,
                n,
                h,
                c,
            ) & 0x10 != 0 <==> c),
{
}

/*
16-bit  Hi  Lo  Name/Function
AF      A   -   Accumulator & Flags
BC      B   C   BC
DE      D   E   DE
HL      H   L   HL
SP      -   -   Stack Pointer
PC      -   -   Program Counter/Pointer
*/
/// The register file. Flags live in the high nibble of F:
/// bit 7 Z (zero), bit 6 N (subtraction), bit 5 H (half carry), bit 4 C (carry).
#[derive(Clone, Copy, PartialEq, Eq, Structural, Debug)]
pub struct RegisterFile {
    pub A: u8,
    pub F: u8,
    pub B: u8,
    pub C: u8,
    pub D: u8,
    pub E: u8,
    pub H: u8,
    pub L: u8,
    pub SP: u16,
    pub PC: u16,
}

impl RegisterFile {
    /// The low nibble of F always reads zero; every write to F maintains this.
    pub open spec fn wf(self) -> bool {
        self.F & 0x0F == 0
    }

    /// The AF pair as a number, A being the high byte.
    pub open spec fn af(self) -> int {
        self.A * 256 + self.F
    }

    pub open spec fn bc(self) -> int {
        self.B * 256 + self.C
    }

    pub open spec fn de(self) -> int {
        self.D * 256 + self.E
    }

    pub open spec fn hl(self) -> int {
        self.H * 256 + self.L
    }

    /// The Z (zero) flag.
    pub open spec fn z(self) -> bool {
        self.F & 0x80 != 0
    }

    /// The N (subtraction) flag.
    pub open spec fn n(self) -> bool {
        self.F & 0x40 != 0
    }

    /// The H (half-carry) flag.
    pub open spec fn h(self) -> bool {
        self.F & 0x20 != 0
    }

    /// The C (carry) flag.
    pub open spec fn c(self) -> bool {
        self.F & 0x10 != 0
    }

    /// The value of one 8-bit register slot.
    pub open spec fn spec_get8(self, r: Register8) -> u8 {
        match r {
            Register8::A => self.A,
            Register8::F => self.F,
            Register8::B => self.B,
            Register8::C => self.C,
            Register8::D => self.D,
            Register8::E => self.E,
            Register8::H => self.H,
            Register8::L => self.L,
        }
    }

    /// The register file with one 8-bit slot replaced.
    pub open spec fn spec_set8(self, r: Register8, v: u8) -> RegisterFile {
        match r {
            Register8::A => RegisterFile { A: v, ..self },
            Register8::F => RegisterFile { F: v, ..self },
            Register8::B => RegisterFile { B: v, ..self },
            Register8::C => RegisterFile { C: v, ..self },
            Register8::D => RegisterFile { D: v, ..self },
            Register8::E => RegisterFile { E: v, ..self },
            Register8::H => RegisterFile { H: v, ..self },
            Register8::L => RegisterFile { L: v, ..self },
        }
    }

    /// The value of a 16-bit register or pair (not `HLInd`).
    pub open spec fn spec_read16(self, reg: Register16) -> int {
        match reg {
            Register16::AF => self.af(),
            Register16::BC => self.bc(),
            Register16::DE => self.de(),
            Register16::HL => self.hl(),
            Register16::SP => self.SP as int,
            Register16::PC => self.PC as int,
            Register16::HLInd => 0,
        }
    }

    /// The register file after writing a 16-bit register or pair (not `HLInd`).
    /// A write through AF masks F to its high nibble.
    pub open spec fn spec_write16(self, reg: Register16, val: u16) -> RegisterFile {
        match reg {
            Register16::AF => RegisterFile {
                A: (val / 256) as u8,
                F: ((val % 256) as u8) & 0xF0,
                ..self
            },
            Register16::BC => RegisterFile { B: (val / 256) as u8, C: (val % 256) as u8, ..self },
            Register16::DE => RegisterFile { D: (val / 256) as u8, E: (val % 256) as u8, ..self },
            Register16::HL => RegisterFile { H: (val / 256) as u8, L: (val % 256) as u8, ..self },
            Register16::SP => RegisterFile { SP: val, ..self },
            Register16::PC => RegisterFile { PC: val, ..self },
            Register16::HLInd => self,
        }
    }

    /// A cold-start register file: every slot is zero.
    pub fn new() -> (rf: RegisterFile)
        ensures
            rf == (RegisterFile { A: 0, F: 0, B: 0, C: 0, D: 0, E: 0, H: 0, L: 0, SP: 0, PC: 0 }),
            rf.wf(),
    {
        let rf = RegisterFile { A: 0, F: 0, B: 0, C: 0, D: 0, E: 0, H: 0, L: 0, SP: 0, PC: 0 };
        proof {
            assert(0u8 & 0x0F == 0) by (bit_vector);
        }
        rf
    }

    /// Reads one 8-bit register slot.
    pub fn get8(&self, r: Register8) -> (v: u8)
        ensures
            v == self.spec_get8(r),
    {
        match r {
            Register8::A => self.A,
            Register8::F => self.F,
            Register8::B => self.B,
            Register8::C => self.C,
            Register8::D => self.D,
            Register8::E => self.E,
            Register8::H => self.H,
            Register8::L => self.L,
        }
    }

    /// Replaces one 8-bit register slot.
    pub fn set8(&mut self, r: Register8, v: u8)
        ensures
            *final(self) == old(self).spec_set8(r, v),
    {
        match r {
            Register8::A => self.A = v,
            Register8::F => self.F = v,
            Register8::B => self.B = v,
            Register8::C => self.C = v,
            Register8::D => self.D = v,
            Register8::E => self.E = v,
            Register8::H => self.H = v,
            Register8::L => self.L = v,
        }
    }

    pub fn AF_read(&self) -> (r: u16)
        ensures
            r == self.af(),
    {
        (self.A as u16) * 256 + (self.F as u16)
    }

    /// Writes the AF pair; the low nibble of F is forced to zero.
    pub fn AF_write(&mut self, val: u16)
        ensures
            *final(self) == old(self).spec_write16(Register16::AF, val),
            final(self).wf(),
    {
        self.A = (val / 256) as u8;
        self.F = ((val % 256) as u8) & 0xF0;
        proof {
            lemma_high_nibble_wf((val % 256) as u8);
        }
    }

    pub fn BC_read(&self) -> (r: u16)
        ensures
            r == self.bc(),
    {
        (self.B as u16) * 256 + (self.C as u16)
    }

    pub fn BC_write(&mut self, val: u16)
        ensures
            *final(self) == old(self).spec_write16(Register16::BC, val),
    {
        self.B = (val / 256) as u8;
        self.C = (val % 256) as u8;
    }

    pub fn DE_read(&self) -> (r: u16)
        ensures
            r == self.de(),
    {
        (self.D as u16) * 256 + (self.E as u16)
    }

    pub fn DE_write(&mut self, val: u16)
        ensures
            *final(self) == old(self).spec_write16(Register16::DE, val),
    {
        self.D = (val / 256) as u8;
        self.E = (val % 256) as u8;
    }

    pub fn HL_read(&self) -> (r: u16)
        ensures
            r == self.hl(),
    {
        (self.H as u16) * 256 + (self.L as u16)
    }

    pub fn HL_write(&mut self, val: u16)
        ensures
            *final(self) == old(self).spec_write16(Register16::HL, val),
    {
        self.H = (val / 256) as u8;
        self.L = (val % 256) as u8;
    }

    /// Reads a 16-bit register or pair; `HLInd` has no value and is excluded.
    pub fn rf_read16(&self, reg: Register16) -> (r: u16)
        requires
            reg != Register16::HLInd,
        ensures
            r == self.spec_read16(reg),
    {
        match reg {
            Register16::AF => self.AF_read(),
            Register16::BC => self.BC_read(),
            Register16::DE => self.DE_read(),
            Register16::HL => self.HL_read(),
            Register16::SP => self.SP,
            Register16::PC => self.PC,
            Register16::HLInd => 0,
        }
    }

    /// Writes a 16-bit register or pair; `HLInd` has no slot and is excluded.
    pub fn rf_write16(&mut self, reg: Register16, val: u16)
        requires
            reg != Register16::HLInd,
        ensures
            *final(self) == old(self).spec_write16(reg, val),
    {
        match reg {
            Register16::AF => self.AF_write(val),
            Register16::BC => self.BC_write(val),
            Register16::DE => self.DE_write(val),
            Register16::HL => self.HL_write(val),
            Register16::SP => self.SP = val,
            Register16::PC => self.PC = val,
            Register16::HLInd => (),
        }
    }

    pub fn z_get(&self) -> (r: bool)
        ensures
            r == self.z(),
    {
        (self.F & 0x80) != 0
    }

    /// Sets or clears Z alone; the other bits of F are untouched.
    pub fn z_set(&mut self, val: bool)
        ensures
            *final(self) == (RegisterFile { F: spec_set_flag(old(self).F, 0x80, val), ..*old(self) }),
    {
        self.F = if val {
            self.F | 0x80
        } else {
            self.F & !0x80u8
        };
    }

    pub fn n_get(&self) -> (r: bool)
        ensures
            r == self.n(),
    {
        (self.F & 0x40) != 0
    }

    /// Sets or clears N alone; the other bits of F are untouched.
    pub fn n_set(&mut self, val: bool)
        ensures
            *final(self) == (RegisterFile { F: spec_set_flag(old(self).F, 0x40, val), ..*old(self) }),
    {
        self.F = if val {
            self.F | 0x40
        } else {
            self.F & !0x40u8
        };
    }

    pub fn h_get(&self) -> (r: bool)
        ensures
            r == self.h(),
    {
        (self.F & 0x20) != 0
    }

    /// Sets or clears H alone; the other bits of F are untouched.
    pub fn h_set(&mut self, val: bool)
        ensures
            *final(self) == (RegisterFile { F: spec_set_flag(old(self).F, 0x20, val), ..*old(self) }),
    {
        self.F = if val {
            self.F | 0x20
        } else {
            self.F & !0x20u8
        };
    }

    pub fn c_get(&self) -> (r: bool)
        ensures
            r == self.c(),
    {
        (self.F & 0x10) != 0
    }

    /// Sets or clears C alone; the other bits of F are untouched.
    pub fn c_set(&mut self, val: bool)
        ensures
            *final(self) == (RegisterFile { F: spec_set_flag(old(self).F, 0x10, val), ..*old(self) }),
    {
        self.F = if val {
            self.F | 0x10
        } else {
            self.F & !0x10u8
        };
    }
}

/// The CPU: a register file driven by the bus-level interpreter.
#[derive(Clone, Copy, PartialEq, Eq, Structural, Debug)]
pub struct Cpu {
    pub rf: RegisterFile,
}

impl Cpu {
    /// A cold-start CPU with a zeroed register file.
    pub fn new() -> (cpu: Cpu)
        ensures
            cpu.rf == (RegisterFile {
                A: 0,
                F: 0,
                B: 0,
                C: 0,
                D: 0,
                E: 0,
                H: 0,
                L: 0,
                SP: 0,
                PC: 0,
            }),
            cpu.rf.wf(),
    {
        Cpu { rf: RegisterFile::new() }
    }
}

/// Writing a pair and reading it back returns the value, except that AF
/// masks the low nibble of F (which always reads zero).
pub proof fn lemma_pair_round_trip(rf: RegisterFile, v: u16)
    ensures
        rf.spec_write16(Register16::BC, v).bc() == v,
        rf.spec_write16(Register16::DE, v).de() == v,
        rf.spec_write16(Register16::HL, v).hl() == v,
        rf.spec_write16(Register16::AF, v).af() == v & 0xFFF0,
        rf.spec_write16(Register16::AF, v).wf(),
{
    assert((v / 256) * 256 + v % 256 == v) by (nonlinear_arith);
    assert(((v / 256) as u8) == v / 256);
    assert((v / 256) * 256 + (((v % 256) as u8) & 0xF0) == v & 0xFFF0 && (((v % 256) as u8) & 0xF0)
        & 0x0F == 0) by (bit_vector);
}

} // verus!
