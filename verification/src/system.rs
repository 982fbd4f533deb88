//! The system bus and the CPU interpreter that drives it: a 16-bit address
//! decoder with a boot-ROM overlay, per-byte read/write routing to the
//! devices, and the primary and CB-prefixed instruction sets with exact
//! register, memory and T-cycle contracts.
use vstd::prelude::*;

use crate::cart::Cart;
use crate::cpu::Cpu;
use crate::cpu::Operand;
use crate::cpu::Register16;
use crate::cpu::Register8;
use crate::cpu::RegisterFile;
use crate::cpu::add16;
use crate::cpu::add8;
use crate::cpu::decode_dst;
use crate::cpu::decode_src;
use crate::cpu::lemma_flag_bits;
use crate::cpu::lemma_wrap16_chain;
use crate::cpu::operand_decode;
use crate::cpu::reg8_of;
use crate::cpu::spec_flags;
use crate::cpu::spec_operand_reg;
use crate::cpu::sub16;
use crate::cpu::sub8;
use crate::cpu::wrap_add16;
use crate::cpu::wrap_add8;
use crate::cpu::wrap_sub16;
use crate::cpu::wrap_sub8;
use crate::io::Io;
use crate::io::spec_io_read8;
use crate::io::spec_io_write8;

verus! {

/// An execution fault: raised by the bus or the interpreter and propagated
/// to the run loop, which stops on it.
#[derive(Clone, Copy, PartialEq, Eq, Structural, Debug)]
pub enum ExecutionError {
    /// The fetched opcode is outside the implemented instruction set.
    UnimplementedOpcode(u8),
    /// A read that no region can serve at this address.
    IllegalRead(u16),
    /// A write that no region accepts at this address.
    IllegalWrite(u16),
    /// The address falls in a region this core leaves without backing.
    Unimplemented(u16),
}

/// A command from the front end to the core worker.
#[derive(Clone, Copy, PartialEq, Eq, Structural, Debug)]
pub enum BackendCmd {
    /// Stop the run loop at its next iteration.
    Shutdown,
}

/// A notification from the core worker to the front end. Only `BackendDied`
/// is produced by this core; the others are reserved.
#[derive(Clone, Copy, PartialEq, Eq, Structural, Debug)]
pub enum FrontendCmd {
    BackendDied,
    BreakpointHit,
    WatchpointHit,
}

/*
General memory map:
0000-3FFF  16 KiB ROM bank 00 (boot ROM overlay on 0000-00FF while enabled)
4000-7FFF  16 KiB ROM bank 01..NN (no backing in this core)
8000-9FFF  8 KiB video RAM
A000-BFFF  8 KiB external cart RAM (no backing in this core)
C000-DFFF  8 KiB work RAM
E000-FDFF  echo RAM (no backing in this core)
FE00-FE9F  OAM (no backing in this core)
FEA0-FEFF  not usable
FF00-FF7F  I/O registers
FF80-FFFE  high RAM
FFFF       IE register (no backing in this core)
*/
/// The memory side of the machine as the bus sees it: the boot ROM image,
/// the header window the cartridge serves, the three RAM regions, and the
/// I/O fabric (whose latch decides the overlay).
pub ghost struct MemV {
    pub boot: Seq<u8>,
    pub cart: Seq<u8>,
    pub vram: Seq<u8>,
    pub wram: Seq<u8>,
    pub hram: Seq<u8>,
    pub io: Io,
}

/// The byte the cartridge serves at `addr`: header bytes in $0100-$014F,
/// zero elsewhere (bank reads outside the header are a documented stub).
pub open spec fn spec_cart_byte_mem(cart: Seq<u8>, addr: u16) -> u8 {
    if 0x0100 <= addr < 0x0150 {
        cart[addr - 0x0100]
    } else {
        0
    }
}

/// What a one-byte bus read at `addr` returns. While the overlay latch is
/// clear, $0000-$00FF reads the boot ROM; regions without backing in this
/// core fail with `Unimplemented`.
pub open spec fn spec_read8_mem(m: MemV, addr: u16) -> Result<u8, ExecutionError> {
    if addr < 0x0100 && m.io.bootrom_disable == 0 {
        Ok(m.boot[addr as int])
    } else if addr < 0x4000 {
        Ok(spec_cart_byte_mem(m.cart, addr))
    } else if addr < 0x8000 {
        Err(ExecutionError::Unimplemented(addr))
    } else if addr < 0xA000 {
        Ok(m.vram[addr - 0x8000])
    } else if addr < 0xC000 {
        Err(ExecutionError::Unimplemented(addr))
    } else if addr < 0xE000 {
        Ok(m.wram[addr - 0xC000])
    } else if addr < 0xFF00 {
        Err(ExecutionError::Unimplemented(addr))
    } else if addr < 0xFF80 {
        spec_io_read8(m.io, addr)
    } else if addr < 0xFFFF {
        Ok(m.hram[addr - 0xFF80])
    } else {
        Err(ExecutionError::Unimplemented(addr))
    }
}

/// The memory state after a one-byte bus write at `addr`. Writes into the
/// active boot overlay fail with `IllegalWrite`; writes to cart ROM are
/// accepted and discarded; regions without backing fail with
/// `Unimplemented`.
pub open spec fn spec_write8_mem(m: MemV, addr: u16, val: u8) -> Result<MemV, ExecutionError> {
    if addr < 0x0100 && m.io.bootrom_disable == 0 {
        Err(ExecutionError::IllegalWrite(addr))
    } else if addr < 0x4000 {
        Ok(m)
    } else if addr < 0x8000 {
        Err(ExecutionError::Unimplemented(addr))
    } else if addr < 0xA000 {
        Ok(MemV { vram: m.vram.update(addr - 0x8000, val), ..m })
    } else if addr < 0xC000 {
        Err(ExecutionError::Unimplemented(addr))
    } else if addr < 0xE000 {
        Ok(MemV { wram: m.wram.update(addr - 0xC000, val), ..m })
    } else if addr < 0xFF00 {
        Err(ExecutionError::Unimplemented(addr))
    } else if addr < 0xFF80 {
        match spec_io_write8(m.io, addr, val) {
            Ok(io) => Ok(MemV { io, ..m }),
            Err(e) => Err(e),
        }
    } else if addr < 0xFFFF {
        Ok(MemV { hram: m.hram.update(addr - 0xFF80, val), ..m })
    } else {
        Err(ExecutionError::Unimplemented(addr))
    }
}

/// The memory state after writing `data` byte by byte from `addr` on: the
/// state reached, and the error that stopped the write if one did.
pub open spec fn spec_write_seq_mem(m: MemV, addr: int, data: Seq<u8>) -> (MemV, Option<
    ExecutionError,
>)
    decreases data.len(),
{
    if data.len() <= 0 {
        (m, None)
    } else {
        match spec_write8_mem(m, addr as u16, data[0]) {
            Ok(m2) => spec_write_seq_mem(m2, addr + 1, data.subrange(1, data.len() as int)),
            Err(e) => (m, Some(e)),
        }
    }
}

/// The whole Game Boy system: CPU, cartridge, I/O fabric, boot ROM image,
/// the RAM regions the bus owns, and the accumulated machine-cycle count.
pub struct System {
    pub cpu: Cpu,
    pub cart: Cart,
    pub io: Io,
    pub boot_rom: Vec<u8>,
    pub vram: Vec<u8>,
    pub wram: Vec<u8>,
    pub hram: Vec<u8>,
    pub M_cycles: u64,
}

impl System {
    /// The memory side of this system as the bus decodes it.
    pub open spec fn memv(self) -> MemV {
        MemV {
            boot: self.boot_rom@,
            cart: self.cart.header@,
            vram: self.vram@,
            wram: self.wram@,
            hram: self.hram@,
            io: self.io,
        }
    }

    /// Well-formed: the regions have their hardware sizes, the cartridge
    /// header is intact, and the flag register keeps its low nibble clear.
    pub open spec fn wf(self) -> bool {
        self.boot_rom@.len() == 0x100 && self.vram@.len() == 8192 && self.wram@.len() == 8192
            && self.hram@.len() == 127 && self.cart.wf() && self.cpu.rf.wf()
    }

    /// Assembles a system around a CPU, cartridge and I/O fabric. The RAM
    /// regions and the cycle counter are born zero; the boot ROM image must
    /// be exactly 256 bytes.
    pub fn new(cpu: Cpu, cart: Cart, io: Io, boot_rom: Vec<u8>) -> (s: System)
        requires
            boot_rom@.len() == 0x100,
            cart.wf(),
            cpu.rf.wf(),
        ensures
            s.wf(),
            s.cpu == cpu,
            s.cart == cart,
            s.io == io,
            s.boot_rom == boot_rom,
            s.vram@ == Seq::new(8192, |i: int| 0u8),
            s.wram@ == Seq::new(8192, |i: int| 0u8),
            s.hram@ == Seq::new(127, |i: int| 0u8),
            s.M_cycles == 0,
    {
        let s = System {
            cpu,
            cart,
            io,
            boot_rom,
            vram: zero_bytes(8192),
            wram: zero_bytes(8192),
            hram: zero_bytes(127),
            M_cycles: 0,
        };
        proof {
            assert(s.vram@ =~= Seq::new(8192, |i: int| 0u8));
            assert(s.wram@ =~= Seq::new(8192, |i: int| 0u8));
            assert(s.hram@ =~= Seq::new(127, |i: int| 0u8));
        }
        s
    }

    /// Reads one byte through the address decoder.
    pub fn read8(&self, addr: u16) -> (r: Result<u8, ExecutionError>)
        requires
            self.wf(),
        ensures
            r == spec_read8_mem(self.memv(), addr),
    {
        if addr < 0x0100 && self.io.bootrom_disable == 0 {
            Ok(self.boot_rom[addr as usize])
        } else if addr < 0x4000 {
            if 0x0100 <= addr && addr < 0x0150 {
                Ok(self.cart.header_byte((addr - 0x0100) as usize))
            } else {
                Ok(0)
            }
        } else if addr < 0x8000 {
            Err(ExecutionError::Unimplemented(addr))
        } else if addr < 0xA000 {
            Ok(self.vram[(addr - 0x8000) as usize])
        } else if addr < 0xC000 {
            Err(ExecutionError::Unimplemented(addr))
        } else if addr < 0xE000 {
            Ok(self.wram[(addr - 0xC000) as usize])
        } else if addr < 0xFF00 {
            Err(ExecutionError::Unimplemented(addr))
        } else if addr < 0xFF80 {
            self.io.read8(addr)
        } else if addr < 0xFFFF {
            Ok(self.hram[(addr - 0xFF80) as usize])
        } else {
            Err(ExecutionError::Unimplemented(addr))
        }
    }

    /// Writes one byte through the address decoder. The CPU, the cycle
    /// counter and the cartridge are never touched; on an error nothing is.
    pub fn write8(&mut self, addr: u16, val: u8) -> (r: Result<usize, ExecutionError>)
        requires
            old(self).wf(),
        ensures
            final(self).wf(),
            final(self).cpu == old(self).cpu,
            final(self).M_cycles == old(self).M_cycles,
            match spec_write8_mem(old(self).memv(), addr, val) {
                Ok(m) => r == Ok::<usize, ExecutionError>(1) && final(self).memv() == m,
                Err(e) => r == Err::<usize, ExecutionError>(e) && final(self).memv() == old(
                    self,
                ).memv(),
            },
    {
        if addr < 0x0100 && self.io.bootrom_disable == 0 {
            Err(ExecutionError::IllegalWrite(addr))
        } else if addr < 0x4000 {
            Ok(1)
        } else if addr < 0x8000 {
            Err(ExecutionError::Unimplemented(addr))
        } else if addr < 0xA000 {
            self.vram.set((addr - 0x8000) as usize, val);
            Ok(1)
        } else if addr < 0xC000 {
            Err(ExecutionError::Unimplemented(addr))
        } else if addr < 0xE000 {
            self.wram.set((addr - 0xC000) as usize, val);
            Ok(1)
        } else if addr < 0xFF00 {
            Err(ExecutionError::Unimplemented(addr))
        } else if addr < 0xFF80 {
            self.io.write8(addr, val)
        } else if addr < 0xFFFF {
            self.hram.set((addr - 0xFF80) as usize, val);
            Ok(1)
        } else {
            Err(ExecutionError::Unimplemented(addr))
        }
    }

    /// Reads `len` bytes starting at `address`, without wrap. The window is
    /// split byte by byte over the regions it crosses (so an overlay-era
    /// read straddling $00FF/$0100 returns the boot ROM tail followed by
    /// cart bytes); it fails on the first byte no region can serve.
    pub fn read(&self, address: u16, len: usize) -> (r: Result<Vec<u8>, ExecutionError>)
        requires
            self.wf(),
        ensures
            address + len > 0x10000 ==> r == Err::<Vec<u8>, ExecutionError>(
                ExecutionError::IllegalRead(address),
            ),
            address + len <= 0x10000 ==> match r {
                Ok(v) => v@.len() == len && (forall|a: u16|
                    address <= a < address + len ==> (#[trigger] spec_read8_mem(self.memv(), a))
                        == Ok::<u8, ExecutionError>(v@[a - address])),
                Err(e) => exists|a: u16|
                    address <= a < address + len && (forall|b: u16|
                        address <= b < a ==> (#[trigger] spec_read8_mem(self.memv(), b)) is Ok) && (
                    #[trigger] spec_read8_mem(self.memv(), a)) == Err::<u8, ExecutionError>(e),
            },
            r is Ok <==> address + len <= 0x10000 && (forall|a: u16|
                address <= a < address + len ==> (#[trigger] spec_read8_mem(self.memv(), a)) is Ok),
    {
        if len > 0x10000 - address as usize {
            return Err(ExecutionError::IllegalRead(address));
        }
        let mut v: Vec<u8> = Vec::new();
        let mut i: usize = 0;
        while i < len
            invariant
                self.wf(),
                i <= len,
                address + len <= 0x10000,
                v@.len() == i,
                forall|a: u16|
                    address <= a < address + i ==> (#[trigger] spec_read8_mem(self.memv(), a))
                        == Ok::<u8, ExecutionError>(v@[a - address]),
            decreases len - i,
        {
            match self.read8(address + i as u16) {
                Ok(b) => v.push(b),
                Err(e) => {
                    return Err(e);
                },
            }
            i += 1;
        }
        Ok(v)
    }

    /// Writes `data` starting at `address`, without wrap, byte by byte over
    /// the regions the window crosses; it stops at the first byte no region
    /// accepts, leaving the earlier bytes written.
    pub fn write(&mut self, address: u16, data: &[u8]) -> (r: Result<usize, ExecutionError>)
        requires
            old(self).wf(),
        ensures
            final(self).wf(),
            final(self).cpu == old(self).cpu,
            final(self).M_cycles == old(self).M_cycles,
            address + data@.len() > 0x10000 ==> r == Err::<usize, ExecutionError>(
                ExecutionError::IllegalWrite(address),
            ) && final(self).memv() == old(self).memv(),
            address + data@.len() <= 0x10000 ==> {
                let (m2, oe) = spec_write_seq_mem(old(self).memv(), address as int, data@);
                final(self).memv() == m2 && match oe {
                    None => r == Ok::<usize, ExecutionError>(data@.len() as usize),
                    Some(e) => r == Err::<usize, ExecutionError>(e),
                }
            },
    {
        if data.len() > 0x10000 - address as usize {
            return Err(ExecutionError::IllegalWrite(address));
        }
        let ghost data0 = data@;
        proof {
            assert(data0.subrange(0, data0.len() as int) =~= data0);
        }
        let mut i: usize = 0;
        while i < data.len()
            invariant
                self.wf(),
                self.cpu == old(self).cpu,
                self.M_cycles == old(self).M_cycles,
                i <= data@.len(),
                data@ == data0,
                address + data@.len() <= 0x10000,
                spec_write_seq_mem(old(self).memv(), address as int, data0) == spec_write_seq_mem(
                    self.memv(),
                    address + i,
                    data0.subrange(i as int, data0.len() as int),
                ),
            decreases data@.len() - i,
        {
            let ghost pre = self.memv();
            let ghost rest = data0.subrange(i as int, data0.len() as int);
            match self.write8(address + i as u16, data[i]) {
                Ok(_) => (),
                Err(e) => {
                    proof {
                        assert(spec_write_seq_mem(pre, address + i, rest) == (pre, Some(e)));
                    }
                    return Err(e);
                },
            }
            proof {
                assert(rest.subrange(1, rest.len() as int) =~= data0.subrange(
                    i + 1,
                    data0.len() as int,
                ));
            }
            i += 1;
        }
        proof {
            assert(data0.subrange(data0.len() as int, data0.len() as int) =~= Seq::<u8>::empty());
        }
        Ok(data.len())
    }
}

/// The register file with its program counter stepped by `n`, wrapping.
pub open spec fn spec_pc_plus(rf: RegisterFile, n: int) -> RegisterFile {
    RegisterFile { PC: add16(rf.PC as int, n), ..rf }
}

/// The pair an opcode row names for the 16-bit load, increment and
/// decrement groups: row $0x BC, $1x DE, $2x HL, $3x SP.
pub open spec fn spec_rr_target(opcode: u8) -> Register16 {
    if opcode < 0x10 {
        Register16::BC
    } else if opcode < 0x20 {
        Register16::DE
    } else if opcode < 0x30 {
        Register16::HL
    } else {
        Register16::SP
    }
}

/// The operand an ALU or CB instruction fetches, with its T-cycle cost:
/// the immediate after `rf.PC` when the opcode is the group's immediate
/// form, the byte at HL for operand code 6, the named register otherwise.
pub open spec fn spec_operand_fetch(rf: RegisterFile, m: MemV, opcode: u8, imm_op: u8) -> Result<
    (u8, usize),
    ExecutionError,
> {
    if opcode == imm_op {
        match spec_read8_mem(m, rf.PC) {
            Ok(b) => Ok((b, 8)),
            Err(e) => Err(e),
        }
    } else if opcode % 8 == 6 {
        match spec_read8_mem(m, rf.hl() as u16) {
            Ok(b) => Ok((b, 8)),
            Err(e) => Err(e),
        }
    } else {
        Ok((rf.spec_get8(spec_operand_reg(opcode % 8)), 4))
    }
}

/// The register file after `ADD`/`ADC`: A gains the operand (and the old
/// carry for ADC); Z from the result, N clear, H on carry out of bit 3,
/// C on carry out of bit 7.
pub open spec fn spec_alu_add(rf: RegisterFile, v: u8, cin: bool) -> RegisterFile {
    let c1: int = if cin {
        1
    } else {
        0
    };
    RegisterFile {
        A: add8(rf.A as int, v + c1),
        F: spec_flags(
            add8(rf.A as int, v + c1) == 0,
            false,
            rf.A % 16 + v % 16 + c1 > 15,
            rf.A + v + c1 > 255,
        ),
        ..rf
    }
}

/// The register file after `SUB`/`SBC`: A loses the operand (and the old
/// carry for SBC); Z from the result, N set, H on borrow from bit 4,
/// C on borrow from bit 7.
pub open spec fn spec_alu_sub(rf: RegisterFile, v: u8, cin: bool) -> RegisterFile {
    let c1: int = if cin {
        1
    } else {
        0
    };
    RegisterFile {
        A: sub8(rf.A as int, v + c1),
        F: spec_flags(
            sub8(rf.A as int, v + c1) == 0,
            true,
            rf.A % 16 < v % 16 + c1,
            rf.A < v + c1,
        ),
        ..rf
    }
}

/// The register file after `CP`: the flags of `SUB` with A kept.
pub open spec fn spec_alu_cp(rf: RegisterFile, v: u8) -> RegisterFile {
    RegisterFile {
        F: spec_flags(sub8(rf.A as int, v as int) == 0, true, rf.A % 16 < v % 16, rf.A < v),
        ..rf
    }
}

/// The register file after `AND`: Z from the result, N clear, H set, C clear.
pub open spec fn spec_alu_and(rf: RegisterFile, v: u8) -> RegisterFile {
    RegisterFile { A: rf.A & v, F: spec_flags((rf.A & v) == 0, false, true, false), ..rf }
}

/// The register file after `XOR`: Z from the result, N, H and C clear.
pub open spec fn spec_alu_xor(rf: RegisterFile, v: u8) -> RegisterFile {
    RegisterFile { A: rf.A ^ v, F: spec_flags((rf.A ^ v) == 0, false, false, false), ..rf }
}

/// The register file after `OR`: Z from the result, N, H and C clear.
pub open spec fn spec_alu_or(rf: RegisterFile, v: u8) -> RegisterFile {
    RegisterFile { A: rf.A | v, F: spec_flags((rf.A | v) == 0, false, false, false), ..rf }
}

/// The flags after an 8-bit `INC` of `v`: Z from the result, N clear,
/// H on nibble overflow, C untouched.
pub open spec fn spec_inc8_flags(rf: RegisterFile, v: u8) -> u8 {
    spec_flags(add8(v as int, 1) == 0, false, v % 16 == 15, rf.c())
}

/// The flags after an 8-bit `DEC` of `v`: Z from the result, N set,
/// H on nibble borrow, C untouched.
pub open spec fn spec_dec8_flags(rf: RegisterFile, v: u8) -> u8 {
    spec_flags(sub8(v as int, 1) == 0, true, v % 16 == 0, rf.c())
}

/// The pair the stack opcodes name by row: $Cx BC, $Dx DE, $Ex HL, $Fx AF.
pub open spec fn spec_stack_pair(opcode: u8) -> Register16 {
    if opcode < 0xD0 {
        Register16::BC
    } else if opcode < 0xE0 {
        Register16::DE
    } else if opcode < 0xF0 {
        Register16::HL
    } else {
        Register16::AF
    }
}

/// Whether a conditional `CALL` takes its branch: $C4 on NZ, $D4 on NC,
/// $CC on Z, $DC on C; the unconditional form always does.
pub open spec fn spec_call_cond(opcode: u8, rf: RegisterFile) -> bool {
    if opcode == 0xC4 {
        !rf.z()
    } else if opcode == 0xD4 {
        !rf.c()
    } else if opcode == 0xCC {
        rf.z()
    } else if opcode == 0xDC {
        rf.c()
    } else {
        true
    }
}

/// Whether a conditional `RET` takes its branch: $C0 on NZ, $D0 on NC,
/// $C8 on Z, $D8 on C; $C9 and $D9 always do.
pub open spec fn spec_ret_cond(opcode: u8, rf: RegisterFile) -> bool {
    if opcode == 0xC0 {
        !rf.z()
    } else if opcode == 0xD0 {
        !rf.c()
    } else if opcode == 0xC8 {
        rf.z()
    } else if opcode == 0xD8 {
        rf.c()
    } else {
        true
    }
}

/// Whether a relative jump takes its branch: $20 on NZ, $30 on NC, $28 on
/// Z, $38 on C; $18 always does.
pub open spec fn spec_jr_cond(opcode: u8, rf: RegisterFile) -> bool {
    if opcode == 0x20 {
        !rf.z()
    } else if opcode == 0x30 {
        !rf.c()
    } else if opcode == 0x28 {
        rf.z()
    } else if opcode == 0x38 {
        rf.c()
    } else {
        true
    }
}

/// The destination of a taken relative jump: the signed 8-bit offset added
/// to the address of the following instruction, wrapping.
pub open spec fn spec_jr_target(pc: u16, off: u8) -> u16 {
    if off < 0x80 {
        add16(pc as int, 2 + off)
    } else {
        add16(pc as int, 2 + off - 256)
    }
}

/// A byte rotated left; bit 7 wraps to bit 0.
pub open spec fn spec_rlc_res(v: u8) -> u8 {
    (v % 128 * 2 + v / 128) as u8
}

/// A byte rotated right; bit 0 wraps to bit 7.
pub open spec fn spec_rrc_res(v: u8) -> u8 {
    (v / 2 + v % 2 * 128) as u8
}

/// A byte rotated left through the carry: the old carry enters bit 0.
pub open spec fn spec_rl_res(v: u8, cin: bool) -> u8 {
    (v % 128 * 2 + if cin {
        1int
    } else {
        0int
    }) as u8
}

/// A byte rotated right through the carry: the old carry enters bit 7.
pub open spec fn spec_rr_res(v: u8, cin: bool) -> u8 {
    (v / 2 + if cin {
        128int
    } else {
        0int
    }) as u8
}

/// A byte shifted left arithmetically; bit 0 becomes zero.
pub open spec fn spec_sla_res(v: u8) -> u8 {
    (v % 128 * 2) as u8
}

/// A byte shifted right arithmetically; bit 7 is preserved.
pub open spec fn spec_sra_res(v: u8) -> u8 {
    (v / 2 + v / 128 * 128) as u8
}

/// A byte with its nibbles swapped.
pub open spec fn spec_swap_res(v: u8) -> u8 {
    (v % 16 * 16 + v / 16) as u8
}

/// A byte shifted right logically; bit 7 becomes zero.
pub open spec fn spec_srl_res(v: u8) -> u8 {
    v / 2
}

impl System {
    /// `LD rr,nn` ($01/$11/$21/$31): loads the 16-bit little-endian
    /// immediate into BC, DE, HL or SP. PC advances by 3; 12 T-cycles.
    pub fn LD16imm(&mut self, opcode: u8) -> (r: Result<usize, ExecutionError>)
        requires
            old(self).wf(),
            opcode == 0x01 || opcode == 0x11 || opcode == 0x21 || opcode == 0x31,
        ensures
            final(self).wf(),
            final(self).M_cycles == old(self).M_cycles,
            ld16imm_post(
                old(self).cpu.rf,
                old(self).memv(),
                final(self).cpu.rf,
                final(self).memv(),
                opcode,
                r,
            ),
    {
        let ghost pc0 = self.cpu.rf.PC;
        self.cpu.rf.PC = wrap_add16(self.cpu.rf.PC, 1);
        proof {
            lemma_wrap16_chain(pc0 as int, 1, 1);
            lemma_wrap16_chain(pc0 as int, 1, 2);
        }
        let lo = match self.read8(self.cpu.rf.PC) {
            Ok(b) => b,
            Err(e) => {
                return Err(e);
            },
        };
        let hi = match self.read8(wrap_add16(self.cpu.rf.PC, 1)) {
            Ok(b) => b,
            Err(e) => {
                return Err(e);
            },
        };
        let data: u16 = lo as u16 + 256 * (hi as u16);
        match opcode {
            0x01 => self.cpu.rf.BC_write(data),
            0x11 => self.cpu.rf.DE_write(data),
            0x21 => self.cpu.rf.HL_write(data),
            _ => self.cpu.rf.SP = data,
        }
        self.cpu.rf.PC = wrap_add16(self.cpu.rf.PC, 2);
        Ok(12)
    }

    /// `LD (HL),r` ($70-$75/$77), `LD (HL±),A` ($22/$32) and `LD (HL),n`
    /// ($36): stores a byte at address HL; the HL± forms then step HL.
    /// 8 T-cycles, 12 for the immediate form.
    pub fn STRHL(&mut self, opcode: u8) -> (r: Result<usize, ExecutionError>)
        requires
            old(self).wf(),
            (0x70 <= opcode <= 0x75) || opcode == 0x77 || opcode == 0x22 || opcode == 0x32
                || opcode == 0x36,
        ensures
            final(self).wf(),
            final(self).M_cycles == old(self).M_cycles,
            strhl_post(
                old(self).cpu.rf,
                old(self).memv(),
                final(self).cpu.rf,
                final(self).memv(),
                opcode,
                r,
            ),
    {
        self.cpu.rf.PC = wrap_add16(self.cpu.rf.PC, 1);
        if opcode == 0x36 {
            let b = match self.read8(self.cpu.rf.PC) {
                Ok(b) => b,
                Err(e) => {
                    return Err(e);
                },
            };
            self.cpu.rf.PC = wrap_add16(self.cpu.rf.PC, 1);
            proof {
                lemma_wrap16_chain(old(self).cpu.rf.PC as int, 1, 1);
            }
            let hl = self.cpu.rf.HL_read();
            match self.write8(hl, b) {
                Ok(_) => Ok(12),
                Err(e) => Err(e),
            }
        } else {
            let v = if opcode == 0x22 || opcode == 0x32 {
                self.cpu.rf.A
            } else {
                let s = decode_src(opcode);
                self.cpu.rf.get8(reg8_of(s))
            };
            let hl = self.cpu.rf.HL_read();
            match self.write8(hl, v) {
                Err(e) => Err(e),
                Ok(_) => {
                    if opcode == 0x22 {
                        let nhl = wrap_add16(self.cpu.rf.HL_read(), 1);
                        self.cpu.rf.HL_write(nhl);
                    } else if opcode == 0x32 {
                        let nhl = wrap_sub16(self.cpu.rf.HL_read(), 1);
                        self.cpu.rf.HL_write(nhl);
                    }
                    Ok(8)
                },
            }
        }
    }

    /// `LD r,n` ($06/$0E/$16/$1E/$26/$2E/$3E): loads the 8-bit immediate
    /// into the register named by opcode bits 5:3. PC advances by 2;
    /// 8 T-cycles.
    pub fn LD8imm(&mut self, opcode: u8) -> (r: Result<usize, ExecutionError>)
        requires
            old(self).wf(),
            opcode == 0x06 || opcode == 0x0E || opcode == 0x16 || opcode == 0x1E || opcode == 0x26
                || opcode == 0x2E || opcode == 0x3E,
        ensures
            final(self).wf(),
            final(self).M_cycles == old(self).M_cycles,
            ld8imm_post(
                old(self).cpu.rf,
                old(self).memv(),
                final(self).cpu.rf,
                final(self).memv(),
                opcode,
                r,
            ),
    {
        self.cpu.rf.PC = wrap_add16(self.cpu.rf.PC, 1);
        let imm = match self.read8(self.cpu.rf.PC) {
            Ok(b) => b,
            Err(e) => {
                return Err(e);
            },
        };
        self.cpu.rf.PC = wrap_add16(self.cpu.rf.PC, 1);
        proof {
            lemma_wrap16_chain(old(self).cpu.rf.PC as int, 1, 1);
        }
        let d = decode_dst(opcode);
        self.cpu.rf.set8(reg8_of(d), imm);
        Ok(8)
    }

    /// `LD r,r'` and the HL-indirect moves ($40-$7F, $76 excluded):
    /// copies between registers (4 T-cycles), from memory at HL into a
    /// register, or from a register into memory at HL (8 T-cycles).
    pub fn MV(&mut self, opcode: u8) -> (r: Result<usize, ExecutionError>)
        requires
            old(self).wf(),
            0x40 <= opcode < 0x80,
            opcode != 0x76,
        ensures
            final(self).wf(),
            final(self).M_cycles == old(self).M_cycles,
            mv_post(
                old(self).cpu.rf,
                old(self).memv(),
                final(self).cpu.rf,
                final(self).memv(),
                opcode,
                r,
            ),
    {
        self.cpu.rf.PC = wrap_add16(self.cpu.rf.PC, 1);
        let d = decode_dst(opcode);
        let s = decode_src(opcode);
        if d == 6 {
            let v = self.cpu.rf.get8(reg8_of(s));
            let hl = self.cpu.rf.HL_read();
            match self.write8(hl, v) {
                Ok(_) => Ok(8),
                Err(e) => Err(e),
            }
        } else if s == 6 {
            let hl = self.cpu.rf.HL_read();
            match self.read8(hl) {
                Ok(b) => {
                    self.cpu.rf.set8(reg8_of(d), b);
                    Ok(8)
                },
                Err(e) => Err(e),
            }
        } else {
            let v = self.cpu.rf.get8(reg8_of(s));
            self.cpu.rf.set8(reg8_of(d), v);
            Ok(4)
        }
    }
    /// `LD A,(BC)`/`LD A,(DE)`/`LD A,(HL+)`/`LD A,(HL-)` ($0A/$1A/$2A/$3A):
    /// loads A from memory at the pair; the HL± forms then step HL.
    /// PC advances by 1; 8 T-cycles.
    pub fn LDA(&mut self, opcode: u8) -> (r: Result<usize, ExecutionError>)
        requires
            old(self).wf(),
            opcode == 0x0A || opcode == 0x1A || opcode == 0x2A || opcode == 0x3A,
        ensures
            final(self).wf(),
            final(self).M_cycles == old(self).M_cycles,
            lda_post(
                old(self).cpu.rf,
                old(self).memv(),
                final(self).cpu.rf,
                final(self).memv(),
                opcode,
                r,
            ),
    {
        self.cpu.rf.PC = wrap_add16(self.cpu.rf.PC, 1);
        let addr = if opcode == 0x0A {
            self.cpu.rf.BC_read()
        } else if opcode == 0x1A {
            self.cpu.rf.DE_read()
        } else {
            self.cpu.rf.HL_read()
        };
        let b = match self.read8(addr) {
            Ok(b) => b,
            Err(e) => {
                return Err(e);
            },
        };
        if opcode == 0x2A {
            let nhl = wrap_add16(self.cpu.rf.HL_read(), 1);
            self.cpu.rf.HL_write(nhl);
        } else if opcode == 0x3A {
            let nhl = wrap_sub16(self.cpu.rf.HL_read(), 1);
            self.cpu.rf.HL_write(nhl);
        }
        self.cpu.rf.A = b;
        Ok(8)
    }

    /// `LD (BC),A`/`LD (DE),A`/`LD (HL+),A`/`LD (HL-),A` ($02/$12/$22/$32):
    /// stores A at the pair's address; the HL± forms step HL before the
    /// store is attempted. PC advances by 1; 8 T-cycles.
    pub fn STRA(&mut self, opcode: u8) -> (r: Result<usize, ExecutionError>)
        requires
            old(self).wf(),
            opcode == 0x02 || opcode == 0x12 || opcode == 0x22 || opcode == 0x32,
        ensures
            final(self).wf(),
            final(self).M_cycles == old(self).M_cycles,
            stra_post(
                old(self).cpu.rf,
                old(self).memv(),
                final(self).cpu.rf,
                final(self).memv(),
                opcode,
                r,
            ),
    {
        self.cpu.rf.PC = wrap_add16(self.cpu.rf.PC, 1);
        let addr = if opcode == 0x02 {
            self.cpu.rf.BC_read()
        } else if opcode == 0x12 {
            self.cpu.rf.DE_read()
        } else {
            self.cpu.rf.HL_read()
        };
        if opcode == 0x22 {
            let nhl = wrap_add16(self.cpu.rf.HL_read(), 1);
            self.cpu.rf.HL_write(nhl);
        } else if opcode == 0x32 {
            let nhl = wrap_sub16(self.cpu.rf.HL_read(), 1);
            self.cpu.rf.HL_write(nhl);
        }
        let a = self.cpu.rf.A;
        match self.write8(addr, a) {
            Ok(_) => Ok(8),
            Err(e) => Err(e),
        }
    }

    /// `LD A,(nn)` ($FA): loads A from the 16-bit little-endian immediate
    /// address. PC advances by 3; 16 T-cycles.
    pub fn LDA16(&mut self, opcode: u8) -> (r: Result<usize, ExecutionError>)
        requires
            old(self).wf(),
            opcode == 0xFA,
        ensures
            final(self).wf(),
            final(self).M_cycles == old(self).M_cycles,
            lda16_post(
                old(self).cpu.rf,
                old(self).memv(),
                final(self).cpu.rf,
                final(self).memv(),
                opcode,
                r,
            ),
    {
        let ghost pc0 = self.cpu.rf.PC;
        self.cpu.rf.PC = wrap_add16(self.cpu.rf.PC, 1);
        proof {
            lemma_wrap16_chain(pc0 as int, 1, 1);
            lemma_wrap16_chain(pc0 as int, 1, 2);
        }
        let lo = match self.read8(self.cpu.rf.PC) {
            Ok(b) => b,
            Err(e) => {
                return Err(e);
            },
        };
        let hi = match self.read8(wrap_add16(self.cpu.rf.PC, 1)) {
            Ok(b) => b,
            Err(e) => {
                return Err(e);
            },
        };
        self.cpu.rf.PC = wrap_add16(self.cpu.rf.PC, 2);
        let addr: u16 = lo as u16 + 256 * (hi as u16);
        let b = match self.read8(addr) {
            Ok(b) => b,
            Err(e) => {
                return Err(e);
            },
        };
        self.cpu.rf.A = b;
        Ok(16)
    }

    /// `LD (nn),A` ($EA): stores A at the 16-bit little-endian immediate
    /// address. PC advances by 3; 16 T-cycles.
    pub fn STRA16(&mut self, opcode: u8) -> (r: Result<usize, ExecutionError>)
        requires
            old(self).wf(),
            opcode == 0xEA,
        ensures
            final(self).wf(),
            final(self).M_cycles == old(self).M_cycles,
            stra16_post(
                old(self).cpu.rf,
                old(self).memv(),
                final(self).cpu.rf,
                final(self).memv(),
                opcode,
                r,
            ),
    {
        let ghost pc0 = self.cpu.rf.PC;
        self.cpu.rf.PC = wrap_add16(self.cpu.rf.PC, 1);
        proof {
            lemma_wrap16_chain(pc0 as int, 1, 1);
            lemma_wrap16_chain(pc0 as int, 1, 2);
        }
        let lo = match self.read8(self.cpu.rf.PC) {
            Ok(b) => b,
            Err(e) => {
                return Err(e);
            },
        };
        let hi = match self.read8(wrap_add16(self.cpu.rf.PC, 1)) {
            Ok(b) => b,
            Err(e) => {
                return Err(e);
            },
        };
        self.cpu.rf.PC = wrap_add16(self.cpu.rf.PC, 2);
        let addr: u16 = lo as u16 + 256 * (hi as u16);
        let a = self.cpu.rf.A;
        match self.write8(addr, a) {
            Ok(_) => Ok(16),
            Err(e) => Err(e),
        }
    }

    /// `LD ($FF00+n),A` ($E0, 12 T-cycles) and `LD ($FF00+C),A` ($E2,
    /// 8 T-cycles): stores A into the I/O page.
    pub fn WriteIO(&mut self, opcode: u8) -> (r: Result<usize, ExecutionError>)
        requires
            old(self).wf(),
            opcode == 0xE0 || opcode == 0xE2,
        ensures
            final(self).wf(),
            final(self).M_cycles == old(self).M_cycles,
            writeio_post(
                old(self).cpu.rf,
                old(self).memv(),
                final(self).cpu.rf,
                final(self).memv(),
                opcode,
                r,
            ),
    {
        self.cpu.rf.PC = wrap_add16(self.cpu.rf.PC, 1);
        let (addr, t) = if opcode == 0xE0 {
            let n = match self.read8(self.cpu.rf.PC) {
                Ok(b) => b,
                Err(e) => {
                    return Err(e);
                },
            };
            self.cpu.rf.PC = wrap_add16(self.cpu.rf.PC, 1);
            proof {
                lemma_wrap16_chain(old(self).cpu.rf.PC as int, 1, 1);
            }
            (0xFF00 + n as u16, 12)
        } else {
            (0xFF00 + self.cpu.rf.C as u16, 8)
        };
        let a = self.cpu.rf.A;
        match self.write8(addr, a) {
            Ok(_) => Ok(t),
            Err(e) => Err(e),
        }
    }

    /// `LD A,($FF00+n)` ($F0, 12 T-cycles) and `LD A,($FF00+C)` ($F2,
    /// 8 T-cycles): loads A from the I/O page.
    pub fn ReadIO(&mut self, opcode: u8) -> (r: Result<usize, ExecutionError>)
        requires
            old(self).wf(),
            opcode == 0xF0 || opcode == 0xF2,
        ensures
            final(self).wf(),
            final(self).M_cycles == old(self).M_cycles,
            readio_post(
                old(self).cpu.rf,
                old(self).memv(),
                final(self).cpu.rf,
                final(self).memv(),
                opcode,
                r,
            ),
    {
        self.cpu.rf.PC = wrap_add16(self.cpu.rf.PC, 1);
        let (addr, t) = if opcode == 0xF0 {
            let n = match self.read8(self.cpu.rf.PC) {
                Ok(b) => b,
                Err(e) => {
                    return Err(e);
                },
            };
            self.cpu.rf.PC = wrap_add16(self.cpu.rf.PC, 1);
            proof {
                lemma_wrap16_chain(old(self).cpu.rf.PC as int, 1, 1);
            }
            (0xFF00 + n as u16, 12)
        } else {
            (0xFF00 + self.cpu.rf.C as u16, 8)
        };
        let b = match self.read8(addr) {
            Ok(b) => b,
            Err(e) => {
                return Err(e);
            },
        };
        self.cpu.rf.A = b;
        Ok(t)
    }
    /// Fetches the operand of an ALU instruction: the immediate at PC for
    /// the group's immediate opcode (PC then advances over it), the byte at
    /// HL for operand code 6, the named register otherwise. Returns the
    /// value with its T-cycle cost.
    fn alu_operand(&mut self, opcode: u8, imm_op: u8) -> (r: Result<(u8, usize), ExecutionError>)
        requires
            old(self).wf(),
        ensures
            final(self).wf(),
            final(self).memv() == old(self).memv(),
            final(self).M_cycles == old(self).M_cycles,
            match spec_operand_fetch(old(self).cpu.rf, old(self).memv(), opcode, imm_op) {
                Ok(p) => r == Ok::<(u8, usize), ExecutionError>(p) && final(self).cpu.rf == (
                if opcode == imm_op {
                    spec_pc_plus(old(self).cpu.rf, 1)
                } else {
                    old(self).cpu.rf
                }),
                Err(e) => r == Err::<(u8, usize), ExecutionError>(e) && final(self).cpu.rf == old(
                    self,
                ).cpu.rf,
            },
    {
        if opcode == imm_op {
            let b = match self.read8(self.cpu.rf.PC) {
                Ok(b) => b,
                Err(e) => {
                    return Err(e);
                },
            };
            self.cpu.rf.PC = wrap_add16(self.cpu.rf.PC, 1);
            Ok((b, 8))
        } else {
            match operand_decode(decode_src(opcode)) {
                Operand::IndirectHL => {
                    let hl = self.cpu.rf.HL_read();
                    match self.read8(hl) {
                        Ok(b) => Ok((b, 8)),
                        Err(e) => Err(e),
                    }
                },
                Operand::Reg(reg) => Ok((self.cpu.rf.get8(reg), 4)),
            }
        }
    }

    /// `ADD A,r/(HL)/n` ($80-$87/$C6): adds the operand into A.
    pub fn ADD(&mut self, opcode: u8) -> (r: Result<usize, ExecutionError>)
        requires
            old(self).wf(),
            (0x80 <= opcode <= 0x87) || opcode == 0xC6,
        ensures
            final(self).wf(),
            final(self).M_cycles == old(self).M_cycles,
            add_post(
                old(self).cpu.rf,
                old(self).memv(),
                final(self).cpu.rf,
                final(self).memv(),
                opcode,
                r,
            ),
    {
        let ghost pc0 = self.cpu.rf.PC;
        self.cpu.rf.PC = wrap_add16(self.cpu.rf.PC, 1);
        proof {
            lemma_wrap16_chain(pc0 as int, 1, 1);
        }
        let (v, t) = match self.alu_operand(opcode, 0xC6) {
            Ok(p) => p,
            Err(e) => {
                return Err(e);
            },
        };
        let a = self.cpu.rf.A;
        let sum: u16 = a as u16 + v as u16;
        let res = (sum % 256) as u8;
        self.cpu.rf.A = res;
        self.cpu.rf.F = crate::cpu::flags_byte(res == 0, false, a % 16 + v % 16 > 15, sum > 255);
        proof {
            lemma_flag_bits();
        }
        Ok(t)
    }

    /// `ADC A,r/(HL)/n` ($88-$8F/$CE): adds the operand and the old carry
    /// into A.
    pub fn ADC(&mut self, opcode: u8) -> (r: Result<usize, ExecutionError>)
        requires
            old(self).wf(),
            (0x88 <= opcode <= 0x8F) || opcode == 0xCE,
        ensures
            final(self).wf(),
            final(self).M_cycles == old(self).M_cycles,
            adc_post(
                old(self).cpu.rf,
                old(self).memv(),
                final(self).cpu.rf,
                final(self).memv(),
                opcode,
                r,
            ),
    {
        let ghost pc0 = self.cpu.rf.PC;
        self.cpu.rf.PC = wrap_add16(self.cpu.rf.PC, 1);
        proof {
            lemma_wrap16_chain(pc0 as int, 1, 1);
        }
        let (v, t) = match self.alu_operand(opcode, 0xCE) {
            Ok(p) => p,
            Err(e) => {
                return Err(e);
            },
        };
        let a = self.cpu.rf.A;
        let c1: u16 = if self.cpu.rf.c_get() {
            1
        } else {
            0
        };
        let sum: u16 = a as u16 + v as u16 + c1;
        let res = (sum % 256) as u8;
        self.cpu.rf.A = res;
        self.cpu.rf.F = crate::cpu::flags_byte(
            res == 0,
            false,
            a as u16 % 16 + v as u16 % 16 + c1 > 15,
            sum > 255,
        );
        proof {
            lemma_flag_bits();
        }
        Ok(t)
    }

    /// `SUB A,r/(HL)/n` ($90-$97/$D6): subtracts the operand from A.
    pub fn SUB(&mut self, opcode: u8) -> (r: Result<usize, ExecutionError>)
        requires
            old(self).wf(),
            (0x90 <= opcode <= 0x97) || opcode == 0xD6,
        ensures
            final(self).wf(),
            final(self).M_cycles == old(self).M_cycles,
            sub_post(
                old(self).cpu.rf,
                old(self).memv(),
                final(self).cpu.rf,
                final(self).memv(),
                opcode,
                r,
            ),
    {
        let ghost pc0 = self.cpu.rf.PC;
        self.cpu.rf.PC = wrap_add16(self.cpu.rf.PC, 1);
        proof {
            lemma_wrap16_chain(pc0 as int, 1, 1);
        }
        let (v, t) = match self.alu_operand(opcode, 0xD6) {
            Ok(p) => p,
            Err(e) => {
                return Err(e);
            },
        };
        let a = self.cpu.rf.A;
        let res = wrap_sub8(a, v);
        self.cpu.rf.A = res;
        self.cpu.rf.F = crate::cpu::flags_byte(res == 0, true, a % 16 < v % 16, a < v);
        proof {
            lemma_flag_bits();
        }
        Ok(t)
    }

    /// `SBC A,r/(HL)/n` ($98-$9F/$DE): subtracts the operand and the old
    /// carry from A.
    pub fn SBC(&mut self, opcode: u8) -> (r: Result<usize, ExecutionError>)
        requires
            old(self).wf(),
            (0x98 <= opcode <= 0x9F) || opcode == 0xDE,
        ensures
            final(self).wf(),
            final(self).M_cycles == old(self).M_cycles,
            sbc_post(
                old(self).cpu.rf,
                old(self).memv(),
                final(self).cpu.rf,
                final(self).memv(),
                opcode,
                r,
            ),
    {
        let ghost pc0 = self.cpu.rf.PC;
        self.cpu.rf.PC = wrap_add16(self.cpu.rf.PC, 1);
        proof {
            lemma_wrap16_chain(pc0 as int, 1, 1);
        }
        let (v, t) = match self.alu_operand(opcode, 0xDE) {
            Ok(p) => p,
            Err(e) => {
                return Err(e);
            },
        };
        let a = self.cpu.rf.A;
        let c1: u16 = if self.cpu.rf.c_get() {
            1
        } else {
            0
        };
        let diff: u16 = (a as u16 + 256 - v as u16 - c1) % 256;
        let res = diff as u8;
        proof {
            vstd::arithmetic::div_mod::lemma_mod_add_multiples_vanish(a - v - c1, 256);
        }
        self.cpu.rf.A = res;
        self.cpu.rf.F = crate::cpu::flags_byte(
            res == 0,
            true,
            ((a % 16) as u16) < (v as u16) % 16 + c1,
            (a as u16) < (v as u16) + c1,
        );
        proof {
            lemma_flag_bits();
        }
        Ok(t)
    }

    /// `AND A,r/(HL)/n` ($A0-$A7/$E6): bitwise AND into A; H is set.
    pub fn AND(&mut self, opcode: u8) -> (r: Result<usize, ExecutionError>)
        requires
            old(self).wf(),
            (0xA0 <= opcode <= 0xA7) || opcode == 0xE6,
        ensures
            final(self).wf(),
            final(self).M_cycles == old(self).M_cycles,
            and_post(
                old(self).cpu.rf,
                old(self).memv(),
                final(self).cpu.rf,
                final(self).memv(),
                opcode,
                r,
            ),
    {
        let ghost pc0 = self.cpu.rf.PC;
        self.cpu.rf.PC = wrap_add16(self.cpu.rf.PC, 1);
        proof {
            lemma_wrap16_chain(pc0 as int, 1, 1);
        }
        let (v, t) = match self.alu_operand(opcode, 0xE6) {
            Ok(p) => p,
            Err(e) => {
                return Err(e);
            },
        };
        let res = self.cpu.rf.A & v;
        self.cpu.rf.A = res;
        self.cpu.rf.F = crate::cpu::flags_byte(res == 0, false, true, false);
        proof {
            lemma_flag_bits();
        }
        Ok(t)
    }

    /// `XOR A,r/(HL)/n` ($A8-$AF/$EE): bitwise XOR into A.
    pub fn XOR(&mut self, opcode: u8) -> (r: Result<usize, ExecutionError>)
        requires
            old(self).wf(),
            (0xA8 <= opcode <= 0xAF) || opcode == 0xEE,
        ensures
            final(self).wf(),
            final(self).M_cycles == old(self).M_cycles,
            xor_post(
                old(self).cpu.rf,
                old(self).memv(),
                final(self).cpu.rf,
                final(self).memv(),
                opcode,
                r,
            ),
    {
        let ghost pc0 = self.cpu.rf.PC;
        self.cpu.rf.PC = wrap_add16(self.cpu.rf.PC, 1);
        proof {
            lemma_wrap16_chain(pc0 as int, 1, 1);
        }
        let (v, t) = match self.alu_operand(opcode, 0xEE) {
            Ok(p) => p,
            Err(e) => {
                return Err(e);
            },
        };
        let res = self.cpu.rf.A ^ v;
        self.cpu.rf.A = res;
        self.cpu.rf.F = crate::cpu::flags_byte(res == 0, false, false, false);
        proof {
            lemma_flag_bits();
        }
        Ok(t)
    }

    /// `OR A,r/(HL)/n` ($B0-$B7/$F6): bitwise OR into A.
    pub fn OR(&mut self, opcode: u8) -> (r: Result<usize, ExecutionError>)
        requires
            old(self).wf(),
            (0xB0 <= opcode <= 0xB7) || opcode == 0xF6,
        ensures
            final(self).wf(),
            final(self).M_cycles == old(self).M_cycles,
            or_post(
                old(self).cpu.rf,
                old(self).memv(),
                final(self).cpu.rf,
                final(self).memv(),
                opcode,
                r,
            ),
    {
        let ghost pc0 = self.cpu.rf.PC;
        self.cpu.rf.PC = wrap_add16(self.cpu.rf.PC, 1);
        proof {
            lemma_wrap16_chain(pc0 as int, 1, 1);
        }
        let (v, t) = match self.alu_operand(opcode, 0xF6) {
            Ok(p) => p,
            Err(e) => {
                return Err(e);
            },
        };
        let res = self.cpu.rf.A | v;
        self.cpu.rf.A = res;
        self.cpu.rf.F = crate::cpu::flags_byte(res == 0, false, false, false);
        proof {
            lemma_flag_bits();
        }
        Ok(t)
    }

    /// `CP A,r/(HL)/n` ($B8-$BF/$FE): compares A with the operand — the
    /// flags of `SUB` with the result discarded.
    pub fn CP(&mut self, opcode: u8) -> (r: Result<usize, ExecutionError>)
        requires
            old(self).wf(),
            (0xB8 <= opcode <= 0xBF) || opcode == 0xFE,
        ensures
            final(self).wf(),
            final(self).M_cycles == old(self).M_cycles,
            cp_post(
                old(self).cpu.rf,
                old(self).memv(),
                final(self).cpu.rf,
                final(self).memv(),
                opcode,
                r,
            ),
    {
        let ghost pc0 = self.cpu.rf.PC;
        self.cpu.rf.PC = wrap_add16(self.cpu.rf.PC, 1);
        proof {
            lemma_wrap16_chain(pc0 as int, 1, 1);
        }
        let (v, t) = match self.alu_operand(opcode, 0xFE) {
            Ok(p) => p,
            Err(e) => {
                return Err(e);
            },
        };
        let a = self.cpu.rf.A;
        let res = wrap_sub8(a, v);
        self.cpu.rf.F = crate::cpu::flags_byte(res == 0, true, a % 16 < v % 16, a < v);
        proof {
            lemma_flag_bits();
        }
        Ok(t)
    }

    /// `INC r/(HL)` ($04/$0C/.../$3C, $34): steps the operand up by one.
    /// Z from the result, N clear, H on nibble overflow, C untouched.
    /// 4 T-cycles on a register, 12 on memory at HL.
    pub fn INC8(&mut self, opcode: u8) -> (r: Result<usize, ExecutionError>)
        requires
            old(self).wf(),
            opcode == 0x04 || opcode == 0x0C || opcode == 0x14 || opcode == 0x1C || opcode == 0x24
                || opcode == 0x2C || opcode == 0x34 || opcode == 0x3C,
        ensures
            final(self).wf(),
            final(self).M_cycles == old(self).M_cycles,
            inc8_post(
                old(self).cpu.rf,
                old(self).memv(),
                final(self).cpu.rf,
                final(self).memv(),
                opcode,
                r,
            ),
    {
        self.cpu.rf.PC = wrap_add16(self.cpu.rf.PC, 1);
        let code = decode_dst(opcode);
        if code != 6 {
            let reg = reg8_of(code);
            let v = self.cpu.rf.get8(reg);
            let res = wrap_add8(v, 1);
            self.cpu.rf.set8(reg, res);
            let c = self.cpu.rf.c_get();
            self.cpu.rf.F = crate::cpu::flags_byte(res == 0, false, v % 16 == 15, c);
            proof {
                lemma_flag_bits();
            }
            Ok(4)
        } else {
            let hl = self.cpu.rf.HL_read();
            let v = match self.read8(hl) {
                Ok(b) => b,
                Err(e) => {
                    return Err(e);
                },
            };
            let res = wrap_add8(v, 1);
            match self.write8(hl, res) {
                Ok(_) => (),
                Err(e) => {
                    return Err(e);
                },
            }
            let c = self.cpu.rf.c_get();
            self.cpu.rf.F = crate::cpu::flags_byte(res == 0, false, v % 16 == 15, c);
            proof {
                lemma_flag_bits();
            }
            Ok(12)
        }
    }

    /// `DEC r/(HL)` ($05/$0D/.../$3D, $35): steps the operand down by one.
    /// Z from the result, N set, H on nibble borrow, C untouched.
    /// 4 T-cycles on a register, 12 on memory at HL.
    pub fn DEC8(&mut self, opcode: u8) -> (r: Result<usize, ExecutionError>)
        requires
            old(self).wf(),
            opcode == 0x05 || opcode == 0x0D || opcode == 0x15 || opcode == 0x1D || opcode == 0x25
                || opcode == 0x2D || opcode == 0x35 || opcode == 0x3D,
        ensures
            final(self).wf(),
            final(self).M_cycles == old(self).M_cycles,
            dec8_post(
                old(self).cpu.rf,
                old(self).memv(),
                final(self).cpu.rf,
                final(self).memv(),
                opcode,
                r,
            ),
    {
        self.cpu.rf.PC = wrap_add16(self.cpu.rf.PC, 1);
        let code = decode_dst(opcode);
        if code != 6 {
            let reg = reg8_of(code);
            let v = self.cpu.rf.get8(reg);
            let res = wrap_sub8(v, 1);
            self.cpu.rf.set8(reg, res);
            let c = self.cpu.rf.c_get();
            self.cpu.rf.F = crate::cpu::flags_byte(res == 0, true, v % 16 == 0, c);
            proof {
                lemma_flag_bits();
            }
            Ok(4)
        } else {
            let hl = self.cpu.rf.HL_read();
            let v = match self.read8(hl) {
                Ok(b) => b,
                Err(e) => {
                    return Err(e);
                },
            };
            let res = wrap_sub8(v, 1);
            match self.write8(hl, res) {
                Ok(_) => (),
                Err(e) => {
                    return Err(e);
                },
            }
            let c = self.cpu.rf.c_get();
            self.cpu.rf.F = crate::cpu::flags_byte(res == 0, true, v % 16 == 0, c);
            proof {
                lemma_flag_bits();
            }
            Ok(12)
        }
    }

    /// `INC rr` ($03/$13/$23/$33): steps a 16-bit pair up by one, wrapping.
    /// Flags untouched; 8 T-cycles.
    pub fn INC16(&mut self, opcode: u8) -> (r: Result<usize, ExecutionError>)
        requires
            old(self).wf(),
            opcode == 0x03 || opcode == 0x13 || opcode == 0x23 || opcode == 0x33,
        ensures
            final(self).wf(),
            final(self).M_cycles == old(self).M_cycles,
            inc16_post(
                old(self).cpu.rf,
                old(self).memv(),
                final(self).cpu.rf,
                final(self).memv(),
                opcode,
                r,
            ),
    {
        self.cpu.rf.PC = wrap_add16(self.cpu.rf.PC, 1);
        if opcode == 0x03 {
            let v = wrap_add16(self.cpu.rf.BC_read(), 1);
            self.cpu.rf.BC_write(v);
        } else if opcode == 0x13 {
            let v = wrap_add16(self.cpu.rf.DE_read(), 1);
            self.cpu.rf.DE_write(v);
        } else if opcode == 0x23 {
            let v = wrap_add16(self.cpu.rf.HL_read(), 1);
            self.cpu.rf.HL_write(v);
        } else {
            self.cpu.rf.SP = wrap_add16(self.cpu.rf.SP, 1);
        }
        Ok(8)
    }

    /// `DEC rr` ($0B/$1B/$2B/$3B): steps a 16-bit pair down by one,
    /// wrapping. Flags untouched; 8 T-cycles.
    pub fn DEC16(&mut self, opcode: u8) -> (r: Result<usize, ExecutionError>)
        requires
            old(self).wf(),
            opcode == 0x0B || opcode == 0x1B || opcode == 0x2B || opcode == 0x3B,
        ensures
            final(self).wf(),
            final(self).M_cycles == old(self).M_cycles,
            dec16_post(
                old(self).cpu.rf,
                old(self).memv(),
                final(self).cpu.rf,
                final(self).memv(),
                opcode,
                r,
            ),
    {
        self.cpu.rf.PC = wrap_add16(self.cpu.rf.PC, 1);
        if opcode == 0x0B {
            let v = wrap_sub16(self.cpu.rf.BC_read(), 1);
            self.cpu.rf.BC_write(v);
        } else if opcode == 0x1B {
            let v = wrap_sub16(self.cpu.rf.DE_read(), 1);
            self.cpu.rf.DE_write(v);
        } else if opcode == 0x2B {
            let v = wrap_sub16(self.cpu.rf.HL_read(), 1);
            self.cpu.rf.HL_write(v);
        } else {
            self.cpu.rf.SP = wrap_sub16(self.cpu.rf.SP, 1);
        }
        Ok(8)
    }
    /// `PUSH rr` ($C5/$D5/$E5/$F5): pushes the pair, high byte first, onto
    /// the decrementing stack. PC advances by 1; 16 T-cycles.
    pub fn PUSH(&mut self, opcode: u8) -> (r: Result<usize, ExecutionError>)
        requires
            old(self).wf(),
            opcode == 0xC5 || opcode == 0xD5 || opcode == 0xE5 || opcode == 0xF5,
        ensures
            final(self).wf(),
            final(self).M_cycles == old(self).M_cycles,
            push_post(
                old(self).cpu.rf,
                old(self).memv(),
                final(self).cpu.rf,
                final(self).memv(),
                opcode,
                r,
            ),
    {
        let ghost sp0 = self.cpu.rf.SP;
        self.cpu.rf.PC = wrap_add16(self.cpu.rf.PC, 1);
        let pair = if opcode == 0xC5 {
            self.cpu.rf.BC_read()
        } else if opcode == 0xD5 {
            self.cpu.rf.DE_read()
        } else if opcode == 0xE5 {
            self.cpu.rf.HL_read()
        } else {
            self.cpu.rf.AF_read()
        };
        self.cpu.rf.SP = wrap_sub16(self.cpu.rf.SP, 1);
        let sp1 = self.cpu.rf.SP;
        let hi = (pair / 256) as u8;
        match self.write8(sp1, hi) {
            Ok(_) => (),
            Err(e) => {
                return Err(e);
            },
        }
        self.cpu.rf.SP = wrap_sub16(self.cpu.rf.SP, 1);
        proof {
            lemma_wrap16_chain(sp0 as int, 1, 1);
        }
        let sp2 = self.cpu.rf.SP;
        let lo = (pair % 256) as u8;
        match self.write8(sp2, lo) {
            Ok(_) => Ok(16),
            Err(e) => Err(e),
        }
    }

    /// `POP rr` ($C1/$D1/$E1/$F1): pops low byte then high byte into the
    /// pair and steps SP back up by 2; a pop into AF masks the low nibble
    /// of F. PC advances by 1; 12 T-cycles.
    pub fn POP(&mut self, opcode: u8) -> (r: Result<usize, ExecutionError>)
        requires
            old(self).wf(),
            opcode == 0xC1 || opcode == 0xD1 || opcode == 0xE1 || opcode == 0xF1,
        ensures
            final(self).wf(),
            final(self).M_cycles == old(self).M_cycles,
            pop_post(
                old(self).cpu.rf,
                old(self).memv(),
                final(self).cpu.rf,
                final(self).memv(),
                opcode,
                r,
            ),
    {
        self.cpu.rf.PC = wrap_add16(self.cpu.rf.PC, 1);
        let sp = self.cpu.rf.SP;
        let lo = match self.read8(sp) {
            Ok(b) => b,
            Err(e) => {
                return Err(e);
            },
        };
        let hi = match self.read8(wrap_add16(sp, 1)) {
            Ok(b) => b,
            Err(e) => {
                return Err(e);
            },
        };
        let v: u16 = lo as u16 + 256 * (hi as u16);
        if opcode == 0xC1 {
            self.cpu.rf.BC_write(v);
        } else if opcode == 0xD1 {
            self.cpu.rf.DE_write(v);
        } else if opcode == 0xE1 {
            self.cpu.rf.HL_write(v);
        } else {
            self.cpu.rf.AF_write(v);
        }
        self.cpu.rf.SP = wrap_add16(self.cpu.rf.SP, 2);
        Ok(12)
    }

    /// `CALL cc,nn` / `CALL nn` ($C4/$D4/$CC/$DC/$CD): when the condition
    /// holds, pushes the address of the next instruction (high byte first)
    /// onto the decrementing stack and jumps to the 16-bit little-endian
    /// immediate. 24 T-cycles taken, 12 not taken.
    pub fn CALL(&mut self, opcode: u8) -> (r: Result<usize, ExecutionError>)
        requires
            old(self).wf(),
            opcode == 0xC4 || opcode == 0xD4 || opcode == 0xCC || opcode == 0xDC || opcode == 0xCD,
        ensures
            final(self).wf(),
            final(self).M_cycles == old(self).M_cycles,
            call_post(
                old(self).cpu.rf,
                old(self).memv(),
                final(self).cpu.rf,
                final(self).memv(),
                opcode,
                r,
            ),
    {
        let ghost pc0 = self.cpu.rf.PC;
        let ghost sp0 = self.cpu.rf.SP;
        self.cpu.rf.PC = wrap_add16(self.cpu.rf.PC, 1);
        proof {
            lemma_wrap16_chain(pc0 as int, 1, 1);
            lemma_wrap16_chain(pc0 as int, 1, 2);
            lemma_wrap16_chain(sp0 as int, 1, 1);
        }
        let lo = match self.read8(self.cpu.rf.PC) {
            Ok(b) => b,
            Err(e) => {
                return Err(e);
            },
        };
        let hi = match self.read8(wrap_add16(self.cpu.rf.PC, 1)) {
            Ok(b) => b,
            Err(e) => {
                return Err(e);
            },
        };
        self.cpu.rf.PC = wrap_add16(self.cpu.rf.PC, 2);
        let target: u16 = lo as u16 + 256 * (hi as u16);
        let cond = if opcode == 0xC4 {
            !self.cpu.rf.z_get()
        } else if opcode == 0xD4 {
            !self.cpu.rf.c_get()
        } else if opcode == 0xCC {
            self.cpu.rf.z_get()
        } else if opcode == 0xDC {
            self.cpu.rf.c_get()
        } else {
            true
        };
        if !cond {
            return Ok(12);
        }
        let pc3 = self.cpu.rf.PC;
        self.cpu.rf.SP = wrap_sub16(self.cpu.rf.SP, 1);
        let hi_b = (pc3 / 256) as u8;
        match self.write8(self.cpu.rf.SP, hi_b) {
            Ok(_) => (),
            Err(e) => {
                return Err(e);
            },
        }
        self.cpu.rf.SP = wrap_sub16(self.cpu.rf.SP, 1);
        let lo_b = (pc3 % 256) as u8;
        match self.write8(self.cpu.rf.SP, lo_b) {
            Ok(_) => (),
            Err(e) => {
                return Err(e);
            },
        }
        self.cpu.rf.PC = target;
        Ok(24)
    }

    /// `RET cc` / `RET` / `RETI` ($C0/$D0/$C8/$D8/$C9/$D9): when the
    /// condition holds, pops low then high byte into PC and steps SP up
    /// by 2 (interrupt enabling on $D9 is out of scope). Conditional forms
    /// take 20 T-cycles when taken and 8 when not; the plain forms take 16.
    pub fn RET(&mut self, opcode: u8) -> (r: Result<usize, ExecutionError>)
        requires
            old(self).wf(),
            opcode == 0xC0 || opcode == 0xD0 || opcode == 0xC8 || opcode == 0xD8 || opcode == 0xC9
                || opcode == 0xD9,
        ensures
            final(self).wf(),
            final(self).M_cycles == old(self).M_cycles,
            ret_post(
                old(self).cpu.rf,
                old(self).memv(),
                final(self).cpu.rf,
                final(self).memv(),
                opcode,
                r,
            ),
    {
        self.cpu.rf.PC = wrap_add16(self.cpu.rf.PC, 1);
        let sp = self.cpu.rf.SP;
        let lo = match self.read8(sp) {
            Ok(b) => b,
            Err(e) => {
                return Err(e);
            },
        };
        let hi = match self.read8(wrap_add16(sp, 1)) {
            Ok(b) => b,
            Err(e) => {
                return Err(e);
            },
        };
        let cond = if opcode == 0xC0 {
            !self.cpu.rf.z_get()
        } else if opcode == 0xD0 {
            !self.cpu.rf.c_get()
        } else if opcode == 0xC8 {
            self.cpu.rf.z_get()
        } else if opcode == 0xD8 {
            self.cpu.rf.c_get()
        } else {
            true
        };
        if cond {
            self.cpu.rf.PC = lo as u16 + 256 * (hi as u16);
            self.cpu.rf.SP = wrap_add16(self.cpu.rf.SP, 2);
            if opcode == 0xC9 || opcode == 0xD9 {
                Ok(16)
            } else {
                Ok(20)
            }
        } else {
            Ok(8)
        }
    }

    /// `JR cc,e` / `JR e` ($20/$30/$28/$38/$18): when the condition holds,
    /// adds the signed 8-bit offset to the address of the next instruction.
    /// 12 T-cycles taken, 8 not taken.
    pub fn JRCond(&mut self, opcode: u8) -> (r: Result<usize, ExecutionError>)
        requires
            old(self).wf(),
            opcode == 0x20 || opcode == 0x30 || opcode == 0x28 || opcode == 0x38 || opcode == 0x18,
        ensures
            final(self).wf(),
            final(self).M_cycles == old(self).M_cycles,
            jrcond_post(
                old(self).cpu.rf,
                old(self).memv(),
                final(self).cpu.rf,
                final(self).memv(),
                opcode,
                r,
            ),
    {
        let ghost pc0 = self.cpu.rf.PC;
        self.cpu.rf.PC = wrap_add16(self.cpu.rf.PC, 1);
        proof {
            lemma_wrap16_chain(pc0 as int, 1, 1);
        }
        let off = match self.read8(self.cpu.rf.PC) {
            Ok(b) => b,
            Err(e) => {
                return Err(e);
            },
        };
        self.cpu.rf.PC = wrap_add16(self.cpu.rf.PC, 1);
        let cond = if opcode == 0x20 {
            !self.cpu.rf.z_get()
        } else if opcode == 0x30 {
            !self.cpu.rf.c_get()
        } else if opcode == 0x28 {
            self.cpu.rf.z_get()
        } else if opcode == 0x38 {
            self.cpu.rf.c_get()
        } else {
            true
        };
        if cond {
            proof {
                lemma_wrap16_chain(pc0 as int, 2, off as int);
                lemma_wrap16_chain(pc0 as int, 2, 256 - off as int);
            }
            let pc2 = self.cpu.rf.PC;
            self.cpu.rf.PC = if off < 0x80 {
                wrap_add16(pc2, off as u16)
            } else {
                wrap_sub16(pc2, 256 - off as u16)
            };
            Ok(12)
        } else {
            Ok(8)
        }
    }

    /// `RLCA` ($07): rotates A left, bit 7 into both carry and bit 0.
    /// Z, N and H are cleared. PC advances by 1; 4 T-cycles.
    pub fn RLCA(&mut self, opcode: u8) -> (r: Result<usize, ExecutionError>)
        requires
            old(self).wf(),
            opcode == 0x07,
        ensures
            final(self).wf(),
            final(self).M_cycles == old(self).M_cycles,
            rlca_post(
                old(self).cpu.rf,
                old(self).memv(),
                final(self).cpu.rf,
                final(self).memv(),
                opcode,
                r,
            ),
    {
        self.cpu.rf.PC = wrap_add16(self.cpu.rf.PC, 1);
        let a = self.cpu.rf.A;
        self.cpu.rf.A = a % 128 * 2 + a / 128;
        self.cpu.rf.F = crate::cpu::flags_byte(false, false, false, a >= 128);
        proof {
            lemma_flag_bits();
        }
        Ok(4)
    }

    /// `RRCA` ($0F): rotates A right, bit 0 into both carry and bit 7.
    /// Z, N and H are cleared. PC advances by 1; 4 T-cycles.
    pub fn RRCA(&mut self, opcode: u8) -> (r: Result<usize, ExecutionError>)
        requires
            old(self).wf(),
            opcode == 0x0F,
        ensures
            final(self).wf(),
            final(self).M_cycles == old(self).M_cycles,
            rrca_post(
                old(self).cpu.rf,
                old(self).memv(),
                final(self).cpu.rf,
                final(self).memv(),
                opcode,
                r,
            ),
    {
        self.cpu.rf.PC = wrap_add16(self.cpu.rf.PC, 1);
        let a = self.cpu.rf.A;
        self.cpu.rf.A = a / 2 + a % 2 * 128;
        self.cpu.rf.F = crate::cpu::flags_byte(false, false, false, a % 2 == 1);
        proof {
            lemma_flag_bits();
        }
        Ok(4)
    }

    /// `RLA` ($17): rotates A left through the carry: the old carry enters
    /// bit 0, bit 7 leaves into the carry. Z, N and H are cleared.
    /// PC advances by 1; 4 T-cycles.
    pub fn RLA(&mut self, opcode: u8) -> (r: Result<usize, ExecutionError>)
        requires
            old(self).wf(),
            opcode == 0x17,
        ensures
            final(self).wf(),
            final(self).M_cycles == old(self).M_cycles,
            rla_post(
                old(self).cpu.rf,
                old(self).memv(),
                final(self).cpu.rf,
                final(self).memv(),
                opcode,
                r,
            ),
    {
        self.cpu.rf.PC = wrap_add16(self.cpu.rf.PC, 1);
        let a = self.cpu.rf.A;
        let cin: u8 = if self.cpu.rf.c_get() {
            1
        } else {
            0
        };
        self.cpu.rf.A = a % 128 * 2 + cin;
        self.cpu.rf.F = crate::cpu::flags_byte(false, false, false, a >= 128);
        proof {
            lemma_flag_bits();
        }
        Ok(4)
    }

    /// `RRA` ($1F): rotates A right through the carry: the old carry enters
    /// bit 7, bit 0 leaves into the carry. Z, N and H are cleared.
    /// PC advances by 1; 4 T-cycles.
    pub fn RRA(&mut self, opcode: u8) -> (r: Result<usize, ExecutionError>)
        requires
            old(self).wf(),
            opcode == 0x1F,
        ensures
            final(self).wf(),
            final(self).M_cycles == old(self).M_cycles,
            rra_post(
                old(self).cpu.rf,
                old(self).memv(),
                final(self).cpu.rf,
                final(self).memv(),
                opcode,
                r,
            ),
    {
        self.cpu.rf.PC = wrap_add16(self.cpu.rf.PC, 1);
        let a = self.cpu.rf.A;
        let cin: u8 = if self.cpu.rf.c_get() {
            128
        } else {
            0
        };
        self.cpu.rf.A = a / 2 + cin;
        self.cpu.rf.F = crate::cpu::flags_byte(false, false, false, a % 2 == 1);
        proof {
            lemma_flag_bits();
        }
        Ok(4)
    }
}

/// What `LD16imm` ensures of the registers, the memory and the result.
pub open spec fn ld16imm_post(
    rf0: RegisterFile,
    m0: MemV,
    rf1: RegisterFile,
    m1: MemV,
    opcode: u8,
    r: Result<usize, ExecutionError>,
) -> bool {
    (m1 == m0) && ({
        let a1 = add16(rf0.PC as int, 1);
        let a2 = add16(rf0.PC as int, 2);
        match (spec_read8_mem(m0, a1), spec_read8_mem(m0, a2)) {
            (Ok(lo), Ok(hi)) => r == Ok::<usize, ExecutionError>(12) && rf1
                == spec_pc_plus(rf0, 3).spec_write16(
                spec_rr_target(opcode),
                (lo + 256 * hi) as u16,
            ),
            (Err(e), _) => r == Err::<usize, ExecutionError>(e) && rf1
                == spec_pc_plus(rf0, 1),
            (Ok(_), Err(e)) => r == Err::<usize, ExecutionError>(e) && rf1
                == spec_pc_plus(rf0, 1),
        }
    })
}

/// What `STRHL` ensures of the registers, the memory and the result.
pub open spec fn strhl_post(
    rf0: RegisterFile,
    m0: MemV,
    rf1: RegisterFile,
    m1: MemV,
    opcode: u8,
    r: Result<usize, ExecutionError>,
) -> bool {
    ({
        let hl = rf0.hl() as u16;
        if opcode == 0x36 {
            match spec_read8_mem(m0, add16(rf0.PC as int, 1)) {
                Err(e) => r == Err::<usize, ExecutionError>(e) && m1 == m0
                    && rf1 == spec_pc_plus(rf0, 1),
                Ok(b) => match spec_write8_mem(m0, hl, b) {
                    Ok(m) => r == Ok::<usize, ExecutionError>(12) && m1
                        == m && rf1 == spec_pc_plus(rf0, 2),
                    Err(e) => r == Err::<usize, ExecutionError>(e) && m1
                        == m0 && rf1 == spec_pc_plus(rf0, 2),
                },
            }
        } else {
            let v = if opcode == 0x22 || opcode == 0x32 {
                rf0.A
            } else {
                rf0.spec_get8(spec_operand_reg(opcode % 8))
            };
            match spec_write8_mem(m0, hl, v) {
                Err(e) => r == Err::<usize, ExecutionError>(e) && m1 == m0
                    && rf1 == spec_pc_plus(rf0, 1),
                Ok(m) => r == Ok::<usize, ExecutionError>(8) && m1 == m
                    && rf1 == (if opcode == 0x22 {
                    spec_pc_plus(rf0, 1).spec_write16(
                        Register16::HL,
                        add16(rf0.hl(), 1) as u16,
                    )
                } else if opcode == 0x32 {
                    spec_pc_plus(rf0, 1).spec_write16(
                        Register16::HL,
                        sub16(rf0.hl(), 1) as u16,
                    )
                } else {
                    spec_pc_plus(rf0, 1)
                }),
            }
        }
    })
}

/// What `LD8imm` ensures of the registers, the memory and the result.
pub open spec fn ld8imm_post(
    rf0: RegisterFile,
    m0: MemV,
    rf1: RegisterFile,
    m1: MemV,
    opcode: u8,
    r: Result<usize, ExecutionError>,
) -> bool {
    (m1 == m0) && ({
        match spec_read8_mem(m0, add16(rf0.PC as int, 1)) {
            Ok(b) => r == Ok::<usize, ExecutionError>(8) && rf1
                == spec_pc_plus(rf0, 2).spec_set8(spec_operand_reg((opcode / 8) % 8), b),
            Err(e) => r == Err::<usize, ExecutionError>(e) && rf1
                == spec_pc_plus(rf0, 1),
        }
    })
}

/// What `MV` ensures of the registers, the memory and the result.
pub open spec fn mv_post(
    rf0: RegisterFile,
    m0: MemV,
    rf1: RegisterFile,
    m1: MemV,
    opcode: u8,
    r: Result<usize, ExecutionError>,
) -> bool {
    ({
        let d = (opcode / 8) % 8;
        let s = opcode % 8;
        if d == 6 {
            match spec_write8_mem(m0, rf0.hl() as u16, rf0.spec_get8(spec_operand_reg(s))) {
                Ok(m) => r == Ok::<usize, ExecutionError>(8) && m1 == m
                    && rf1 == spec_pc_plus(rf0, 1),
                Err(e) => r == Err::<usize, ExecutionError>(e) && m1 == m0
                    && rf1 == spec_pc_plus(rf0, 1),
            }
        } else if s == 6 {
            match spec_read8_mem(m0, rf0.hl() as u16) {
                Ok(b) => r == Ok::<usize, ExecutionError>(8) && m1 == m0
                    && rf1 == spec_pc_plus(rf0, 1).spec_set8(
                    spec_operand_reg(d),
                    b,
                ),
                Err(e) => r == Err::<usize, ExecutionError>(e) && m1 == m0
                    && rf1 == spec_pc_plus(rf0, 1),
            }
        } else {
            r == Ok::<usize, ExecutionError>(4) && m1 == m0
                && rf1 == spec_pc_plus(rf0, 1).spec_set8(
                spec_operand_reg(d),
                rf0.spec_get8(spec_operand_reg(s)),
            )
        }
    })
}

/// What `LDA` ensures of the registers, the memory and the result.
pub open spec fn lda_post(
    rf0: RegisterFile,
    m0: MemV,
    rf1: RegisterFile,
    m1: MemV,
    opcode: u8,
    r: Result<usize, ExecutionError>,
) -> bool {
    (m1 == m0) && ({
        let addr = (if opcode == 0x0A {
            rf0.bc()
        } else if opcode == 0x1A {
            rf0.de()
        } else {
            rf0.hl()
        }) as u16;
        match spec_read8_mem(m0, addr) {
            Ok(b) => r == Ok::<usize, ExecutionError>(8) && rf1 == (
            if opcode == 0x2A {
                spec_pc_plus(rf0, 1).spec_set8(Register8::A, b).spec_write16(
                    Register16::HL,
                    add16(rf0.hl(), 1) as u16,
                )
            } else if opcode == 0x3A {
                spec_pc_plus(rf0, 1).spec_set8(Register8::A, b).spec_write16(
                    Register16::HL,
                    sub16(rf0.hl(), 1) as u16,
                )
            } else {
                spec_pc_plus(rf0, 1).spec_set8(Register8::A, b)
            }),
            Err(e) => r == Err::<usize, ExecutionError>(e) && rf1
                == spec_pc_plus(rf0, 1),
        }
    })
}

/// What `STRA` ensures of the registers, the memory and the result.
pub open spec fn stra_post(
    rf0: RegisterFile,
    m0: MemV,
    rf1: RegisterFile,
    m1: MemV,
    opcode: u8,
    r: Result<usize, ExecutionError>,
) -> bool {
    ({
        let addr = (if opcode == 0x02 {
            rf0.bc()
        } else if opcode == 0x12 {
            rf0.de()
        } else {
            rf0.hl()
        }) as u16;
        let rf1 = if opcode == 0x22 {
            spec_pc_plus(rf0, 1).spec_write16(Register16::HL, add16(rf0.hl(), 1) as u16)
        } else if opcode == 0x32 {
            spec_pc_plus(rf0, 1).spec_write16(Register16::HL, sub16(rf0.hl(), 1) as u16)
        } else {
            spec_pc_plus(rf0, 1)
        };
        rf1 == rf1 && match spec_write8_mem(m0, addr, rf0.A) {
            Ok(m) => r == Ok::<usize, ExecutionError>(8) && m1 == m,
            Err(e) => r == Err::<usize, ExecutionError>(e) && m1 == m0,
        }
    })
}

/// What `LDA16` ensures of the registers, the memory and the result.
pub open spec fn lda16_post(
    rf0: RegisterFile,
    m0: MemV,
    rf1: RegisterFile,
    m1: MemV,
    opcode: u8,
    r: Result<usize, ExecutionError>,
) -> bool {
    (m1 == m0) && ({
        match (spec_read8_mem(m0, add16(rf0.PC as int, 1)), spec_read8_mem(
            m0,
            add16(rf0.PC as int, 2),
        )) {
            (Ok(lo), Ok(hi)) => match spec_read8_mem(m0, (lo + 256 * hi) as u16) {
                Ok(b) => r == Ok::<usize, ExecutionError>(16) && rf1
                    == spec_pc_plus(rf0, 3).spec_set8(Register8::A, b),
                Err(e) => r == Err::<usize, ExecutionError>(e) && rf1
                    == spec_pc_plus(rf0, 3),
            },
            (Err(e), _) => r == Err::<usize, ExecutionError>(e) && rf1
                == spec_pc_plus(rf0, 1),
            (Ok(_), Err(e)) => r == Err::<usize, ExecutionError>(e) && rf1
                == spec_pc_plus(rf0, 1),
        }
    })
}

/// What `STRA16` ensures of the registers, the memory and the result.
pub open spec fn stra16_post(
    rf0: RegisterFile,
    m0: MemV,
    rf1: RegisterFile,
    m1: MemV,
    opcode: u8,
    r: Result<usize, ExecutionError>,
) -> bool {
    ({
        match (spec_read8_mem(m0, add16(rf0.PC as int, 1)), spec_read8_mem(
            m0,
            add16(rf0.PC as int, 2),
        )) {
            (Ok(lo), Ok(hi)) => rf1 == spec_pc_plus(rf0, 3) && match
                spec_write8_mem(m0, (lo + 256 * hi) as u16, rf0.A) {
                Ok(m) => r == Ok::<usize, ExecutionError>(16) && m1 == m,
                Err(e) => r == Err::<usize, ExecutionError>(e) && m1 == m0,
            },
            (Err(e), _) => r == Err::<usize, ExecutionError>(e) && m1 == m0
                && rf1 == spec_pc_plus(rf0, 1),
            (Ok(_), Err(e)) => r == Err::<usize, ExecutionError>(e) && m1
                == m0 && rf1 == spec_pc_plus(rf0, 1),
        }
    })
}

/// What `WriteIO` ensures of the registers, the memory and the result.
pub open spec fn writeio_post(
    rf0: RegisterFile,
    m0: MemV,
    rf1: RegisterFile,
    m1: MemV,
    opcode: u8,
    r: Result<usize, ExecutionError>,
) -> bool {
    ({
        if opcode == 0xE0 {
            match spec_read8_mem(m0, add16(rf0.PC as int, 1)) {
                Err(e) => r == Err::<usize, ExecutionError>(e) && m1 == m0
                    && rf1 == spec_pc_plus(rf0, 1),
                Ok(n) => rf1 == spec_pc_plus(rf0, 2) && match
                    spec_write8_mem(m0, (0xFF00 + n) as u16, rf0.A) {
                    Ok(m) => r == Ok::<usize, ExecutionError>(12) && m1
                        == m,
                    Err(e) => r == Err::<usize, ExecutionError>(e) && m1
                        == m0,
                },
            }
        } else {
            rf1 == spec_pc_plus(rf0, 1) && match spec_write8_mem(
                m0,
                (0xFF00 + rf0.C) as u16,
                rf0.A,
            ) {
                Ok(m) => r == Ok::<usize, ExecutionError>(8) && m1 == m,
                Err(e) => r == Err::<usize, ExecutionError>(e) && m1 == m0,
            }
        }
    })
}

/// What `ReadIO` ensures of the registers, the memory and the result.
pub open spec fn readio_post(
    rf0: RegisterFile,
    m0: MemV,
    rf1: RegisterFile,
    m1: MemV,
    opcode: u8,
    r: Result<usize, ExecutionError>,
) -> bool {
    (m1 == m0) && ({
        if opcode == 0xF0 {
            match spec_read8_mem(m0, add16(rf0.PC as int, 1)) {
                Err(e) => r == Err::<usize, ExecutionError>(e) && rf1
                    == spec_pc_plus(rf0, 1),
                Ok(n) => match spec_read8_mem(m0, (0xFF00 + n) as u16) {
                    Ok(b) => r == Ok::<usize, ExecutionError>(12) && rf1
                        == spec_pc_plus(rf0, 2).spec_set8(Register8::A, b),
                    Err(e) => r == Err::<usize, ExecutionError>(e) && rf1
                        == spec_pc_plus(rf0, 2),
                },
            }
        } else {
            match spec_read8_mem(m0, (0xFF00 + rf0.C) as u16) {
                Ok(b) => r == Ok::<usize, ExecutionError>(8) && rf1
                    == spec_pc_plus(rf0, 1).spec_set8(Register8::A, b),
                Err(e) => r == Err::<usize, ExecutionError>(e) && rf1
                    == spec_pc_plus(rf0, 1),
            }
        }
    })
}

/// What `ADD` ensures of the registers, the memory and the result.
pub open spec fn add_post(
    rf0: RegisterFile,
    m0: MemV,
    rf1: RegisterFile,
    m1: MemV,
    opcode: u8,
    r: Result<usize, ExecutionError>,
) -> bool {
    (m1 == m0) && ({
        match spec_operand_fetch(spec_pc_plus(rf0, 1), m0, opcode, 0xC6) {
            Ok((v, t)) => r == Ok::<usize, ExecutionError>(t) && rf1
                == spec_alu_add(
                spec_pc_plus(
                    rf0,
                    if opcode == 0xC6 {
                        2
                    } else {
                        1
                    },
                ),
                v,
                false,
            ),
            Err(e) => r == Err::<usize, ExecutionError>(e) && rf1
                == spec_pc_plus(rf0, 1),
        }
    })
}

/// What `ADC` ensures of the registers, the memory and the result.
pub open spec fn adc_post(
    rf0: RegisterFile,
    m0: MemV,
    rf1: RegisterFile,
    m1: MemV,
    opcode: u8,
    r: Result<usize, ExecutionError>,
) -> bool {
    (m1 == m0) && ({
        match spec_operand_fetch(spec_pc_plus(rf0, 1), m0, opcode, 0xCE) {
            Ok((v, t)) => r == Ok::<usize, ExecutionError>(t) && rf1
                == spec_alu_add(
                spec_pc_plus(
                    rf0,
                    if opcode == 0xCE {
                        2
                    } else {
                        1
                    },
                ),
                v,
                rf0.c(),
            ),
            Err(e) => r == Err::<usize, ExecutionError>(e) && rf1
                == spec_pc_plus(rf0, 1),
        }
    })
}

/// What `SUB` ensures of the registers, the memory and the result.
pub open spec fn sub_post(
    rf0: RegisterFile,
    m0: MemV,
    rf1: RegisterFile,
    m1: MemV,
    opcode: u8,
    r: Result<usize, ExecutionError>,
) -> bool {
    (m1 == m0) && ({
        match spec_operand_fetch(spec_pc_plus(rf0, 1), m0, opcode, 0xD6) {
            Ok((v, t)) => r == Ok::<usize, ExecutionError>(t) && rf1
                == spec_alu_sub(
                spec_pc_plus(
                    rf0,
                    if opcode == 0xD6 {
                        2
                    } else {
                        1
                    },
                ),
                v,
                false,
            ),
            Err(e) => r == Err::<usize, ExecutionError>(e) && rf1
                == spec_pc_plus(rf0, 1),
        }
    })
}

/// What `SBC` ensures of the registers, the memory and the result.
pub open spec fn sbc_post(
    rf0: RegisterFile,
    m0: MemV,
    rf1: RegisterFile,
    m1: MemV,
    opcode: u8,
    r: Result<usize, ExecutionError>,
) -> bool {
    (m1 == m0) && ({
        match spec_operand_fetch(spec_pc_plus(rf0, 1), m0, opcode, 0xDE) {
            Ok((v, t)) => r == Ok::<usize, ExecutionError>(t) && rf1
                == spec_alu_sub(
                spec_pc_plus(
                    rf0,
                    if opcode == 0xDE {
                        2
                    } else {
                        1
                    },
                ),
                v,
                rf0.c(),
            ),
            Err(e) => r == Err::<usize, ExecutionError>(e) && rf1
                == spec_pc_plus(rf0, 1),
        }
    })
}

/// What `AND` ensures of the registers, the memory and the result.
pub open spec fn and_post(
    rf0: RegisterFile,
    m0: MemV,
    rf1: RegisterFile,
    m1: MemV,
    opcode: u8,
    r: Result<usize, ExecutionError>,
) -> bool {
    (m1 == m0) && ({
        match spec_operand_fetch(spec_pc_plus(rf0, 1), m0, opcode, 0xE6) {
            Ok((v, t)) => r == Ok::<usize, ExecutionError>(t) && rf1
                == spec_alu_and(
                spec_pc_plus(
                    rf0,
                    if opcode == 0xE6 {
                        2
                    } else {
                        1
                    },
                ),
                v,
            ),
            Err(e) => r == Err::<usize, ExecutionError>(e) && rf1
                == spec_pc_plus(rf0, 1),
        }
    })
}

/// What `XOR` ensures of the registers, the memory and the result.
pub open spec fn xor_post(
    rf0: RegisterFile,
    m0: MemV,
    rf1: RegisterFile,
    m1: MemV,
    opcode: u8,
    r: Result<usize, ExecutionError>,
) -> bool {
    (m1 == m0) && ({
        match spec_operand_fetch(spec_pc_plus(rf0, 1), m0, opcode, 0xEE) {
            Ok((v, t)) => r == Ok::<usize, ExecutionError>(t) && rf1
                == spec_alu_xor(
                spec_pc_plus(
                    rf0,
                    if opcode == 0xEE {
                        2
                    } else {
                        1
                    },
                ),
                v,
            ),
            Err(e) => r == Err::<usize, ExecutionError>(e) && rf1
                == spec_pc_plus(rf0, 1),
        }
    })
}

/// What `OR` ensures of the registers, the memory and the result.
pub open spec fn or_post(
    rf0: RegisterFile,
    m0: MemV,
    rf1: RegisterFile,
    m1: MemV,
    opcode: u8,
    r: Result<usize, ExecutionError>,
) -> bool {
    (m1 == m0) && ({
        match spec_operand_fetch(spec_pc_plus(rf0, 1), m0, opcode, 0xF6) {
            Ok((v, t)) => r == Ok::<usize, ExecutionError>(t) && rf1
                == spec_alu_or(
                spec_pc_plus(
                    rf0,
                    if opcode == 0xF6 {
                        2
                    } else {
                        1
                    },
                ),
                v,
            ),
            Err(e) => r == Err::<usize, ExecutionError>(e) && rf1
                == spec_pc_plus(rf0, 1),
        }
    })
}

/// What `CP` ensures of the registers, the memory and the result.
pub open spec fn cp_post(
    rf0: RegisterFile,
    m0: MemV,
    rf1: RegisterFile,
    m1: MemV,
    opcode: u8,
    r: Result<usize, ExecutionError>,
) -> bool {
    (m1 == m0) && ({
        match spec_operand_fetch(spec_pc_plus(rf0, 1), m0, opcode, 0xFE) {
            Ok((v, t)) => r == Ok::<usize, ExecutionError>(t) && rf1
                == spec_alu_cp(
                spec_pc_plus(
                    rf0,
                    if opcode == 0xFE {
                        2
                    } else {
                        1
                    },
                ),
                v,
            ),
            Err(e) => r == Err::<usize, ExecutionError>(e) && rf1
                == spec_pc_plus(rf0, 1),
        }
    })
}

/// What `INC8` ensures of the registers, the memory and the result.
pub open spec fn inc8_post(
    rf0: RegisterFile,
    m0: MemV,
    rf1: RegisterFile,
    m1: MemV,
    opcode: u8,
    r: Result<usize, ExecutionError>,
) -> bool {
    ({
        let code = (opcode / 8) % 8;
        if code != 6 {
            let v = rf0.spec_get8(spec_operand_reg(code));
            r == Ok::<usize, ExecutionError>(4) && m1 == m0
                && rf1 == (RegisterFile {
                F: spec_inc8_flags(rf0, v),
                ..spec_pc_plus(rf0, 1).spec_set8(
                    spec_operand_reg(code),
                    add8(v as int, 1),
                )
            })
        } else {
            match spec_read8_mem(m0, rf0.hl() as u16) {
                Err(e) => r == Err::<usize, ExecutionError>(e) && m1 == m0
                    && rf1 == spec_pc_plus(rf0, 1),
                Ok(v) => match spec_write8_mem(m0, rf0.hl() as u16, add8(v as int, 1)) {
                    Ok(m) => r == Ok::<usize, ExecutionError>(12) && m1
                        == m && rf1 == (RegisterFile {
                        F: spec_inc8_flags(rf0, v),
                        ..spec_pc_plus(rf0, 1)
                    }),
                    Err(e) => r == Err::<usize, ExecutionError>(e) && m1
                        == m0 && rf1 == spec_pc_plus(rf0, 1),
                },
            }
        }
    })
}

/// What `DEC8` ensures of the registers, the memory and the result.
pub open spec fn dec8_post(
    rf0: RegisterFile,
    m0: MemV,
    rf1: RegisterFile,
    m1: MemV,
    opcode: u8,
    r: Result<usize, ExecutionError>,
) -> bool {
    ({
        let code = (opcode / 8) % 8;
        if code != 6 {
            let v = rf0.spec_get8(spec_operand_reg(code));
            r == Ok::<usize, ExecutionError>(4) && m1 == m0
                && rf1 == (RegisterFile {
                F: spec_dec8_flags(rf0, v),
                ..spec_pc_plus(rf0, 1).spec_set8(
                    spec_operand_reg(code),
                    sub8(v as int, 1),
                )
            })
        } else {
            match spec_read8_mem(m0, rf0.hl() as u16) {
                Err(e) => r == Err::<usize, ExecutionError>(e) && m1 == m0
                    && rf1 == spec_pc_plus(rf0, 1),
                Ok(v) => match spec_write8_mem(m0, rf0.hl() as u16, sub8(v as int, 1)) {
                    Ok(m) => r == Ok::<usize, ExecutionError>(12) && m1
                        == m && rf1 == (RegisterFile {
                        F: spec_dec8_flags(rf0, v),
                        ..spec_pc_plus(rf0, 1)
                    }),
                    Err(e) => r == Err::<usize, ExecutionError>(e) && m1
                        == m0 && rf1 == spec_pc_plus(rf0, 1),
                },
            }
        }
    })
}

/// What `INC16` ensures of the registers, the memory and the result.
pub open spec fn inc16_post(
    rf0: RegisterFile,
    m0: MemV,
    rf1: RegisterFile,
    m1: MemV,
    opcode: u8,
    r: Result<usize, ExecutionError>,
) -> bool {
    (m1 == m0) && (r == Ok::<usize, ExecutionError>(8)) && ({
        rf1 == spec_pc_plus(rf0, 1).spec_write16(
            spec_rr_target(opcode),
            add16(rf0.spec_read16(spec_rr_target(opcode)), 1),
        )
    })
}

/// What `DEC16` ensures of the registers, the memory and the result.
pub open spec fn dec16_post(
    rf0: RegisterFile,
    m0: MemV,
    rf1: RegisterFile,
    m1: MemV,
    opcode: u8,
    r: Result<usize, ExecutionError>,
) -> bool {
    (m1 == m0) && (r == Ok::<usize, ExecutionError>(8)) && ({
        rf1 == spec_pc_plus(rf0, 1).spec_write16(
            spec_rr_target(opcode),
            sub16(rf0.spec_read16(spec_rr_target(opcode)), 1),
        )
    })
}

/// What `PUSH` ensures of the registers, the memory and the result.
pub open spec fn push_post(
    rf0: RegisterFile,
    m0: MemV,
    rf1: RegisterFile,
    m1: MemV,
    opcode: u8,
    r: Result<usize, ExecutionError>,
) -> bool {
    ({
        let pv = rf0.spec_read16(spec_stack_pair(opcode));
        let sp1 = sub16(rf0.SP as int, 1);
        let sp2 = sub16(rf0.SP as int, 2);
        match spec_write8_mem(m0, sp1, (pv / 256) as u8) {
            Err(e) => r == Err::<usize, ExecutionError>(e) && m1 == m0
                && rf1 == (RegisterFile { SP: sp1, ..spec_pc_plus(rf0, 1) }),
            Ok(ma) => match spec_write8_mem(ma, sp2, (pv % 256) as u8) {
                Err(e) => r == Err::<usize, ExecutionError>(e) && m1 == ma
                    && rf1 == (RegisterFile {
                    SP: sp2,
                    ..spec_pc_plus(rf0, 1)
                }),
                Ok(mb) => r == Ok::<usize, ExecutionError>(16) && m1 == mb
                    && rf1 == (RegisterFile {
                    SP: sp2,
                    ..spec_pc_plus(rf0, 1)
                }),
            },
        }
    })
}

/// What `POP` ensures of the registers, the memory and the result.
pub open spec fn pop_post(
    rf0: RegisterFile,
    m0: MemV,
    rf1: RegisterFile,
    m1: MemV,
    opcode: u8,
    r: Result<usize, ExecutionError>,
) -> bool {
    (m1 == m0) && ({
        match (spec_read8_mem(m0, rf0.SP), spec_read8_mem(m0, add16(rf0.SP as int, 1))) {
            (Ok(lo), Ok(hi)) => r == Ok::<usize, ExecutionError>(12) && rf1
                == (RegisterFile {
                SP: add16(rf0.SP as int, 2),
                ..spec_pc_plus(rf0, 1).spec_write16(
                    spec_stack_pair(opcode),
                    (lo + 256 * hi) as u16,
                )
            }),
            (Err(e), _) => r == Err::<usize, ExecutionError>(e) && rf1
                == spec_pc_plus(rf0, 1),
            (Ok(_), Err(e)) => r == Err::<usize, ExecutionError>(e) && rf1
                == spec_pc_plus(rf0, 1),
        }
    })
}

/// What `CALL` ensures of the registers, the memory and the result.
pub open spec fn call_post(
    rf0: RegisterFile,
    m0: MemV,
    rf1: RegisterFile,
    m1: MemV,
    opcode: u8,
    r: Result<usize, ExecutionError>,
) -> bool {
    ({
        match (spec_read8_mem(m0, add16(rf0.PC as int, 1)), spec_read8_mem(
            m0,
            add16(rf0.PC as int, 2),
        )) {
            (Ok(lo), Ok(hi)) => ({
                let target = (lo + 256 * hi) as u16;
                let pc3 = add16(rf0.PC as int, 3);
                let sp1 = sub16(rf0.SP as int, 1);
                let sp2 = sub16(rf0.SP as int, 2);
                if !spec_call_cond(opcode, rf0) {
                    r == Ok::<usize, ExecutionError>(12) && m1 == m0
                        && rf1 == spec_pc_plus(rf0, 3)
                } else {
                    match spec_write8_mem(m0, sp1, (pc3 / 256) as u8) {
                        Err(e) => r == Err::<usize, ExecutionError>(e) && m1 == m0 && rf1 == (RegisterFile {
                            SP: sp1,
                            ..spec_pc_plus(rf0, 3)
                        }),
                        Ok(ma) => match spec_write8_mem(ma, sp2, (pc3 % 256) as u8) {
                            Err(e) => r == Err::<usize, ExecutionError>(e) && m1 == ma && rf1 == (RegisterFile {
                                SP: sp2,
                                ..spec_pc_plus(rf0, 3)
                            }),
                            Ok(mb) => r == Ok::<usize, ExecutionError>(24) && m1 == mb && rf1 == (RegisterFile {
                                SP: sp2,
                                PC: target,
                                ..rf0
                            }),
                        },
                    }
                }
            }),
            (Err(e), _) => r == Err::<usize, ExecutionError>(e) && m1 == m0
                && rf1 == spec_pc_plus(rf0, 1),
            (Ok(_), Err(e)) => r == Err::<usize, ExecutionError>(e) && m1
                == m0 && rf1 == spec_pc_plus(rf0, 1),
        }
    })
}

/// What `RET` ensures of the registers, the memory and the result.
pub open spec fn ret_post(
    rf0: RegisterFile,
    m0: MemV,
    rf1: RegisterFile,
    m1: MemV,
    opcode: u8,
    r: Result<usize, ExecutionError>,
) -> bool {
    (m1 == m0) && ({
        match (spec_read8_mem(m0, rf0.SP), spec_read8_mem(m0, add16(rf0.SP as int, 1))) {
            (Ok(lo), Ok(hi)) => ({
                let cond = spec_ret_cond(opcode, rf0);
                if cond {
                    r == Ok::<usize, ExecutionError>(
                        if opcode == 0xC9 || opcode == 0xD9 {
                            16
                        } else {
                            20
                        },
                    ) && rf1 == (RegisterFile {
                        PC: (lo + 256 * hi) as u16,
                        SP: add16(rf0.SP as int, 2),
                        ..rf0
                    })
                } else {
                    r == Ok::<usize, ExecutionError>(8) && rf1
                        == spec_pc_plus(rf0, 1)
                }
            }),
            (Err(e), _) => r == Err::<usize, ExecutionError>(e) && rf1
                == spec_pc_plus(rf0, 1),
            (Ok(_), Err(e)) => r == Err::<usize, ExecutionError>(e) && rf1
                == spec_pc_plus(rf0, 1),
        }
    })
}

/// What `JRCond` ensures of the registers, the memory and the result.
pub open spec fn jrcond_post(
    rf0: RegisterFile,
    m0: MemV,
    rf1: RegisterFile,
    m1: MemV,
    opcode: u8,
    r: Result<usize, ExecutionError>,
) -> bool {
    (m1 == m0) && ({
        match spec_read8_mem(m0, add16(rf0.PC as int, 1)) {
            Ok(off) => ({
                let cond = spec_jr_cond(opcode, rf0);
                if cond {
                    r == Ok::<usize, ExecutionError>(12) && rf1 == (
                    RegisterFile { PC: spec_jr_target(rf0.PC, off), ..rf0 })
                } else {
                    r == Ok::<usize, ExecutionError>(8) && rf1
                        == spec_pc_plus(rf0, 2)
                }
            }),
            Err(e) => r == Err::<usize, ExecutionError>(e) && rf1
                == spec_pc_plus(rf0, 1),
        }
    })
}

/// What `RLCA` ensures of the registers, the memory and the result.
pub open spec fn rlca_post(
    rf0: RegisterFile,
    m0: MemV,
    rf1: RegisterFile,
    m1: MemV,
    opcode: u8,
    r: Result<usize, ExecutionError>,
) -> bool {
    (m1 == m0) && (r == Ok::<usize, ExecutionError>(4)) && ({
        rf1 == (RegisterFile {
            A: spec_rlc_res(rf0.A),
            F: spec_flags(false, false, false, rf0.A >= 128),
            ..spec_pc_plus(rf0, 1)
        })
    })
}

/// What `RRCA` ensures of the registers, the memory and the result.
pub open spec fn rrca_post(
    rf0: RegisterFile,
    m0: MemV,
    rf1: RegisterFile,
    m1: MemV,
    opcode: u8,
    r: Result<usize, ExecutionError>,
) -> bool {
    (m1 == m0) && (r == Ok::<usize, ExecutionError>(4)) && ({
        rf1 == (RegisterFile {
            A: spec_rrc_res(rf0.A),
            F: spec_flags(false, false, false, rf0.A % 2 == 1),
            ..spec_pc_plus(rf0, 1)
        })
    })
}

/// What `RLA` ensures of the registers, the memory and the result.
pub open spec fn rla_post(
    rf0: RegisterFile,
    m0: MemV,
    rf1: RegisterFile,
    m1: MemV,
    opcode: u8,
    r: Result<usize, ExecutionError>,
) -> bool {
    (m1 == m0) && (r == Ok::<usize, ExecutionError>(4)) && ({
        rf1 == (RegisterFile {
            A: spec_rl_res(rf0.A, rf0.c()),
            F: spec_flags(false, false, false, rf0.A >= 128),
            ..spec_pc_plus(rf0, 1)
        })
    })
}

/// What `RRA` ensures of the registers, the memory and the result.
pub open spec fn rra_post(
    rf0: RegisterFile,
    m0: MemV,
    rf1: RegisterFile,
    m1: MemV,
    opcode: u8,
    r: Result<usize, ExecutionError>,
) -> bool {
    (m1 == m0) && (r == Ok::<usize, ExecutionError>(4)) && ({
        rf1 == (RegisterFile {
            A: spec_rr_res(rf0.A, rf0.c()),
            F: spec_flags(false, false, false, rf0.A % 2 == 1),
            ..spec_pc_plus(rf0, 1)
        })
    })
}

/// What every CB rotate, shift and swap ensures of the registers, the
/// memory and the result, given the group's result and carry functions:
/// the operand named by the low three bits is replaced by `res_of` of its
/// old value; Z comes from the result, N and H are cleared, C is `c_of` of
/// the old value. 8 T-cycles on a register, 16 on memory at HL.
pub open spec fn cb_unop_post(
    rf0: RegisterFile,
    m0: MemV,
    rf1: RegisterFile,
    m1: MemV,
    code: u8,
    res_of: spec_fn(u8) -> u8,
    c_of: spec_fn(u8) -> bool,
    r: Result<usize, ExecutionError>,
) -> bool {
    if code != 6 {
        let v = rf0.spec_get8(spec_operand_reg(code));
        r == Ok::<usize, ExecutionError>(8) && m1 == m0 && rf1 == (RegisterFile {
            F: spec_flags(res_of(v) == 0, false, false, c_of(v)),
            ..spec_pc_plus(rf0, 1).spec_set8(spec_operand_reg(code), res_of(v))
        })
    } else {
        match spec_read8_mem(m0, rf0.hl() as u16) {
            Err(e) => r == Err::<usize, ExecutionError>(e) && m1 == m0 && rf1 == spec_pc_plus(
                rf0,
                1,
            ),
            Ok(v) => match spec_write8_mem(m0, rf0.hl() as u16, res_of(v)) {
                Ok(m) => r == Ok::<usize, ExecutionError>(16) && m1 == m && rf1 == (RegisterFile {
                    F: spec_flags(res_of(v) == 0, false, false, c_of(v)),
                    ..spec_pc_plus(rf0, 1)
                }),
                Err(e) => r == Err::<usize, ExecutionError>(e) && m1 == m0 && rf1 == spec_pc_plus(
                    rf0,
                    1,
                ),
            },
        }
    }
}

/// What `BIT n,r/(HL)` ensures: Z is set exactly when bit `n` of the
/// operand is zero, N cleared, H set, C untouched; the operand is kept.
/// 8 T-cycles on a register, 12 on memory at HL.
pub open spec fn bit_post(
    rf0: RegisterFile,
    m0: MemV,
    rf1: RegisterFile,
    m1: MemV,
    opcode: u8,
    r: Result<usize, ExecutionError>,
) -> bool {
    let n = (opcode / 8) % 8;
    let code = opcode % 8;
    let mask = 1u8 << n;
    m1 == m0 && if code != 6 {
        r == Ok::<usize, ExecutionError>(8) && rf1 == (RegisterFile {
            F: spec_flags(rf0.spec_get8(spec_operand_reg(code)) & mask == 0, false, true, rf0.c()),
            ..spec_pc_plus(rf0, 1)
        })
    } else {
        match spec_read8_mem(m0, rf0.hl() as u16) {
            Ok(v) => r == Ok::<usize, ExecutionError>(12) && rf1 == (RegisterFile {
                F: spec_flags(v & mask == 0, false, true, rf0.c()),
                ..spec_pc_plus(rf0, 1)
            }),
            Err(e) => r == Err::<usize, ExecutionError>(e) && rf1 == spec_pc_plus(rf0, 1),
        }
    }
}

/// What `RES n,r/(HL)` and `SET n,r/(HL)` ensure, given whether the bit is
/// set: bit `n` of the operand is forced to the value; flags untouched.
/// 8 T-cycles on a register, 16 on memory at HL.
pub open spec fn cb_bitwrite_post(
    rf0: RegisterFile,
    m0: MemV,
    rf1: RegisterFile,
    m1: MemV,
    opcode: u8,
    setting: bool,
    r: Result<usize, ExecutionError>,
) -> bool {
    let n = (opcode / 8) % 8;
    let code = opcode % 8;
    let mask = 1u8 << n;
    if code != 6 {
        let v = rf0.spec_get8(spec_operand_reg(code));
        let res = if setting {
            v | mask
        } else {
            v & !mask
        };
        r == Ok::<usize, ExecutionError>(8) && m1 == m0 && rf1 == spec_pc_plus(rf0, 1).spec_set8(
            spec_operand_reg(code),
            res,
        )
    } else {
        match spec_read8_mem(m0, rf0.hl() as u16) {
            Err(e) => r == Err::<usize, ExecutionError>(e) && m1 == m0 && rf1 == spec_pc_plus(
                rf0,
                1,
            ),
            Ok(v) => {
                let res = if setting {
                    v | mask
                } else {
                    v & !mask
                };
                match spec_write8_mem(m0, rf0.hl() as u16, res) {
                    Ok(m) => r == Ok::<usize, ExecutionError>(16) && m1 == m && rf1
                        == spec_pc_plus(rf0, 1),
                    Err(e) => r == Err::<usize, ExecutionError>(e) && m1 == m0 && rf1
                        == spec_pc_plus(rf0, 1),
                }
            },
        }
    }
}

/// What one CB-prefixed instruction ensures, by opcode range. The T-cycle
/// counts here include the 4 cycles of the $CB prefix fetch.
pub open spec fn spec_cb_post(
    rf0: RegisterFile,
    m0: MemV,
    rf1: RegisterFile,
    m1: MemV,
    opcode: u8,
    r: Result<usize, ExecutionError>,
) -> bool {
    if opcode < 0x08 {
        cb_unop_post(rf0, m0, rf1, m1, opcode % 8, |v: u8| spec_rlc_res(v), |v: u8| v >= 128, r)
    } else if opcode < 0x10 {
        cb_unop_post(rf0, m0, rf1, m1, opcode % 8, |v: u8| spec_rrc_res(v), |v: u8| v % 2 == 1, r)
    } else if opcode < 0x18 {
        cb_unop_post(
            rf0,
            m0,
            rf1,
            m1,
            opcode % 8,
            |v: u8| spec_rl_res(v, rf0.c()),
            |v: u8| v >= 128,
            r,
        )
    } else if opcode < 0x20 {
        cb_unop_post(
            rf0,
            m0,
            rf1,
            m1,
            opcode % 8,
            |v: u8| spec_rr_res(v, rf0.c()),
            |v: u8| v % 2 == 1,
            r,
        )
    } else if opcode < 0x28 {
        cb_unop_post(rf0, m0, rf1, m1, opcode % 8, |v: u8| spec_sla_res(v), |v: u8| v >= 128, r)
    } else if opcode < 0x30 {
        cb_unop_post(rf0, m0, rf1, m1, opcode % 8, |v: u8| spec_sra_res(v), |v: u8| v % 2 == 1, r)
    } else if opcode < 0x38 {
        cb_unop_post(rf0, m0, rf1, m1, opcode % 8, |v: u8| spec_swap_res(v), |v: u8| false, r)
    } else if opcode < 0x40 {
        cb_unop_post(rf0, m0, rf1, m1, opcode % 8, |v: u8| spec_srl_res(v), |v: u8| v % 2 == 1, r)
    } else if opcode < 0x80 {
        bit_post(rf0, m0, rf1, m1, opcode, r)
    } else if opcode < 0xC0 {
        cb_bitwrite_post(rf0, m0, rf1, m1, opcode, false, r)
    } else {
        cb_bitwrite_post(rf0, m0, rf1, m1, opcode, true, r)
    }
}

impl System {
    /// CB `RLC r/(HL)` ($CB $00-$07): rotates the operand left, bit 7 into
    /// both carry and bit 0.
    pub fn RLC(&mut self, opcode: u8) -> (r: Result<usize, ExecutionError>)
        requires
            old(self).wf(),
            opcode < 0x08,
        ensures
            final(self).wf(),
            final(self).M_cycles == old(self).M_cycles,
            cb_unop_post(
                old(self).cpu.rf,
                old(self).memv(),
                final(self).cpu.rf,
                final(self).memv(),
                opcode % 8,
                |v: u8| spec_rlc_res(v),
                |v: u8| v >= 128,
                r,
            ),
    {
        self.cpu.rf.PC = wrap_add16(self.cpu.rf.PC, 1);
        let code = decode_src(opcode);
        if code != 6 {
            let reg = reg8_of(code);
            let v = self.cpu.rf.get8(reg);
            let res = v % 128 * 2 + v / 128;
            self.cpu.rf.set8(reg, res);
            self.cpu.rf.F = crate::cpu::flags_byte(res == 0, false, false, v >= 128);
            proof {
                lemma_flag_bits();
            }
            Ok(8)
        } else {
            let hl = self.cpu.rf.HL_read();
            let v = match self.read8(hl) {
                Ok(b) => b,
                Err(e) => {
                    return Err(e);
                },
            };
            let res = v % 128 * 2 + v / 128;
            match self.write8(hl, res) {
                Ok(_) => (),
                Err(e) => {
                    return Err(e);
                },
            }
            self.cpu.rf.F = crate::cpu::flags_byte(res == 0, false, false, v >= 128);
            proof {
                lemma_flag_bits();
            }
            Ok(16)
        }
    }

    /// CB `RRC r/(HL)` ($CB $08-$0F): rotates the operand right, bit 0
    /// into both carry and bit 7.
    pub fn RRC(&mut self, opcode: u8) -> (r: Result<usize, ExecutionError>)
        requires
            old(self).wf(),
            0x08 <= opcode < 0x10,
        ensures
            final(self).wf(),
            final(self).M_cycles == old(self).M_cycles,
            cb_unop_post(
                old(self).cpu.rf,
                old(self).memv(),
                final(self).cpu.rf,
                final(self).memv(),
                opcode % 8,
                |v: u8| spec_rrc_res(v),
                |v: u8| v % 2 == 1,
                r,
            ),
    {
        self.cpu.rf.PC = wrap_add16(self.cpu.rf.PC, 1);
        let code = decode_src(opcode);
        if code != 6 {
            let reg = reg8_of(code);
            let v = self.cpu.rf.get8(reg);
            let res = v / 2 + v % 2 * 128;
            self.cpu.rf.set8(reg, res);
            self.cpu.rf.F = crate::cpu::flags_byte(res == 0, false, false, v % 2 == 1);
            proof {
                lemma_flag_bits();
            }
            Ok(8)
        } else {
            let hl = self.cpu.rf.HL_read();
            let v = match self.read8(hl) {
                Ok(b) => b,
                Err(e) => {
                    return Err(e);
                },
            };
            let res = v / 2 + v % 2 * 128;
            match self.write8(hl, res) {
                Ok(_) => (),
                Err(e) => {
                    return Err(e);
                },
            }
            self.cpu.rf.F = crate::cpu::flags_byte(res == 0, false, false, v % 2 == 1);
            proof {
                lemma_flag_bits();
            }
            Ok(16)
        }
    }

    /// CB `RL r/(HL)` ($CB $10-$17): rotates the operand left through the
    /// carry: the old carry enters bit 0, bit 7 leaves into the carry.
    pub fn RL(&mut self, opcode: u8) -> (r: Result<usize, ExecutionError>)
        requires
            old(self).wf(),
            0x10 <= opcode < 0x18,
        ensures
            final(self).wf(),
            final(self).M_cycles == old(self).M_cycles,
            ({
                let rf0 = old(self).cpu.rf;
                cb_unop_post(
                    rf0,
                    old(self).memv(),
                    final(self).cpu.rf,
                    final(self).memv(),
                    opcode % 8,
                    |v: u8| spec_rl_res(v, rf0.c()),
                    |v: u8| v >= 128,
                    r,
                )
            }),
    {
        self.cpu.rf.PC = wrap_add16(self.cpu.rf.PC, 1);
        let code = decode_src(opcode);
        let cin: u8 = if self.cpu.rf.c_get() {
            1
        } else {
            0
        };
        if code != 6 {
            let reg = reg8_of(code);
            let v = self.cpu.rf.get8(reg);
            let res = v % 128 * 2 + cin;
            self.cpu.rf.set8(reg, res);
            self.cpu.rf.F = crate::cpu::flags_byte(res == 0, false, false, v >= 128);
            proof {
                lemma_flag_bits();
            }
            Ok(8)
        } else {
            let hl = self.cpu.rf.HL_read();
            let v = match self.read8(hl) {
                Ok(b) => b,
                Err(e) => {
                    return Err(e);
                },
            };
            let res = v % 128 * 2 + cin;
            match self.write8(hl, res) {
                Ok(_) => (),
                Err(e) => {
                    return Err(e);
                },
            }
            self.cpu.rf.F = crate::cpu::flags_byte(res == 0, false, false, v >= 128);
            proof {
                lemma_flag_bits();
            }
            Ok(16)
        }
    }

    /// CB `RR r/(HL)` ($CB $18-$1F): rotates the operand right through the
    /// carry: the old carry enters bit 7, bit 0 leaves into the carry.
    pub fn RR(&mut self, opcode: u8) -> (r: Result<usize, ExecutionError>)
        requires
            old(self).wf(),
            0x18 <= opcode < 0x20,
        ensures
            final(self).wf(),
            final(self).M_cycles == old(self).M_cycles,
            ({
                let rf0 = old(self).cpu.rf;
                cb_unop_post(
                    rf0,
                    old(self).memv(),
                    final(self).cpu.rf,
                    final(self).memv(),
                    opcode % 8,
                    |v: u8| spec_rr_res(v, rf0.c()),
                    |v: u8| v % 2 == 1,
                    r,
                )
            }),
    {
        self.cpu.rf.PC = wrap_add16(self.cpu.rf.PC, 1);
        let code = decode_src(opcode);
        let cin: u8 = if self.cpu.rf.c_get() {
            128
        } else {
            0
        };
        if code != 6 {
            let reg = reg8_of(code);
            let v = self.cpu.rf.get8(reg);
            let res = v / 2 + cin;
            self.cpu.rf.set8(reg, res);
            self.cpu.rf.F = crate::cpu::flags_byte(res == 0, false, false, v % 2 == 1);
            proof {
                lemma_flag_bits();
            }
            Ok(8)
        } else {
            let hl = self.cpu.rf.HL_read();
            let v = match self.read8(hl) {
                Ok(b) => b,
                Err(e) => {
                    return Err(e);
                },
            };
            let res = v / 2 + cin;
            match self.write8(hl, res) {
                Ok(_) => (),
                Err(e) => {
                    return Err(e);
                },
            }
            self.cpu.rf.F = crate::cpu::flags_byte(res == 0, false, false, v % 2 == 1);
            proof {
                lemma_flag_bits();
            }
            Ok(16)
        }
    }

    /// CB `SLA r/(HL)` ($CB $20-$27): shifts the operand left; bit 7
    /// leaves into the carry, bit 0 becomes zero.
    pub fn SLA(&mut self, opcode: u8) -> (r: Result<usize, ExecutionError>)
        requires
            old(self).wf(),
            0x20 <= opcode < 0x28,
        ensures
            final(self).wf(),
            final(self).M_cycles == old(self).M_cycles,
            cb_unop_post(
                old(self).cpu.rf,
                old(self).memv(),
                final(self).cpu.rf,
                final(self).memv(),
                opcode % 8,
                |v: u8| spec_sla_res(v),
                |v: u8| v >= 128,
                r,
            ),
    {
        self.cpu.rf.PC = wrap_add16(self.cpu.rf.PC, 1);
        let code = decode_src(opcode);
        if code != 6 {
            let reg = reg8_of(code);
            let v = self.cpu.rf.get8(reg);
            let res = v % 128 * 2;
            self.cpu.rf.set8(reg, res);
            self.cpu.rf.F = crate::cpu::flags_byte(res == 0, false, false, v >= 128);
            proof {
                lemma_flag_bits();
            }
            Ok(8)
        } else {
            let hl = self.cpu.rf.HL_read();
            let v = match self.read8(hl) {
                Ok(b) => b,
                Err(e) => {
                    return Err(e);
                },
            };
            let res = v % 128 * 2;
            match self.write8(hl, res) {
                Ok(_) => (),
                Err(e) => {
                    return Err(e);
                },
            }
            self.cpu.rf.F = crate::cpu::flags_byte(res == 0, false, false, v >= 128);
            proof {
                lemma_flag_bits();
            }
            Ok(16)
        }
    }

    /// CB `SRA r/(HL)` ($CB $28-$2F): shifts the operand right
    /// arithmetically; bit 7 is kept, bit 0 leaves into the carry.
    pub fn SRA(&mut self, opcode: u8) -> (r: Result<usize, ExecutionError>)
        requires
            old(self).wf(),
            0x28 <= opcode < 0x30,
        ensures
            final(self).wf(),
            final(self).M_cycles == old(self).M_cycles,
            cb_unop_post(
                old(self).cpu.rf,
                old(self).memv(),
                final(self).cpu.rf,
                final(self).memv(),
                opcode % 8,
                |v: u8| spec_sra_res(v),
                |v: u8| v % 2 == 1,
                r,
            ),
    {
        self.cpu.rf.PC = wrap_add16(self.cpu.rf.PC, 1);
        let code = decode_src(opcode);
        if code != 6 {
            let reg = reg8_of(code);
            let v = self.cpu.rf.get8(reg);
            let res = v / 2 + v / 128 * 128;
            self.cpu.rf.set8(reg, res);
            self.cpu.rf.F = crate::cpu::flags_byte(res == 0, false, false, v % 2 == 1);
            proof {
                lemma_flag_bits();
            }
            Ok(8)
        } else {
            let hl = self.cpu.rf.HL_read();
            let v = match self.read8(hl) {
                Ok(b) => b,
                Err(e) => {
                    return Err(e);
                },
            };
            let res = v / 2 + v / 128 * 128;
            match self.write8(hl, res) {
                Ok(_) => (),
                Err(e) => {
                    return Err(e);
                },
            }
            self.cpu.rf.F = crate::cpu::flags_byte(res == 0, false, false, v % 2 == 1);
            proof {
                lemma_flag_bits();
            }
            Ok(16)
        }
    }

    /// CB `SWAP r/(HL)` ($CB $30-$37): swaps the operand's nibbles; the
    /// carry is cleared.
    pub fn SWAP(&mut self, opcode: u8) -> (r: Result<usize, ExecutionError>)
        requires
            old(self).wf(),
            0x30 <= opcode < 0x38,
        ensures
            final(self).wf(),
            final(self).M_cycles == old(self).M_cycles,
            cb_unop_post(
                old(self).cpu.rf,
                old(self).memv(),
                final(self).cpu.rf,
                final(self).memv(),
                opcode % 8,
                |v: u8| spec_swap_res(v),
                |v: u8| false,
                r,
            ),
    {
        self.cpu.rf.PC = wrap_add16(self.cpu.rf.PC, 1);
        let code = decode_src(opcode);
        if code != 6 {
            let reg = reg8_of(code);
            let v = self.cpu.rf.get8(reg);
            let res = v % 16 * 16 + v / 16;
            self.cpu.rf.set8(reg, res);
            self.cpu.rf.F = crate::cpu::flags_byte(res == 0, false, false, false);
            proof {
                lemma_flag_bits();
            }
            Ok(8)
        } else {
            let hl = self.cpu.rf.HL_read();
            let v = match self.read8(hl) {
                Ok(b) => b,
                Err(e) => {
                    return Err(e);
                },
            };
            let res = v % 16 * 16 + v / 16;
            match self.write8(hl, res) {
                Ok(_) => (),
                Err(e) => {
                    return Err(e);
                },
            }
            self.cpu.rf.F = crate::cpu::flags_byte(res == 0, false, false, false);
            proof {
                lemma_flag_bits();
            }
            Ok(16)
        }
    }

    /// CB `SRL r/(HL)` ($CB $38-$3F): shifts the operand right logically;
    /// bit 7 becomes zero, bit 0 leaves into the carry.
    pub fn SRL(&mut self, opcode: u8) -> (r: Result<usize, ExecutionError>)
        requires
            old(self).wf(),
            0x38 <= opcode < 0x40,
        ensures
            final(self).wf(),
            final(self).M_cycles == old(self).M_cycles,
            cb_unop_post(
                old(self).cpu.rf,
                old(self).memv(),
                final(self).cpu.rf,
                final(self).memv(),
                opcode % 8,
                |v: u8| spec_srl_res(v),
                |v: u8| v % 2 == 1,
                r,
            ),
    {
        self.cpu.rf.PC = wrap_add16(self.cpu.rf.PC, 1);
        let code = decode_src(opcode);
        if code != 6 {
            let reg = reg8_of(code);
            let v = self.cpu.rf.get8(reg);
            let res = v / 2;
            self.cpu.rf.set8(reg, res);
            self.cpu.rf.F = crate::cpu::flags_byte(res == 0, false, false, v % 2 == 1);
            proof {
                lemma_flag_bits();
            }
            Ok(8)
        } else {
            let hl = self.cpu.rf.HL_read();
            let v = match self.read8(hl) {
                Ok(b) => b,
                Err(e) => {
                    return Err(e);
                },
            };
            let res = v / 2;
            match self.write8(hl, res) {
                Ok(_) => (),
                Err(e) => {
                    return Err(e);
                },
            }
            self.cpu.rf.F = crate::cpu::flags_byte(res == 0, false, false, v % 2 == 1);
            proof {
                lemma_flag_bits();
            }
            Ok(16)
        }
    }

    /// CB `BIT n,r/(HL)` ($CB $40-$7F): tests bit `n` of the operand.
    /// Z is set exactly when the bit is zero; N cleared, H set, C kept.
    pub fn BIT(&mut self, opcode: u8) -> (r: Result<usize, ExecutionError>)
        requires
            old(self).wf(),
            0x40 <= opcode < 0x80,
        ensures
            final(self).wf(),
            final(self).M_cycles == old(self).M_cycles,
            final(self).memv() == old(self).memv(),
            bit_post(
                old(self).cpu.rf,
                old(self).memv(),
                final(self).cpu.rf,
                final(self).memv(),
                opcode,
                r,
            ),
    {
        self.cpu.rf.PC = wrap_add16(self.cpu.rf.PC, 1);
        let n = decode_dst(opcode);
        let code = decode_src(opcode);
        let mask: u8 = 1u8 << n;
        let v = if code != 6 {
            self.cpu.rf.get8(reg8_of(code))
        } else {
            let hl = self.cpu.rf.HL_read();
            match self.read8(hl) {
                Ok(b) => b,
                Err(e) => {
                    return Err(e);
                },
            }
        };
        let c = self.cpu.rf.c_get();
        self.cpu.rf.F = crate::cpu::flags_byte(v & mask == 0, false, true, c);
        proof {
            lemma_flag_bits();
        }
        if code != 6 {
            Ok(8)
        } else {
            Ok(12)
        }
    }

    /// CB `RES n,r/(HL)` ($CB $80-$BF): clears bit `n` of the operand;
    /// flags untouched.
    pub fn RES(&mut self, opcode: u8) -> (r: Result<usize, ExecutionError>)
        requires
            old(self).wf(),
            0x80 <= opcode < 0xC0,
        ensures
            final(self).wf(),
            final(self).M_cycles == old(self).M_cycles,
            cb_bitwrite_post(
                old(self).cpu.rf,
                old(self).memv(),
                final(self).cpu.rf,
                final(self).memv(),
                opcode,
                false,
                r,
            ),
    {
        self.cpu.rf.PC = wrap_add16(self.cpu.rf.PC, 1);
        let n = decode_dst(opcode);
        let code = decode_src(opcode);
        let mask: u8 = 1u8 << n;
        if code != 6 {
            let reg = reg8_of(code);
            let v = self.cpu.rf.get8(reg);
            self.cpu.rf.set8(reg, v & !mask);
            Ok(8)
        } else {
            let hl = self.cpu.rf.HL_read();
            let v = match self.read8(hl) {
                Ok(b) => b,
                Err(e) => {
                    return Err(e);
                },
            };
            match self.write8(hl, v & !mask) {
                Ok(_) => Ok(16),
                Err(e) => Err(e),
            }
        }
    }

    /// CB `SET n,r/(HL)` ($CB $C0-$FF): sets bit `n` of the operand;
    /// flags untouched.
    pub fn SET(&mut self, opcode: u8) -> (r: Result<usize, ExecutionError>)
        requires
            old(self).wf(),
            0xC0 <= opcode,
        ensures
            final(self).wf(),
            final(self).M_cycles == old(self).M_cycles,
            cb_bitwrite_post(
                old(self).cpu.rf,
                old(self).memv(),
                final(self).cpu.rf,
                final(self).memv(),
                opcode,
                true,
                r,
            ),
    {
        self.cpu.rf.PC = wrap_add16(self.cpu.rf.PC, 1);
        let n = decode_dst(opcode);
        let code = decode_src(opcode);
        let mask: u8 = 1u8 << n;
        if code != 6 {
            let reg = reg8_of(code);
            let v = self.cpu.rf.get8(reg);
            self.cpu.rf.set8(reg, v | mask);
            Ok(8)
        } else {
            let hl = self.cpu.rf.HL_read();
            let v = match self.read8(hl) {
                Ok(b) => b,
                Err(e) => {
                    return Err(e);
                },
            };
            match self.write8(hl, v | mask) {
                Ok(_) => Ok(16),
                Err(e) => Err(e),
            }
        }
    }

    /// Dispatches one CB-prefixed opcode (the byte after the $CB prefix)
    /// to its handler.
    pub fn execute_CB_op(&mut self, opcode: u8) -> (r: Result<usize, ExecutionError>)
        requires
            old(self).wf(),
        ensures
            final(self).wf(),
            final(self).M_cycles == old(self).M_cycles,
            spec_cb_post(
                old(self).cpu.rf,
                old(self).memv(),
                final(self).cpu.rf,
                final(self).memv(),
                opcode,
                r,
            ),
    {
        if opcode < 0x08 {
            self.RLC(opcode)
        } else if opcode < 0x10 {
            self.RRC(opcode)
        } else if opcode < 0x18 {
            self.RL(opcode)
        } else if opcode < 0x20 {
            self.RR(opcode)
        } else if opcode < 0x28 {
            self.SLA(opcode)
        } else if opcode < 0x30 {
            self.SRA(opcode)
        } else if opcode < 0x38 {
            self.SWAP(opcode)
        } else if opcode < 0x40 {
            self.SRL(opcode)
        } else if opcode < 0x80 {
            self.BIT(opcode)
        } else if opcode < 0xC0 {
            self.RES(opcode)
        } else {
            self.SET(opcode)
        }
    }
}

/// What one primary-table instruction ensures, by opcode, mirroring the
/// dispatch: each implemented opcode defers to its handler's contract; the
/// $CB prefix fetches a second byte and defers to the CB contract; any
/// other opcode fails with `UnimplementedOpcode` and changes nothing.
pub open spec fn spec_exec_post(
    rf0: RegisterFile,
    m0: MemV,
    rf1: RegisterFile,
    m1: MemV,
    opcode: u8,
    r: Result<usize, ExecutionError>,
) -> bool {
    if opcode == 0x01 || opcode == 0x11 || opcode == 0x21 || opcode == 0x31 {
        ld16imm_post(rf0, m0, rf1, m1, opcode, r)
    } else if (0x70 <= opcode <= 0x75) || opcode == 0x77 || opcode == 0x22 || opcode == 0x32
        || opcode == 0x36 {
        strhl_post(rf0, m0, rf1, m1, opcode, r)
    } else if opcode == 0x20 || opcode == 0x30 || opcode == 0x28 || opcode == 0x38 || opcode
        == 0x18 {
        jrcond_post(rf0, m0, rf1, m1, opcode, r)
    } else if opcode == 0x06 || opcode == 0x0E || opcode == 0x16 || opcode == 0x1E || opcode
        == 0x26 || opcode == 0x2E || opcode == 0x3E {
        ld8imm_post(rf0, m0, rf1, m1, opcode, r)
    } else if opcode == 0xE0 || opcode == 0xE2 {
        writeio_post(rf0, m0, rf1, m1, opcode, r)
    } else if opcode == 0xF0 || opcode == 0xF2 {
        readio_post(rf0, m0, rf1, m1, opcode, r)
    } else if opcode == 0x04 || opcode == 0x0C || opcode == 0x14 || opcode == 0x1C || opcode
        == 0x24 || opcode == 0x2C || opcode == 0x34 || opcode == 0x3C {
        inc8_post(rf0, m0, rf1, m1, opcode, r)
    } else if opcode == 0x0A || opcode == 0x1A || opcode == 0x2A || opcode == 0x3A {
        lda_post(rf0, m0, rf1, m1, opcode, r)
    } else if opcode == 0x02 || opcode == 0x12 {
        stra_post(rf0, m0, rf1, m1, opcode, r)
    } else if opcode == 0xC4 || opcode == 0xD4 || opcode == 0xCC || opcode == 0xDC || opcode
        == 0xCD {
        call_post(rf0, m0, rf1, m1, opcode, r)
    } else if 0x40 <= opcode < 0x80 && opcode != 0x76 {
        mv_post(rf0, m0, rf1, m1, opcode, r)
    } else if opcode == 0xC5 || opcode == 0xD5 || opcode == 0xE5 || opcode == 0xF5 {
        push_post(rf0, m0, rf1, m1, opcode, r)
    } else if opcode == 0xC1 || opcode == 0xD1 || opcode == 0xE1 || opcode == 0xF1 {
        pop_post(rf0, m0, rf1, m1, opcode, r)
    } else if opcode == 0x07 {
        rlca_post(rf0, m0, rf1, m1, opcode, r)
    } else if opcode == 0x0F {
        rrca_post(rf0, m0, rf1, m1, opcode, r)
    } else if opcode == 0x17 {
        rla_post(rf0, m0, rf1, m1, opcode, r)
    } else if opcode == 0x1F {
        rra_post(rf0, m0, rf1, m1, opcode, r)
    } else if opcode == 0x05 || opcode == 0x0D || opcode == 0x15 || opcode == 0x1D || opcode
        == 0x25 || opcode == 0x2D || opcode == 0x35 || opcode == 0x3D {
        dec8_post(rf0, m0, rf1, m1, opcode, r)
    } else if opcode == 0x03 || opcode == 0x13 || opcode == 0x23 || opcode == 0x33 {
        inc16_post(rf0, m0, rf1, m1, opcode, r)
    } else if opcode == 0x0B || opcode == 0x1B || opcode == 0x2B || opcode == 0x3B {
        dec16_post(rf0, m0, rf1, m1, opcode, r)
    } else if opcode == 0xC0 || opcode == 0xD0 || opcode == 0xC8 || opcode == 0xD8 || opcode
        == 0xC9 || opcode == 0xD9 {
        ret_post(rf0, m0, rf1, m1, opcode, r)
    } else if (0x80 <= opcode <= 0x87) || opcode == 0xC6 {
        add_post(rf0, m0, rf1, m1, opcode, r)
    } else if (0x88 <= opcode <= 0x8F) || opcode == 0xCE {
        adc_post(rf0, m0, rf1, m1, opcode, r)
    } else if (0x90 <= opcode <= 0x97) || opcode == 0xD6 {
        sub_post(rf0, m0, rf1, m1, opcode, r)
    } else if (0x98 <= opcode <= 0x9F) || opcode == 0xDE {
        sbc_post(rf0, m0, rf1, m1, opcode, r)
    } else if (0xA0 <= opcode <= 0xA7) || opcode == 0xE6 {
        and_post(rf0, m0, rf1, m1, opcode, r)
    } else if (0xA8 <= opcode <= 0xAF) || opcode == 0xEE {
        xor_post(rf0, m0, rf1, m1, opcode, r)
    } else if (0xB0 <= opcode <= 0xB7) || opcode == 0xF6 {
        or_post(rf0, m0, rf1, m1, opcode, r)
    } else if (0xB8 <= opcode <= 0xBF) || opcode == 0xFE {
        cp_post(rf0, m0, rf1, m1, opcode, r)
    } else if opcode == 0xEA {
        stra16_post(rf0, m0, rf1, m1, opcode, r)
    } else if opcode == 0xFA {
        lda16_post(rf0, m0, rf1, m1, opcode, r)
    } else if opcode == 0xCB {
        match spec_read8_mem(m0, add16(rf0.PC as int, 1)) {
            Err(e) => r == Err::<usize, ExecutionError>(e) && m1 == m0 && rf1 == spec_pc_plus(
                rf0,
                1,
            ),
            Ok(cb) => spec_cb_post(spec_pc_plus(rf0, 1), m0, rf1, m1, cb, r),
        }
    } else {
        r == Err::<usize, ExecutionError>(ExecutionError::UnimplementedOpcode(opcode)) && rf1
            == rf0 && m1 == m0
    }
}

/// The cycle counter after an instruction that took `t` T-cycles: one
/// machine cycle per four T-cycles, saturating at the counter's top.
pub open spec fn spec_acc_cycles(m: u64, t: usize) -> u64 {
    if m + t / 4 <= u64::MAX {
        (m + t / 4) as u64
    } else {
        u64::MAX
    }
}

/// The CPU state the core publishes after each step.
#[derive(Clone, Copy, PartialEq, Eq, Structural, Debug)]
pub struct CpuSnapshot {
    pub A: u8,
    pub F: u8,
    pub B: u8,
    pub C: u8,
    pub D: u8,
    pub E: u8,
    pub H: u8,
    pub L: u8,
    pub SP: u16,
    pub PC: u16,
    pub M_cycles: u64,
}

impl System {
    /// Decodes and executes one fetched opcode, dispatching to its
    /// handler; the cycle counter is left to the caller.
    pub fn execute_op(&mut self, opcode: u8) -> (r: Result<usize, ExecutionError>)
        requires
            old(self).wf(),
        ensures
            final(self).wf(),
            final(self).M_cycles == old(self).M_cycles,
            spec_exec_post(
                old(self).cpu.rf,
                old(self).memv(),
                final(self).cpu.rf,
                final(self).memv(),
                opcode,
                r,
            ),
    {
        if opcode == 0x01 || opcode == 0x11 || opcode == 0x21 || opcode == 0x31 {
            self.LD16imm(opcode)
        } else if (0x70 <= opcode && opcode <= 0x75) || opcode == 0x77 || opcode == 0x22 || opcode
            == 0x32 || opcode == 0x36 {
            self.STRHL(opcode)
        } else if opcode == 0x20 || opcode == 0x30 || opcode == 0x28 || opcode == 0x38 || opcode
            == 0x18 {
            self.JRCond(opcode)
        } else if opcode == 0x06 || opcode == 0x0E || opcode == 0x16 || opcode == 0x1E || opcode
            == 0x26 || opcode == 0x2E || opcode == 0x3E {
            self.LD8imm(opcode)
        } else if opcode == 0xE0 || opcode == 0xE2 {
            self.WriteIO(opcode)
        } else if opcode == 0xF0 || opcode == 0xF2 {
            self.ReadIO(opcode)
        } else if opcode == 0x04 || opcode == 0x0C || opcode == 0x14 || opcode == 0x1C || opcode
            == 0x24 || opcode == 0x2C || opcode == 0x34 || opcode == 0x3C {
            self.INC8(opcode)
        } else if opcode == 0x0A || opcode == 0x1A || opcode == 0x2A || opcode == 0x3A {
            self.LDA(opcode)
        } else if opcode == 0x02 || opcode == 0x12 {
            self.STRA(opcode)
        } else if opcode == 0xC4 || opcode == 0xD4 || opcode == 0xCC || opcode == 0xDC || opcode
            == 0xCD {
            self.CALL(opcode)
        } else if 0x40 <= opcode && opcode < 0x80 && opcode != 0x76 {
            self.MV(opcode)
        } else if opcode == 0xC5 || opcode == 0xD5 || opcode == 0xE5 || opcode == 0xF5 {
            self.PUSH(opcode)
        } else if opcode == 0xC1 || opcode == 0xD1 || opcode == 0xE1 || opcode == 0xF1 {
            self.POP(opcode)
        } else if opcode == 0x07 {
            self.RLCA(opcode)
        } else if opcode == 0x0F {
            self.RRCA(opcode)
        } else if opcode == 0x17 {
            self.RLA(opcode)
        } else if opcode == 0x1F {
            self.RRA(opcode)
        } else if opcode == 0x05 || opcode == 0x0D || opcode == 0x15 || opcode == 0x1D || opcode
            == 0x25 || opcode == 0x2D || opcode == 0x35 || opcode == 0x3D {
            self.DEC8(opcode)
        } else if opcode == 0x03 || opcode == 0x13 || opcode == 0x23 || opcode == 0x33 {
            self.INC16(opcode)
        } else if opcode == 0x0B || opcode == 0x1B || opcode == 0x2B || opcode == 0x3B {
            self.DEC16(opcode)
        } else if opcode == 0xC0 || opcode == 0xD0 || opcode == 0xC8 || opcode == 0xD8 || opcode
            == 0xC9 || opcode == 0xD9 {
            self.RET(opcode)
        } else if (0x80 <= opcode && opcode <= 0x87) || opcode == 0xC6 {
            self.ADD(opcode)
        } else if (0x88 <= opcode && opcode <= 0x8F) || opcode == 0xCE {
            self.ADC(opcode)
        } else if (0x90 <= opcode && opcode <= 0x97) || opcode == 0xD6 {
            self.SUB(opcode)
        } else if (0x98 <= opcode && opcode <= 0x9F) || opcode == 0xDE {
            self.SBC(opcode)
        } else if (0xA0 <= opcode && opcode <= 0xA7) || opcode == 0xE6 {
            self.AND(opcode)
        } else if (0xA8 <= opcode && opcode <= 0xAF) || opcode == 0xEE {
            self.XOR(opcode)
        } else if (0xB0 <= opcode && opcode <= 0xB7) || opcode == 0xF6 {
            self.OR(opcode)
        } else if (0xB8 <= opcode && opcode <= 0xBF) || opcode == 0xFE {
            self.CP(opcode)
        } else if opcode == 0xEA {
            self.STRA16(opcode)
        } else if opcode == 0xFA {
            self.LDA16(opcode)
        } else if opcode == 0xCB {
            self.cpu.rf.PC = wrap_add16(self.cpu.rf.PC, 1);
            let second = match self.read8(self.cpu.rf.PC) {
                Ok(b) => b,
                Err(e) => {
                    return Err(e);
                },
            };
            self.execute_CB_op(second)
        } else {
            Err(ExecutionError::UnimplementedOpcode(opcode))
        }
    }

    /// Runs one fetch-decode-execute step: reads the opcode at PC,
    /// executes it, and accumulates the machine cycles it took.
    pub fn step(&mut self) -> (r: Result<usize, ExecutionError>)
        requires
            old(self).wf(),
        ensures
            final(self).wf(),
            ({
                let rf0 = old(self).cpu.rf;
                let m0 = old(self).memv();
                match spec_read8_mem(m0, rf0.PC) {
                    Err(e) => r == Err::<usize, ExecutionError>(e) && final(self).cpu.rf == rf0
                        && final(self).memv() == m0 && final(self).M_cycles == old(self).M_cycles,
                    Ok(op) => spec_exec_post(
                        rf0,
                        m0,
                        final(self).cpu.rf,
                        final(self).memv(),
                        op,
                        r,
                    ) && (match r {
                        Ok(t) => final(self).M_cycles == spec_acc_cycles(old(self).M_cycles, t),
                        Err(_) => final(self).M_cycles == old(self).M_cycles,
                    }),
                }
            }),
    {
        let op = match self.read8(self.cpu.rf.PC) {
            Ok(b) => b,
            Err(e) => {
                return Err(e);
            },
        };
        match self.execute_op(op) {
            Ok(t) => {
                let t4 = (t / 4) as u64;
                self.M_cycles = if self.M_cycles <= u64::MAX - t4 {
                    self.M_cycles + t4
                } else {
                    u64::MAX
                };
                Ok(t)
            },
            Err(e) => Err(e),
        }
    }

    /// The CPU state published after each step: the register file and the
    /// accumulated machine-cycle count.
    pub fn snapshot(&self) -> (s: CpuSnapshot)
        ensures
            s == (CpuSnapshot {
                A: self.cpu.rf.A,
                F: self.cpu.rf.F,
                B: self.cpu.rf.B,
                C: self.cpu.rf.C,
                D: self.cpu.rf.D,
                E: self.cpu.rf.E,
                H: self.cpu.rf.H,
                L: self.cpu.rf.L,
                SP: self.cpu.rf.SP,
                PC: self.cpu.rf.PC,
                M_cycles: self.M_cycles,
            }),
    {
        CpuSnapshot {
            A: self.cpu.rf.A,
            F: self.cpu.rf.F,
            B: self.cpu.rf.B,
            C: self.cpu.rf.C,
            D: self.cpu.rf.D,
            E: self.cpu.rf.E,
            H: self.cpu.rf.H,
            L: self.cpu.rf.L,
            SP: self.cpu.rf.SP,
            PC: self.cpu.rf.PC,
            M_cycles: self.M_cycles,
        }
    }
}

/// The run loop's stop decision: whether a drained batch of inbound
/// commands asks the worker to shut down.
pub fn wants_shutdown(cmds: &Vec<BackendCmd>) -> (stop: bool)
    ensures
        stop <==> exists|i: int| 0 <= i < cmds@.len() && cmds@[i] == BackendCmd::Shutdown,
{
    let mut i: usize = 0;
    while i < cmds.len()
        invariant
            i <= cmds@.len(),
            forall|j: int| 0 <= j < i ==> cmds@[j] != BackendCmd::Shutdown,
        decreases cmds@.len() - i,
    {
        let stop = match cmds[i] {
            BackendCmd::Shutdown => true,
        };
        if stop {
            return true;
        }
        i += 1;
    }
    false
}

/// The base T-cycle cost of each implemented primary-table opcode
/// (conditional branches add their taken delta on top: +4 for JR, +12 for
/// CALL and RET). Unimplemented opcodes carry zero.
pub open spec fn spec_primary_cycles(op: u8) -> usize {
    if op == 0x01 || op == 0x11 || op == 0x21 || op == 0x31 {
        12
    } else if op == 0x02 || op == 0x12 || op == 0x22 || op == 0x32 {
        8
    } else if op == 0x0A || op == 0x1A || op == 0x2A || op == 0x3A {
        8
    } else if op == 0x03 || op == 0x13 || op == 0x23 || op == 0x33 || op == 0x0B || op == 0x1B
        || op == 0x2B || op == 0x3B {
        8
    } else if op == 0x34 || op == 0x35 {
        12
    } else if op == 0x04 || op == 0x0C || op == 0x14 || op == 0x1C || op == 0x24 || op == 0x2C
        || op == 0x3C || op == 0x05 || op == 0x0D || op == 0x15 || op == 0x1D || op == 0x25 || op
        == 0x2D || op == 0x3D {
        4
    } else if op == 0x36 {
        12
    } else if op == 0x06 || op == 0x0E || op == 0x16 || op == 0x1E || op == 0x26 || op == 0x2E
        || op == 0x3E {
        8
    } else if op == 0x07 || op == 0x0F || op == 0x17 || op == 0x1F {
        4
    } else if op == 0x18 {
        12
    } else if op == 0x20 || op == 0x28 || op == 0x30 || op == 0x38 {
        8
    } else if op == 0x76 {
        0
    } else if 0x70 <= op <= 0x77 {
        8
    } else if 0x40 <= op < 0x80 {
        if op % 8 == 6 {
            8
        } else {
            4
        }
    } else if 0x80 <= op < 0xC0 {
        if op % 8 == 6 {
            8
        } else {
            4
        }
    } else if op == 0xC6 || op == 0xCE || op == 0xD6 || op == 0xDE || op == 0xE6 || op == 0xEE
        || op == 0xF6 || op == 0xFE {
        8
    } else if op == 0xC0 || op == 0xC8 || op == 0xD0 || op == 0xD8 {
        8
    } else if op == 0xC9 || op == 0xD9 {
        16
    } else if op == 0xC1 || op == 0xD1 || op == 0xE1 || op == 0xF1 {
        12
    } else if op == 0xC5 || op == 0xD5 || op == 0xE5 || op == 0xF5 {
        16
    } else if op == 0xC4 || op == 0xCC || op == 0xD4 || op == 0xDC {
        12
    } else if op == 0xCD {
        24
    } else if op == 0xE0 || op == 0xF0 {
        12
    } else if op == 0xE2 || op == 0xF2 {
        8
    } else if op == 0xEA || op == 0xFA {
        16
    } else {
        0
    }
}

/// The T-cycle cost of each CB-prefixed opcode, the $CB prefix fetch
/// included: 8 on a register operand; 16 on memory at HL, except BIT
/// which only reads it (12).
pub open spec fn spec_cb_cycles(op: u8) -> usize {
    if 0x40 <= op < 0x80 {
        if op % 8 == 6 {
            12
        } else {
            8
        }
    } else if op % 8 == 6 {
        16
    } else {
        8
    }
}

/// The primary-table T-cycle cost of an opcode; the table the run loop's
/// accounting rests on, kept apart from the dispatch for testing.
pub fn primary_op_cycles(op: u8) -> (t: usize)
    ensures
        t == spec_primary_cycles(op),
{
    if op == 0x01 || op == 0x11 || op == 0x21 || op == 0x31 {
        12
    } else if op == 0x02 || op == 0x12 || op == 0x22 || op == 0x32 {
        8
    } else if op == 0x0A || op == 0x1A || op == 0x2A || op == 0x3A {
        8
    } else if op == 0x03 || op == 0x13 || op == 0x23 || op == 0x33 || op == 0x0B || op == 0x1B
        || op == 0x2B || op == 0x3B {
        8
    } else if op == 0x34 || op == 0x35 {
        12
    } else if op == 0x04 || op == 0x0C || op == 0x14 || op == 0x1C || op == 0x24 || op == 0x2C
        || op == 0x3C || op == 0x05 || op == 0x0D || op == 0x15 || op == 0x1D || op == 0x25 || op
        == 0x2D || op == 0x3D {
        4
    } else if op == 0x36 {
        12
    } else if op == 0x06 || op == 0x0E || op == 0x16 || op == 0x1E || op == 0x26 || op == 0x2E
        || op == 0x3E {
        8
    } else if op == 0x07 || op == 0x0F || op == 0x17 || op == 0x1F {
        4
    } else if op == 0x18 {
        12
    } else if op == 0x20 || op == 0x28 || op == 0x30 || op == 0x38 {
        8
    } else if op == 0x76 {
        0
    } else if 0x70 <= op && op <= 0x77 {
        8
    } else if 0x40 <= op && op < 0xC0 {
        if op % 8 == 6 {
            8
        } else {
            4
        }
    } else if op == 0xC6 || op == 0xCE || op == 0xD6 || op == 0xDE || op == 0xE6 || op == 0xEE
        || op == 0xF6 || op == 0xFE {
        8
    } else if op == 0xC0 || op == 0xC8 || op == 0xD0 || op == 0xD8 {
        8
    } else if op == 0xC9 || op == 0xD9 {
        16
    } else if op == 0xC1 || op == 0xD1 || op == 0xE1 || op == 0xF1 {
        12
    } else if op == 0xC5 || op == 0xD5 || op == 0xE5 || op == 0xF5 {
        16
    } else if op == 0xC4 || op == 0xCC || op == 0xD4 || op == 0xDC {
        12
    } else if op == 0xCD {
        24
    } else if op == 0xE0 || op == 0xF0 {
        12
    } else if op == 0xE2 || op == 0xF2 {
        8
    } else if op == 0xEA || op == 0xFA {
        16
    } else {
        0
    }
}

/// The CB-table T-cycle cost of an opcode, the $CB prefix fetch included.
pub fn cb_op_cycles(op: u8) -> (t: usize)
    ensures
        t == spec_cb_cycles(op),
{
    if 0x40 <= op && op < 0x80 {
        if op % 8 == 6 {
            12
        } else {
            8
        }
    } else if op % 8 == 6 {
        16
    } else {
        8
    }
}

/// A vector of `n` zero bytes.
fn zero_bytes(n: usize) -> (v: Vec<u8>)
    ensures
        v@.len() == n,
        forall|i: int| 0 <= i < n ==> v@[i] == 0,
{
    let mut v: Vec<u8> = Vec::new();
    let mut i: usize = 0;
    while i < n
        invariant
            i <= n,
            v@.len() == i,
            forall|j: int| 0 <= j < i ==> v@[j] == 0,
        decreases n - i,
    {
        v.push(0);
        i += 1;
    }
    v
}

} // verus!
