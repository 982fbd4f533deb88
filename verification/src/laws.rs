//! System-wide laws: the flag-register invariant, the bus round-trip and
//! boot-overlay guarantees, and the instruction-pairing identities, each
//! proved from the spec functions the executable contracts are stated over.
use vstd::prelude::*;

use crate::cpu::Register16;
use crate::cpu::RegisterFile;
use crate::cpu::add16;
use crate::cpu::lemma_flag_bits;
use crate::cpu::spec_flags;
use crate::cpu::spec_operand_reg;
use crate::cpu::spec_set_flag;
use crate::cpu::add8;
use crate::cpu::sub8;
use crate::cpu::sub16;
use crate::system::ExecutionError;
use crate::system::MemV;
use crate::system::spec_alu_sub;
use crate::system::spec_alu_xor;
use crate::system::spec_cart_byte_mem;
use crate::system::spec_dec8_flags;
use crate::system::spec_inc8_flags;
use crate::system::spec_call_cond;
use crate::system::spec_cb_cycles;
use crate::system::spec_cb_post;
use crate::system::spec_exec_post;
use crate::system::spec_jr_cond;
use crate::system::spec_primary_cycles;
use crate::system::spec_read8_mem;
use crate::system::spec_ret_cond;
use crate::system::spec_rlc_res;
use crate::system::spec_rrc_res;
use crate::system::spec_stack_pair;
use crate::system::spec_write8_mem;

verus! {

/// Every path that writes the F register leaves its low nibble clear:
/// a write through AF masks it, packing fresh flags never sets it, and
/// setting a single flag on a well-formed F keeps it clear.
pub proof fn lemma_f_low_nibble_always_clear(
    rf: RegisterFile,
    v: u16,
    z: bool,
    n: bool,
    h: bool,
    c: bool,
)
    ensures
        rf.spec_write16(Register16::AF, v).wf(),
        spec_flags(z, n, h, c) & 0x0F == 0,
        rf.wf() ==> spec_set_flag(rf.F, 0x80, z) & 0x0F == 0 && spec_set_flag(rf.F, 0x40, n) & 0x0F
            == 0 && spec_set_flag(rf.F, 0x20, h) & 0x0F == 0 && spec_set_flag(rf.F, 0x10, c) & 0x0F
            == 0,
{
    lemma_flag_bits();
    crate::cpu::lemma_high_nibble_wf((v % 256) as u8);
    let f = rf.F;
    assert(f & 0x0F == 0 ==> ((f | 0x80) & 0x0F == 0) && ((f & !0x80u8) & 0x0F == 0) && ((f | 0x40)
        & 0x0F == 0) && ((f & !0x40u8) & 0x0F == 0) && ((f | 0x20) & 0x0F == 0) && ((f & !0x20u8)
        & 0x0F == 0) && ((f | 0x10) & 0x0F == 0) && ((f & !0x10u8) & 0x0F == 0)) by (bit_vector);
}

/// HRAM round-trip: a one-byte write anywhere in $FF80-$FFFE succeeds and
/// a read at the same address returns the byte just written.
pub proof fn lemma_hram_round_trip(m: MemV, a: u16, b: u8)
    requires
        m.hram.len() == 127,
        0xFF80 <= a < 0xFFFF,
    ensures
        spec_write8_mem(m, a, b) matches Ok(m2) && spec_read8_mem(m2, a) == Ok::<
            u8,
            ExecutionError,
        >(b),
{
}

/// VRAM round-trip: a one-byte write anywhere in $8000-$9FFF succeeds and
/// a read at the same address returns the byte just written.
pub proof fn lemma_vram_round_trip(m: MemV, a: u16, b: u8)
    requires
        m.vram.len() == 8192,
        0x8000 <= a < 0xA000,
    ensures
        spec_write8_mem(m, a, b) matches Ok(m2) && spec_read8_mem(m2, a) == Ok::<
            u8,
            ExecutionError,
        >(b),
{
}

/// While the boot overlay is active, every read in $0000-$00FF serves the
/// boot ROM image, byte for byte.
pub proof fn lemma_boot_overlay_read(m: MemV, a: u16)
    requires
        m.io.bootrom_disable == 0,
        a < 0x100,
    ensures
        spec_read8_mem(m, a) == Ok::<u8, ExecutionError>(m.boot[a as int]),
{
}

/// Writing any nonzero byte to $FF50 latches the overlay off: the write
/// succeeds, and every later read in $0000-$00FF serves cart bytes, not
/// the boot ROM.
pub proof fn lemma_boot_disable(m: MemV, v: u8, a: u16)
    requires
        v != 0,
        a < 0x100,
    ensures
        spec_write8_mem(m, 0xFF50, v) matches Ok(m2) && m2.io.bootrom_disable == 1
            && spec_read8_mem(m2, a) == Ok::<u8, ExecutionError>(spec_cart_byte_mem(m2.cart, a)),
{
}

/// The overlay latch is one-shot: once disabled, no write whatever its
/// address or value can re-enable it.
pub proof fn lemma_boot_disable_is_permanent(m: MemV, a: u16, v: u8)
    requires
        m.io.bootrom_disable == 1,
    ensures
        spec_write8_mem(m, a, v) matches Ok(m2) ==> m2.io.bootrom_disable == 1,
{
}

/// `XOR A` with A as the operand: A becomes zero, Z is set, and N, H and
/// C are cleared (the packed flag byte is exactly $80).
pub proof fn lemma_xor_self_clears(rf: RegisterFile)
    ensures
        spec_alu_xor(rf, rf.A).A == 0,
        spec_alu_xor(rf, rf.A).F == 0x80,
        spec_alu_xor(rf, rf.A).z(),
        !spec_alu_xor(rf, rf.A).n(),
        !spec_alu_xor(rf, rf.A).h(),
        !spec_alu_xor(rf, rf.A).c(),
{
    lemma_flag_bits();
    let a = rf.A;
    assert((a ^ a) == 0 && (0x80u8 | 0 | 0 | 0) == 0x80) by (bit_vector);
}

/// `SUB A,A`: A becomes zero, Z and N are set, H and C are cleared.
pub proof fn lemma_sub_self_clears(rf: RegisterFile)
    ensures
        spec_alu_sub(rf, rf.A, false).A == 0,
        spec_alu_sub(rf, rf.A, false).F == spec_flags(true, true, false, false),
        spec_alu_sub(rf, rf.A, false).z(),
        spec_alu_sub(rf, rf.A, false).n(),
        !spec_alu_sub(rf, rf.A, false).h(),
        !spec_alu_sub(rf, rf.A, false).c(),
{
    lemma_flag_bits();
}

/// `INC r` then `DEC r` restores the register; Z, N and H are derived
/// fresh by the `DEC`, and C is unchanged across the pair.
pub proof fn lemma_inc_dec_restores(rf: RegisterFile, code: u8)
    requires
        code < 8,
        code != 6,
    ensures
        ({
            let r8 = spec_operand_reg(code);
            let v = rf.spec_get8(r8);
            let rf1 = RegisterFile { F: spec_inc8_flags(rf, v), ..rf.spec_set8(r8, add8(v as int, 1)) };
            let v1 = rf1.spec_get8(r8);
            let rf2 = RegisterFile {
                F: spec_dec8_flags(rf1, v1),
                ..rf1.spec_set8(r8, sub8(v1 as int, 1))
            };
            rf2.spec_get8(r8) == v && rf2.c() == rf.c() && rf2.F == spec_dec8_flags(rf1, v1)
                && rf2.PC == rf.PC
        }),
{
    lemma_flag_bits();
    let r8 = spec_operand_reg(code);
    let v = rf.spec_get8(r8);
    assert(sub8(add8(v as int, 1) as int, 1) == v) by {
        if v < 255 {
            vstd::arithmetic::div_mod::lemma_small_mod((v + 1) as nat, 256);
            vstd::arithmetic::div_mod::lemma_small_mod(v as nat, 256);
        } else {
            assert(256int % 256 == 0);
            assert((0 - 1) % 256 == 255);
        }
    }
}

/// `PUSH rr` then `POP rr` restores the pair and SP, and the two bytes
/// the push leaves on the stack are the pair's high byte at SP-1 and low
/// byte at SP-2 (so the byte at the top of the stack is the low byte).
/// The stack must sit in bus-owned RAM, where bytes read back as written.
pub proof fn lemma_push_pop_round_trip(rf: RegisterFile, m: MemV, opcode: u8)
    requires
        rf.wf(),
        m.vram.len() == 8192,
        m.wram.len() == 8192,
        m.hram.len() == 127,
        ram_backed(sub16(rf.SP as int, 1)),
        ram_backed(sub16(rf.SP as int, 2)),
        opcode == 0xC5 || opcode == 0xD5 || opcode == 0xE5 || opcode == 0xF5,
    ensures
        ({
            let pv = rf.spec_read16(spec_stack_pair(opcode));
            let sp1 = sub16(rf.SP as int, 1);
            let sp2 = sub16(rf.SP as int, 2);
            match spec_write8_mem(m, sp1, (pv / 256) as u8) {
                Ok(m1) => match spec_write8_mem(m1, sp2, (pv % 256) as u8) {
                    Ok(m2) => spec_read8_mem(m2, sp1) == Ok::<u8, ExecutionError>((pv / 256) as u8)
                        && spec_read8_mem(m2, sp2) == Ok::<u8, ExecutionError>((pv % 256) as u8)
                        && add16(sp2 as int, 2) == rf.SP && ({
                        let rf2 = RegisterFile { SP: sp2, ..rf };
                        let popped = ((pv % 256) + 256 * (pv / 256)) as u16;
                        let rf3 = RegisterFile {
                            SP: add16(sp2 as int, 2),
                            ..rf2.spec_write16(spec_stack_pair(opcode), popped)
                        };
                        rf3 == rf
                    }),
                    Err(_) => false,
                },
                Err(_) => false,
            }
        }),
{
    let pv = rf.spec_read16(spec_stack_pair(opcode));
    let sp1 = sub16(rf.SP as int, 1);
    let sp2 = sub16(rf.SP as int, 2);
    assert(sp1 != sp2) by {
        vstd::arithmetic::div_mod::lemma_mod_bound(rf.SP - 1, 0x10000);
        vstd::arithmetic::div_mod::lemma_mod_bound(rf.SP - 2, 0x10000);
        if sp1 == sp2 {
            vstd::arithmetic::div_mod::lemma_mod_equivalence(rf.SP - 1, rf.SP - 2, 0x10000);
        }
    }
    assert(add16(sub16(rf.SP as int, 2) as int, 2) == rf.SP) by {
        vstd::arithmetic::div_mod::lemma_mod_bound(rf.SP - 2, 0x10000);
        vstd::arithmetic::div_mod::lemma_add_mod_noop_right(2, rf.SP - 2, 0x10000);
        vstd::arithmetic::div_mod::lemma_small_mod(rf.SP as nat, 0x10000);
    }
    assert(0 <= pv < 0x10000);
    vstd::arithmetic::div_mod::lemma_fundamental_div_mod(pv, 256);
    assert(pv % 256 + 256 * (pv / 256) == pv);
    let f = rf.F;
    assert(f & 0x0F == 0 ==> (f & 0xF0) == f) by (bit_vector);
    assert(((pv % 256) as u8) & 0xF0 == (pv % 256) as u8 ==> (((pv % 256) as u8) & 0xF0) == (pv
        % 256) as u8);
    if opcode == 0xF5 {
        assert(pv == rf.af());
        assert(pv / 256 == rf.A && pv % 256 == rf.F) by {
            vstd::arithmetic::div_mod::lemma_fundamental_div_mod_converse(
                pv,
                256,
                rf.A as int,
                rf.F as int,
            );
        }
    } else {
        assert(pv / 256 == (pv / 256) as u8 && pv % 256 == (pv % 256) as u8);
        if opcode == 0xC5 {
            assert(pv / 256 == rf.B && pv % 256 == rf.C) by {
                vstd::arithmetic::div_mod::lemma_fundamental_div_mod_converse(
                    pv,
                    256,
                    rf.B as int,
                    rf.C as int,
                );
            }
        } else if opcode == 0xD5 {
            assert(pv / 256 == rf.D && pv % 256 == rf.E) by {
                vstd::arithmetic::div_mod::lemma_fundamental_div_mod_converse(
                    pv,
                    256,
                    rf.D as int,
                    rf.E as int,
                );
            }
        } else {
            assert(pv / 256 == rf.H && pv % 256 == rf.L) by {
                vstd::arithmetic::div_mod::lemma_fundamental_div_mod_converse(
                    pv,
                    256,
                    rf.H as int,
                    rf.L as int,
                );
            }
        }
    }
}

/// Addresses the bus itself backs with RAM: video RAM, work RAM and high
/// RAM. A byte written there reads back unchanged.
pub open spec fn ram_backed(a: u16) -> bool {
    (0x8000 <= a < 0xA000) || (0xC000 <= a < 0xE000) || (0xFF80 <= a < 0xFFFF)
}

/// `CALL nn` then `RET` restores PC to the address following the CALL and
/// SP to its pre-CALL value: the call pushes that return address (high
/// byte at SP-1, low byte at SP-2), and popping those two bytes
/// reassembles it exactly. The stack must sit in bus-owned RAM.
pub proof fn lemma_call_ret_round_trip(rf: RegisterFile, m: MemV, target: u16)
    requires
        m.vram.len() == 8192,
        m.wram.len() == 8192,
        m.hram.len() == 127,
        ram_backed(sub16(rf.SP as int, 1)),
        ram_backed(sub16(rf.SP as int, 2)),
    ensures
        ({
            let pc3 = add16(rf.PC as int, 3);
            let sp1 = sub16(rf.SP as int, 1);
            let sp2 = sub16(rf.SP as int, 2);
            match spec_write8_mem(m, sp1, (pc3 / 256) as u8) {
                Ok(m1) => match spec_write8_mem(m1, sp2, (pc3 % 256) as u8) {
                    Ok(m2) => ({
                        // the machine state after the taken CALL
                        let rf_call = RegisterFile { SP: sp2, PC: target, ..rf };
                        // RET pops low then high from SP and SP+1
                        spec_read8_mem(m2, rf_call.SP) == Ok::<u8, ExecutionError>(
                            (pc3 % 256) as u8,
                        ) && spec_read8_mem(m2, add16(rf_call.SP as int, 1)) == Ok::<
                            u8,
                            ExecutionError,
                        >((pc3 / 256) as u8) && ({
                            let rf_ret = RegisterFile {
                                PC: ((pc3 % 256) + 256 * (pc3 / 256)) as u16,
                                SP: add16(rf_call.SP as int, 2),
                                ..rf_call
                            };
                            rf_ret.PC == pc3 && rf_ret.SP == rf.SP
                        })
                    }),
                    Err(_) => false,
                },
                Err(_) => false,
            }
        }),
{
    let pc3 = add16(rf.PC as int, 3);
    let sp1 = sub16(rf.SP as int, 1);
    let sp2 = sub16(rf.SP as int, 2);
    assert(sp1 != sp2) by {
        vstd::arithmetic::div_mod::lemma_mod_bound(rf.SP - 1, 0x10000);
        vstd::arithmetic::div_mod::lemma_mod_bound(rf.SP - 2, 0x10000);
        if sp1 == sp2 {
            vstd::arithmetic::div_mod::lemma_mod_equivalence(rf.SP - 1, rf.SP - 2, 0x10000);
        }
    }
    assert(add16(sub16(rf.SP as int, 2) as int, 1) == sub16(rf.SP as int, 1)) by {
        vstd::arithmetic::div_mod::lemma_mod_bound(rf.SP - 2, 0x10000);
        vstd::arithmetic::div_mod::lemma_add_mod_noop_right(1, rf.SP - 2, 0x10000);
    }
    assert(add16(sub16(rf.SP as int, 2) as int, 2) == rf.SP) by {
        vstd::arithmetic::div_mod::lemma_mod_bound(rf.SP - 2, 0x10000);
        vstd::arithmetic::div_mod::lemma_add_mod_noop_right(2, rf.SP - 2, 0x10000);
        vstd::arithmetic::div_mod::lemma_small_mod(rf.SP as nat, 0x10000);
    }
    vstd::arithmetic::div_mod::lemma_fundamental_div_mod(pc3 as int, 256);
}

/// `RLCA` then `RRCA` restores A. On bytes whose bit 0 and bit 7 agree,
/// the final carry equals bit 0 of the original A (in general the rotate
/// pair leaves bit 7 of the original in the carry).
pub proof fn lemma_rlca_rrca_restores(v: u8)
    ensures
        spec_rrc_res(spec_rlc_res(v)) == v,
        spec_rlc_res(v) % 2 == v / 128,
        v % 2 == v / 128 ==> (spec_rlc_res(v) % 2 == 1) == (v % 2 == 1),
{
}

/// CB `BIT n,r`: in the flag byte the test packs, Z is set exactly when
/// bit `n` of the operand is zero, N is clear, H is set, and C keeps the
/// value it was packed with.
pub proof fn lemma_bit_flags(v: u8, n: u8, c: bool)
    requires
        n < 8,
    ensures
        ({
            let f = spec_flags(v & (1u8 << n) == 0, false, true, c);
            (f & 0x80 != 0 <==> v & (1u8 << n) == 0) && f & 0x40 == 0 && f & 0x20 != 0 && (f & 0x10
                != 0 <==> c)
        }),
{
    lemma_flag_bits();
}

/// The dispatch and the cycle tables agree: a primary-table instruction
/// that completes reports the table's T-cycle cost, plus its taken-cost
/// delta when it is a branch that was taken (+4 for JR, +12 for CALL and
/// conditional RET).
pub proof fn lemma_dispatch_cycles_match_table(
    rf0: RegisterFile,
    m0: MemV,
    rf1: RegisterFile,
    m1: MemV,
    opcode: u8,
    t: usize,
)
    requires
        spec_exec_post(rf0, m0, rf1, m1, opcode, Ok(t)),
        opcode != 0xCB,
    ensures
        (opcode == 0x20 || opcode == 0x28 || opcode == 0x30 || opcode == 0x38) ==> t
            == spec_primary_cycles(opcode) + (if spec_jr_cond(opcode, rf0) {
            4int
        } else {
            0int
        }),
        (opcode == 0xC4 || opcode == 0xCC || opcode == 0xD4 || opcode == 0xDC) ==> t
            == spec_primary_cycles(opcode) + (if spec_call_cond(opcode, rf0) {
            12int
        } else {
            0int
        }),
        (opcode == 0xC0 || opcode == 0xC8 || opcode == 0xD0 || opcode == 0xD8) ==> t
            == spec_primary_cycles(opcode) + (if spec_ret_cond(opcode, rf0) {
            12int
        } else {
            0int
        }),
        !(opcode == 0x20 || opcode == 0x28 || opcode == 0x30 || opcode == 0x38 || opcode == 0xC4
            || opcode == 0xCC || opcode == 0xD4 || opcode == 0xDC || opcode == 0xC0 || opcode
            == 0xC8 || opcode == 0xD0 || opcode == 0xD8) ==> t == spec_primary_cycles(opcode),
{
}

/// The CB dispatch and the CB cycle table agree: a CB-prefixed
/// instruction that completes reports exactly the table's cost.
pub proof fn lemma_cb_cycles_match_table(
    rf0: RegisterFile,
    m0: MemV,
    rf1: RegisterFile,
    m1: MemV,
    opcode: u8,
    t: usize,
)
    requires
        spec_cb_post(rf0, m0, rf1, m1, opcode, Ok(t)),
    ensures
        t == spec_cb_cycles(opcode),
{
}

} // verus!
