//! Instruction execution: the fetch-decode-execute step, flag arithmetic,
//! stack traffic, control transfer, and cycle accounting.
use gbcore::cart::Cart;
use gbcore::cpu::Cpu;
use gbcore::io::Io;
use gbcore::system::cb_op_cycles;
use gbcore::system::primary_op_cycles;
use gbcore::system::ExecutionError;
use gbcore::system::System;

fn ops_cart_image() -> Vec<u8> {
    let mut img = vec![0u8; 0x150];
    img[0x100] = 0x00;
    img[0x101] = 0xC3;
    img[0x102] = 0x50;
    img[0x103] = 0x01;
    let mut ck: u8 = 0;
    for a in 0x134..=0x14C {
        ck = ck.wrapping_sub(img[a]).wrapping_sub(1);
    }
    img[0x14D] = ck;
    img
}

/// A system whose boot ROM starts with the given program; PC starts at 0.
fn ops_system(boot_prog: &[u8]) -> System {
    let mut boot = vec![0u8; 0x100];
    boot[..boot_prog.len()].copy_from_slice(boot_prog);
    let cart = Cart::new(ops_cart_image()).unwrap();
    System::new(Cpu::new(), cart, Io::new(), boot)
}

#[test]
fn ld_sp_imm16() {
    // LD SP,$FFFE — the first instruction of the boot sequence
    let mut sys = ops_system(&[0x31, 0xFE, 0xFF]);
    let t = sys.step().unwrap();
    assert_eq!(sys.cpu.rf.SP, 0xFFFE);
    assert_eq!(sys.cpu.rf.PC, 3);
    assert_eq!(t, 12);
    assert_eq!(sys.M_cycles, 3);
}

#[test]
fn ld_bc_imm16_little_endian() {
    let mut sys = ops_system(&[0x01, 0x34, 0x12]);
    sys.step().unwrap();
    assert_eq!(sys.cpu.rf.BC_read(), 0x1234);
}

#[test]
fn xor_a_clears_accumulator() {
    // XOR A: A := 0, flags = Z only
    let mut sys = ops_system(&[0xAF]);
    sys.cpu.rf.A = 0x5C;
    sys.cpu.rf.F = 0x70;
    let t = sys.step().unwrap();
    assert_eq!(sys.cpu.rf.A, 0);
    assert_eq!(sys.cpu.rf.F, 0b1000_0000);
    assert_eq!(t, 4);
}

#[test]
fn sub_a_a_sets_z_and_n() {
    let mut sys = ops_system(&[0x97]);
    sys.cpu.rf.A = 0x3E;
    sys.step().unwrap();
    assert_eq!(sys.cpu.rf.A, 0);
    assert!(sys.cpu.rf.z_get());
    assert!(sys.cpu.rf.n_get());
    assert!(!sys.cpu.rf.h_get());
    assert!(!sys.cpu.rf.c_get());
}

#[test]
fn add_sets_half_and_full_carry() {
    // ADD A,B with A=0x0F, B=0x01: half-carry only
    let mut sys = ops_system(&[0x80, 0x80]);
    sys.cpu.rf.A = 0x0F;
    sys.cpu.rf.B = 0x01;
    sys.step().unwrap();
    assert_eq!(sys.cpu.rf.A, 0x10);
    assert!(!sys.cpu.rf.z_get());
    assert!(!sys.cpu.rf.n_get());
    assert!(sys.cpu.rf.h_get());
    assert!(!sys.cpu.rf.c_get());
    // ADD A,B with A=0xF0, B=0x10: wraps to zero with full carry
    sys.cpu.rf.A = 0xF0;
    sys.cpu.rf.B = 0x10;
    sys.step().unwrap();
    assert_eq!(sys.cpu.rf.A, 0x00);
    assert!(sys.cpu.rf.z_get());
    assert!(!sys.cpu.rf.h_get());
    assert!(sys.cpu.rf.c_get());
}

#[test]
fn adc_includes_prior_carry() {
    let mut sys = ops_system(&[0x88]);
    sys.cpu.rf.A = 0x01;
    sys.cpu.rf.B = 0x01;
    sys.cpu.rf.c_set(true);
    sys.step().unwrap();
    assert_eq!(sys.cpu.rf.A, 0x03);
    assert!(!sys.cpu.rf.c_get());
}

#[test]
fn sub_borrow_sets_carry() {
    // SUB A,n with A=0x10, n=0x20: borrows
    let mut sys = ops_system(&[0xD6, 0x20]);
    sys.cpu.rf.A = 0x10;
    sys.step().unwrap();
    assert_eq!(sys.cpu.rf.A, 0xF0);
    assert!(!sys.cpu.rf.z_get());
    assert!(sys.cpu.rf.n_get());
    assert!(sys.cpu.rf.c_get());
}

#[test]
fn and_sets_h_or_clears_flags() {
    let mut sys = ops_system(&[0xA0, 0xB0]);
    sys.cpu.rf.A = 0b1100_0011;
    sys.cpu.rf.B = 0b0100_0001;
    sys.step().unwrap();
    assert_eq!(sys.cpu.rf.A, 0b0100_0001);
    assert!(sys.cpu.rf.h_get());
    assert!(!sys.cpu.rf.c_get());
    // OR A,B
    sys.cpu.rf.B = 0b1000_0010;
    sys.step().unwrap();
    assert_eq!(sys.cpu.rf.A, 0b1100_0011);
    assert!(!sys.cpu.rf.h_get());
}

#[test]
fn cp_discards_result() {
    let mut sys = ops_system(&[0xFE, 0x42]);
    sys.cpu.rf.A = 0x42;
    sys.step().unwrap();
    assert_eq!(sys.cpu.rf.A, 0x42);
    assert!(sys.cpu.rf.z_get());
    assert!(sys.cpu.rf.n_get());
}

#[test]
fn inc_dec_restore_register_and_keep_carry() {
    // INC B; DEC B
    let mut sys = ops_system(&[0x04, 0x05]);
    sys.cpu.rf.B = 0x7F;
    sys.cpu.rf.c_set(true);
    sys.step().unwrap();
    assert_eq!(sys.cpu.rf.B, 0x80);
    assert!(sys.cpu.rf.c_get());
    sys.step().unwrap();
    assert_eq!(sys.cpu.rf.B, 0x7F);
    assert!(sys.cpu.rf.c_get());
    assert!(sys.cpu.rf.n_get()); // N fresh from the DEC
}

#[test]
fn inc_half_carry_on_nibble_overflow() {
    let mut sys = ops_system(&[0x3C]);
    sys.cpu.rf.A = 0x0F;
    sys.step().unwrap();
    assert_eq!(sys.cpu.rf.A, 0x10);
    assert!(sys.cpu.rf.h_get());
    assert!(!sys.cpu.rf.n_get());
}

#[test]
fn inc16_dec16_wrap_and_keep_flags() {
    let mut sys = ops_system(&[0x23, 0x2B, 0x0B]);
    sys.cpu.rf.HL_write(0xFFFF);
    sys.cpu.rf.F = 0xF0;
    sys.step().unwrap();
    assert_eq!(sys.cpu.rf.HL_read(), 0x0000);
    assert_eq!(sys.cpu.rf.F, 0xF0);
    sys.step().unwrap();
    assert_eq!(sys.cpu.rf.HL_read(), 0xFFFF);
    sys.step().unwrap();
    assert_eq!(sys.cpu.rf.BC_read(), 0xFFFF);
}

#[test]
fn mv_copies_registers_and_memory() {
    // LD D,B ; LD (HL),A ; LD E,(HL)
    let mut sys = ops_system(&[0x50, 0x77, 0x5E]);
    sys.cpu.rf.B = 0x99;
    sys.cpu.rf.A = 0x42;
    sys.cpu.rf.HL_write(0xC123);
    assert_eq!(sys.step().unwrap(), 4);
    assert_eq!(sys.cpu.rf.D, 0x99);
    assert_eq!(sys.step().unwrap(), 8);
    assert_eq!(sys.read(0xC123, 1).unwrap(), vec![0x42]);
    assert_eq!(sys.step().unwrap(), 8);
    assert_eq!(sys.cpu.rf.E, 0x42);
}

#[test]
fn ld_hl_plus_and_minus_step_hl() {
    // LD (HL+),A ; LD A,(HL-)
    let mut sys = ops_system(&[0x22, 0x3A]);
    sys.cpu.rf.A = 0x7E;
    sys.cpu.rf.HL_write(0x8000);
    sys.step().unwrap();
    assert_eq!(sys.cpu.rf.HL_read(), 0x8001);
    assert_eq!(sys.read(0x8000, 1).unwrap(), vec![0x7E]);
    sys.cpu.rf.A = 0;
    sys.step().unwrap();
    assert_eq!(sys.cpu.rf.HL_read(), 0x8000);
    assert_eq!(sys.cpu.rf.A, 0); // $8001 still holds its cold-start zero
}

#[test]
fn io_shortcut_loads() {
    // LD ($FF00+$42),A via E0, then LD A,($FF00+C) via F2
    let mut sys = ops_system(&[0xE0, 0x42, 0xF2]);
    sys.cpu.rf.A = 0x90;
    // $FF42 is the PPU SCY register
    assert_eq!(sys.step().unwrap(), 12);
    assert_eq!(sys.read(0xFF42, 1).unwrap(), vec![0x90]);
    sys.cpu.rf.A = 0;
    sys.cpu.rf.C = 0x42;
    assert_eq!(sys.step().unwrap(), 8);
    assert_eq!(sys.cpu.rf.A, 0x90);
}

#[test]
fn absolute_loads_and_stores() {
    // LD ($C234),A ; LD A,($C234)
    let mut sys = ops_system(&[0xEA, 0x34, 0xC2, 0x3E, 0x00, 0xFA, 0x34, 0xC2]);
    sys.cpu.rf.A = 0x66;
    assert_eq!(sys.step().unwrap(), 16);
    assert_eq!(sys.read(0xC234, 1).unwrap(), vec![0x66]);
    sys.step().unwrap(); // LD A,0
    assert_eq!(sys.cpu.rf.A, 0);
    assert_eq!(sys.step().unwrap(), 16);
    assert_eq!(sys.cpu.rf.A, 0x66);
}

#[test]
fn bit_test_scenario() {
    // BIT 7,H with bit 7 set: Z=0, N=0, H=1, C kept
    let mut sys = ops_system(&[0xCB, 0x7C, 0xCB, 0x7C]);
    sys.cpu.rf.H = 0b1100_0000;
    sys.cpu.rf.c_set(true);
    let t = sys.step().unwrap();
    assert!(!sys.cpu.rf.z_get());
    assert!(!sys.cpu.rf.n_get());
    assert!(sys.cpu.rf.h_get());
    assert!(sys.cpu.rf.c_get());
    assert_eq!(t, 8);
    assert_eq!(sys.cpu.rf.PC, 2);
    // with bit 7 clear the test sets Z
    sys.cpu.rf.H = 0b0100_0000;
    sys.step().unwrap();
    assert!(sys.cpu.rf.z_get());
}

#[test]
fn res_and_set_flip_single_bits() {
    // RES 3,B ; SET 0,B
    let mut sys = ops_system(&[0xCB, 0x98, 0xCB, 0xC0]);
    sys.cpu.rf.B = 0xFF;
    sys.cpu.rf.F = 0xF0;
    sys.step().unwrap();
    assert_eq!(sys.cpu.rf.B, 0xF7);
    assert_eq!(sys.cpu.rf.F, 0xF0); // flags untouched
    sys.cpu.rf.B = 0x00;
    sys.step().unwrap();
    assert_eq!(sys.cpu.rf.B, 0x01);
}

#[test]
fn cb_ops_reach_memory_at_hl() {
    // SET 1,(HL) ; BIT 1,(HL)
    let mut sys = ops_system(&[0xCB, 0xCE, 0xCB, 0x4E]);
    sys.cpu.rf.HL_write(0xFF80);
    sys.write(0xFF80, &[0x00]).unwrap();
    assert_eq!(sys.step().unwrap(), 16);
    assert_eq!(sys.read(0xFF80, 1).unwrap(), vec![0x02]);
    assert_eq!(sys.step().unwrap(), 12);
    assert!(!sys.cpu.rf.z_get());
}

#[test]
fn swap_exchanges_nibbles() {
    // SWAP A
    let mut sys = ops_system(&[0xCB, 0x37]);
    sys.cpu.rf.A = 0xF1;
    sys.cpu.rf.c_set(true);
    sys.step().unwrap();
    assert_eq!(sys.cpu.rf.A, 0x1F);
    assert!(!sys.cpu.rf.c_get()); // SWAP clears C
}

#[test]
fn shifts_move_the_edge_bits() {
    // SLA B ; SRA B ; SRL B
    let mut sys = ops_system(&[0xCB, 0x20, 0xCB, 0x28, 0xCB, 0x38]);
    sys.cpu.rf.B = 0b1000_0001;
    sys.step().unwrap();
    assert_eq!(sys.cpu.rf.B, 0b0000_0010);
    assert!(sys.cpu.rf.c_get()); // bit 7 left
    sys.cpu.rf.B = 0b1000_0010;
    sys.step().unwrap();
    assert_eq!(sys.cpu.rf.B, 0b1100_0001); // SRA keeps bit 7
    sys.cpu.rf.B = 0b1000_0001;
    sys.step().unwrap();
    assert_eq!(sys.cpu.rf.B, 0b0100_0000); // SRL clears bit 7
    assert!(sys.cpu.rf.c_get()); // bit 0 left
}

#[test]
fn rlca_rrca_round_trip() {
    // RLCA ; RRCA
    let mut sys = ops_system(&[0x07, 0x0F]);
    sys.cpu.rf.A = 0b1001_0110;
    sys.step().unwrap();
    assert_eq!(sys.cpu.rf.A, 0b0010_1101);
    assert!(sys.cpu.rf.c_get()); // bit 7 rotated out
    sys.step().unwrap();
    assert_eq!(sys.cpu.rf.A, 0b1001_0110);
}

#[test]
fn rla_rotates_through_carry() {
    let mut sys = ops_system(&[0x17]);
    sys.cpu.rf.A = 0b0100_0000;
    sys.cpu.rf.c_set(true);
    sys.step().unwrap();
    assert_eq!(sys.cpu.rf.A, 0b1000_0001);
    assert!(!sys.cpu.rf.c_get());
}

#[test]
fn push_pop_round_trip() {
    // PUSH BC ; POP DE
    let mut sys = ops_system(&[0xC5, 0xD1]);
    sys.cpu.rf.SP = 0xFFFE;
    sys.cpu.rf.BC_write(0xABCD);
    assert_eq!(sys.step().unwrap(), 16);
    assert_eq!(sys.cpu.rf.SP, 0xFFFC);
    // high byte then low byte, so the top of the stack holds the low byte
    assert_eq!(sys.read(0xFFFD, 1).unwrap(), vec![0xAB]);
    assert_eq!(sys.read(0xFFFC, 1).unwrap(), vec![0xCD]);
    assert_eq!(sys.step().unwrap(), 12);
    assert_eq!(sys.cpu.rf.DE_read(), 0xABCD);
    assert_eq!(sys.cpu.rf.SP, 0xFFFE);
}

#[test]
fn pop_af_masks_flag_nibble() {
    // PUSH BC ; POP AF
    let mut sys = ops_system(&[0xC5, 0xF1]);
    sys.cpu.rf.SP = 0xFFFE;
    sys.cpu.rf.BC_write(0x12FF);
    sys.step().unwrap();
    sys.step().unwrap();
    assert_eq!(sys.cpu.rf.A, 0x12);
    assert_eq!(sys.cpu.rf.F, 0xF0);
    assert_eq!(sys.cpu.rf.F & 0x0F, 0);
}

#[test]
fn call_ret_round_trip() {
    // code in WRAM (the cart stub serves zeros, so code lives in RAM):
    // $C150: CALL $C200 ; $C200: RET
    let mut sys = ops_system(&[]);
    sys.write(0xC150, &[0xCD, 0x00, 0xC2]).unwrap();
    sys.write(0xC200, &[0xC9]).unwrap();
    sys.cpu.rf.SP = 0xFFFE;
    sys.cpu.rf.PC = 0xC150;
    assert_eq!(sys.step().unwrap(), 24);
    assert_eq!(sys.cpu.rf.PC, 0xC200);
    assert_eq!(sys.cpu.rf.SP, 0xFFFC);
    // the pushed return address $C153, split high then low
    assert_eq!(sys.read(0xFFFD, 1).unwrap(), vec![0xC1]);
    assert_eq!(sys.read(0xFFFC, 1).unwrap(), vec![0x53]);
    assert_eq!(sys.step().unwrap(), 16);
    assert_eq!(sys.cpu.rf.PC, 0xC153);
    assert_eq!(sys.cpu.rf.SP, 0xFFFE);
}

#[test]
fn conditional_call_not_taken() {
    // CALL NZ,$C200 with Z set: falls through in 12 T-cycles
    let mut sys = ops_system(&[0xC4, 0x00, 0xC2]);
    sys.cpu.rf.SP = 0xFFFE;
    sys.cpu.rf.z_set(true);
    assert_eq!(sys.step().unwrap(), 12);
    assert_eq!(sys.cpu.rf.PC, 3);
    assert_eq!(sys.cpu.rf.SP, 0xFFFE);
}

#[test]
fn conditional_ret_timing() {
    // RET Z taken (20) and RET NZ not taken (8)
    let mut sys = ops_system(&[0xC8]);
    sys.write(0xFFF0, &[0x50, 0xC1]).unwrap();
    sys.cpu.rf.SP = 0xFFF0;
    sys.cpu.rf.z_set(true);
    assert_eq!(sys.step().unwrap(), 20);
    assert_eq!(sys.cpu.rf.PC, 0xC150);
    assert_eq!(sys.cpu.rf.SP, 0xFFF2);

    let mut sys2 = ops_system(&[0xC0]);
    sys2.write(0xFFF0, &[0x50, 0xC1]).unwrap();
    sys2.cpu.rf.SP = 0xFFF0;
    sys2.cpu.rf.z_set(true);
    assert_eq!(sys2.step().unwrap(), 8);
    assert_eq!(sys2.cpu.rf.PC, 1);
    assert_eq!(sys2.cpu.rf.SP, 0xFFF0);
}

#[test]
fn jr_taken_and_not_taken() {
    // JR NZ,+5 with Z=1: no jump, PC+2, 8 T-cycles
    let mut sys = ops_system(&[0x20, 0x05]);
    sys.cpu.rf.z_set(true);
    assert_eq!(sys.step().unwrap(), 8);
    assert_eq!(sys.cpu.rf.PC, 2);
    // same opcode with Z=0: jump, PC = 2 + 5, 12 T-cycles
    let mut sys2 = ops_system(&[0x20, 0x05]);
    sys2.cpu.rf.z_set(false);
    assert_eq!(sys2.step().unwrap(), 12);
    assert_eq!(sys2.cpu.rf.PC, 7);
}

#[test]
fn jr_negative_offset() {
    // at PC=4: JR -3 lands on PC = 6 - 3 = 3
    let mut sys = ops_system(&[0, 0, 0, 0, 0x18, 0xFD]);
    sys.cpu.rf.PC = 4;
    assert_eq!(sys.step().unwrap(), 12);
    assert_eq!(sys.cpu.rf.PC, 3);
}

#[test]
fn ld_r_imm8() {
    let mut sys = ops_system(&[0x06, 0x17, 0x3E, 0x99]);
    sys.step().unwrap();
    assert_eq!(sys.cpu.rf.B, 0x17);
    sys.step().unwrap();
    assert_eq!(sys.cpu.rf.A, 0x99);
}

#[test]
fn ld_hl_imm8_stores_to_memory() {
    // LD (HL),$77
    let mut sys = ops_system(&[0x36, 0x77]);
    sys.cpu.rf.HL_write(0x8042);
    assert_eq!(sys.step().unwrap(), 12);
    assert_eq!(sys.read(0x8042, 1).unwrap(), vec![0x77]);
}

#[test]
fn unimplemented_opcode_stops_execution() {
    let mut sys = ops_system(&[0x00]);
    // NOP is outside this core's instruction set
    assert_eq!(
        sys.step().unwrap_err(),
        ExecutionError::UnimplementedOpcode(0x00)
    );
    assert_eq!(sys.cpu.rf.PC, 0); // nothing moved
    // HALT is excluded from the move block
    let mut sys2 = ops_system(&[0x76]);
    assert_eq!(
        sys2.step().unwrap_err(),
        ExecutionError::UnimplementedOpcode(0x76)
    );
}

#[test]
fn step_accumulates_machine_cycles() {
    // LD SP,nn (12 T) + XOR A (4 T) = 4 M-cycles
    let mut sys = ops_system(&[0x31, 0xFE, 0xFF, 0xAF]);
    sys.step().unwrap();
    sys.step().unwrap();
    assert_eq!(sys.M_cycles, 4);
}

#[test]
fn snapshot_reports_registers_and_cycles() {
    let mut sys = ops_system(&[0x31, 0xFE, 0xFF]);
    sys.step().unwrap();
    let s = sys.snapshot();
    assert_eq!(s.SP, 0xFFFE);
    assert_eq!(s.PC, 3);
    assert_eq!(s.M_cycles, 3);
    assert_eq!(s.A, 0);
}

#[test]
fn cycle_tables_match_documented_costs() {
    assert_eq!(primary_op_cycles(0x31), 12); // LD SP,nn
    assert_eq!(primary_op_cycles(0x20), 8); // JR cond base
    assert_eq!(primary_op_cycles(0xAF), 4); // XOR A
    assert_eq!(primary_op_cycles(0x86), 8); // ADD A,(HL)
    assert_eq!(primary_op_cycles(0xC5), 16); // PUSH
    assert_eq!(primary_op_cycles(0xC1), 12); // POP
    assert_eq!(primary_op_cycles(0xCD), 24); // CALL
    assert_eq!(primary_op_cycles(0xC9), 16); // RET
    assert_eq!(primary_op_cycles(0x36), 12); // LD (HL),n
    assert_eq!(primary_op_cycles(0xD3), 0); // unimplemented
    assert_eq!(cb_op_cycles(0x7C), 8); // BIT 7,H
    assert_eq!(cb_op_cycles(0x46), 12); // BIT 0,(HL)
    assert_eq!(cb_op_cycles(0x06), 16); // RLC (HL)
    assert_eq!(cb_op_cycles(0x11), 8); // RL C
}

#[test]
fn execute_op_leaves_cycle_counter_alone() {
    let mut sys = ops_system(&[0xAF]);
    sys.execute_op(0xAF).unwrap();
    assert_eq!(sys.M_cycles, 0);
}
