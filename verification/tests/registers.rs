//! Register file behavior: pair composition, the F low-nibble mask, and
//! the single-flag setters.
use gbcore::cpu::Cpu;
use gbcore::cpu::Register16;
use gbcore::cpu::RegisterFile;

#[test]
fn cold_start_registers_are_zero() {
    let cpu = Cpu::new();
    assert_eq!(cpu.rf.A, 0);
    assert_eq!(cpu.rf.F, 0);
    assert_eq!(cpu.rf.B, 0);
    assert_eq!(cpu.rf.C, 0);
    assert_eq!(cpu.rf.D, 0);
    assert_eq!(cpu.rf.E, 0);
    assert_eq!(cpu.rf.H, 0);
    assert_eq!(cpu.rf.L, 0);
    assert_eq!(cpu.rf.SP, 0);
    assert_eq!(cpu.rf.PC, 0);
}

#[test]
fn bc_round_trip() {
    let mut rf = RegisterFile::new();
    rf.BC_write(0xBEEF);
    assert_eq!(rf.B, 0xBE);
    assert_eq!(rf.C, 0xEF);
    assert_eq!(rf.BC_read(), 0xBEEF);
}

#[test]
fn de_round_trip() {
    let mut rf = RegisterFile::new();
    rf.DE_write(0x1234);
    assert_eq!(rf.D, 0x12);
    assert_eq!(rf.E, 0x34);
    assert_eq!(rf.DE_read(), 0x1234);
}

#[test]
fn hl_round_trip() {
    let mut rf = RegisterFile::new();
    rf.HL_write(0x9FFF);
    assert_eq!(rf.H, 0x9F);
    assert_eq!(rf.L, 0xFF);
    assert_eq!(rf.HL_read(), 0x9FFF);
}

#[test]
fn af_round_trip_masks_low_nibble() {
    let mut rf = RegisterFile::new();
    rf.AF_write(0x12FF);
    assert_eq!(rf.A, 0x12);
    assert_eq!(rf.F, 0xF0);
    assert_eq!(rf.F & 0x0F, 0);
    assert_eq!(rf.AF_read(), 0x12F0);
}

#[test]
fn every_af_write_clears_f_low_nibble() {
    // every byte pattern through AF leaves the low nibble of F zero
    for low in 0..=0xFFu16 {
        let mut rf = RegisterFile::new();
        rf.AF_write(0xAB00 | low);
        assert_eq!(rf.F & 0x0F, 0, "F low nibble must read zero");
        assert_eq!(rf.F, (low as u8) & 0xF0);
    }
}

#[test]
fn rf16_accessors_match_pairs() {
    let mut rf = RegisterFile::new();
    rf.rf_write16(Register16::BC, 0x0102);
    rf.rf_write16(Register16::DE, 0x0304);
    rf.rf_write16(Register16::HL, 0x0506);
    rf.rf_write16(Register16::SP, 0xFFFE);
    rf.rf_write16(Register16::PC, 0x0150);
    assert_eq!(rf.rf_read16(Register16::BC), 0x0102);
    assert_eq!(rf.rf_read16(Register16::DE), 0x0304);
    assert_eq!(rf.rf_read16(Register16::HL), 0x0506);
    assert_eq!(rf.rf_read16(Register16::SP), 0xFFFE);
    assert_eq!(rf.rf_read16(Register16::PC), 0x0150);
    assert_eq!(rf.B, 0x01);
    assert_eq!(rf.C, 0x02);
}

#[test]
fn flag_setters_touch_only_their_bit() {
    let mut rf = RegisterFile::new();
    rf.z_set(true);
    assert!(rf.z_get());
    assert!(!rf.n_get());
    assert!(!rf.h_get());
    assert!(!rf.c_get());
    assert_eq!(rf.F, 0b1000_0000);

    rf.n_set(true);
    rf.h_set(true);
    rf.c_set(true);
    assert_eq!(rf.F, 0b1111_0000);

    // clearing one flag must not disturb the others
    rf.h_set(false);
    assert!(rf.z_get());
    assert!(rf.n_get());
    assert!(!rf.h_get());
    assert!(rf.c_get());
    assert_eq!(rf.F, 0b1101_0000);

    rf.z_set(false);
    rf.n_set(false);
    rf.c_set(false);
    assert_eq!(rf.F, 0);
}
