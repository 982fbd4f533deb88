//! System bus behavior: region round-trips, the boot overlay and its
//! one-shot disable latch, cross-region reads, the device register files,
//! and the error taxonomy.
use gbcore::audio::Audio;
use gbcore::cart::Cart;
use gbcore::cpu::Cpu;
use gbcore::io::Io;
use gbcore::system::ExecutionError;
use gbcore::system::System;

fn bus_cart_image() -> Vec<u8> {
    let mut img = vec![0u8; 0x150];
    // nop; jp $0150 — entry byte 0 is 0x00, as in real carts
    img[0x100] = 0x00;
    img[0x101] = 0xC3;
    img[0x102] = 0x50;
    img[0x103] = 0x01;
    let mut ck: u8 = 0;
    for a in 0x134..=0x14C {
        ck = ck.wrapping_sub(img[a]).wrapping_sub(1);
    }
    img[0x14D] = ck;
    img
}

fn bus_system(boot_prog: &[u8]) -> System {
    let mut boot = vec![0u8; 0x100];
    boot[..boot_prog.len()].copy_from_slice(boot_prog);
    let cart = Cart::new(bus_cart_image()).unwrap();
    System::new(Cpu::new(), cart, Io::new(), boot)
}

#[test]
fn hram_round_trip() {
    let mut sys = bus_system(&[]);
    for a in [0xFF80u16, 0xFFC0, 0xFFFE] {
        assert_eq!(sys.write(a, &[0x5A]).unwrap(), 1);
        assert_eq!(sys.read(a, 1).unwrap(), vec![0x5A]);
    }
}

#[test]
fn vram_round_trip() {
    let mut sys = bus_system(&[]);
    for a in [0x8000u16, 0x9123, 0x9FFF] {
        assert_eq!(sys.write(a, &[0xA5]).unwrap(), 1);
        assert_eq!(sys.read(a, 1).unwrap(), vec![0xA5]);
    }
    // a multi-byte window reads back as written
    assert_eq!(sys.write(0x8100, &[1, 2, 3, 4]).unwrap(), 4);
    assert_eq!(sys.read(0x8100, 4).unwrap(), vec![1, 2, 3, 4]);
}

#[test]
fn wram_round_trip() {
    let mut sys = bus_system(&[]);
    assert_eq!(sys.write(0xC000, &[0x11, 0x22]).unwrap(), 2);
    assert_eq!(sys.read(0xC000, 2).unwrap(), vec![0x11, 0x22]);
    assert_eq!(sys.write(0xDFFF, &[0x33]).unwrap(), 1);
    assert_eq!(sys.read(0xDFFF, 1).unwrap(), vec![0x33]);
}

#[test]
fn boot_rom_serves_low_page() {
    let mut boot = vec![0u8; 0x100];
    for (i, b) in boot.iter_mut().enumerate() {
        *b = i as u8;
    }
    let cart = Cart::new(bus_cart_image()).unwrap();
    let sys = System::new(Cpu::new(), cart, Io::new(), boot);
    // while the overlay is active every address in $00-$FF reads the image
    assert_eq!(sys.read(0x0000, 1).unwrap(), vec![0x00]);
    assert_eq!(sys.read(0x0042, 1).unwrap(), vec![0x42]);
    assert_eq!(sys.read(0x00FF, 1).unwrap(), vec![0xFF]);
}

#[test]
fn read_straddles_overlay_boundary() {
    let mut boot = vec![0u8; 0x100];
    boot[0xFE] = 0xEE;
    boot[0xFF] = 0xDD;
    let cart = Cart::new(bus_cart_image()).unwrap();
    let sys = System::new(Cpu::new(), cart, Io::new(), boot);
    // boot ROM tail, then cart bytes starting at $0100 (the entry point)
    assert_eq!(
        sys.read(0x00FE, 4).unwrap(),
        vec![0xEE, 0xDD, 0x00, 0xC3]
    );
}

#[test]
fn boot_overlay_handoff() {
    let mut boot = vec![0u8; 0x100];
    boot[0] = 0x31;
    let cart = Cart::new(bus_cart_image()).unwrap();
    let mut sys = System::new(Cpu::new(), cart, Io::new(), boot);
    // initially the boot ROM answers
    assert_eq!(sys.read(0x0000, 1).unwrap(), vec![0x31]);
    // disabling the overlay hands the low page to the cart
    assert_eq!(sys.write(0xFF50, &[0x01]).unwrap(), 1);
    assert_eq!(sys.read(0x0000, 1).unwrap(), vec![0x00]);
    // the cart header is now visible from address 0 onward
    assert_eq!(sys.read(0x0101, 1).unwrap(), vec![0xC3]);
}

#[test]
fn boot_disable_is_one_shot() {
    let mut sys = bus_system(&[0x77]);
    assert_eq!(sys.read(0xFF50, 1).unwrap(), vec![0]);
    sys.write(0xFF50, &[0xFF]).unwrap();
    assert_eq!(sys.read(0xFF50, 1).unwrap(), vec![1]);
    // writing zero afterwards must not re-enable the overlay
    sys.write(0xFF50, &[0x00]).unwrap();
    assert_eq!(sys.read(0xFF50, 1).unwrap(), vec![1]);
    assert_eq!(sys.read(0x0000, 1).unwrap(), vec![0x00]);
}

#[test]
fn writing_into_active_overlay_is_illegal() {
    let mut sys = bus_system(&[]);
    assert_eq!(
        sys.write(0x0050, &[0x01]).unwrap_err(),
        ExecutionError::IllegalWrite(0x0050)
    );
}

#[test]
fn cart_rom_writes_are_discarded() {
    let mut sys = bus_system(&[]);
    sys.write(0xFF50, &[1]).unwrap();
    assert_eq!(sys.write(0x0100, &[0xAA]).unwrap(), 1);
    assert_eq!(sys.read(0x0100, 1).unwrap(), vec![0x00]);
}

#[test]
fn unbacked_regions_fail_unimplemented() {
    let sys = bus_system(&[]);
    assert_eq!(
        sys.read(0x4000, 1).unwrap_err(),
        ExecutionError::Unimplemented(0x4000)
    );
    assert_eq!(
        sys.read(0xA000, 1).unwrap_err(),
        ExecutionError::Unimplemented(0xA000)
    );
    assert_eq!(
        sys.read(0xE000, 1).unwrap_err(),
        ExecutionError::Unimplemented(0xE000)
    );
    assert_eq!(
        sys.read(0xFFFF, 1).unwrap_err(),
        ExecutionError::Unimplemented(0xFFFF)
    );
}

#[test]
fn read_without_wrap_is_illegal() {
    let sys = bus_system(&[]);
    assert_eq!(
        sys.read(0xFFFE, 4).unwrap_err(),
        ExecutionError::IllegalRead(0xFFFE)
    );
}

#[test]
fn read_fails_at_first_unserved_byte() {
    let mut sys = bus_system(&[]);
    sys.write(0x9FFE, &[7, 8]).unwrap();
    // the window leaves VRAM at $A000
    assert_eq!(
        sys.read(0x9FFE, 4).unwrap_err(),
        ExecutionError::Unimplemented(0xA000)
    );
}

#[test]
fn audio_regs_accept_writes_and_read_zero() {
    let mut sys = bus_system(&[]);
    assert_eq!(sys.write(0xFF10, &[0xFF]).unwrap(), 1);
    assert_eq!(sys.read(0xFF10, 1).unwrap(), vec![0]);
    assert_eq!(sys.read(0xFF26, 1).unwrap(), vec![0]);
    let audio = Audio {};
    assert_eq!(audio.read(0xFF11, 3).unwrap(), vec![0, 0, 0]);
}

#[test]
fn ppu_lcdc_round_trip_is_lossless() {
    let mut sys = bus_system(&[]);
    for v in [0x00u8, 0x91, 0xFF, 0x5A] {
        sys.write(0xFF40, &[v]).unwrap();
        assert_eq!(sys.read(0xFF40, 1).unwrap(), vec![v]);
    }
}

#[test]
fn ppu_stat_drops_bit_seven() {
    let mut sys = bus_system(&[]);
    sys.write(0xFF41, &[0xFF]).unwrap();
    assert_eq!(sys.read(0xFF41, 1).unwrap(), vec![0x7F]);
    sys.write(0xFF41, &[0x45]).unwrap();
    assert_eq!(sys.read(0xFF41, 1).unwrap(), vec![0x45]);
}

#[test]
fn ppu_raw_registers_hold_bytes() {
    let mut sys = bus_system(&[]);
    sys.write(0xFF42, &[0x12]).unwrap();
    sys.write(0xFF44, &[0x90]).unwrap(); // LY is writable in this core
    sys.write(0xFF4B, &[0x07]).unwrap();
    assert_eq!(sys.read(0xFF42, 1).unwrap(), vec![0x12]);
    assert_eq!(sys.read(0xFF44, 1).unwrap(), vec![0x90]);
    assert_eq!(sys.read(0xFF4B, 1).unwrap(), vec![0x07]);
}

#[test]
fn io_router_rejects_unimplemented_ranges() {
    let mut io = Io::new();
    assert_eq!(
        io.read(0xFF00, 1).unwrap_err(),
        ExecutionError::Unimplemented(0xFF00)
    );
    assert_eq!(
        io.read(0xFF04, 1).unwrap_err(),
        ExecutionError::Unimplemented(0xFF04)
    );
    assert_eq!(
        io.write(0xFF30, &[0]).unwrap_err(),
        ExecutionError::Unimplemented(0xFF30)
    );
    // the audio stub accepts a multi-byte write and reads back zero
    assert_eq!(io.write(0xFF10, &[1, 2, 3]).unwrap(), 3);
    assert_eq!(io.read(0xFF10, 3).unwrap(), vec![0, 0, 0]);
}
