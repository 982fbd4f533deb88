//! Cartridge construction and reads: header parsing, checksum validation,
//! and the zero-filled bank stub.
use gbcore::cart::Cart;
use gbcore::cart::CartError;
use gbcore::cart::CartHeader;
use gbcore::system::ExecutionError;

/// A minimal valid cart image: a plausible entry point, a title, and a
/// correct header checksum over $0134-$014C.
fn valid_cart_image() -> Vec<u8> {
    let mut img = vec![0u8; 0x150];
    // nop; jp $0150
    img[0x100] = 0x00;
    img[0x101] = 0xC3;
    img[0x102] = 0x50;
    img[0x103] = 0x01;
    // a recognizable logo byte and a title
    img[0x104] = 0xCE;
    let title = b"CHECKED";
    for (i, b) in title.iter().enumerate() {
        img[0x134 + i] = *b;
    }
    img[0x147] = 0x00; // ROM only
    img[0x148] = 0x00; // 32 KiB
    img[0x149] = 0x00; // no RAM
    let mut ck: u8 = 0;
    for a in 0x134..=0x14C {
        ck = ck.wrapping_sub(img[a]).wrapping_sub(1);
    }
    img[0x14D] = ck;
    img
}

#[test]
fn cart_accepts_valid_header() {
    let cart = Cart::new(valid_cart_image()).unwrap();
    assert_eq!(cart.header.entry_point, vec![0x00, 0xC3, 0x50, 0x01]);
    assert_eq!(cart.header.title[0], b'C');
    assert_eq!(cart.header.cart_type, 0x00);
}

#[test]
fn cart_rejects_short_image() {
    let img = vec![0u8; 0x14F];
    assert_eq!(Cart::new(img).unwrap_err(), CartError::TooShort);
}

#[test]
fn checksum_byte_plus_one_fails() {
    let mut img = valid_cart_image();
    img[0x14D] = img[0x14D].wrapping_add(1);
    assert_eq!(Cart::new(img).unwrap_err(), CartError::ChecksumMismatch);
}

#[test]
fn checksum_byte_minus_one_fails() {
    let mut img = valid_cart_image();
    img[0x14D] = img[0x14D].wrapping_sub(1);
    assert_eq!(Cart::new(img).unwrap_err(), CartError::ChecksumMismatch);
}

#[test]
fn tampered_header_byte_fails() {
    // altering a checksummed byte without fixing the checksum must fail
    let mut img = valid_cart_image();
    img[0x134] = img[0x134].wrapping_add(1);
    assert_eq!(Cart::new(img).unwrap_err(), CartError::ChecksumMismatch);
}

#[test]
fn header_struct_parses_window() {
    let img = valid_cart_image();
    let mut window = [0u8; 0x50];
    window.copy_from_slice(&img[0x100..0x150]);
    let h = CartHeader::new(window).unwrap();
    assert_eq!(h.entry_point, vec![0x00, 0xC3, 0x50, 0x01]);
    assert_eq!(h.logo[0], 0xCE);
    assert_eq!(h.header_checksum, img[0x14D]);
    assert_eq!(h.global_checksum, vec![0x00, 0x00]);
}

#[test]
fn header_rejects_bad_window_checksum() {
    let mut window = [0u8; 0x50];
    window[0x4D] = 0x01; // checksum of all-zero window is not 1
    assert!(CartHeader::new(window).is_err());
}

#[test]
fn cart_read_serves_header_by_address() {
    let cart = Cart::new(valid_cart_image()).unwrap();
    let entry = cart.read(0x0100, 4).unwrap();
    assert_eq!(entry, vec![0x00, 0xC3, 0x50, 0x01]);
    // a read crossing from the entry point into the logo
    let cross = cart.read(0x0102, 4).unwrap();
    assert_eq!(cross, vec![0x50, 0x01, 0xCE, 0x00]);
    // the checksum byte by address
    let ck = cart.read(0x014D, 1).unwrap();
    assert_eq!(ck[0], valid_cart_image()[0x14D]);
}

#[test]
fn cart_read_outside_header_is_zero_filled() {
    let cart = Cart::new(valid_cart_image()).unwrap();
    assert_eq!(cart.read(0x0000, 4).unwrap(), vec![0, 0, 0, 0]);
    assert_eq!(cart.read(0x3FFE, 2).unwrap(), vec![0, 0]);
}

#[test]
fn cart_read_past_address_space_fails() {
    let cart = Cart::new(valid_cart_image()).unwrap();
    assert_eq!(
        cart.read(0xFFFE, 3).unwrap_err(),
        ExecutionError::IllegalRead(0xFFFE)
    );
}

#[test]
fn cart_write_is_discarded() {
    let mut cart = Cart::new(valid_cart_image()).unwrap();
    assert_eq!(cart.write(0x0100, &[0xAA, 0xBB]).unwrap(), 2);
    // the header still reads as parsed
    assert_eq!(cart.read(0x0100, 1).unwrap(), vec![0x00]);
}
