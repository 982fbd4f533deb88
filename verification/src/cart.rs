//! Cartridge: header parsing with checksum validation, and bank-0
//! read-through. Reads outside the header window return zero-filled bytes;
//! writes (mapper control) are accepted and discarded.
use vstd::prelude::*;

use crate::system::ExecutionError;

verus! {

/// Why cartridge construction failed.
#[derive(Clone, Copy, PartialEq, Eq, Structural, Debug)]
pub enum CartError {
    /// The image is smaller than the $0150 bytes a header needs.
    TooShort,
    /// The byte at $014D does not match the computed header checksum.
    ChecksumMismatch,
}

/// The parsed cartridge header (bytes $0100-$014F of the image).
/// `man_code` and `cgb` overlap the title area: on reads the title wins,
/// as it does in the 16-character title layout.
#[derive(Debug)]
pub struct CartHeader {
    /// $0100-$0103: entry point (4 bytes).
    pub entry_point: Vec<u8>,
    /// $0104-$0133: logo bitmap (48 bytes).
    pub logo: Vec<u8>,
    /// $0134-$0143: title, upper-case ASCII padded with zeros (16 bytes).
    pub title: Vec<u8>,
    /// $013F-$0142: manufacturer code on later carts (4 bytes).
    pub man_code: Vec<u8>,
    /// $0143: CGB flag on later carts.
    pub cgb: u8,
    /// $0144-$0145: new licensee code (2 bytes).
    pub new_lic_code: Vec<u8>,
    /// $0146: SGB flag.
    pub sgb_flag: u8,
    /// $0147: cartridge type (mapper hardware).
    pub cart_type: u8,
    /// $0148: ROM size code.
    pub rom_size: u8,
    /// $0149: RAM size code.
    pub ram_size: u8,
    /// $014A: destination code.
    pub dest_code: u8,
    /// $014B: old licensee code.
    pub old_lic_code: u8,
    /// $014C: mask ROM version number.
    pub rom_version: u8,
    /// $014D: header checksum over $0134-$014C.
    pub header_checksum: u8,
    /// $014E-$014F: global checksum, big-endian (not validated).
    pub global_checksum: Vec<u8>,
}

/// The running header checksum over window offsets $34..n:
/// starting from zero, each step subtracts the byte and one more, wrapping.
pub open spec fn spec_checksum_upto(w: Seq<u8>, n: int) -> u8
    decreases n,
{
    if n <= 0x34 {
        0
    } else {
        (((spec_checksum_upto(w, n - 1) - w[n - 1] - 1) % 256) as u8)
    }
}

/// The header checksum of a $50-byte header window: the running checksum
/// over offsets $34-$4C (bytes $0134-$014C of the image).
pub open spec fn spec_header_checksum(w: Seq<u8>) -> u8 {
    spec_checksum_upto(w, 0x4D)
}

/// A header window is valid when its checksum byte at offset $4D matches
/// the computed checksum.
pub open spec fn spec_header_valid(w: Seq<u8>) -> bool {
    spec_header_checksum(w) == w[0x4D]
}

/// The running checksum reads only bytes below its bound: two windows that
/// agree below `n` have the same running checksum at `n`.
pub proof fn lemma_checksum_depends_below(w1: Seq<u8>, w2: Seq<u8>, n: int)
    requires
        forall|i: int| 0x34 <= i < n ==> w1[i] == w2[i],
    ensures
        spec_checksum_upto(w1, n) == spec_checksum_upto(w2, n),
    decreases n,
{
    if n > 0x34 {
        lemma_checksum_depends_below(w1, w2, n - 1);
    }
}

/// Tampering with the checksum byte is always caught: if a header window is
/// valid, any window equal to it except for a different byte at offset $4D
/// (the checksum slot, e.g. that byte altered by one) is invalid.
pub proof fn lemma_checksum_detects_tamper(w1: Seq<u8>, w2: Seq<u8>)
    requires
        spec_header_valid(w1),
        forall|i: int| 0x34 <= i < 0x4D ==> w1[i] == w2[i],
        w2[0x4D] != w1[0x4D],
    ensures
        !spec_header_valid(w2),
{
    lemma_checksum_depends_below(w1, w2, 0x4D);
}

impl CartHeader {
    /// Each byte field holds exactly its slice of the header window.
    pub open spec fn wf(self) -> bool {
        self.entry_point@.len() == 4 && self.logo@.len() == 48 && self.title@.len() == 16
            && self.man_code@.len() == 4 && self.new_lic_code@.len() == 2
            && self.global_checksum@.len() == 2
    }

    /// The byte the header serves at window offset `off` (0 <= off < $50).
    /// The overlapping manufacturer-code and CGB bytes are served from the title.
    pub open spec fn spec_byte(self, off: int) -> u8 {
        if 0 <= off < 0x04 {
            self.entry_point@[off]
        } else if off < 0x34 {
            self.logo@[off - 0x04]
        } else if off < 0x44 {
            self.title@[off - 0x34]
        } else if off < 0x46 {
            self.new_lic_code@[off - 0x44]
        } else if off == 0x46 {
            self.sgb_flag
        } else if off == 0x47 {
            self.cart_type
        } else if off == 0x48 {
            self.rom_size
        } else if off == 0x49 {
            self.ram_size
        } else if off == 0x4A {
            self.dest_code
        } else if off == 0x4B {
            self.old_lic_code
        } else if off == 0x4C {
            self.rom_version
        } else if off == 0x4D {
            self.header_checksum
        } else if off < 0x50 {
            self.global_checksum@[off - 0x4E]
        } else {
            0
        }
    }

    /// The whole $50-byte header window as the header serves it.
    pub open spec fn view(self) -> Seq<u8> {
        Seq::new(0x50, |i: int| self.spec_byte(i))
    }

    /// Parses and validates a $50-byte header window (image bytes
    /// $0100-$014F). Fails exactly when the checksum byte at window offset
    /// $4D differs from the checksum computed over offsets $34-$4C.
    pub fn new(contents: [u8; 0x50]) -> (r: Result<CartHeader, CartError>)
        ensures
            r matches Ok(h) ==> h.wf() && h@ == contents@ && h.man_code@ == contents@.subrange(
                0x3F,
                0x43,
            ) && h.cgb == contents@[0x43],
            r is Ok <==> spec_header_valid(contents@),
            r matches Err(e) ==> e == CartError::ChecksumMismatch,
    {
        let mut bytes: Vec<u8> = Vec::new();
        let mut i: usize = 0;
        while i < 0x50
            invariant
                i <= 0x50,
                bytes@ =~= contents@.subrange(0, i as int),
            decreases 0x50 - i,
        {
            bytes.push(contents[i]);
            i += 1;
        }
        proof {
            assert(bytes@ =~= contents@);
        }
        parse_header(&bytes, 0)
    }
}

/// Parses and validates the header window at `base` in `bytes`; the window
/// is the $50 bytes starting there.
pub(crate) fn parse_header(bytes: &Vec<u8>, base: usize) -> (r: Result<CartHeader, CartError>)
    requires
        base + 0x50 <= bytes@.len(),
        base + 0x50 <= usize::MAX,
    ensures
        r matches Ok(h) ==> h.wf() && h@ == bytes@.subrange(base as int, base + 0x50)
            && h.man_code@ == bytes@.subrange(base + 0x3F, base + 0x43) && h.cgb == bytes@[base
            + 0x43],
        r is Ok <==> spec_header_valid(bytes@.subrange(base as int, base + 0x50)),
        r matches Err(e) ==> e == CartError::ChecksumMismatch,
{
    let ghost w = bytes@.subrange(base as int, base + 0x50);
    let mut checksum: u8 = 0;
    let mut i: usize = 0x34;
    while i < 0x4D
        invariant
            0x34 <= i <= 0x4D,
            base + 0x50 <= bytes@.len(),
            base + 0x50 <= usize::MAX,
            w == bytes@.subrange(base as int, base + 0x50),
            checksum == spec_checksum_upto(w, i as int),
        decreases 0x4D - i,
    {
        checksum = checksum.wrapping_sub(bytes[base + i]).wrapping_sub(1);
        i += 1;
    }
    if checksum != bytes[base + 0x4D] {
        return Err(CartError::ChecksumMismatch);
    }
    let header = CartHeader {
        entry_point: copy_range(bytes, base, base + 0x04),
        logo: copy_range(bytes, base + 0x04, base + 0x34),
        title: copy_range(bytes, base + 0x34, base + 0x44),
        man_code: copy_range(bytes, base + 0x3F, base + 0x43),
        cgb: bytes[base + 0x43],
        new_lic_code: copy_range(bytes, base + 0x44, base + 0x46),
        sgb_flag: bytes[base + 0x46],
        cart_type: bytes[base + 0x47],
        rom_size: bytes[base + 0x48],
        ram_size: bytes[base + 0x49],
        dest_code: bytes[base + 0x4A],
        old_lic_code: bytes[base + 0x4B],
        rom_version: bytes[base + 0x4C],
        header_checksum: bytes[base + 0x4D],
        global_checksum: copy_range(bytes, base + 0x4E, base + 0x50),
    };
    proof {
        assert(header@ =~= w);
    }
    Ok(header)
}

/// Copies `src[start..end]` into a fresh vector.
fn copy_range(src: &Vec<u8>, start: usize, end: usize) -> (v: Vec<u8>)
    requires
        start <= end <= src@.len(),
    ensures
        v@ == src@.subrange(start as int, end as int),
{
    let mut v: Vec<u8> = Vec::new();
    let mut i: usize = start;
    while i < end
        invariant
            start <= i <= end <= src@.len(),
            v@ =~= src@.subrange(start as int, i as int),
        decreases end - i,
    {
        v.push(src[i]);
        i += 1;
    }
    proof {
        assert(v@ =~= src@.subrange(start as int, end as int));
    }
    v
}

/// The cartridge: a validated header plus the (stubbed) ROM and RAM banks.
#[derive(Debug)]
pub struct Cart {
    pub header: CartHeader,
    pub rom: Vec<u8>,
    pub ram: Vec<u8>,
}

/// The byte the cartridge serves at `addr`: header bytes in $0100-$014F,
/// zero elsewhere (bank reads outside the header are a documented stub).
pub open spec fn spec_cart_byte(cart: Cart, addr: u16) -> u8 {
    if 0x0100 <= addr < 0x0150 {
        cart.header.spec_byte(addr - 0x0100)
    } else {
        0
    }
}

impl Cart {
    pub open spec fn wf(self) -> bool {
        self.header.wf()
    }

    /// Builds a cartridge from a raw image. The image must hold at least
    /// $0150 bytes; the header at $0100-$014F is parsed and its checksum
    /// validated, failing construction on a mismatch.
    pub fn new(image: Vec<u8>) -> (r: Result<Cart, CartError>)
        ensures
            image@.len() < 0x150 ==> r == Err::<Cart, CartError>(CartError::TooShort),
            image@.len() >= 0x150 ==> (r is Ok <==> spec_header_valid(
                image@.subrange(0x100, 0x150),
            )),
            r matches Ok(c) ==> c.wf() && c.header@ == image@.subrange(0x100, 0x150),
            r matches Err(e) ==> e == CartError::TooShort || e == CartError::ChecksumMismatch,
    {
        if image.len() < 0x150 {
            return Err(CartError::TooShort);
        }
        match parse_header(&image, 0x100) {
            Ok(header) => Ok(Cart { header, rom: Vec::new(), ram: Vec::new() }),
            Err(e) => Err(e),
        }
    }

    /// Reads `len` bytes starting at `addr`, without wrap: header bytes by
    /// address, zero-filled bytes elsewhere.
    pub fn read(&self, address: u16, len: usize) -> (r: Result<Vec<u8>, ExecutionError>)
        requires
            self.wf(),
        ensures
            address + len > 0x10000 ==> r == Err::<Vec<u8>, ExecutionError>(
                ExecutionError::IllegalRead(address),
            ),
            address + len <= 0x10000 ==> (r matches Ok(v) && v@.len() == len && (forall|i: int|
                0 <= i < len ==> v@[i] == spec_cart_byte(*self, (address + i) as u16))),
    {
        if len > 0x10000 - address as usize {
            return Err(ExecutionError::IllegalRead(address));
        }
        let mut v: Vec<u8> = Vec::new();
        let mut i: usize = 0;
        while i < len
            invariant
                self.wf(),
                i <= len,
                address + len <= 0x10000,
                v@.len() == i,
                forall|j: int| 0 <= j < i ==> v@[j] == spec_cart_byte(*self, (address + j) as u16),
            decreases len - i,
        {
            let a: u16 = address + i as u16;
            let b: u8 = if 0x0100 <= a && a < 0x0150 {
                self.header_byte((a - 0x0100) as usize)
            } else {
                0
            };
            v.push(b);
            i += 1;
        }
        Ok(v)
    }

    /// Reads one byte of the header window at offset `off`.
    pub(crate) fn header_byte(&self, off: usize) -> (b: u8)
        requires
            self.wf(),
            off < 0x50,
        ensures
            b == self.header.spec_byte(off as int),
    {
        if off < 0x04 {
            self.header.entry_point[off]
        } else if off < 0x34 {
            self.header.logo[off - 0x04]
        } else if off < 0x44 {
            self.header.title[off - 0x34]
        } else if off < 0x46 {
            self.header.new_lic_code[off - 0x44]
        } else if off == 0x46 {
            self.header.sgb_flag
        } else if off == 0x47 {
            self.header.cart_type
        } else if off == 0x48 {
            self.header.rom_size
        } else if off == 0x49 {
            self.header.ram_size
        } else if off == 0x4A {
            self.header.dest_code
        } else if off == 0x4B {
            self.header.old_lic_code
        } else if off == 0x4C {
            self.header.rom_version
        } else if off == 0x4D {
            self.header.header_checksum
        } else {
            self.header.global_checksum[off - 0x4E]
        }
    }

    /// Accepts and discards a write (mapper control is out of scope):
    /// the cartridge is unchanged and the whole write is reported done.
    pub fn write(&mut self, address: u16, data: &[u8]) -> (r: Result<usize, ExecutionError>)
        ensures
            *final(self) == *old(self),
            r == Ok::<usize, ExecutionError>(data@.len() as usize),
    {
        let _ = address;
        Ok(data.len())
    }
}

} // verus!
