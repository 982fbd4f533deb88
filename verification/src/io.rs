//! Memory-mapped I/O router for $FF00-$FF7F: audio stub at $FF10-$FF26,
//! PPU registers at $FF40-$FF4B, the boot-ROM disable latch at $FF50.
//! Every other sub-range is left without backing and fails.
use vstd::prelude::*;

use crate::audio::Audio;
use crate::ppu::Ppu;
use crate::ppu::spec_ppu_read;
use crate::ppu::spec_ppu_write;
use crate::ppu::spec_ppu_zero;
use crate::system::ExecutionError;

verus! {

/*
I/O memory map (DMG rows only):
$FF00        Joypad input
$FF01-$FF02  Serial transfer
$FF04-$FF07  Timer and divider
$FF10-$FF26  Audio
$FF30-$FF3F  Wave pattern
$FF40-$FF4B  LCD control, status, position, scrolling, palettes
$FF50        Set to non-zero to disable boot ROM
*/
/// The I/O register fabric: the boot-ROM disable latch and the device
/// register files this core implements.
#[derive(Clone, Copy, PartialEq, Eq, Structural, Debug)]
pub struct Io {
    /// The boot-overlay latch: 0 while the boot ROM is mapped, 1 once a
    /// nonzero write to $FF50 has disabled it for the session.
    pub bootrom_disable: u8,
    pub audio: Audio,
    pub ppu: Ppu,
}

/// The byte an I/O read at `address` returns, or the error when the
/// sub-range has no backing in this core.
pub open spec fn spec_io_read8(io: Io, address: u16) -> Result<u8, ExecutionError> {
    if 0xFF10 <= address <= 0xFF26 {
        Ok(0)
    } else if 0xFF40 <= address <= 0xFF4B {
        Ok(spec_ppu_read(io.ppu, address))
    } else if address == 0xFF50 {
        Ok(io.bootrom_disable)
    } else {
        Err(ExecutionError::Unimplemented(address))
    }
}

/// The I/O fabric after a byte write at `address`, or the error when the
/// sub-range has no backing. A nonzero write to $FF50 latches
/// `bootrom_disable` to 1; a zero write leaves the latch as it is, so the
/// overlay can never be re-enabled.
pub open spec fn spec_io_write8(io: Io, address: u16, data: u8) -> Result<Io, ExecutionError> {
    if 0xFF10 <= address <= 0xFF26 {
        Ok(io)
    } else if 0xFF40 <= address <= 0xFF4B {
        Ok(Io { ppu: spec_ppu_write(io.ppu, address, data), ..io })
    } else if address == 0xFF50 {
        Ok(
            Io {
                bootrom_disable: if data != 0 {
                    1
                } else {
                    io.bootrom_disable
                },
                ..io
            },
        )
    } else {
        Err(ExecutionError::Unimplemented(address))
    }
}

impl Io {
    /// A cold-start I/O fabric: overlay active, devices zeroed.
    pub fn new() -> (io: Io)
        ensures
            io == (Io { bootrom_disable: 0, audio: Audio {  }, ppu: spec_ppu_zero() }),
    {
        Io { bootrom_disable: 0, audio: Audio {  }, ppu: Ppu::new() }
    }

    /// Reads one I/O byte.
    pub(crate) fn read8(&self, address: u16) -> (r: Result<u8, ExecutionError>)
        ensures
            r == spec_io_read8(*self, address),
    {
        if 0xFF10 <= address && address <= 0xFF26 {
            Ok(0)
        } else if 0xFF40 <= address && address <= 0xFF4B {
            self.ppu.read(address)
        } else if address == 0xFF50 {
            Ok(self.bootrom_disable)
        } else {
            Err(ExecutionError::Unimplemented(address))
        }
    }

    /// Writes one I/O byte.
    pub(crate) fn write8(&mut self, address: u16, data: u8) -> (r: Result<usize, ExecutionError>)
        ensures
            match spec_io_write8(*old(self), address, data) {
                Ok(io) => r == Ok::<usize, ExecutionError>(1) && *final(self) == io,
                Err(e) => r == Err::<usize, ExecutionError>(e) && *final(self) == *old(self),
            },
    {
        if 0xFF10 <= address && address <= 0xFF26 {
            Ok(1)
        } else if 0xFF40 <= address && address <= 0xFF4B {
            self.ppu.write(address, data)
        } else if address == 0xFF50 {
            if data != 0 {
                self.bootrom_disable = 1;
            }
            Ok(1)
        } else {
            Err(ExecutionError::Unimplemented(address))
        }
    }

    /// Reads `len` I/O bytes starting at `address`, without wrap, one
    /// register at a time; fails on the first byte that falls in a
    /// sub-range without backing.
    pub fn read(&self, address: u16, len: usize) -> (r: Result<Vec<u8>, ExecutionError>)
        ensures
            address + len > 0x10000 ==> r == Err::<Vec<u8>, ExecutionError>(
                ExecutionError::IllegalRead(address),
            ),
            address + len <= 0x10000 ==> match r {
                Ok(v) => v@.len() == len && (forall|a: u16|
                    address <= a < address + len ==> (#[trigger] spec_io_read8(*self, a)) == Ok::<
                        u8,
                        ExecutionError,
                    >(v@[a - address])),
                Err(e) => exists|a: u16|
                    address <= a < address + len && (forall|b: u16|
                        address <= b < a ==> (#[trigger] spec_io_read8(*self, b)) is Ok) && (
                    #[trigger] spec_io_read8(*self, a)) == Err::<u8, ExecutionError>(e),
            },
            r is Ok <==> address + len <= 0x10000 && (forall|a: u16|
                address <= a < address + len ==> (#[trigger] spec_io_read8(*self, a)) is Ok),
    {
        if len > 0x10000 - address as usize {
            return Err(ExecutionError::IllegalRead(address));
        }
        let mut v: Vec<u8> = Vec::new();
        let mut i: usize = 0;
        while i < len
            invariant
                i <= len,
                address + len <= 0x10000,
                v@.len() == i,
                forall|a: u16|
                    address <= a < address + i ==> (#[trigger] spec_io_read8(*self, a)) == Ok::<
                        u8,
                        ExecutionError,
                    >(v@[a - address]),
            decreases len - i,
        {
            match self.read8(address + i as u16) {
                Ok(b) => v.push(b),
                Err(e) => {
                    return Err(e);
                },
            }
            i += 1;
        }
        Ok(v)
    }

    /// Writes `data` to the I/O registers starting at `address`, without
    /// wrap, one register at a time; stops at the first byte that falls in
    /// a sub-range without backing, leaving the earlier bytes written.
    pub fn write(&mut self, address: u16, data: &[u8]) -> (r: Result<usize, ExecutionError>)
        ensures
            address + data@.len() > 0x10000 ==> r == Err::<usize, ExecutionError>(
                ExecutionError::IllegalWrite(address),
            ) && *final(self) == *old(self),
            address + data@.len() <= 0x10000 ==> {
                let (io2, oe) = spec_io_write_seq(*old(self), address as int, data@);
                *final(self) == io2 && match oe {
                    None => r == Ok::<usize, ExecutionError>(data@.len() as usize),
                    Some(e) => r == Err::<usize, ExecutionError>(e),
                }
            },
    {
        if data.len() > 0x10000 - address as usize {
            return Err(ExecutionError::IllegalWrite(address));
        }
        let ghost data0 = data@;
        proof {
            assert(data0.subrange(0, data0.len() as int) =~= data0);
        }
        let mut i: usize = 0;
        while i < data.len()
            invariant
                i <= data@.len(),
                data@ == data0,
                address + data@.len() <= 0x10000,
                spec_io_write_seq(*old(self), address as int, data0) == spec_io_write_seq(
                    *self,
                    address + i,
                    data0.subrange(i as int, data0.len() as int),
                ),
            decreases data@.len() - i,
        {
            let ghost pre = *self;
            let ghost rest = data0.subrange(i as int, data0.len() as int);
            match self.write8(address + i as u16, data[i]) {
                Ok(_) => (),
                Err(e) => {
                    proof {
                        assert(spec_io_write_seq(pre, address + i, rest) == (pre, Some(e)));
                    }
                    return Err(e);
                },
            }
            proof {
                assert(rest.subrange(1, rest.len() as int) =~= data0.subrange(
                    i + 1,
                    data0.len() as int,
                ));
            }
            i += 1;
        }
        proof {
            assert(data0.subrange(data0.len() as int, data0.len() as int) =~= Seq::<u8>::empty());
        }
        Ok(data.len())
    }
}

/// The I/O fabric after writing `data` byte by byte from `address` on:
/// the state reached, and the error that stopped the write if one did.
pub open spec fn spec_io_write_seq(io: Io, address: int, data: Seq<u8>) -> (Io, Option<
    ExecutionError,
>)
    decreases data.len(),
{
    if data.len() <= 0 {
        (io, None)
    } else {
        match spec_io_write8(io, address as u16, data[0]) {
            Ok(io2) => spec_io_write_seq(io2, address + 1, data.subrange(1, data.len() as int)),
            Err(e) => (io, Some(e)),
        }
    }
}

} // verus!
