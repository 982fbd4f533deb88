//! PPU register file: byte-granular MMIO over $FF40-$FF4B. LCDC and STAT
//! marshal to and from structured bitfields; the other registers are raw
//! bytes. Writes have no side effect beyond register mutation (the pixel
//! pipeline is out of scope, so LY is writable here).
use vstd::prelude::*;

use crate::system::ExecutionError;

verus! {

/*
$FF40 LCDC bit layout:
7 LCD and PPU enable            0=Off, 1=On
6 Window tile map area          0=9800-9BFF, 1=9C00-9FFF
5 Window enable                 0=Off, 1=On
4 BG and Window tile data area  0=8800-97FF, 1=8000-8FFF
3 BG tile map area              0=9800-9BFF, 1=9C00-9FFF
2 OBJ size                      0=8x8, 1=8x16
1 OBJ enable                    0=Off, 1=On
0 BG and Window enable/priority 0=Off, 1=On
*/
/// The LCD control register ($FF40) as a bitfield record.
#[derive(Clone, Copy, PartialEq, Eq, Structural, Debug)]
pub struct PpuCtrl {
    pub enable: bool,
    pub tilemap_area: bool,
    pub window_enable: bool,
    pub BGWindow_area: bool,
    pub BG_tilemap_area: bool,
    pub OBJ_size: bool,
    pub OBJ_enable: bool,
    pub BGWindow_enable: bool,
}

/// The STAT mode flag: what the PPU would be doing in this scanline phase.
#[derive(Clone, Copy, PartialEq, Eq, Structural, Debug)]
pub enum PpuMode {
    Hblank,
    VBlank,
    OAMsearch,
    Transfer,
}

/*
$FF41 STAT bit layout:
6 LYC=LY interrupt source  (read/write)
5 Mode 2 interrupt source  (read/write)
4 Mode 1 interrupt source  (read/write)
3 Mode 0 interrupt source  (read/write)
2 LYC=LY flag
1-0 mode flag (0 HBlank, 1 VBlank, 2 OAM search, 3 transfer)
*/
/// The LCD status register ($FF41) as a bitfield record; bit 7 is unused
/// and reads zero here.
#[derive(Clone, Copy, PartialEq, Eq, Structural, Debug)]
pub struct PpuStat {
    pub LYCLY_int: bool,
    pub Mode2_int: bool,
    pub Mode1_int: bool,
    pub Mode0_int: bool,
    pub LYCLY: bool,
    pub Mode: PpuMode,
}

/// The two-bit encoding of a STAT mode.
pub open spec fn spec_mode_code(m: PpuMode) -> u8 {
    match m {
        PpuMode::Hblank => 0,
        PpuMode::VBlank => 1,
        PpuMode::OAMsearch => 2,
        PpuMode::Transfer => 3,
    }
}

/// The LCDC bitfield packed into its byte.
pub open spec fn spec_pack_ctrl(c: PpuCtrl) -> u8 {
    (if c.enable {
        0x80u8
    } else {
        0u8
    }) | (if c.tilemap_area {
        0x40u8
    } else {
        0u8
    }) | (if c.window_enable {
        0x20u8
    } else {
        0u8
    }) | (if c.BGWindow_area {
        0x10u8
    } else {
        0u8
    }) | (if c.BG_tilemap_area {
        0x08u8
    } else {
        0u8
    }) | (if c.OBJ_size {
        0x04u8
    } else {
        0u8
    }) | (if c.OBJ_enable {
        0x02u8
    } else {
        0u8
    }) | (if c.BGWindow_enable {
        0x01u8
    } else {
        0u8
    })
}

/// A byte unpacked into the LCDC bitfield.
pub open spec fn spec_unpack_ctrl(v: u8) -> PpuCtrl {
    PpuCtrl {
        enable: v & 0x80 != 0,
        tilemap_area: v & 0x40 != 0,
        window_enable: v & 0x20 != 0,
        BGWindow_area: v & 0x10 != 0,
        BG_tilemap_area: v & 0x08 != 0,
        OBJ_size: v & 0x04 != 0,
        OBJ_enable: v & 0x02 != 0,
        BGWindow_enable: v & 0x01 != 0,
    }
}

/// The STAT bitfield packed into its byte (bit 7 zero).
pub open spec fn spec_pack_stat(s: PpuStat) -> u8 {
    (if s.LYCLY_int {
        0x40u8
    } else {
        0u8
    }) | (if s.Mode2_int {
        0x20u8
    } else {
        0u8
    }) | (if s.Mode1_int {
        0x10u8
    } else {
        0u8
    }) | (if s.Mode0_int {
        0x08u8
    } else {
        0u8
    }) | (if s.LYCLY {
        0x04u8
    } else {
        0u8
    }) | spec_mode_code(s.Mode)
}

/// A byte unpacked into the STAT bitfield; bit 7 is dropped.
pub open spec fn spec_unpack_stat(v: u8) -> PpuStat {
    PpuStat {
        LYCLY_int: v & 0x40 != 0,
        Mode2_int: v & 0x20 != 0,
        Mode1_int: v & 0x10 != 0,
        Mode0_int: v & 0x08 != 0,
        LYCLY: v & 0x04 != 0,
        Mode: if v & 0x03 == 0 {
            PpuMode::Hblank
        } else if v & 0x03 == 1 {
            PpuMode::VBlank
        } else if v & 0x03 == 2 {
            PpuMode::OAMsearch
        } else {
            PpuMode::Transfer
        },
    }
}

/// LCDC packing is lossless over all eight documented bits: writing a byte
/// and reading it back returns the byte.
pub proof fn lemma_ctrl_round_trip(v: u8)
    ensures
        spec_pack_ctrl(spec_unpack_ctrl(v)) == v,
{
    assert(((if v & 0x80 != 0 {
        0x80u8
    } else {
        0u8
    }) | (if v & 0x40 != 0 {
        0x40u8
    } else {
        0u8
    }) | (if v & 0x20 != 0 {
        0x20u8
    } else {
        0u8
    }) | (if v & 0x10 != 0 {
        0x10u8
    } else {
        0u8
    }) | (if v & 0x08 != 0 {
        0x08u8
    } else {
        0u8
    }) | (if v & 0x04 != 0 {
        0x04u8
    } else {
        0u8
    }) | (if v & 0x02 != 0 {
        0x02u8
    } else {
        0u8
    }) | (if v & 0x01 != 0 {
        0x01u8
    } else {
        0u8
    })) == v) by (bit_vector);
}

/// STAT packing is lossless over the documented bits 0-6: writing a byte
/// and reading it back returns the byte with bit 7 dropped.
pub proof fn lemma_stat_round_trip(v: u8)
    ensures
        spec_pack_stat(spec_unpack_stat(v)) == v & 0x7F,
{
    assert(v & 0x03 == 0 || v & 0x03 == 1 || v & 0x03 == 2 || v & 0x03 == 3) by (bit_vector);
    if v & 0x03 == 0 {
        lemma_stat_high_bits(v, 0);
    } else if v & 0x03 == 1 {
        lemma_stat_high_bits(v, 1);
    } else if v & 0x03 == 2 {
        lemma_stat_high_bits(v, 2);
    } else {
        lemma_stat_high_bits(v, 3);
    }
}

/// Recombining the STAT interrupt-source and flag bits of `v` with its
/// two-bit mode code gives back `v` without bit 7.
proof fn lemma_stat_high_bits(v: u8, k: u8)
    by (bit_vector)
    requires
        v & 0x03 == k,
    ensures
        (((if v & 0x40 != 0 {
            0x40u8
        } else {
            0u8
        }) | (if v & 0x20 != 0 {
            0x20u8
        } else {
            0u8
        }) | (if v & 0x10 != 0 {
            0x10u8
        } else {
            0u8
        }) | (if v & 0x08 != 0 {
            0x08u8
        } else {
            0u8
        }) | (if v & 0x04 != 0 {
            0x04u8
        } else {
            0u8
        })) | k) == v & 0x7F,
{
}

/*
$FF40 LCDC LCD control                    R/W
$FF41 STAT LCD status                     Mixed
$FF42 SCY  Viewport Y position            R/W
$FF43 SCX  Viewport X position            R/W
$FF44 LY   LCD Y coordinate               (R on hardware; writable here)
$FF45 LYC  LY compare                     R/W
$FF46 DMA  OAM DMA source address & start R/W
$FF47 BGP  BG palette data                R/W
$FF48 OBP0 OBJ palette 0 data             R/W
$FF49 OBP1 OBJ palette 1 data             R/W
$FF4A WY   Window Y position              R/W
$FF4B WX   Window X position plus 7       R/W
*/
/// The PPU register file over $FF40-$FF4B.
#[derive(Clone, Copy, PartialEq, Eq, Structural, Debug)]
pub struct Ppu {
    pub LCDC: PpuCtrl,
    pub STAT: PpuStat,
    pub SCY: u8,
    pub SCX: u8,
    pub LY: u8,
    pub LYC: u8,
    pub DMA: u8,
    pub BGP: u8,
    pub OBP0: u8,
    pub OBP1: u8,
    pub WY: u8,
    pub WX: u8,
}

/// The byte the PPU serves for a register address in $FF40-$FF4B.
pub open spec fn spec_ppu_read(p: Ppu, address: u16) -> u8 {
    if address == 0xFF40 {
        spec_pack_ctrl(p.LCDC)
    } else if address == 0xFF41 {
        spec_pack_stat(p.STAT)
    } else if address == 0xFF42 {
        p.SCY
    } else if address == 0xFF43 {
        p.SCX
    } else if address == 0xFF44 {
        p.LY
    } else if address == 0xFF45 {
        p.LYC
    } else if address == 0xFF46 {
        p.DMA
    } else if address == 0xFF47 {
        p.BGP
    } else if address == 0xFF48 {
        p.OBP0
    } else if address == 0xFF49 {
        p.OBP1
    } else if address == 0xFF4A {
        p.WY
    } else {
        p.WX
    }
}

/// The PPU after a byte write to a register address in $FF40-$FF4B.
pub open spec fn spec_ppu_write(p: Ppu, address: u16, data: u8) -> Ppu {
    if address == 0xFF40 {
        Ppu { LCDC: spec_unpack_ctrl(data), ..p }
    } else if address == 0xFF41 {
        Ppu { STAT: spec_unpack_stat(data), ..p }
    } else if address == 0xFF42 {
        Ppu { SCY: data, ..p }
    } else if address == 0xFF43 {
        Ppu { SCX: data, ..p }
    } else if address == 0xFF44 {
        Ppu { LY: data, ..p }
    } else if address == 0xFF45 {
        Ppu { LYC: data, ..p }
    } else if address == 0xFF46 {
        Ppu { DMA: data, ..p }
    } else if address == 0xFF47 {
        Ppu { BGP: data, ..p }
    } else if address == 0xFF48 {
        Ppu { OBP0: data, ..p }
    } else if address == 0xFF49 {
        Ppu { OBP1: data, ..p }
    } else if address == 0xFF4A {
        Ppu { WY: data, ..p }
    } else {
        Ppu { WX: data, ..p }
    }
}

/// The cold-start PPU register file: every register and flag zero, STAT
/// mode HBlank.
pub open spec fn spec_ppu_zero() -> Ppu {
    Ppu {
        LCDC: PpuCtrl {
            enable: false,
            tilemap_area: false,
            window_enable: false,
            BGWindow_area: false,
            BG_tilemap_area: false,
            OBJ_size: false,
            OBJ_enable: false,
            BGWindow_enable: false,
        },
        STAT: PpuStat {
            LYCLY_int: false,
            Mode2_int: false,
            Mode1_int: false,
            Mode0_int: false,
            LYCLY: false,
            Mode: PpuMode::Hblank,
        },
        SCY: 0,
        SCX: 0,
        LY: 0,
        LYC: 0,
        DMA: 0,
        BGP: 0,
        OBP0: 0,
        OBP1: 0,
        WY: 0,
        WX: 0,
    }
}

impl Ppu {
    /// A cold-start PPU: every register and flag zero, STAT mode HBlank.
    pub fn new() -> (p: Ppu)
        ensures
            p == spec_ppu_zero(),
    {
        let p = Ppu {
            LCDC: PpuCtrl {
                enable: false,
                tilemap_area: false,
                window_enable: false,
                BGWindow_area: false,
                BG_tilemap_area: false,
                OBJ_size: false,
                OBJ_enable: false,
                BGWindow_enable: false,
            },
            STAT: PpuStat {
                LYCLY_int: false,
                Mode2_int: false,
                Mode1_int: false,
                Mode0_int: false,
                LYCLY: false,
                Mode: PpuMode::Hblank,
            },
            SCY: 0,
            SCX: 0,
            LY: 0,
            LYC: 0,
            DMA: 0,
            BGP: 0,
            OBP0: 0,
            OBP1: 0,
            WY: 0,
            WX: 0,
        };
        p
    }

    /// Packs the LCDC bitfield into its byte.
    pub fn pack_ctrl(&self) -> (v: u8)
        ensures
            v == spec_pack_ctrl(self.LCDC),
    {
        (if self.LCDC.enable {
            0x80u8
        } else {
            0u8
        }) | (if self.LCDC.tilemap_area {
            0x40u8
        } else {
            0u8
        }) | (if self.LCDC.window_enable {
            0x20u8
        } else {
            0u8
        }) | (if self.LCDC.BGWindow_area {
            0x10u8
        } else {
            0u8
        }) | (if self.LCDC.BG_tilemap_area {
            0x08u8
        } else {
            0u8
        }) | (if self.LCDC.OBJ_size {
            0x04u8
        } else {
            0u8
        }) | (if self.LCDC.OBJ_enable {
            0x02u8
        } else {
            0u8
        }) | (if self.LCDC.BGWindow_enable {
            0x01u8
        } else {
            0u8
        })
    }

    /// Packs the STAT bitfield into its byte.
    pub fn pack_stat(&self) -> (v: u8)
        ensures
            v == spec_pack_stat(self.STAT),
    {
        let mode: u8 = match self.STAT.Mode {
            PpuMode::Hblank => 0,
            PpuMode::VBlank => 1,
            PpuMode::OAMsearch => 2,
            PpuMode::Transfer => 3,
        };
        (if self.STAT.LYCLY_int {
            0x40u8
        } else {
            0u8
        }) | (if self.STAT.Mode2_int {
            0x20u8
        } else {
            0u8
        }) | (if self.STAT.Mode1_int {
            0x10u8
        } else {
            0u8
        }) | (if self.STAT.Mode0_int {
            0x08u8
        } else {
            0u8
        }) | (if self.STAT.LYCLY {
            0x04u8
        } else {
            0u8
        }) | mode
    }

    /// Reads one PPU register byte.
    pub fn read(&self, address: u16) -> (r: Result<u8, ExecutionError>)
        requires
            0xFF40 <= address <= 0xFF4B,
        ensures
            r == Ok::<u8, ExecutionError>(spec_ppu_read(*self, address)),
    {
        let value = if address == 0xFF40 {
            self.pack_ctrl()
        } else if address == 0xFF41 {
            self.pack_stat()
        } else if address == 0xFF42 {
            self.SCY
        } else if address == 0xFF43 {
            self.SCX
        } else if address == 0xFF44 {
            self.LY
        } else if address == 0xFF45 {
            self.LYC
        } else if address == 0xFF46 {
            self.DMA
        } else if address == 0xFF47 {
            self.BGP
        } else if address == 0xFF48 {
            self.OBP0
        } else if address == 0xFF49 {
            self.OBP1
        } else if address == 0xFF4A {
            self.WY
        } else {
            self.WX
        };
        Ok(value)
    }

    /// Writes one PPU register byte.
    pub fn write(&mut self, address: u16, data: u8) -> (r: Result<usize, ExecutionError>)
        requires
            0xFF40 <= address <= 0xFF4B,
        ensures
            *final(self) == spec_ppu_write(*old(self), address, data),
            r == Ok::<usize, ExecutionError>(1),
    {
        if address == 0xFF40 {
            self.LCDC = PpuCtrl {
                enable: data & 0x80 != 0,
                tilemap_area: data & 0x40 != 0,
                window_enable: data & 0x20 != 0,
                BGWindow_area: data & 0x10 != 0,
                BG_tilemap_area: data & 0x08 != 0,
                OBJ_size: data & 0x04 != 0,
                OBJ_enable: data & 0x02 != 0,
                BGWindow_enable: data & 0x01 != 0,
            };
        } else if address == 0xFF41 {
            self.STAT = PpuStat {
                LYCLY_int: data & 0x40 != 0,
                Mode2_int: data & 0x20 != 0,
                Mode1_int: data & 0x10 != 0,
                Mode0_int: data & 0x08 != 0,
                LYCLY: data & 0x04 != 0,
                Mode: if data & 0x03 == 0 {
                    PpuMode::Hblank
                } else if data & 0x03 == 1 {
                    PpuMode::VBlank
                } else if data & 0x03 == 2 {
                    PpuMode::OAMsearch
                } else {
                    PpuMode::Transfer
                },
            };
        } else if address == 0xFF42 {
            self.SCY = data;
        } else if address == 0xFF43 {
            self.SCX = data;
        } else if address == 0xFF44 {
            self.LY = data;
        } else if address == 0xFF45 {
            self.LYC = data;
        } else if address == 0xFF46 {
            self.DMA = data;
        } else if address == 0xFF47 {
            self.BGP = data;
        } else if address == 0xFF48 {
            self.OBP0 = data;
        } else if address == 0xFF49 {
            self.OBP1 = data;
        } else if address == 0xFF4A {
            self.WY = data;
        } else {
            self.WX = data;
        }
        Ok(1)
    }
}

} // verus!
