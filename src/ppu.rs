use vstd::prelude::*;
use crate::cartridge::Cartridge;
use crate::nametable::{nt_index, NametableMemory};

verus! {

pub const SCANLINE_VISIBLE_END: u16 = 239;
pub const SCANLINE_POST_RENDER: u16 = 240;
pub const SCANLINE_VBLANK_START: u16 = 241;
pub const SCANLINE_PRE_RENDER: u16 = 261;
pub const SCANLINE_CYCLE_COUNT: u16 = 341;

pub const FRAMEBUFFER_WIDTH: usize = 256;
pub const FRAMEBUFFER_HEIGHT: usize = 240;
pub const FRAMEBUFFER_SIZE: usize = 61440;
pub const PALETTE_RAM_SIZE: usize = 0x20;
pub const OAM_SIZE: usize = 0x100;
pub const VRAM_SIZE: u16 = 0x4000;
pub const PALETTE_START_ADDRESS: u16 = 0x3F00;

pub const PPUCTRL_OFFSET: u16 = 0;
pub const PPUMASK_OFFSET: u16 = 1;
pub const PPUSTATUS_OFFSET: u16 = 2;
pub const OAMADDR_OFFSET: u16 = 3;
pub const OAMDATA_OFFSET: u16 = 4;
pub const PPUSCROLL_OFFSET: u16 = 5;
pub const PPUADDR_OFFSET: u16 = 6;
pub const PPUDATA_OFFSET: u16 = 7;

pub const PPUCTRL_VRAM_INCREMENT_MASK: u8 = 0x04;
pub const PPUCTRL_BG_PATTERN_TABLE_MASK: u8 = 0x10;
pub const PPUCTRL_GENERATE_NMI_MASK: u8 = 0x80;
pub const PPUSTATUS_VBLANK_MASK: u8 = 0x80;

/// Pixels in a decoded pattern table image (128 x 128).
pub const PATTERN_TEXTURE_SIZE: usize = 16384;

/// Pixel (`x`, `y`) of pattern table `table` drawn as a 128 x 128 image:
/// tile `(y / 8) * 16 + x / 8`, bit `7 - x % 8` of its row `y % 8` in the
/// low plane (value bit 0) and the high plane eight bytes on (bit 1).
pub open spec fn pattern_pixel(chr: Seq<u8>, table: int, x: int, y: int) -> u8 {
    let tile = (y / 8) * 16 + x / 8;
    let at = table * 0x1000 + tile * 16 + y % 8;
    let k = (7 - x % 8) as u8;
    let lo = chr[at % 0x2000];
    let hi = chr[(at + 8) % 0x2000];
    (((lo >> k) & 1) + ((hi >> k) & 1) * 2) as u8
}

/// Index into palette RAM of a palette address: `0x3F10`, `0x3F14`,
/// `0x3F18` and `0x3F1C` mirror `0x3F00`, `0x3F04`, `0x3F08` and `0x3F0C`.
pub open spec fn palette_index(address: u16) -> int {
    let i = address as int % 32;
    if i >= 16 && i % 4 == 0 {
        i - 16
    } else {
        i
    }
}

/// True when the PPU stores what is written at `address` (14-bit): the
/// nametables, the palette, and CHR when it is RAM.
pub open spec fn vram_writable(c: &Cartridge, address: u16) -> bool {
    address < 0x2000 ==> c.chr_is_ram()
}

/// PPUDATA's address step: 32 with PPUCTRL bit 2 set, else 1.
pub open spec fn vram_increment(ctrl: u8) -> u16 {
    if ctrl & PPUCTRL_VRAM_INCREMENT_MASK != 0 {
        32
    } else {
        1
    }
}

/// The next (scanline, dot) after one dot; on odd frames the last dot of
/// the pre-render line is skipped.
pub open spec fn next_dot(scanline: u16, cycle: u16, odd_frame: bool) -> (u16, u16) {
    if scanline == SCANLINE_PRE_RENDER && (cycle == 340 || (cycle == 339 && odd_frame)) {
        (0, 0)
    } else if cycle == 340 {
        ((scanline + 1) as u16, 0)
    } else {
        (scanline, (cycle + 1) as u16)
    }
}

/// (scanline, dot, frame) one dot after `p`.
pub open spec fn dot_after(p: (u16, u16, u64)) -> (u16, u16, u64) {
    let (scanline, cycle) = next_dot(p.0, p.1, p.2 % 2 == 1);
    (scanline, cycle, if scanline == 0 && cycle == 0 {
        crate::state::add64(p.2, 1)
    } else {
        p.2
    })
}

/// (scanline, dot, frame) `n` dots after `p`.
pub open spec fn dots_after(p: (u16, u16, u64), n: nat) -> (u16, u16, u64)
    decreases n,
{
    if n == 0 {
        p
    } else {
        dot_after(dots_after(p, (n - 1) as nat))
    }
}

/// True at scanline 240, dot 0: the first dot after the visible lines.
pub open spec fn completes_frame(p: (u16, u16, u64)) -> bool {
    p.0 == SCANLINE_POST_RENDER && p.1 == 0
}

/// Base address of the nametable PPUCTRL selects.
pub open spec fn nametable_base(p: Ppu) -> int {
    0x2000 + (p.ppuctrl % 4) as int * 0x400
}

/// The nametable byte at `address`.
pub open spec fn nt_peek(p: Ppu, address: int) -> u8 {
    p.nametable_memory@[nt_index(p.nametable_memory.spec_mirroring(), address as u16)]
}

/// Fetch of the tile number at the fetch position.
pub open spec fn nt_fetched(p: Ppu) -> Ppu {
    let row = p.v_vertical / 8;
    Ppu { nt_byte: nt_peek(p, nametable_base(p) + row * 32 + p.v_horizontal), ..p }
}

/// Fetch of the two palette bits of the tile's 16 x 16 quadrant.
pub open spec fn at_fetched(p: Ppu) -> Ppu {
    let row = (p.v_vertical / 8) as int;
    let col = p.v_horizontal as int;
    let at = nt_peek(p, nametable_base(p) + 0x3C0 + (row / 4) * 8 + col / 4);
    let quadrant = ((row % 4) / 2) * 2 + (col % 4) / 2;
    let shifted: u8 = if quadrant == 0 {
        at
    } else if quadrant == 1 {
        at / 4
    } else if quadrant == 2 {
        at / 16
    } else {
        at / 64
    };
    Ppu { at_bits: shifted % 4, ..p }
}

/// Fetch of the low (`high` false) or high pattern plane of the tile row.
pub open spec fn pt_fetched(p: Ppu, c: &Cartridge, high: bool) -> Ppu {
    let table: int = if p.ppuctrl & PPUCTRL_BG_PATTERN_TABLE_MASK != 0 {
        0x1000
    } else {
        0
    };
    let plane: int = if high {
        8
    } else {
        0
    };
    let b = c.spec_read_chr((table + p.nt_byte * 16 + p.v_vertical % 8 + plane) as u16);
    if high {
        Ppu { pt_hi: b, ..p }
    } else {
        Ppu { pt_lo: b, ..p }
    }
}

/// The four background shift registers moved left by one.
pub open spec fn shifted(p: Ppu) -> Ppu {
    Ppu {
        bg_pattern_lo_shift: ((p.bg_pattern_lo_shift % 0x8000) * 2) as u16,
        bg_pattern_hi_shift: ((p.bg_pattern_hi_shift % 0x8000) * 2) as u16,
        bg_attr_lo_shift: ((p.bg_attr_lo_shift % 0x8000) * 2) as u16,
        bg_attr_hi_shift: ((p.bg_attr_hi_shift % 0x8000) * 2) as u16,
        ..p
    }
}

/// The latched tile loaded into the low bytes of the shift registers; the
/// attribute registers take `0xFF` or `0x00` from each palette bit.
pub open spec fn reloaded(p: Ppu) -> Ppu {
    let lo_fill: int = if p.at_bits % 2 == 1 {
        0xFF
    } else {
        0
    };
    let hi_fill: int = if p.at_bits / 2 == 1 {
        0xFF
    } else {
        0
    };
    Ppu {
        bg_pattern_lo_shift: ((p.bg_pattern_lo_shift / 256) * 256 + p.pt_lo) as u16,
        bg_pattern_hi_shift: ((p.bg_pattern_hi_shift / 256) * 256 + p.pt_hi) as u16,
        bg_attr_lo_shift: ((p.bg_attr_lo_shift / 256) * 256 + lo_fill) as u16,
        bg_attr_hi_shift: ((p.bg_attr_hi_shift / 256) * 256 + hi_fill) as u16,
        ..p
    }
}

/// Coarse X of the fetch position moved to the next tile.
pub open spec fn h_incremented(p: Ppu) -> Ppu {
    Ppu { v_horizontal: ((p.v_horizontal + 1) % 32) as u8, ..p }
}

/// The fetch row moved down one pixel, wrapping after 240.
pub open spec fn v_incremented(p: Ppu) -> Ppu {
    Ppu {
        v_vertical: if p.v_vertical + 1 >= 240 {
            0
        } else {
            (p.v_vertical + 1) as u8
        },
        ..p
    }
}

/// One dot of background work on a visible or pre-render line: shifts on
/// dots 2-257 and 322-337; reloads on every 8th dot from 9 to 257 and 329
/// to 337; on dots 1-256 and 321-336 the fetch of phase `dot % 8` (1: tile,
/// 3: attribute, 5: pattern low, 7: pattern high, 0: next tile); at dot 256
/// the next row, at 257 the first column; on the pre-render line, dots
/// 280-304, the first row.
pub open spec fn dot_pipeline(p: Ppu, c: &Cartridge) -> Ppu {
    let cycle = p.scanline_cycle;
    let p1 = if (2 <= cycle <= 257) || (322 <= cycle <= 337) {
        shifted(p)
    } else {
        p
    };
    let p2 = if cycle % 8 == 1 && ((9 <= cycle <= 257) || (329 <= cycle <= 337)) {
        reloaded(p1)
    } else {
        p1
    };
    let phase = cycle % 8;
    let p3 = if (1 <= cycle <= 256) || (321 <= cycle <= 336) {
        if phase == 1 {
            nt_fetched(p2)
        } else if phase == 3 {
            at_fetched(p2)
        } else if phase == 5 {
            pt_fetched(p2, c, false)
        } else if phase == 7 {
            pt_fetched(p2, c, true)
        } else if phase == 0 {
            h_incremented(p2)
        } else {
            p2
        }
    } else {
        p2
    };
    let p4 = if cycle == 256 {
        v_incremented(p3)
    } else if cycle == 257 {
        Ppu { v_horizontal: 0, ..p3 }
    } else {
        p3
    };
    if p.scanline == SCANLINE_PRE_RENDER && 280 <= cycle <= 304 {
        Ppu { v_vertical: 0, ..p4 }
    } else {
        p4
    }
}

/// The background work of the current dot: `dot_pipeline` on visible and
/// pre-render lines, nothing elsewhere.
pub open spec fn rendered(p: Ppu, c: &Cartridge) -> Ppu {
    if p.scanline <= SCANLINE_VISIBLE_END || p.scanline == SCANLINE_PRE_RENDER {
        dot_pipeline(p, c)
    } else {
        p
    }
}

/// The 2C02 picture processing unit.
pub struct Ppu {
    pub ppuctrl: u8,
    pub ppumask: u8,
    pub ppustatus: u8,
    pub oamaddr: u8,
    pub oam: Vec<u8>,
    pub ppuscroll: u16,
    pub ppuaddr: u16,
    /// Shared first/second write toggle of PPUSCROLL and PPUADDR.
    pub write_toggle: bool,
    /// The byte of the first write while the toggle is set.
    pub first_write: u8,
    /// The last byte written to any register, seen when reading one that is
    /// write-only.
    pub io_latch: u8,
    pub vram_read_buffer: u8,
    pub nametable_memory: NametableMemory,
    pub palette_ram: Vec<u8>,
    pub scanline: u16,
    pub scanline_cycle: u16,
    pub framecount: u64,
    pub framebuffer: Vec<u8>,
    /// Coarse X of the tile being fetched, `0..32`.
    pub v_horizontal: u8,
    /// Pixel row being fetched, `0..240`.
    pub v_vertical: u8,
    pub nt_byte: u8,
    pub at_bits: u8,
    pub pt_lo: u8,
    pub pt_hi: u8,
    pub bg_pattern_lo_shift: u16,
    pub bg_pattern_hi_shift: u16,
    pub bg_attr_lo_shift: u16,
    pub bg_attr_hi_shift: u16,
}

impl Ppu {
    pub open spec fn wf(&self) -> bool {
        &&& self.oam@.len() == OAM_SIZE
        &&& self.palette_ram@.len() == PALETTE_RAM_SIZE
        &&& self.framebuffer@.len() == FRAMEBUFFER_SIZE
        &&& self.nametable_memory.wf()
        &&& self.ppuaddr < VRAM_SIZE
        &&& self.scanline <= SCANLINE_PRE_RENDER
        &&& self.scanline_cycle < SCANLINE_CYCLE_COUNT
        &&& self.v_horizontal < 32
        &&& self.v_vertical < 240
        &&& self.at_bits < 4
    }

    /// The byte the PPU sees at 14-bit `address`.
    pub open spec fn vram_peek(&self, c: &Cartridge, address: u16) -> u8 {
        if address < 0x2000 {
            c.spec_read_chr(address)
        } else if address < PALETTE_START_ADDRESS {
            self.nametable_memory@[nt_index(self.nametable_memory.spec_mirroring(), address)]
        } else {
            self.palette_ram@[palette_index(address)]
        }
    }

    /// True when `address` and `b` name the same byte of PPU memory.
    pub open spec fn same_vram_cell(&self, a: u16, b: u16) -> bool {
        if a < 0x2000 {
            b < 0x2000 && a % 0x2000 == b % 0x2000
        } else if a < PALETTE_START_ADDRESS {
            0x2000 <= b < PALETTE_START_ADDRESS && nt_index(
                self.nametable_memory.spec_mirroring(),
                a,
            ) == nt_index(self.nametable_memory.spec_mirroring(), b)
        } else {
            PALETTE_START_ADDRESS <= b && palette_index(a) == palette_index(b)
        }
    }

    /// The current (scanline, dot, frame).
    pub open spec fn position(&self) -> (u16, u16, u64) {
        (self.scanline, self.scanline_cycle, self.framecount)
    }

    /// What a PPUDATA read at `a` returns, and what it leaves in the read
    /// buffer: below the palette the old buffer comes out and the byte at
    /// `a` goes in; palette bytes come out at once while the buffer takes
    /// the nametable byte underneath.
    pub open spec fn ppudata_read(&self, c: &Cartridge, a: u16) -> (u8, u8) {
        if a >= PALETTE_START_ADDRESS {
            (self.vram_peek(c, a), self.vram_peek(c, (a - 0x1000) as u16))
        } else {
            (self.vram_read_buffer, self.vram_peek(c, a))
        }
    }

    /// `after` and `c2` are `self` and `c` after the CPU writes `data` to
    /// register `address % 8`.
    pub open spec fn register_written(
        &self,
        c: &Cartridge,
        address: u16,
        data: u8,
        after: &Ppu,
        c2: &Cartridge,
    ) -> bool {
        &&& (after.io_latch == data)
        &&& (address % 8 != PPUDATA_OFFSET ==> *c2 == *c)
        &&& (address % 8 == PPUCTRL_OFFSET ==> *after == (Ppu {
                ppuctrl: data,
                io_latch: data,
                ..*self
            }))
        &&& (address % 8 == PPUMASK_OFFSET ==> *after == (Ppu {
                ppumask: data,
                io_latch: data,
                ..*self
            }))
        &&& (address % 8 == PPUSTATUS_OFFSET ==> *after == (Ppu { io_latch: data, ..*self }))
        &&& (address % 8 == OAMADDR_OFFSET ==> *after == (Ppu {
                oamaddr: data,
                io_latch: data,
                ..*self
            }))
        &&& (address % 8 == OAMDATA_OFFSET ==> after.oam@ == self.oam@.update(
                self.oamaddr as int,
                data,
            ) && *after == (Ppu {
                oam: after.oam,
                oamaddr: crate::state::add8(self.oamaddr, 1),
                io_latch: data,
                ..*self
            }))
        &&& (address % 8 == PPUSCROLL_OFFSET && !self.write_toggle ==> *after == (Ppu {
                first_write: data,
                write_toggle: true,
                io_latch: data,
                ..*self
            }))
        &&& (address % 8 == PPUSCROLL_OFFSET && self.write_toggle ==> *after == (Ppu {
                ppuscroll: (self.first_write as int * 256 + data) as u16,
                write_toggle: false,
                io_latch: data,
                ..*self
            }))
        &&& (address % 8 == PPUADDR_OFFSET && !self.write_toggle ==> *after == (Ppu {
                first_write: data,
                write_toggle: true,
                io_latch: data,
                ..*self
            }))
        &&& (address % 8 == PPUADDR_OFFSET && self.write_toggle ==> *after == (Ppu {
                ppuaddr: ((self.first_write as int * 256 + data) % 0x4000) as u16,
                write_toggle: false,
                io_latch: data,
                ..*self
            }))
        &&& (address % 8 == PPUDATA_OFFSET ==> {
                &&& self.vram_written(c, after, c2, self.ppuaddr, data)
                &&& *after == (Ppu {
                    nametable_memory: after.nametable_memory,
                    palette_ram: after.palette_ram,
                    ppuaddr: ((self.ppuaddr + vram_increment(self.ppuctrl)) % 0x4000) as u16,
                    io_latch: data,
                    ..*self
                })
            })
    }

    /// `after` is `self` after the CPU reads register `address % 8`, and
    /// `r` is what the read returns.
    pub open spec fn register_read(
        &self,
        c: &Cartridge,
        address: u16,
        r: u8,
        after: &Ppu,
    ) -> bool {
        &&& (address % 8 == PPUSTATUS_OFFSET ==> r == self.ppustatus && *after == (Ppu {
                ppustatus: self.ppustatus & 0x7F,
                write_toggle: false,
                ..*self
            }))
        &&& (address % 8 == OAMDATA_OFFSET ==> r == self.oam@[self.oamaddr as int]
                && *after == *self)
        &&& (address % 8 == PPUDATA_OFFSET ==> {
                let a = self.ppuaddr;
                &&& r == self.ppudata_read(c, a).0
                &&& *after == (Ppu {
                    vram_read_buffer: self.ppudata_read(c, a).1,
                    ppuaddr: ((a + vram_increment(self.ppuctrl)) % 0x4000) as u16,
                    ..*self
                })
            })
        &&& (address % 8 != PPUSTATUS_OFFSET && address % 8 != OAMDATA_OFFSET && address % 8
                != PPUDATA_OFFSET ==> r == self.io_latch && *after == *self)
    }

    /// Dots since power-on, counting 341 for every line of every frame.
    pub open spec fn dot_index(&self) -> int {
        (self.framecount as int * 262 + self.scanline as int) * 341 + self.scanline_cycle as int
    }

    /// `after` and `c2` are `self` and `c` with `v` written at `address`.
    pub open spec fn vram_written(
        &self,
        c: &Cartridge,
        after: &Ppu,
        c2: &Cartridge,
        address: u16,
        v: u8,
    ) -> bool {
        &&& after.wf()
        &&& c2.wf()
        &&& c2.same_layout(c)
        &&& forall|b: u16| #[trigger] c2.spec_read_prg(b) == c.spec_read_prg(b)
        &&& after.nametable_memory.spec_mirroring() == self.nametable_memory.spec_mirroring()
        &&& forall|b: u16|
            b < VRAM_SIZE ==> #[trigger] after.vram_peek(c2, b) == if self.same_vram_cell(
                address,
                b,
            ) && vram_writable(c, address) {
                v
            } else {
                self.vram_peek(c, b)
            }
    }

    /// Registers, memories and position that the rendering latches do not
    /// touch are the same in `self` and `other`.
    pub open spec fn same_outside_pipeline(&self, other: &Ppu) -> bool {
        &&& self.ppuctrl == other.ppuctrl
        &&& self.ppumask == other.ppumask
        &&& self.ppustatus == other.ppustatus
        &&& self.oamaddr == other.oamaddr
        &&& self.oam == other.oam
        &&& self.ppuscroll == other.ppuscroll
        &&& self.ppuaddr == other.ppuaddr
        &&& self.write_toggle == other.write_toggle
        &&& self.first_write == other.first_write
        &&& self.io_latch == other.io_latch
        &&& self.vram_read_buffer == other.vram_read_buffer
        &&& self.nametable_memory == other.nametable_memory
        &&& self.palette_ram == other.palette_ram
        &&& self.scanline == other.scanline
        &&& self.scanline_cycle == other.scanline_cycle
        &&& self.framecount == other.framecount
        &&& self.framebuffer == other.framebuffer
    }

    /// Background pixel bits: pattern bits 0-1, attribute bits 2-3, from
    /// the high bits of the shift registers.
    pub open spec fn pixel_bits(&self) -> int {
        self.bg_pattern_lo_shift / 0x8000 + 2 * (self.bg_pattern_hi_shift / 0x8000) + 4 * (
        self.bg_attr_lo_shift / 0x8000) + 8 * (self.bg_attr_hi_shift / 0x8000)
    }

    /// The 6-bit colour the current dot emits.
    pub open spec fn pixel_color(&self) -> u8 {
        (self.palette_ram@[palette_index((PALETTE_START_ADDRESS + self.pixel_bits()) as u16)]
            % 64) as u8
    }

    pub open spec fn nmi_signal(&self) -> bool {
        self.ppuctrl & PPUCTRL_GENERATE_NMI_MASK != 0 && self.ppustatus & PPUSTATUS_VBLANK_MASK
            != 0
    }

    /// The power-on state, at the start of the pre-render line.
    pub fn new(cartridge: &Cartridge) -> (r: Ppu)
        ensures
            r.wf(),
            r.nametable_memory.spec_mirroring() == cartridge.spec_mirroring(),
            r.scanline == SCANLINE_PRE_RENDER,
            r.scanline_cycle == 0,
            r.framecount == 0,
            r.ppuctrl == 0,
            r.ppustatus == 0,
            r.ppuaddr == 0,
            !r.write_toggle,
            r.vram_read_buffer == 0,
            forall|i: int| 0 <= i < FRAMEBUFFER_SIZE ==> r.framebuffer@[i] == 0,
            forall|i: int| 0 <= i < OAM_SIZE ==> r.oam@[i] == 0,
            forall|i: int| 0 <= i < PALETTE_RAM_SIZE ==> r.palette_ram@[i] == 0,
            forall|i: int| 0 <= i < r.nametable_memory@.len() ==> r.nametable_memory@[i] == 0,
    {
        Ppu {
            ppuctrl: 0,
            ppumask: 0,
            ppustatus: 0,
            oamaddr: 0,
            oam: vec![0u8; OAM_SIZE],
            ppuscroll: 0,
            ppuaddr: 0,
            write_toggle: false,
            first_write: 0,
            io_latch: 0,
            vram_read_buffer: 0,
            nametable_memory: NametableMemory::new(cartridge.get_mirroring()),
            palette_ram: vec![0u8; PALETTE_RAM_SIZE],
            scanline: SCANLINE_PRE_RENDER,
            scanline_cycle: 0,
            framecount: 0,
            framebuffer: vec![0u8; FRAMEBUFFER_SIZE],
            v_horizontal: 0,
            v_vertical: 0,
            nt_byte: 0,
            at_bits: 0,
            pt_lo: 0,
            pt_hi: 0,
            bg_pattern_lo_shift: 0,
            bg_pattern_hi_shift: 0,
            bg_attr_lo_shift: 0,
            bg_attr_hi_shift: 0,
        }
    }

    /// Reads PPU memory at 14-bit `address`.
    pub fn read_vram(&self, c: &Cartridge, address: u16) -> (r: u8)
        requires
            self.wf(),
            c.wf(),
            address < VRAM_SIZE,
        ensures
            r == self.vram_peek(c, address),
    {
        if address < 0x2000 {
            c.read_chr(address)
        } else if address < PALETTE_START_ADDRESS {
            self.nametable_memory.read(address)
        } else {
            self.palette_ram[Self::palette_slot(address)]
        }
    }

    /// Writes CPU-visible register `address % 8`.
    pub fn write_register(&mut self, c: &mut Cartridge, address: u16, data: u8)
        requires
            old(self).wf(),
            old(c).wf(),
        ensures
            final(self).wf(),
            final(c).wf(),
            old(self).register_written(old(c), address, data, final(self), final(c)),
    {
        let reg = address % 8;
        if reg == PPUCTRL_OFFSET {
            self.ppuctrl = data;
        } else if reg == PPUMASK_OFFSET {
            self.ppumask = data;
        } else if reg == OAMADDR_OFFSET {
            self.oamaddr = data;
        } else if reg == OAMDATA_OFFSET {
            self._write_oamdata(data);
        } else if reg == PPUSCROLL_OFFSET {
            self._write_ppuscroll(data);
        } else if reg == PPUADDR_OFFSET {
            self._write_ppuaddr(data);
        } else if reg == PPUDATA_OFFSET {
            self._write_ppudata(c, data);
            let ghost mid = *self;
            self.io_latch = data;
            assert forall|b: u16| b < VRAM_SIZE implies #[trigger] self.vram_peek(c, b)
                == mid.vram_peek(c, b) by {};
            return;
        }
        self.io_latch = data;
    }

    /// Writes `data` at the VRAM address, then steps the address.
    fn _write_ppudata(&mut self, c: &mut Cartridge, data: u8)
        requires
            old(self).wf(),
            old(c).wf(),
        ensures
            old(self).vram_written(old(c), final(self), final(c), old(self).ppuaddr, data),
            *final(self) == (Ppu {
                nametable_memory: final(self).nametable_memory,
                palette_ram: final(self).palette_ram,
                ppuaddr: ((old(self).ppuaddr + vram_increment(old(self).ppuctrl)) % 0x4000) as u16,
                ..*old(self)
            }),
    {
        let a = self.ppuaddr;
        self.write_vram(c, a, data);
        let ghost mid = *self;
        self.ppuaddr = Self::next_vram_address(a, self.ppuctrl);
        assert forall|b: u16| b < VRAM_SIZE implies #[trigger] self.vram_peek(c, b) == mid.vram_peek(
            c,
            b,
        ) by {};
    }


    fn next_vram_address(a: u16, ctrl: u8) -> (r: u16)
        requires
            a < VRAM_SIZE,
        ensures
            r == (a + vram_increment(ctrl)) % 0x4000,
            r < VRAM_SIZE,
    {
        let step: u16 = if ctrl & PPUCTRL_VRAM_INCREMENT_MASK != 0 {
            32
        } else {
            1
        };
        (a + step) % VRAM_SIZE
    }

    pub fn _write_oamdata(&mut self, data: u8)
        requires
            old(self).wf(),
        ensures
            final(self).oam@ == old(self).oam@.update(old(self).oamaddr as int, data),
            *final(self) == (Ppu {
                oam: final(self).oam,
                oamaddr: crate::state::add8(old(self).oamaddr, 1),
                ..*old(self)
            }),
    {
        let i = self.oamaddr as usize;
        self.oam.set(i, data);
        self.oamaddr = self.oamaddr.wrapping_add(1);
    }

    pub fn _write_ppuscroll(&mut self, data: u8)
        ensures
            !old(self).write_toggle ==> *final(self) == (Ppu {
                first_write: data,
                write_toggle: true,
                ..*old(self)
            }),
            old(self).write_toggle ==> *final(self) == (Ppu {
                ppuscroll: (old(self).first_write as int * 256 + data) as u16,
                write_toggle: false,
                ..*old(self)
            }),
    {
        if self.write_toggle {
            self.ppuscroll = self.first_write as u16 * 256 + data as u16;
            self.write_toggle = false;
        } else {
            self.first_write = data;
            self.write_toggle = true;
        }
    }

    pub fn _write_ppuaddr(&mut self, data: u8)
        ensures
            !old(self).write_toggle ==> *final(self) == (Ppu {
                first_write: data,
                write_toggle: true,
                ..*old(self)
            }),
            old(self).write_toggle ==> *final(self) == (Ppu {
                ppuaddr: ((old(self).first_write as int * 256 + data) % 0x4000) as u16,
                write_toggle: false,
                ..*old(self)
            }),
    {
        if self.write_toggle {
            self.ppuaddr = (self.first_write as u16 * 256 + data as u16) % VRAM_SIZE;
            self.write_toggle = false;
        } else {
            self.first_write = data;
            self.write_toggle = true;
        }
    }

    /// Reads CPU-visible register `address % 8`. PPUSTATUS clears vblank
    /// and the write toggle; PPUDATA returns the read buffer and refills it,
    /// except for palette addresses, which answer at once.
    pub fn read_register(&mut self, c: &Cartridge, address: u16) -> (r: u8)
        requires
            old(self).wf(),
            c.wf(),
        ensures
            final(self).wf(),
            old(self).register_read(c, address, r, final(self)),
    {
        let reg = address % 8;
        if reg == PPUSTATUS_OFFSET {
            let r = self.ppustatus;
            self.ppustatus = self.ppustatus & 0x7F;
            self.write_toggle = false;
            r
        } else if reg == OAMDATA_OFFSET {
            self.oam[self.oamaddr as usize]
        } else if reg == PPUDATA_OFFSET {
            self._read_ppudata(c)
        } else {
            self.io_latch
        }
    }

    fn _read_ppudata(&mut self, c: &Cartridge) -> (r: u8)
        requires
            old(self).wf(),
            c.wf(),
        ensures
            final(self).wf(),
            ({
                let a = old(self).ppuaddr;
                &&& r == old(self).ppudata_read(c, a).0
                &&& *final(self) == (Ppu {
                    vram_read_buffer: old(self).ppudata_read(c, a).1,
                    ppuaddr: ((a + vram_increment(old(self).ppuctrl)) % 0x4000) as u16,
                    ..*old(self)
                })
            }),
    {
        let a = self.ppuaddr;
        let r = if a >= PALETTE_START_ADDRESS {
            let v = self.read_vram(c, a);
            self.vram_read_buffer = self.read_vram(c, a - 0x1000);
            v
        } else {
            let v = self.vram_read_buffer;
            self.vram_read_buffer = self.read_vram(c, a);
            v
        };
        self.ppuaddr = Self::next_vram_address(a, self.ppuctrl);
        r
    }

    /// One dot of background fetching on a visible or pre-render line:
    /// tile fetches, shift-register shifts and reloads, and the moves of
    /// the fetch position.
    fn _process_scanline(&mut self, c: &Cartridge)
        requires
            old(self).wf(),
            c.wf(),
        ensures
            final(self).wf(),
            *final(self) == dot_pipeline(*old(self), c),
    {
        let cycle = self.scanline_cycle;
        if (2 <= cycle && cycle <= 257) || (322 <= cycle && cycle <= 337) {
            self._shift_registers();
        }
        if cycle % 8 == 1 && ((9 <= cycle && cycle <= 257) || (329 <= cycle && cycle <= 337)) {
            self._reload_shift_registers();
        }
        if (1 <= cycle && cycle <= 256) || (321 <= cycle && cycle <= 336) {
            let phase = cycle % 8;
            if phase == 1 {
                self._fetch_nt_byte();
            } else if phase == 3 {
                self._fetch_at_bits();
            } else if phase == 5 {
                self._fetch_bg_byte(c, false);
            } else if phase == 7 {
                self._fetch_bg_byte(c, true);
            } else if phase == 0 {
                self._inc_v_horizontal();
            }
        }
        if cycle == 256 {
            self._inc_v_vertical();
        } else if cycle == 257 {
            self.v_horizontal = 0;
        }
        if self.scanline == SCANLINE_PRE_RENDER && 280 <= cycle && cycle <= 304 {
            self.v_vertical = 0;
        }
    }

    /// Base address of the nametable PPUCTRL selects.
    fn nametable_base(&self) -> (r: u16)
        ensures
            r == nametable_base(*self),
    {
        0x2000 + (self.ppuctrl % 4) as u16 * 0x400
    }

    fn _fetch_nt_byte(&mut self)
        requires
            old(self).wf(),
        ensures
            final(self).wf(),
            *final(self) == nt_fetched(*old(self)),
    {
        let row = (self.v_vertical / 8) as u16;
        let addr = self.nametable_base() + row * 32 + self.v_horizontal as u16;
        self.nt_byte = self.nametable_memory.read(addr);
    }

    fn _fetch_at_bits(&mut self)
        requires
            old(self).wf(),
        ensures
            final(self).wf(),
            *final(self) == at_fetched(*old(self)),
    {
        let row = (self.v_vertical / 8) as u16;
        let col = self.v_horizontal as u16;
        let addr = self.nametable_base() + 0x3C0 + (row / 4) * 8 + col / 4;
        let at = self.nametable_memory.read(addr);
        let quadrant = ((row % 4) / 2) * 2 + (col % 4) / 2;
        let shifted = if quadrant == 0 {
            at
        } else if quadrant == 1 {
            at / 4
        } else if quadrant == 2 {
            at / 16
        } else {
            at / 64
        };
        self.at_bits = shifted % 4;
    }

    /// Fetches the low (or high) pattern plane of the current tile row.
    fn _fetch_bg_byte(&mut self, c: &Cartridge, high: bool)
        requires
            old(self).wf(),
            c.wf(),
        ensures
            final(self).wf(),
            *final(self) == pt_fetched(*old(self), c, high),
    {
        let table: u16 = if self.ppuctrl & PPUCTRL_BG_PATTERN_TABLE_MASK != 0 {
            0x1000
        } else {
            0
        };
        let plane: u16 = if high {
            8
        } else {
            0
        };
        let addr = table + self.nt_byte as u16 * 16 + (self.v_vertical % 8) as u16 + plane;
        let b = c.read_chr(addr);
        if high {
            self.pt_hi = b;
        } else {
            self.pt_lo = b;
        }
    }

    fn _inc_v_horizontal(&mut self)
        requires
            old(self).wf(),
        ensures
            final(self).wf(),
            *final(self) == h_incremented(*old(self)),
    {
        self.v_horizontal = (self.v_horizontal + 1) % 32;
    }

    fn _inc_v_vertical(&mut self)
        requires
            old(self).wf(),
        ensures
            final(self).wf(),
            *final(self) == v_incremented(*old(self)),
    {
        if self.v_vertical + 1 >= 240 {
            self.v_vertical = 0;
        } else {
            self.v_vertical = self.v_vertical + 1;
        }
    }

    fn _shift_registers(&mut self)
        requires
            old(self).wf(),
        ensures
            final(self).wf(),
            *final(self) == shifted(*old(self)),
    {
        self.bg_pattern_lo_shift = (self.bg_pattern_lo_shift % 0x8000) * 2;
        self.bg_pattern_hi_shift = (self.bg_pattern_hi_shift % 0x8000) * 2;
        self.bg_attr_lo_shift = (self.bg_attr_lo_shift % 0x8000) * 2;
        self.bg_attr_hi_shift = (self.bg_attr_hi_shift % 0x8000) * 2;
    }

    /// Loads the latched tile into the low bytes of the shift registers.
    fn _reload_shift_registers(&mut self)
        requires
            old(self).wf(),
        ensures
            final(self).wf(),
            *final(self) == reloaded(*old(self)),
    {
        self.bg_pattern_lo_shift = (self.bg_pattern_lo_shift / 256) * 256 + self.pt_lo as u16;
        self.bg_pattern_hi_shift = (self.bg_pattern_hi_shift / 256) * 256 + self.pt_hi as u16;
        let lo_fill: u16 = if self.at_bits % 2 == 1 {
            0xFF
        } else {
            0
        };
        let hi_fill: u16 = if self.at_bits / 2 == 1 {
            0xFF
        } else {
            0
        };
        self.bg_attr_lo_shift = (self.bg_attr_lo_shift / 256) * 256 + lo_fill;
        self.bg_attr_hi_shift = (self.bg_attr_hi_shift / 256) * 256 + hi_fill;
    }

    /// The colour of the current dot, from the shift registers' high bits.
    pub fn _next_pixel_value(&self) -> (r: u8)
        requires
            self.wf(),
        ensures
            r == self.pixel_color(),
    {
        let bits = self.bg_pattern_lo_shift / 0x8000 + 2 * (self.bg_pattern_hi_shift / 0x8000)
            + 4 * (self.bg_attr_lo_shift / 0x8000) + 8 * (self.bg_attr_hi_shift / 0x8000);
        let slot = Self::palette_slot(PALETTE_START_ADDRESS + bits);
        self.palette_ram[slot] % 64
    }

    /// Writes the current dot's pixel into the framebuffer when the dot is
    /// a visible one (scanline 0-239, dot 1-256).
    pub fn _output_framebuffer_pixel(&mut self)
        requires
            old(self).wf(),
        ensures
            final(self).wf(),
            *final(self) == (Ppu { framebuffer: final(self).framebuffer, ..*old(self) }),
            final(self).framebuffer@ == if old(self).scanline <= SCANLINE_VISIBLE_END && 1
                <= old(self).scanline_cycle <= 256 {
                old(self).framebuffer@.update(
                    old(self).scanline as int * 256 + old(self).scanline_cycle as int - 1,
                    old(self).pixel_color(),
                )
            } else {
                old(self).framebuffer@
            },
    {
        if self.scanline <= SCANLINE_VISIBLE_END && 1 <= self.scanline_cycle
            && self.scanline_cycle <= 256 {
            let pixel = self.scanline as usize * FRAMEBUFFER_WIDTH + self.scanline_cycle as usize
                - 1;
            let value = self._next_pixel_value();
            self.framebuffer.set(pixel, value);
        }
    }

    /// Moves to the next dot, wrapping lines and frames.
    pub fn _increment_scanline_cycle(&mut self)
        requires
            old(self).wf(),
        ensures
            final(self).wf(),
            (final(self).scanline, final(self).scanline_cycle) == next_dot(
                old(self).scanline,
                old(self).scanline_cycle,
                old(self).framecount % 2 == 1,
            ),
            final(self).framecount == if final(self).scanline == 0 && final(self).scanline_cycle
                == 0 {
                crate::state::add64(old(self).framecount, 1)
            } else {
                old(self).framecount
            },
            *final(self) == (Ppu {
                scanline: final(self).scanline,
                scanline_cycle: final(self).scanline_cycle,
                framecount: final(self).framecount,
                ..*old(self)
            }),
    {
        let odd = self.framecount % 2 == 1;
        if self.scanline == SCANLINE_PRE_RENDER && (self.scanline_cycle == 340 || (
        self.scanline_cycle == 339 && odd)) {
            self.scanline = 0;
            self.scanline_cycle = 0;
            self.framecount = self.framecount.wrapping_add(1);
        } else if self.scanline_cycle == 340 {
            self.scanline = self.scanline + 1;
            self.scanline_cycle = 0;
        } else {
            self.scanline_cycle = self.scanline_cycle + 1;
        }
    }

    /// Advances the PPU by one dot. Returns true when this dot completes a
    /// frame, i.e. the PPU has just reached scanline 240, dot 0.
    pub fn tick(&mut self, c: &Cartridge) -> (r: bool)
        requires
            old(self).wf(),
            c.wf(),
        ensures
            final(self).wf(),
            final(self).position() == dot_after(old(self).position()),
            (final(self).scanline, final(self).scanline_cycle) == next_dot(
                old(self).scanline,
                old(self).scanline_cycle,
                old(self).framecount % 2 == 1,
            ),
            final(self).framecount == if final(self).scanline == 0 && final(self).scanline_cycle
                == 0 {
                crate::state::add64(old(self).framecount, 1)
            } else {
                old(self).framecount
            },
            final(self).ppustatus == if old(self).scanline == SCANLINE_VBLANK_START && old(self).scanline_cycle == 1 {
                old(self).ppustatus | PPUSTATUS_VBLANK_MASK
            } else if old(self).scanline == SCANLINE_PRE_RENDER && old(self).scanline_cycle
                == 1 {
                old(self).ppustatus & 0x1F
            } else {
                old(self).ppustatus
            },
            final(self).framebuffer@ == if old(self).scanline <= SCANLINE_VISIBLE_END && 1
                <= old(self).scanline_cycle <= 256 {
                old(self).framebuffer@.update(
                    old(self).scanline as int * 256 + old(self).scanline_cycle as int - 1,
                    old(self).pixel_color(),
                )
            } else {
                old(self).framebuffer@
            },
            *final(self) == (Ppu {
                framebuffer: final(self).framebuffer,
                ppustatus: final(self).ppustatus,
                scanline: final(self).scanline,
                scanline_cycle: final(self).scanline_cycle,
                framecount: final(self).framecount,
                ..rendered(*old(self), c)
            }),
            final(self).ppuctrl == old(self).ppuctrl,
            final(self).ppumask == old(self).ppumask,
            final(self).ppuaddr == old(self).ppuaddr,
            final(self).write_toggle == old(self).write_toggle,
            final(self).vram_read_buffer == old(self).vram_read_buffer,
            final(self).nametable_memory == old(self).nametable_memory,
            final(self).palette_ram == old(self).palette_ram,
            final(self).oam == old(self).oam,
            r == (final(self).scanline == SCANLINE_POST_RENDER && final(self).scanline_cycle
                == 0),
    {
        self._output_framebuffer_pixel();
        if self.scanline <= SCANLINE_VISIBLE_END || self.scanline == SCANLINE_PRE_RENDER {
            self._process_scanline(c);
        }
        if self.scanline == SCANLINE_VBLANK_START && self.scanline_cycle == 1 {
            self.ppustatus = self.ppustatus | PPUSTATUS_VBLANK_MASK;
        } else if self.scanline == SCANLINE_PRE_RENDER && self.scanline_cycle == 1 {
            self.ppustatus = self.ppustatus & 0x1F;
        }
        self._increment_scanline_cycle();
        self.scanline == SCANLINE_POST_RENDER && self.scanline_cycle == 0
    }

    /// Decodes pattern table `pattern_table_index` (0 at `0x0000`, 1 at
    /// `0x1000`) into a 128 x 128 image of 2-bit pixel values, 16 x 16
    /// tiles of 8 x 8, row by row.
    pub fn patterntable_to_texture_data(&self, c: &Cartridge, pattern_table_index: u8) -> (r: Vec<u8>)
        requires
            c.wf(),
            pattern_table_index < 2,
        ensures
            r@.len() == PATTERN_TEXTURE_SIZE,
            forall|n: int|
                0 <= n < PATTERN_TEXTURE_SIZE ==> #[trigger] r@[n] == pattern_pixel(
                    c.chr_view(),
                    pattern_table_index as int,
                    n % 128,
                    n / 128,
                ),
    {
        let mut target: Vec<u8> = Vec::with_capacity(PATTERN_TEXTURE_SIZE);
        let base = pattern_table_index as usize * 0x1000;
        let mut n: usize = 0;
        while n < PATTERN_TEXTURE_SIZE
            invariant
                c.wf(),
                base == pattern_table_index as int * 0x1000,
                pattern_table_index < 2,
                n <= PATTERN_TEXTURE_SIZE,
                target@.len() == n,
                forall|m: int|
                    0 <= m < n ==> #[trigger] target@[m] == pattern_pixel(
                        c.chr_view(),
                        pattern_table_index as int,
                        m % 128,
                        m / 128,
                    ),
            decreases PATTERN_TEXTURE_SIZE - n,
        {
            let x = n % 128;
            let y = n / 128;
            let tile = (y / 8) * 16 + x / 8;
            let row = y % 8;
            let k = (7 - x % 8) as u8;
            let lo = c.read_chr((base + tile * 16 + row) as u16);
            let hi = c.read_chr((base + tile * 16 + row + 8) as u16);
            let a = (lo >> k) & 1;
            let b = (hi >> k) & 1;
            assert(a <= 1 && b <= 1) by (bit_vector)
                requires
                    a == (lo >> k) & 1,
                    b == (hi >> k) & 1,
            ;
            target.push(a + b * 2);
            n = n + 1;
        }
        target
    }

    pub fn get_ppuctrl(&self) -> (r: u8)
        ensures
            r == self.ppuctrl,
    {
        self.ppuctrl
    }

    pub fn get_ppumask(&self) -> (r: u8)
        ensures
            r == self.ppumask,
    {
        self.ppumask
    }

    pub fn get_ppustatus(&self) -> (r: u8)
        ensures
            r == self.ppustatus,
    {
        self.ppustatus
    }

    pub fn get_oamaddr(&self) -> (r: u8)
        ensures
            r == self.oamaddr,
    {
        self.oamaddr
    }

    pub fn get_ppuscroll(&self) -> (r: u16)
        ensures
            r == self.ppuscroll,
    {
        self.ppuscroll
    }

    /// The NMI line as the CPU sees it: NMI enabled and vblank set.
    pub fn get_nmi_signal(&self) -> (r: bool)
        ensures
            r == self.nmi_signal(),
    {
        self.ppuctrl & PPUCTRL_GENERATE_NMI_MASK != 0 && self.ppustatus & PPUSTATUS_VBLANK_MASK
            != 0
    }

    pub fn get_ppuaddr(&self) -> (r: u16)
        ensures
            r == self.ppuaddr,
    {
        self.ppuaddr
    }

    pub fn get_framebuffer(&self) -> (r: &[u8])
        ensures
            r@ == self.framebuffer@,
    {
        self.framebuffer.as_slice()
    }

    fn palette_slot(address: u16) -> (r: usize)
        ensures
            r == palette_index(address),
            r < PALETTE_RAM_SIZE,
    {
        let i = (address % 32) as usize;
        if i >= 16 && i % 4 == 0 {
            i - 16
        } else {
            i
        }
    }

    /// Writes PPU memory at 14-bit `address`; CHR ROM ignores the write.
    pub fn write_vram(&mut self, c: &mut Cartridge, address: u16, data: u8)
        requires
            old(self).wf(),
            old(c).wf(),
            address < VRAM_SIZE,
        ensures
            old(self).vram_written(old(c), final(self), final(c), address, data),
            *final(self) == (Ppu {
                nametable_memory: final(self).nametable_memory,
                palette_ram: final(self).palette_ram,
                ..*old(self)
            }),
    {
        if address < 0x2000 {
            c.write_chr(address, data);
        } else if address < PALETTE_START_ADDRESS {
            self.nametable_memory.write(address, data);
            let ghost m = self.nametable_memory.spec_mirroring();
            assert forall|b: u16|
                0x2000 <= b < PALETTE_START_ADDRESS && nt_index(m, address) != nt_index(m, b)
                    implies #[trigger] self.vram_peek(c, b) == old(self).vram_peek(c, b) by {};
        } else {
            let i = Self::palette_slot(address);
            self.palette_ram.set(i, data);
        }
    }
}

/// A byte written into PPU memory is read back at the same address, and
/// through PPUDATA: a read below the palette loads it into the read buffer
/// (so the next read returns it), and a palette read returns it at once.
pub proof fn lemma_vram_write_read(
    before: Ppu,
    c: Cartridge,
    after: Ppu,
    c2: Cartridge,
    address: u16,
    v: u8,
)
    requires
        before.wf(),
        c.wf(),
        address < VRAM_SIZE,
        vram_writable(&c, address),
        before.vram_written(&c, &after, &c2, address, v),
    ensures
        after.vram_peek(&c2, address) == v,
        address < PALETTE_START_ADDRESS ==> after.ppudata_read(&c2, address).1 == v,
        address >= PALETTE_START_ADDRESS ==> after.ppudata_read(&c2, address).0 == v,
{
    assert(before.same_vram_cell(address, address));
}

/// Two well-formed PPUs at the same dot index are at the same position.
pub proof fn lemma_dot_index_position(a: &Ppu, b: &Ppu)
    requires
        a.wf(),
        b.wf(),
        a.dot_index() == b.dot_index(),
    ensures
        a.position() == b.position(),
{
    let fa = a.framecount as int;
    let fb = b.framecount as int;
    let la = fa * 262 + a.scanline as int;
    let lb = fb * 262 + b.scanline as int;
    assert(la == lb && a.scanline_cycle == b.scanline_cycle) by (nonlinear_arith)
        requires
            la * 341 + a.scanline_cycle as int == lb * 341 + b.scanline_cycle as int,
            0 <= a.scanline_cycle < 341,
            0 <= b.scanline_cycle < 341,
            la >= 0,
            lb >= 0,
    ;
    assert(fa == fb && a.scanline == b.scanline) by (nonlinear_arith)
        requires
            fa * 262 + a.scanline as int == fb * 262 + b.scanline as int,
            0 <= a.scanline < 262,
            0 <= b.scanline < 262,
            fa >= 0,
            fb >= 0,
    ;
}

} // verus!
