use vstd::prelude::*;
use crate::nametable::Mirroring;

verus! {

/// First CPU address of the cartridge window.
pub const CARTRIDGE_OFFSET: u16 = 0x4020;
/// Bytes in the cartridge window `0x4020..=0xFFFF`.
pub const CARTRIDGE_MAX_SIZE: usize = 0xBFE0;

pub const PRG_RAM_SIZE: usize = 0x2000;
pub const PRG_ROM_SIZE: usize = 0x8000;
pub const PRG_ROM_CHUNK_SIZE: usize = 0x4000;
pub const CHR_SIZE: usize = 0x2000;

pub const PRG_RAM_START: u16 = 0x6000;
pub const PRG_RAM_END: u16 = 0x7FFF;
pub const PRG_ROM_START: u16 = 0x8000;

/// The NROM board: 8 KiB PRG RAM at `0x6000`, 32 KiB PRG ROM at `0x8000`
/// (one 16 KiB bank shown twice, or two banks), 8 KiB CHR.
pub struct NRom {
    prg_ram: Vec<u8>,
    prg_rom: Vec<u8>,
    chr: Vec<u8>,
    chr_writable: bool,
}

impl NRom {
    pub closed spec fn prg_ram_view(&self) -> Seq<u8> {
        self.prg_ram@
    }

    pub closed spec fn prg_rom_view(&self) -> Seq<u8> {
        self.prg_rom@
    }

    pub closed spec fn chr_view(&self) -> Seq<u8> {
        self.chr@
    }

    pub closed spec fn chr_is_ram(&self) -> bool {
        self.chr_writable
    }

    pub open spec fn wf(&self) -> bool {
        &&& self.prg_ram_view().len() == PRG_RAM_SIZE
        &&& self.prg_rom_view().len() == PRG_ROM_SIZE
        &&& self.chr_view().len() == CHR_SIZE
    }

    /// What a CPU read at `address` returns.
    pub open spec fn spec_read_prg(&self, address: u16) -> u8 {
        if PRG_RAM_START <= address <= PRG_RAM_END {
            self.prg_ram_view()[address - PRG_RAM_START]
        } else if PRG_ROM_START <= address {
            self.prg_rom_view()[address - PRG_ROM_START]
        } else {
            0
        }
    }

    /// Builds the board from one or two PRG banks and one CHR bank; with no
    /// CHR bank the board carries 8 KiB of zeroed, writable CHR RAM.
    pub fn new(prg: &[u8], chr: &[u8]) -> (r: NRom)
        requires
            prg@.len() == PRG_ROM_CHUNK_SIZE || prg@.len() == PRG_ROM_SIZE,
            chr@.len() == CHR_SIZE || chr@.len() == 0,
        ensures
            r.wf(),
            forall|i: int| 0 <= i < PRG_ROM_SIZE ==> r.prg_rom_view()[i] == prg@[i % (prg@.len() as int)],
            forall|i: int| 0 <= i < PRG_RAM_SIZE ==> r.prg_ram_view()[i] == 0,
            chr@.len() == CHR_SIZE ==> r.chr_view() == chr@ && !r.chr_is_ram(),
            chr@.len() == 0 ==> r.chr_is_ram() && forall|i: int|
                0 <= i < CHR_SIZE ==> r.chr_view()[i] == 0,
    {
        let mut prg_rom: Vec<u8> = Vec::with_capacity(PRG_ROM_SIZE);
        let n = prg.len();
        let mut i: usize = 0;
        while i < PRG_ROM_SIZE
            invariant
                n == prg@.len(),
                n == PRG_ROM_CHUNK_SIZE || n == PRG_ROM_SIZE,
                i <= PRG_ROM_SIZE,
                prg_rom@.len() == i,
                forall|j: int| 0 <= j < i ==> prg_rom@[j] == prg@[j % n as int],
            decreases PRG_ROM_SIZE - i,
        {
            prg_rom.push(prg[i % n]);
            i = i + 1;
        }
        let chr_writable = chr.len() == 0;
        let chr_v = if chr_writable {
            vec![0u8; CHR_SIZE]
        } else {
            vstd::slice::slice_to_vec(chr)
        };
        NRom { prg_ram: vec![0u8; PRG_RAM_SIZE], prg_rom, chr: chr_v, chr_writable }
    }

    pub fn read_prg(&self, address: u16) -> (r: u8)
        requires
            self.wf(),
        ensures
            r == self.spec_read_prg(address),
    {
        if PRG_RAM_START <= address && address <= PRG_RAM_END {
            self.prg_ram[(address - PRG_RAM_START) as usize]
        } else if PRG_ROM_START <= address {
            self.prg_rom[(address - PRG_ROM_START) as usize]
        } else {
            0
        }
    }

    /// Stores into PRG RAM; writes to ROM or unmapped space are ignored.
    pub fn write_prg(&mut self, address: u16, data: u8)
        requires
            old(self).wf(),
        ensures
            final(self).wf(),
            final(self).prg_rom_view() == old(self).prg_rom_view(),
            final(self).chr_view() == old(self).chr_view(),
            final(self).chr_is_ram() == old(self).chr_is_ram(),
            PRG_RAM_START <= address <= PRG_RAM_END ==> final(self).prg_ram_view()
                == old(self).prg_ram_view().update(address - PRG_RAM_START, data),
            !(PRG_RAM_START <= address <= PRG_RAM_END) ==> final(self).prg_ram_view() == old(self).prg_ram_view(),
    {
        if PRG_RAM_START <= address && address <= PRG_RAM_END {
            self.prg_ram.set((address - PRG_RAM_START) as usize, data);
        }
    }

    pub fn read_chr(&self, address: u16) -> (r: u8)
        requires
            self.wf(),
        ensures
            r == self.chr_view()[address as int % CHR_SIZE as int],
    {
        self.chr[address as usize % CHR_SIZE]
    }

    /// Stores into CHR when it is RAM; writes to CHR ROM are ignored.
    pub fn write_chr(&mut self, address: u16, data: u8)
        requires
            old(self).wf(),
        ensures
            final(self).wf(),
            final(self).prg_rom_view() == old(self).prg_rom_view(),
            final(self).prg_ram_view() == old(self).prg_ram_view(),
            final(self).chr_is_ram() == old(self).chr_is_ram(),
            final(self).chr_view() == if old(self).chr_is_ram() {
                old(self).chr_view().update(address as int % CHR_SIZE as int, data)
            } else {
                old(self).chr_view()
            },
    {
        if self.chr_writable {
            self.chr.set(address as usize % CHR_SIZE, data);
        }
    }

    pub fn get_instruction_offset(&self) -> (r: u16)
        ensures
            r == PRG_ROM_START,
    {
        PRG_ROM_START
    }
}

/// A flat image filling the whole cartridge window, with no CHR.
pub struct FrogRom {
    rom: Vec<u8>,
}

impl FrogRom {
    pub closed spec fn view(&self) -> Seq<u8> {
        self.rom@
    }

    pub open spec fn wf(&self) -> bool {
        self@.len() == CARTRIDGE_MAX_SIZE
    }

    pub open spec fn spec_read_prg(&self, address: u16) -> u8 {
        if CARTRIDGE_OFFSET <= address {
            self@[address - CARTRIDGE_OFFSET]
        } else {
            0
        }
    }

    /// Loads `filerom` at the start of the window; bytes past its end read
    /// as `0xFF`.
    pub fn new(filerom: &[u8]) -> (r: FrogRom)
        requires
            filerom@.len() <= CARTRIDGE_MAX_SIZE,
        ensures
            r.wf(),
            forall|i: int|
                0 <= i < CARTRIDGE_MAX_SIZE ==> r@[i] == if i < filerom@.len() {
                    filerom@[i]
                } else {
                    0xFFu8
                },
    {
        let mut rom: Vec<u8> = Vec::with_capacity(CARTRIDGE_MAX_SIZE);
        let mut i: usize = 0;
        while i < CARTRIDGE_MAX_SIZE
            invariant
                i <= CARTRIDGE_MAX_SIZE,
                filerom@.len() <= CARTRIDGE_MAX_SIZE,
                rom@.len() == i,
                forall|j: int|
                    0 <= j < i ==> rom@[j] == if j < filerom@.len() {
                        filerom@[j]
                    } else {
                        0xFFu8
                    },
            decreases CARTRIDGE_MAX_SIZE - i,
        {
            if i < filerom.len() {
                rom.push(filerom[i]);
            } else {
                rom.push(0xFF);
            }
            i = i + 1;
        }
        FrogRom { rom }
    }

    pub fn read_prg(&self, address: u16) -> (r: u8)
        requires
            self.wf(),
        ensures
            r == self.spec_read_prg(address),
    {
        if CARTRIDGE_OFFSET <= address {
            self.rom[(address - CARTRIDGE_OFFSET) as usize]
        } else {
            0
        }
    }

    pub fn get_instruction_offset(&self) -> (r: u16)
        ensures
            r == CARTRIDGE_OFFSET,
    {
        CARTRIDGE_OFFSET
    }
}

/// The board behind a cartridge.
pub enum Board {
    NRom(NRom),
    Raw(FrogRom),
}

/// A cartridge: its board, where its code starts, and how it mirrors the
/// nametables.
pub struct Cartridge {
    implementation: Board,
    instruction_offset: u16,
    mirroring: Mirroring,
}

impl Cartridge {
    pub closed spec fn board(&self) -> &Board {
        &self.implementation
    }

    pub closed spec fn spec_instruction_offset(&self) -> u16 {
        self.instruction_offset
    }

    pub closed spec fn spec_mirroring(&self) -> Mirroring {
        self.mirroring
    }

    pub open spec fn wf(&self) -> bool {
        match self.board() {
            Board::NRom(n) => n.wf() && self.spec_instruction_offset() == PRG_ROM_START,
            Board::Raw(f) => f.wf() && self.spec_instruction_offset() == CARTRIDGE_OFFSET,
        }
    }

    /// What a CPU read at `address` in the cartridge window returns.
    pub open spec fn spec_read_prg(&self, address: u16) -> u8 {
        match self.board() {
            Board::NRom(n) => n.spec_read_prg(address),
            Board::Raw(f) => f.spec_read_prg(address),
        }
    }

    /// True when `address` is PRG RAM, which stores what is written.
    pub open spec fn is_prg_ram(&self, address: u16) -> bool {
        self.board() is NRom && PRG_RAM_START <= address <= PRG_RAM_END
    }

    /// The 8 KiB of CHR seen by the PPU (zeros on a board without CHR).
    pub open spec fn chr_view(&self) -> Seq<u8> {
        match self.board() {
            Board::NRom(n) => n.chr_view(),
            Board::Raw(_) => Seq::new(CHR_SIZE as nat, |i: int| 0u8),
        }
    }

    pub open spec fn spec_read_chr(&self, address: u16) -> u8 {
        self.chr_view()[address as int % CHR_SIZE as int]
    }

    pub open spec fn chr_is_ram(&self) -> bool {
        match self.board() {
            Board::NRom(n) => n.chr_is_ram(),
            Board::Raw(_) => false,
        }
    }

    /// What stays fixed while the cartridge runs: board kind, offset,
    /// mirroring and the ROM contents.
    pub open spec fn same_layout(&self, other: &Cartridge) -> bool {
        &&& self.spec_instruction_offset() == other.spec_instruction_offset()
        &&& self.spec_mirroring() == other.spec_mirroring()
        &&& self.chr_is_ram() == other.chr_is_ram()
        &&& (self.board() is NRom <==> other.board() is NRom)
    }

    fn new(implementation: Board, mirroring: Mirroring) -> (r: Cartridge)
        requires
            match implementation {
                Board::NRom(n) => n.wf(),
                Board::Raw(f) => f.wf(),
            },
        ensures
            r.wf(),
            r.board() == implementation,
            r.spec_mirroring() == mirroring,
    {
        let instruction_offset = match &implementation {
            Board::NRom(n) => n.get_instruction_offset(),
            Board::Raw(f) => f.get_instruction_offset(),
        };
        Cartridge { implementation, instruction_offset, mirroring }
    }

    pub fn read_prg(&self, address: u16) -> (r: u8)
        requires
            self.wf(),
        ensures
            r == self.spec_read_prg(address),
    {
        match &self.implementation {
            Board::NRom(n) => n.read_prg(address),
            Board::Raw(f) => f.read_prg(address),
        }
    }

    /// Writes into PRG RAM; other writes leave the cartridge as it was. A
    /// raw image is read-only: writing to it is a fault, so it is excluded.
    pub fn write_prg(&mut self, address: u16, data: u8)
        requires
            old(self).wf(),
            !(old(self).board() is Raw),
        ensures
            final(self).wf(),
            final(self).same_layout(old(self)),
            final(self).chr_view() == old(self).chr_view(),
            old(self).is_prg_ram(address) ==> final(self).spec_read_prg(address) == data,
            forall|b: u16|
                b != address ==> #[trigger] final(self).spec_read_prg(b) == old(self).spec_read_prg(b),
            !old(self).is_prg_ram(address) ==> final(self).spec_read_prg(address) == old(self).spec_read_prg(address),
    {
        match &mut self.implementation {
            Board::NRom(n) => n.write_prg(address, data),
            Board::Raw(_) => {},
        }
    }

    /// True for a raw image, which takes no writes.
    pub fn is_raw(&self) -> (r: bool)
        ensures
            r == (self.board() is Raw),
    {
        match &self.implementation {
            Board::NRom(_) => false,
            Board::Raw(_) => true,
        }
    }

    pub fn read_chr(&self, address: u16) -> (r: u8)
        requires
            self.wf(),
        ensures
            r == self.spec_read_chr(address),
    {
        match &self.implementation {
            Board::NRom(n) => n.read_chr(address),
            Board::Raw(_) => 0,
        }
    }

    /// `len` bytes of CHR from `address`; empty on a board without CHR.
    pub fn read_chr_slice(&self, address: u16, len: usize) -> (r: &[u8])
        requires
            self.wf(),
            address as int + len <= CHR_SIZE,
        ensures
            self.board() is NRom ==> r@ == self.chr_view().subrange(
                address as int,
                address as int + len,
            ),
            self.board() is Raw ==> r@.len() == 0,
    {
        match &self.implementation {
            Board::NRom(n) => vstd::slice::slice_subrange(
                n.chr.as_slice(),
                address as usize,
                address as usize + len,
            ),
            Board::Raw(f) => vstd::slice::slice_subrange(f.rom.as_slice(), 0, 0),
        }
    }

    /// Writes into CHR RAM; writes to CHR ROM are ignored.
    pub fn write_chr(&mut self, address: u16, data: u8)
        requires
            old(self).wf(),
        ensures
            final(self).wf(),
            final(self).same_layout(old(self)),
            forall|b: u16| #[trigger] final(self).spec_read_prg(b) == old(self).spec_read_prg(b),
            final(self).chr_view() == if old(self).chr_is_ram() {
                old(self).chr_view().update(address as int % CHR_SIZE as int, data)
            } else {
                old(self).chr_view()
            },
    {
        match &mut self.implementation {
            Board::NRom(n) => n.write_chr(address, data),
            Board::Raw(_) => {},
        }
    }

    pub fn get_instruction_offset(&self) -> (r: u16)
        ensures
            r == self.spec_instruction_offset(),
    {
        self.instruction_offset
    }

    pub fn get_mirroring(&self) -> (r: Mirroring)
        ensures
            r == self.spec_mirroring(),
    {
        self.mirroring
    }
}

/// Mirroring bit of iNES flags 6: clear is Horizontal, set is Vertical.
pub open spec fn mirroring_of(bit: u8) -> Mirroring {
    if bit == 0 {
        Mirroring::Horizontal
    } else {
        Mirroring::Vertical
    }
}

/// Why a cartridge could not be built.
#[derive(Clone, Copy, Debug, PartialEq, Eq, Structural)]
pub enum CartridgeError {
    /// The file does not start with `NES\x1A`.
    InvalidMagic,
    /// The file ends before the banks its header announces.
    Truncated,
    /// A mapper other than NROM (0).
    UnsupportedMapper(u8),
    /// A bank count NROM cannot hold (PRG must be 1 or 2, CHR 0 or 1).
    UnsupportedBankCount,
    /// A raw image larger than the cartridge window.
    ImageTooLarge,
}

/// Builds a cartridge for `mapper` from its PRG banks (concatenated) and CHR
/// bank; only NROM (mapper 0) is supported.
pub fn create_cartridge_from_ines(mapper: u8, prg_rom: &[u8], chr_rom: &[u8], mirroring: u8) -> (r:
    Result<Cartridge, CartridgeError>)
    requires
        prg_rom@.len() == PRG_ROM_CHUNK_SIZE || prg_rom@.len() == PRG_ROM_SIZE,
        chr_rom@.len() == CHR_SIZE || chr_rom@.len() == 0,
    ensures
        r is Ok <==> mapper == 0,
        r is Err ==> r == Err::<Cartridge, CartridgeError>(CartridgeError::UnsupportedMapper(mapper)),
        r is Ok ==> {
            let c = r->Ok_0;
            &&& c.wf()
            &&& c.board() is NRom
            &&& c.spec_mirroring() == mirroring_of(mirroring)
            &&& c.spec_instruction_offset() == PRG_ROM_START
            &&& forall|a: u16|
                PRG_ROM_START <= a ==> #[trigger] c.spec_read_prg(a) == prg_rom@[(a
                    - PRG_ROM_START) % prg_rom@.len() as int]
            &&& chr_rom@.len() == CHR_SIZE ==> c.chr_view() == chr_rom@
            &&& c.chr_is_ram() == (chr_rom@.len() == 0)
            &&& forall|a: u16|
                PRG_RAM_START <= a <= PRG_RAM_END ==> #[trigger] c.spec_read_prg(a) == 0
        },
{
    if mapper == 0 {
        let m = if mirroring == 0 {
            Mirroring::Horizontal
        } else {
            Mirroring::Vertical
        };
        Ok(Cartridge::new(Board::NRom(NRom::new(prg_rom, chr_rom)), m))
    } else {
        Err(CartridgeError::UnsupportedMapper(mapper))
    }
}

/// `c` is the raw cartridge holding `data`: the window from `0x4020` shows
/// `data` verbatim, padded with `0xFF`, and nametables mirror horizontally.
pub open spec fn holds_raw_image(c: Cartridge, data: Seq<u8>) -> bool {
    &&& c.wf()
    &&& c.board() is Raw
    &&& c.spec_mirroring() == Mirroring::Horizontal
    &&& c.spec_instruction_offset() == CARTRIDGE_OFFSET
    &&& forall|a: u16|
        CARTRIDGE_OFFSET <= a ==> #[trigger] c.spec_read_prg(a) == if a - CARTRIDGE_OFFSET
            < data.len() {
            data[a - CARTRIDGE_OFFSET]
        } else {
            0xFFu8
        }
}

/// Builds a raw cartridge whose window holds `data` verbatim, padded with
/// `0xFF`; it mirrors nametables horizontally.
pub fn create_cartridge_from_raw(data: &[u8]) -> (r: Result<Cartridge, CartridgeError>)
    ensures
        r is Ok <==> data@.len() <= CARTRIDGE_MAX_SIZE,
        r is Err ==> r == Err::<Cartridge, CartridgeError>(CartridgeError::ImageTooLarge),
        r is Ok ==> holds_raw_image(r->Ok_0, data@),
{
    if data.len() > CARTRIDGE_MAX_SIZE {
        Err(CartridgeError::ImageTooLarge)
    } else {
        Ok(Cartridge::new(Board::Raw(FrogRom::new(data)), Mirroring::Horizontal))
    }
}

} // verus!
