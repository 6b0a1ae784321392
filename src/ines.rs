use vstd::prelude::*;
use crate::cartridge::{
    Cartridge, CartridgeError, create_cartridge_from_ines, create_cartridge_from_raw, mirroring_of,
    CARTRIDGE_MAX_SIZE, CHR_SIZE, PRG_ROM_CHUNK_SIZE, PRG_ROM_START,
};

verus! {

pub const HEADER_SIZE: usize = 0x10;
pub const TRAINER_SIZE: usize = 0x200;
pub const FLAGS_6_MIRRORING_MASK: u8 = 1;
pub const FLAGS_6_TRAINER_MASK: u8 = 4;

/// The four bytes an iNES file starts with: `NES` and MS-DOS end-of-file.
pub open spec fn has_magic(d: Seq<u8>) -> bool {
    d.len() >= 4 && d[0] == 0x4E && d[1] == 0x45 && d[2] == 0x53 && d[3] == 0x1A
}

/// Mapper number: high nibble from flags 7, low nibble from flags 6.
pub open spec fn mapper_of(d: Seq<u8>) -> u8 {
    ((d[7] / 16) * 16 + d[6] / 16) as u8
}

/// Where the PRG banks start: after the header and the optional trainer.
pub open spec fn prg_offset(d: Seq<u8>) -> int {
    if (d[6] / 4) % 2 == 1 {
        HEADER_SIZE + TRAINER_SIZE
    } else {
        HEADER_SIZE as int
    }
}

pub open spec fn prg_len(d: Seq<u8>) -> int {
    d[4] * PRG_ROM_CHUNK_SIZE
}

pub open spec fn chr_len(d: Seq<u8>) -> int {
    d[5] * CHR_SIZE
}

/// The error an iNES image gives, checked in this order, or `None` when it
/// holds a valid NROM cartridge.
pub open spec fn ines_error(d: Seq<u8>) -> Option<CartridgeError> {
    if !has_magic(d) {
        Some(CartridgeError::InvalidMagic)
    } else if d.len() < HEADER_SIZE {
        Some(CartridgeError::Truncated)
    } else if mapper_of(d) != 0 {
        Some(CartridgeError::UnsupportedMapper(mapper_of(d)))
    } else if !(d[4] == 1 || d[4] == 2) || d[5] > 1 {
        Some(CartridgeError::UnsupportedBankCount)
    } else if d.len() < prg_offset(d) + prg_len(d) + chr_len(d) {
        Some(CartridgeError::Truncated)
    } else {
        None
    }
}

/// `c` is the NROM cartridge the iNES image `d` describes: mirroring from
/// flags 6, PRG banks (one shown twice, or two) from after the header and
/// trainer, CHR ROM from after them (or CHR RAM), and zeroed PRG RAM.
pub open spec fn holds_ines_image(c: Cartridge, d: Seq<u8>) -> bool {
    &&& c.wf()
    &&& c.board() is NRom
    &&& c.spec_mirroring() == mirroring_of((d[6] % 2) as u8)
    &&& c.spec_instruction_offset() == PRG_ROM_START
    &&& forall|a: u16|
        PRG_ROM_START <= a ==> #[trigger] c.spec_read_prg(a) == d[prg_offset(d) + (a
            - PRG_ROM_START) % prg_len(d)]
    &&& d[5] == 1 ==> c.chr_view() == d.subrange(
        prg_offset(d) + prg_len(d),
        prg_offset(d) + prg_len(d) + CHR_SIZE,
    )
    &&& c.chr_is_ram() == (d[5] == 0)
    &&& forall|a: u16|
        crate::cartridge::PRG_RAM_START <= a <= crate::cartridge::PRG_RAM_END ==> #[trigger] c.spec_read_prg(a) == 0
}

/// Reads an iNES image: a 16-byte header, an optional 512-byte trainer,
/// then the PRG banks (16 KiB each) and the CHR banks (8 KiB each).
pub fn parse_ines(data: &[u8]) -> (r: Result<Cartridge, CartridgeError>)
    ensures
        r is Err <==> ines_error(data@) is Some,
        r is Err ==> ines_error(data@) == Some(r->Err_0),
        r is Ok ==> holds_ines_image(r->Ok_0, data@),
{
    if data.len() < 4 || data[0] != 0x4E || data[1] != 0x45 || data[2] != 0x53 || data[3] != 0x1A {
        return Err(CartridgeError::InvalidMagic);
    }
    if data.len() < HEADER_SIZE {
        return Err(CartridgeError::Truncated);
    }
    let flags6 = data[6];
    let flags7 = data[7];
    let mapper: u8 = (flags7 / 16) * 16 + flags6 / 16;
    if mapper != 0 {
        return Err(CartridgeError::UnsupportedMapper(mapper));
    }
    let prg_count = data[4];
    let chr_count = data[5];
    if !(prg_count == 1 || prg_count == 2) || chr_count > 1 {
        return Err(CartridgeError::UnsupportedBankCount);
    }
    let offset: usize = if flags6 & FLAGS_6_TRAINER_MASK != 0 {
        HEADER_SIZE + TRAINER_SIZE
    } else {
        HEADER_SIZE
    };
    assert(offset == prg_offset(data@)) by {
        assert(flags6 & 4 != 0 <==> (flags6 / 4) % 2 == 1) by (bit_vector);
    }
    let prg_size = prg_count as usize * PRG_ROM_CHUNK_SIZE;
    let chr_size = chr_count as usize * CHR_SIZE;
    if data.len() < offset + prg_size + chr_size {
        return Err(CartridgeError::Truncated);
    }
    let prg = vstd::slice::slice_subrange(data, offset, offset + prg_size);
    let chr = vstd::slice::slice_subrange(data, offset + prg_size, offset + prg_size + chr_size);
    let mirroring = flags6 & FLAGS_6_MIRRORING_MASK;
    assert(mirroring == flags6 % 2) by (bit_vector)
        requires
            mirroring == flags6 & 1,
    ;
    let r = create_cartridge_from_ines(mapper, prg, chr, mirroring);
    assert(r is Ok);
    r
}

/// The two image formats a cartridge can be loaded from.
#[derive(Clone, Copy, Debug, PartialEq, Eq, Structural)]
pub enum RomFormat {
    /// An iNES file.
    Ines,
    /// A flat image of the cartridge window from `0x4020`.
    Raw,
}

/// Builds a cartridge from an image in `format`; a malformed image gives
/// an error and no cartridge.
pub fn load_cartridge(data: &[u8], format: RomFormat) -> (r: Result<Cartridge, CartridgeError>)
    ensures
        format == RomFormat::Ines ==> (r is Err <==> ines_error(data@) is Some) && (r is Err
            ==> ines_error(data@) == Some(r->Err_0)),
        format == RomFormat::Raw ==> (r is Ok <==> data@.len() <= CARTRIDGE_MAX_SIZE) && (r is Err
            ==> r->Err_0 == CartridgeError::ImageTooLarge),
        format == RomFormat::Ines && r is Ok ==> holds_ines_image(r->Ok_0, data@),
        format == RomFormat::Raw && r is Ok ==> crate::cartridge::holds_raw_image(r->Ok_0, data@),
        r is Ok ==> r->Ok_0.wf(),
{
    match format {
        RomFormat::Ines => parse_ines(data),
        RomFormat::Raw => create_cartridge_from_raw(data),
    }
}

} // verus!
