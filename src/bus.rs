use vstd::prelude::*;
use crate::cartridge::{Cartridge, CARTRIDGE_OFFSET};
use crate::databus::Databus;
use crate::ppu::Ppu;

verus! {

pub const INTERNAL_RAM_END: u16 = 0x1FFF;
pub const NES_PPU_REGISTER_START: u16 = 0x2000;
pub const NES_PPU_REGISTER_END: u16 = 0x3FFF;
pub const NES_APU_IO_REGISTERS_START: u16 = 0x4000;
pub const CONTROLLER_1: u16 = 0x4016;
pub const CONTROLLER_2: u16 = 0x4017;
pub const RAM_SIZE: usize = 0x0800;

/// The NES memory bus: 2 KiB of RAM mirrored through `0x1FFF`, the PPU's
/// eight registers mirrored through `0x3FFF`, the APU/IO stub with the two
/// controller ports, and the cartridge from `0x4020`. A raw cartridge image
/// is read-only: the bus does not pass writes on to it.
pub struct NesDatabus {
    pub ram: Vec<u8>,
    pub ppu: Ppu,
    pub cartridge: Cartridge,
    /// Buttons the host reports for each port, bit 0 = A first.
    pub buttons: [u8; 2],
    /// Bits still to be shifted out of each port.
    pub shift: [u8; 2],
    pub strobe: bool,
}

impl NesDatabus {
    /// A bus over fresh RAM and a power-on PPU for `cartridge`.
    pub fn new(cartridge: Cartridge) -> (r: NesDatabus)
        requires
            cartridge.wf(),
        ensures
            r.inv(),
            r.cartridge == cartridge,
            r.ppu.scanline == crate::ppu::SCANLINE_PRE_RENDER,
            r.ppu.scanline_cycle == 0,
            r.ppu.framecount == 0,
            r.ppu.ppuctrl == 0,
            r.ppu.ppustatus == 0,
            forall|i: int| 0 <= i < RAM_SIZE ==> r.ram@[i] == 0,
    {
        let ppu = Ppu::new(&cartridge);
        NesDatabus {
            ram: vec![0u8; RAM_SIZE],
            ppu,
            cartridge,
            buttons: [0u8; 2],
            shift: [0u8; 2],
            strobe: false,
        }
    }

    /// Sets the buttons held on controller `port` (0 or 1).
    pub fn set_buttons(&mut self, port: usize, buttons: u8)
        requires
            old(self).inv(),
            port < 2,
        ensures
            final(self).inv(),
            final(self).buttons@ == old(self).buttons@.update(port as int, buttons),
            final(self).ram == old(self).ram,
            final(self).ppu == old(self).ppu,
            final(self).cartridge == old(self).cartridge,
    {
        self.buttons[port] = buttons;
    }

    fn _read_apu_io(&mut self, address: u16) -> (r: u8)
        requires
            old(self).inv(),
            NES_APU_IO_REGISTERS_START <= address < CARTRIDGE_OFFSET,
        ensures
            final(self).inv(),
            final(self).ram == old(self).ram,
            final(self).ppu == old(self).ppu,
            final(self).cartridge == old(self).cartridge,
            address != CONTROLLER_1 && address != CONTROLLER_2 ==> r == 0 && *final(self) == *old(self),
            (address == CONTROLLER_1 || address == CONTROLLER_2) ==> r == 0x40 + old(self).shift@[address - CONTROLLER_1] % 2,
    {
        if address == CONTROLLER_1 || address == CONTROLLER_2 {
            let port = (address - CONTROLLER_1) as usize;
            let bits = self.shift[port];
            if !self.strobe {
                self.shift[port] = bits / 2 + 0x80;
            }
            0x40 + bits % 2
        } else {
            0
        }
    }

    /// The APU and IO registers accept writes; a write to `0x4016` sets the
    /// controller strobe from bit 0, and while it is set the ports reload
    /// the held buttons.
    fn _write_apu_io(&mut self, address: u16, data: u8)
        requires
            old(self).inv(),
        ensures
            final(self).inv(),
            final(self).ram == old(self).ram,
            final(self).ppu == old(self).ppu,
            final(self).cartridge == old(self).cartridge,
            final(self).buttons == old(self).buttons,
            address == CONTROLLER_1 ==> final(self).strobe == (data % 2 == 1) && final(self).shift
                == if data % 2 == 1 {
                old(self).buttons
            } else {
                old(self).shift
            },
            address != CONTROLLER_1 ==> *final(self) == *old(self),
    {
        if address == CONTROLLER_1 {
            self.strobe = data % 2 == 1;
            if self.strobe {
                self.shift = self.buttons;
            }
        }
    }
}

impl Databus for NesDatabus {
    open spec fn inv(&self) -> bool {
        &&& self.ram@.len() == RAM_SIZE
        &&& self.ppu.wf()
        &&& self.cartridge.wf()
    }

    /// The PPU's dot: frame, scanline and dot within the scanline.
    open spec fn clock(&self) -> int {
        self.ppu.dot_index()
    }

    open spec fn peek(&self, address: u16) -> u8 {
        if address <= INTERNAL_RAM_END {
            self.ram@[address as int % 0x800]
        } else if address < NES_APU_IO_REGISTERS_START {
            self.ppu.io_latch
        } else if address < CARTRIDGE_OFFSET {
            0
        } else {
            self.cartridge.spec_read_prg(address)
        }
    }

    open spec fn quiet(address: u16) -> bool {
        !(NES_PPU_REGISTER_START <= address <= NES_PPU_REGISTER_END) && address != CONTROLLER_1
            && address != CONTROLLER_2
    }

    /// PPU register reads (every 8 bytes through `0x3FFF`) are the PPU's
    /// register reads of `address % 8`; a controller port returns its next
    /// button bit (bit 6 set); other reads return `peek` and change nothing.
    open spec fn read_effect(&self, address: u16, r: u8, after: &Self) -> bool {
        if NES_PPU_REGISTER_START <= address <= NES_PPU_REGISTER_END {
            &&& self.ppu.register_read(&self.cartridge, address, r, &after.ppu)
            &&& *after == (NesDatabus { ppu: after.ppu, ..*self })
        } else if address == CONTROLLER_1 || address == CONTROLLER_2 {
            &&& r == 0x40 + self.shift@[address - CONTROLLER_1] % 2
            &&& after.ram == self.ram
            &&& after.ppu == self.ppu
            &&& after.cartridge == self.cartridge
        } else {
            r == self.peek(address) && *after == *self
        }
    }

    /// RAM writes store at `address % 0x800`; PPU register writes are the
    /// PPU's register writes of `address % 8`; cartridge writes go to the
    /// cartridge (a raw image takes none); APU/IO writes touch neither RAM,
    /// PPU nor cartridge.
    open spec fn write_effect(&self, address: u16, data: u8, after: &Self) -> bool {
        if address <= INTERNAL_RAM_END {
            &&& after.ram@ == self.ram@.update(address as int % 0x800, data)
            &&& *after == (NesDatabus { ram: after.ram, ..*self })
        } else if address <= NES_PPU_REGISTER_END {
            &&& self.ppu.register_written(&self.cartridge, address, data, &after.ppu, &after.cartridge)
            &&& *after == (NesDatabus { ppu: after.ppu, cartridge: after.cartridge, ..*self })
        } else if address < CARTRIDGE_OFFSET {
            &&& after.ram == self.ram
            &&& after.ppu == self.ppu
            &&& after.cartridge == self.cartridge
        } else {
            &&& after.ram == self.ram
            &&& after.ppu == self.ppu
            &&& self.cartridge.board() is Raw ==> after.cartridge == self.cartridge
        }
    }

    open spec fn is_ram(address: u16) -> bool {
        address <= INTERNAL_RAM_END
    }

    open spec fn shares_cell(a: u16, b: u16) -> bool {
        ||| (a <= INTERNAL_RAM_END && b <= INTERNAL_RAM_END && a % 0x800 == b % 0x800)
        ||| (CARTRIDGE_OFFSET <= a && a == b)
    }

    fn read(&mut self, address: u16) -> (r: u8) {
        if address <= INTERNAL_RAM_END {
            self.ram[address as usize % RAM_SIZE]
        } else if address <= NES_PPU_REGISTER_END {
            self.ppu.read_register(&self.cartridge, address)
        } else if address < CARTRIDGE_OFFSET {
            self._read_apu_io(address)
        } else {
            self.cartridge.read_prg(address)
        }
    }

    fn read_u16(&mut self, address: u16) -> (r: u16) {
        let lo = self.read(address);
        let hi = self.read(address.wrapping_add(1));
        hi as u16 * 256 + lo as u16
    }

    fn write(&mut self, address: u16, data: u8) {
        if address <= INTERNAL_RAM_END {
            self.ram.set(address as usize % RAM_SIZE, data);
        } else if address <= NES_PPU_REGISTER_END {
            self.ppu.write_register(&mut self.cartridge, address, data);
        } else if address < CARTRIDGE_OFFSET {
            self._write_apu_io(address, data);
        } else if !self.cartridge.is_raw() {
            self.cartridge.write_prg(address, data);
        }
    }
}

} // verus!
