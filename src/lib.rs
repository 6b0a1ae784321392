//! The core of a NES emulator: the 6502 CPU with its instruction set and
//! cycle costs, the 2C02 PPU, the memory bus between them, and NROM and raw
//! cartridges, with their behaviour stated in contracts and proved.

/// CPU registers and the processor status byte.
pub mod state;
/// The CPU's view of memory.
pub mod databus;
/// Nametable RAM and its mirroring.
pub mod nametable;
/// Cartridge boards.
pub mod cartridge;
/// iNES images.
pub mod ines;
/// The picture processing unit.
pub mod ppu;
/// The NES memory map.
pub mod bus;
/// The 6502 addressing modes.
pub mod addressing;
/// Opcode table, operations and instruction execution.
pub mod instruction;
/// Cycle budgeting and interrupt polling.
pub mod cpu;
/// The console: CPU, PPU and bus driven together.
pub mod nes;
