use vstd::prelude::*;

verus! {

pub const SR_MASK_NEGATIVE: u8 = 0x80;
pub const SR_MASK_OVERFLOW: u8 = 0x40;
pub const SR_MASK_B_FLAG: u8 = 0x20;
pub const SR_MASK_BREAK: u8 = 0x10;
pub const SR_MASK_DECIMAL: u8 = 0x08;
pub const SR_MASK_INTERRUPT: u8 = 0x04;
pub const SR_MASK_ZERO: u8 = 0x02;
pub const SR_MASK_CARRY: u8 = 0x01;

/// Status byte after reset: only InterruptDisable set.
pub const DEFAULT_STATUS_BYTE: u8 = 0x04;

/// True when any bit of `mask` is set in `p`.
pub open spec fn flag(p: u8, mask: u8) -> bool {
    p & mask != 0
}

/// `p` with the bits of `mask` set (`value`) or cleared (`!value`).
pub open spec fn with_flag(p: u8, mask: u8, value: bool) -> u8 {
    if value {
        p | mask
    } else {
        p & !mask
    }
}

/// `p` with N and Z set from `result`, as loads, logic and shifts do.
pub open spec fn with_nz(p: u8, result: u8) -> u8 {
    with_flag(with_flag(p, SR_MASK_NEGATIVE, result >= 128), SR_MASK_ZERO, result == 0)
}

/// 16-bit wrapping addition.
pub open spec fn add16(a: u16, b: u16) -> u16 {
    ((a as int + b as int) % 0x10000) as u16
}

/// Setting a flag makes it read as set; clearing it makes it read as clear;
/// the bits outside the mask are kept.
pub proof fn lemma_with_flag(p: u8, mask: u8, value: bool)
    requires
        mask != 0,
    ensures
        flag(with_flag(p, mask, value), mask) == value,
        with_flag(p, mask, value) & !mask == p & !mask,
{
    if value {
        assert((p | mask) & mask != 0 && (p | mask) & !mask == p & !mask) by (bit_vector)
            requires
                mask != 0,
        ;
    } else {
        assert((p & !mask) & mask == 0 && (p & !mask) & !mask == p & !mask) by (bit_vector);
    }
}

/// 32-bit wrapping addition.
pub open spec fn add32(a: u32, b: u32) -> u32 {
    ((a as int + b as int) % 0x1_0000_0000) as u32
}

/// 64-bit wrapping addition.
pub open spec fn add64(a: u64, b: u64) -> u64 {
    ((a as int + b as int) % 0x1_0000_0000_0000_0000) as u64
}

/// 8-bit wrapping addition.
pub open spec fn add8(a: u8, b: u8) -> u8 {
    ((a as int + b as int) % 0x100) as u8
}

/// 8-bit wrapping subtraction.
pub open spec fn sub8(a: u8, b: u8) -> u8 {
    ((a as int - b as int + 0x100) % 0x100) as u8
}

/// The processor status register P.
#[derive(Clone, Copy, PartialEq, Eq, Structural)]
pub struct Status {
    pub status: u8,
}

impl Status {
    pub fn from_u8(status: u8) -> (r: Status)
        ensures
            r.status == status,
    {
        Status { status }
    }

    pub fn get_as_u8(&self) -> (r: u8)
        ensures
            r == self.status,
    {
        self.status
    }

    pub fn get(&self, mask: u8) -> (r: bool)
        ensures
            r == flag(self.status, mask),
    {
        self.status & mask != 0
    }

    pub fn set(&mut self, mask: u8, value: bool)
        ensures
            final(self).status == with_flag(old(self).status, mask, value),
    {
        if value {
            self.status = self.status | mask;
        } else {
            self.status = self.status & !mask;
        }
    }
}

/// Registers of the 6502: A, X, Y, S, PC, the in-flight next PC and P.
pub struct State {
    pub acc: u8,
    pub x: u8,
    pub y: u8,
    pub stack_pointer: u8,
    pub program_counter: u16,
    pub next_pc: u16,
    pub status: Status,
}

impl State {
    /// The power-on state: all registers zero, P = InterruptDisable.
    pub open spec fn is_cleared(&self) -> bool {
        &&& self.acc == 0
        &&& self.x == 0
        &&& self.y == 0
        &&& self.stack_pointer == 0
        &&& self.program_counter == 0
        &&& self.next_pc == 0
        &&& self.status.status == DEFAULT_STATUS_BYTE
    }

    pub fn new() -> (r: State)
        ensures
            r.is_cleared(),
    {
        State {
            acc: 0,
            x: 0,
            y: 0,
            stack_pointer: 0,
            program_counter: 0,
            next_pc: 0,
            status: Status { status: DEFAULT_STATUS_BYTE },
        }
    }

    pub fn clear(&mut self)
        ensures
            final(self).is_cleared(),
    {
        self.acc = 0;
        self.x = 0;
        self.y = 0;
        self.program_counter = 0;
        self.next_pc = 0;
        self.stack_pointer = 0;
        self.status = Status { status: DEFAULT_STATUS_BYTE };
    }

    /// The next PC moved by a signed offset, with 16-bit wrap.
    pub fn calculate_relative_pc(&self, offset: i8) -> (r: u16)
        ensures
            r == add16(self.next_pc, offset as u16),
    {
        self.next_pc.wrapping_add(offset as u16)
    }

    pub fn get_next_pc(&self) -> (r: u16)
        ensures
            r == self.next_pc,
    {
        self.next_pc
    }

    pub fn set_next_pc(&mut self, pc: u16)
        ensures
            *final(self) == (State { next_pc: pc, ..*old(self) }),
    {
        self.next_pc = pc;
    }

    /// Commits the next PC.
    pub fn update_pc(&mut self)
        ensures
            *final(self) == (State { program_counter: old(self).next_pc, ..*old(self) }),
    {
        self.program_counter = self.next_pc;
    }

    pub fn get_pc(&self) -> (r: u16)
        ensures
            r == self.program_counter,
    {
        self.program_counter
    }

    pub fn dec_sp(&mut self)
        ensures
            *final(self) == (State { stack_pointer: sub8(old(self).stack_pointer, 1), ..*old(self) }),
    {
        self.stack_pointer = self.stack_pointer.wrapping_sub(1);
    }

    pub fn inc_sp(&mut self)
        ensures
            *final(self) == (State { stack_pointer: add8(old(self).stack_pointer, 1), ..*old(self) }),
    {
        self.stack_pointer = self.stack_pointer.wrapping_add(1);
    }

    pub fn get_status_field(&self, mask: u8) -> (r: bool)
        ensures
            r == flag(self.status.status, mask),
    {
        self.status.get(mask)
    }

    pub fn get_status_ref(&self) -> (r: &Status)
        ensures
            *r == self.status,
    {
        &self.status
    }

    pub fn set_status_field(&mut self, mask: u8, value: bool)
        ensures
            *final(self) == (State {
                status: Status { status: with_flag(old(self).status.status, mask, value) },
                ..*old(self)
            }),
    {
        self.status.set(mask, value);
    }

    pub fn set_status(&mut self, status: Status)
        ensures
            *final(self) == (State { status: status, ..*old(self) }),
    {
        self.status = status;
    }

    /// Sets N and Z from `result`.
    pub fn set_nz(&mut self, result: u8)
        ensures
            *final(self) == (State {
                status: Status { status: with_nz(old(self).status.status, result) },
                ..*old(self)
            }),
    {
        self.set_status_field(SR_MASK_NEGATIVE, result >= 128);
        self.set_status_field(SR_MASK_ZERO, result == 0);
    }
}

} // verus!
