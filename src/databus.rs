use vstd::prelude::*;

verus! {

/// The CPU's view of the 16-bit address space.
///
/// `peek` is the byte a read of a quiet address returns; a quiet address is
/// one whose reads have no side effect. RAM addresses also store what is
/// written to them. `shares_cell(a, b)` holds when a write at `a` may change
/// what is seen at `b` (the same byte, or a mirror of it).
pub trait Databus: Sized {
    /// The bus's well-formedness.
    spec fn inv(&self) -> bool;

    spec fn peek(&self, address: u16) -> u8;

    /// The position of devices that run on their own clock, which CPU
    /// accesses never move.
    spec fn clock(&self) -> int;

    spec fn quiet(address: u16) -> bool;

    spec fn is_ram(address: u16) -> bool;

    spec fn shares_cell(a: u16, b: u16) -> bool;

    /// What a read at `address` returning `r` does to a bus in the state
    /// `self`, leaving it as `after`; this covers the addresses that are
    /// not quiet, such as device registers.
    spec fn read_effect(&self, address: u16, r: u8, after: &Self) -> bool;

    /// What a write of `data` at `address` does to a bus in the state
    /// `self`, leaving it as `after`.
    spec fn write_effect(&self, address: u16, data: u8, after: &Self) -> bool;

    fn read(&mut self, address: u16) -> (r: u8)
        requires
            old(self).inv(),
        ensures
            final(self).inv(),
            final(self).clock() == old(self).clock(),
            Self::quiet(address) ==> r == old(self).peek(address) && *final(self) == *old(self),
            old(self).read_effect(address, r, final(self)),
    ;

    fn read_u16(&mut self, address: u16) -> (r: u16)
        requires
            old(self).inv(),
        ensures
            final(self).inv(),
            final(self).clock() == old(self).clock(),
            Self::quiet(address) && Self::quiet(crate::state::add16(address, 1)) ==> {
                &&& r == old(self).peek(address) as u16 + 256 * old(self).peek(
                    crate::state::add16(address, 1),
                ) as u16
                &&& *final(self) == *old(self)
            },
    ;

    fn write(&mut self, address: u16, data: u8)
        requires
            old(self).inv(),
        ensures
            final(self).inv(),
            final(self).clock() == old(self).clock(),
            Self::is_ram(address) ==> Self::quiet(address) && final(self).peek(address) == data,
            old(self).write_effect(address, data, final(self)),
            forall|b: u16|
                Self::quiet(b) && !Self::shares_cell(address, b) ==> #[trigger] final(self).peek(b)
                    == old(self).peek(b),
    ;
}

} // verus!
