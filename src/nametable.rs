use vstd::prelude::*;

verus! {

pub const START_ADDRESS: u16 = 0x2000;
pub const MIRROR_END_ADDRESS: u16 = 0x3EFF;

pub const NAMETABLE_SIZE: usize = 0x400;

/// How the four logical nametables map onto the two physical banks.
#[derive(Clone, Copy, Debug, PartialEq, Eq, Structural)]
pub enum Mirroring {
    Horizontal,
    Vertical,
}

/// Physical index of a nametable address in `0x2000..=0x3EFF`: the
/// `0x3000` range mirrors `0x2000`; Horizontal pairs `0x2000`/`0x2400` and
/// `0x2800`/`0x2C00`, Vertical pairs `0x2000`/`0x2800` and `0x2400`/`0x2C00`.
pub open spec fn nt_index(mirroring: Mirroring, address: u16) -> int {
    let a = (address as int - 0x2000) % 0x1000;
    match mirroring {
        Mirroring::Horizontal => (a / 0x800) * 0x400 + a % 0x400,
        Mirroring::Vertical => a % 0x800,
    }
}

pub open spec fn is_nametable_address(address: u16) -> bool {
    START_ADDRESS <= address <= MIRROR_END_ADDRESS
}

/// 2 KiB of nametable RAM behind a 4 KiB mirrored window.
pub struct NametableMemory {
    memory: Vec<u8>,
    mirroring: Mirroring,
}

impl NametableMemory {
    pub closed spec fn view(&self) -> Seq<u8> {
        self.memory@
    }

    pub closed spec fn spec_mirroring(&self) -> Mirroring {
        self.mirroring
    }

    pub open spec fn wf(&self) -> bool {
        self@.len() == 2 * NAMETABLE_SIZE
    }

    pub fn new(mirroring: Mirroring) -> (r: NametableMemory)
        ensures
            r.wf(),
            r.spec_mirroring() == mirroring,
            forall|i: int| 0 <= i < r@.len() ==> r@[i] == 0,
    {
        NametableMemory { memory: vec![0u8; 2 * NAMETABLE_SIZE], mirroring }
    }

    pub fn get_mirroring(&self) -> (r: Mirroring)
        ensures
            r == self.spec_mirroring(),
    {
        self.mirroring
    }

    pub fn _calc_address(&self, address: u16) -> (r: usize)
        requires
            is_nametable_address(address),
        ensures
            r == nt_index(self.spec_mirroring(), address),
            r < 2 * NAMETABLE_SIZE,
    {
        let a: u16 = (address - START_ADDRESS) % 0x1000;
        match self.mirroring {
            Mirroring::Horizontal => ((a / 0x800) * 0x400 + a % 0x400) as usize,
            Mirroring::Vertical => (a % 0x800) as usize,
        }
    }

    pub fn read(&self, address: u16) -> (r: u8)
        requires
            self.wf(),
            is_nametable_address(address),
        ensures
            r == self@[nt_index(self.spec_mirroring(), address)],
    {
        let i = self._calc_address(address);
        self.memory[i]
    }

    pub fn write(&mut self, address: u16, data: u8)
        requires
            old(self).wf(),
            is_nametable_address(address),
        ensures
            final(self).wf(),
            final(self).spec_mirroring() == old(self).spec_mirroring(),
            final(self)@ == old(self)@.update(nt_index(old(self).spec_mirroring(), address), data),
    {
        let i = self._calc_address(address);
        self.memory.set(i, data);
    }
}

/// In each mirroring mode the paired nametables show the same bytes: every
/// offset within a table maps to the same physical cell in both tables of
/// a pair, and to different cells in tables that are not paired.
pub proof fn lemma_nametable_mirroring(offset: u16)
    requires
        offset < 0x400,
    ensures
        nt_index(Mirroring::Horizontal, (0x2000 + offset) as u16) == nt_index(
            Mirroring::Horizontal,
            (0x2400 + offset) as u16,
        ),
        nt_index(Mirroring::Horizontal, (0x2800 + offset) as u16) == nt_index(
            Mirroring::Horizontal,
            (0x2C00 + offset) as u16,
        ),
        nt_index(Mirroring::Horizontal, (0x2000 + offset) as u16) != nt_index(
            Mirroring::Horizontal,
            (0x2800 + offset) as u16,
        ),
        nt_index(Mirroring::Vertical, (0x2000 + offset) as u16) == nt_index(
            Mirroring::Vertical,
            (0x2800 + offset) as u16,
        ),
        nt_index(Mirroring::Vertical, (0x2400 + offset) as u16) == nt_index(
            Mirroring::Vertical,
            (0x2C00 + offset) as u16,
        ),
        nt_index(Mirroring::Vertical, (0x2000 + offset) as u16) != nt_index(
            Mirroring::Vertical,
            (0x2400 + offset) as u16,
        ),
        forall|m: Mirroring, a: u16|
            START_ADDRESS <= a <= 0x2EFF ==> #[trigger] nt_index(m, a) == nt_index(
                m,
                (a + 0x1000) as u16,
            ),
{
}

} // verus!
