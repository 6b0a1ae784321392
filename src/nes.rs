use vstd::prelude::*;
use crate::bus::NesDatabus;
use crate::cartridge::Cartridge;
use crate::cpu::{prefetched, ran_instruction, ticked, Cpu};
use crate::databus::Databus;
use crate::instruction::{decode_instruction, decoded_operand, opcode_table, Instruction};
use crate::ppu::{completes_frame, dot_after, dots_after, lemma_dot_index_position, Ppu};
use crate::state::State;

verus! {

/// Last address from which disassembly decodes an instruction.
pub const DISASSEMBLY_END: u16 = 0xFFFC;

/// The CPU after its NMI line is set from the PPU's NMI output `signal`
/// (active low): a high line arms the edge latch.
pub open spec fn sampled(c: Cpu, signal: bool) -> Cpu {
    if signal {
        Cpu { nmi: false, ..c }
    } else {
        Cpu { nmi: true, nmi_seen_hi: true, ..c }
    }
}

/// `after`'s RAM, cartridge and controller ports are those of `before`.
pub open spec fn same_memory(before: NesDatabus, after: NesDatabus) -> bool {
    &&& after.ram == before.ram
    &&& after.cartridge == before.cartridge
    &&& after.buttons == before.buttons
    &&& after.shift == before.shift
    &&& after.strobe == before.strobe
}

/// The console: CPU and bus; the bus owns RAM, PPU and cartridge.
pub struct NES {
    pub cpu: Cpu,
    pub databus: NesDatabus,
    pub _actual_framerate: u32,
}

impl NES {
    pub open spec fn wf(&self) -> bool {
        self.cpu.wf() && self.databus.inv()
    }

    pub fn new(cartridge: Cartridge) -> (r: NES)
        requires
            cartridge.wf(),
        ensures
            r.wf(),
            r.databus.cartridge == cartridge,
            r.cpu.state.is_cleared(),
    {
        NES { cpu: Cpu::new(), databus: NesDatabus::new(cartridge), _actual_framerate: 0 }
    }

    /// Passes the PPU's NMI output to the CPU's NMI line (active low).
    fn _sample_nmi(&mut self)
        requires
            old(self).wf(),
        ensures
            final(self).wf(),
            final(self).databus == old(self).databus,
            final(self).cpu == sampled(old(self).cpu, old(self).databus.ppu.nmi_signal()),
    {
        if self.databus.ppu.get_nmi_signal() {
            self.cpu.set_nmi_lo();
        } else {
            self.cpu.set_nmi_hi();
        }
    }

    fn _tick_ppu(&mut self) -> (r: bool)
        requires
            old(self).wf(),
        ensures
            final(self).wf(),
            final(self).cpu == old(self).cpu,
            same_memory(old(self).databus, final(self).databus),
            final(self).databus.ppu.position() == dot_after(old(self).databus.ppu.position()),
            r == completes_frame(final(self).databus.ppu.position()),
    {
        self.databus.ppu.tick(&self.databus.cartridge)
    }

    /// One master tick: one CPU cycle, then three PPU dots, then the NMI
    /// line is sampled. Returns true when a frame completed in those dots.
    pub fn tick(&mut self) -> (r: bool)
        requires
            old(self).wf(),
        ensures
            final(self).wf(),
            final(self).cpu.cycle_count == crate::state::add32(old(self).cpu.cycle_count, 1),
            ({
                let p1 = dot_after(old(self).databus.ppu.position());
                let p2 = dot_after(p1);
                let p3 = dot_after(p2);
                &&& final(self).databus.ppu.position() == p3
                &&& r == (completes_frame(p1) || completes_frame(p2) || completes_frame(p3))
            }),
            final(self).cpu.nmi == !final(self).databus.ppu.nmi_signal(),
            exists|c1: Cpu, b1: NesDatabus|
                #[trigger] ticked(old(self).cpu, old(self).databus, c1, b1) && final(self).cpu
                    == sampled(c1, final(self).databus.ppu.nmi_signal()) && same_memory(
                    b1,
                    final(self).databus,
                ),
    {
        self.cpu.tick(&mut self.databus);
        let ghost c1 = self.cpu;
        let ghost b1 = self.databus;
        proof {
            lemma_dot_index_position(&self.databus.ppu, &old(self).databus.ppu);
        }
        let a = self._tick_ppu();
        let b = self._tick_ppu();
        let c = self._tick_ppu();
        self._sample_nmi();
        assert(ticked(old(self).cpu, old(self).databus, c1, b1));
        a || b || c
    }

    /// Runs one whole CPU instruction and three PPU dots per cycle it cost,
    /// sampling the NMI line after each dot.
    pub fn tick_cpu_instruction(&mut self)
        requires
            old(self).wf(),
        ensures
            final(self).wf(),
            final(self).databus.ppu.position() == dots_after(
                old(self).databus.ppu.position(),
                3 * old(self).cpu.next_instruction_cost as nat,
            ),
            final(self).cpu.nmi == !final(self).databus.ppu.nmi_signal(),
            exists|c1: Cpu, b1: NesDatabus|
                #[trigger] ran_instruction(old(self).cpu, old(self).databus, c1, b1) && final(self).cpu == (Cpu { nmi: final(self).cpu.nmi, nmi_seen_hi: final(self).cpu.nmi_seen_hi, ..c1 })
                    && (c1.nmi_seen_hi ==> final(self).cpu.nmi_seen_hi) && same_memory(
                    b1,
                    final(self).databus,
                ),
    {
        let cost = self.cpu.tick_instruction(&mut self.databus);
        let ghost c1 = self.cpu;
        let ghost b1 = self.databus;
        proof {
            lemma_dot_index_position(&self.databus.ppu, &old(self).databus.ppu);
        }
        let dots = cost as u32 * 3;
        let mut i: u32 = 0;
        while i < dots
            invariant
                self.wf(),
                i <= dots,
                dots == 3 * old(self).cpu.next_instruction_cost,
                ran_instruction(old(self).cpu, old(self).databus, c1, b1),
                self.cpu == (Cpu { nmi: self.cpu.nmi, nmi_seen_hi: self.cpu.nmi_seen_hi, ..c1 }),
                c1.nmi_seen_hi ==> self.cpu.nmi_seen_hi,
                i > 0 ==> self.cpu.nmi == !self.databus.ppu.nmi_signal(),
                same_memory(b1, self.databus),
                self.databus.ppu.position() == dots_after(old(self).databus.ppu.position(), i as nat),
            decreases dots - i,
        {
            self._tick_ppu();
            self._sample_nmi();
            i = i + 1;
        }
    }

    pub fn get_databus(&self) -> (r: &NesDatabus)
        ensures
            *r == self.databus,
    {
        &self.databus
    }

    pub fn get_ppu(&self) -> (r: &Ppu)
        ensures
            *r == self.databus.ppu,
    {
        &self.databus.ppu
    }

    pub fn get_cpu(&self) -> (r: &Cpu)
        ensures
            *r == self.cpu,
    {
        &self.cpu
    }

    pub fn get_cpu_state(&self) -> (r: &State)
        ensures
            *r == self.cpu.state,
    {
        &self.cpu.state
    }

    pub fn get_framebuffer(&self) -> (r: &[u8])
        requires
            self.wf(),
        ensures
            r@ == self.databus.ppu.framebuffer@,
    {
        self.databus.ppu.get_framebuffer()
    }

    /// Resets the CPU and pre-fetches the instruction at the reset vector.
    /// The vector read leaves the bus alone, and so does the pre-fetch when
    /// its reads are quiet: then PPU, RAM and cartridge are as they were.
    pub fn reset(&mut self)
        requires
            old(self).wf(),
        ensures
            final(self).wf(),
            final(self).cpu.state.stack_pointer == crate::cpu::RESET_STACK_POINTER,
            final(self).cpu.state.program_counter == crate::addressing::peek_word(
                &old(self).databus,
                crate::instruction::RES_VECTOR_ADDRESS,
            ),
            final(self).cpu.state.status.status == crate::state::DEFAULT_STATUS_BYTE,
            final(self).databus.ppu.position() == old(self).databus.ppu.position(),
            prefetched(
                Cpu { state: final(self).cpu.state, ..old(self).cpu },
                old(self).databus,
                final(self).cpu,
                final(self).databus,
            ),
    {
        self.cpu.reset(&mut self.databus);
        proof {
            lemma_dot_index_position(&self.databus.ppu, &old(self).databus.ppu);
        }
    }

    pub fn set_irq_lo(&mut self)
        ensures
            final(self).cpu == (Cpu { irq: false, ..old(self).cpu }),
            final(self).databus == old(self).databus,
    {
        self.cpu.set_irq_lo();
    }

    pub fn set_irq_hi(&mut self)
        ensures
            final(self).cpu == (Cpu { irq: true, ..old(self).cpu }),
            final(self).databus == old(self).databus,
    {
        self.cpu.set_irq_hi();
    }

    pub fn set_nmi_hi(&mut self)
        ensures
            final(self).cpu == (Cpu { nmi: true, nmi_seen_hi: true, ..old(self).cpu }),
            final(self).databus == old(self).databus,
    {
        self.cpu.set_nmi_hi();
    }

    pub fn set_nmi_lo(&mut self)
        ensures
            final(self).cpu == (Cpu { nmi: false, ..old(self).cpu }),
            final(self).databus == old(self).databus,
    {
        self.cpu.set_nmi_lo();
    }

    /// Sets the buttons held on controller `port` (0 or 1).
    pub fn controller_input(&mut self, port: usize, buttons: u8)
        requires
            old(self).wf(),
            port < 2,
        ensures
            final(self).wf(),
            final(self).databus.buttons@ == old(self).databus.buttons@.update(port as int, buttons),
            final(self).cpu == old(self).cpu,
    {
        self.databus.set_buttons(port, buttons);
    }

    pub fn get_actual_framerate(&self) -> (r: u32)
        ensures
            r == self._actual_framerate,
    {
        self._actual_framerate
    }

    pub fn set_actual_framerate(&mut self, frames_dropped: u32)
        ensures
            final(self)._actual_framerate == frames_dropped,
            final(self).cpu == old(self).cpu,
            final(self).databus == old(self).databus,
    {
        self._actual_framerate = frames_dropped;
    }

    /// Decodes the cartridge's program from its entry offset, instruction
    /// after instruction, while the address is below `0xFFFC`; returns them
    /// with the entry offset. The bus is left as it was.
    pub fn deassemble_prg(&mut self) -> (r: (Vec<Instruction>, u16))
        requires
            old(self).wf(),
        ensures
            final(self).wf(),
            *final(self) == *old(self),
            r.1 == old(self).databus.cartridge.spec_instruction_offset(),
            ({
                let bus = old(self).databus;
                let n = r.0@.len() as int;
                &&& forall|k: int| 0 <= k < n ==> #[trigger] decoded_at(&bus, r.1, r.0@, k)
                &&& disassembly_address(r.1, r.0@, n) >= DISASSEMBLY_END
            }),
    {
        let start_address = self.databus.cartridge.get_instruction_offset();
        let mut instructions: Vec<Instruction> = Vec::new();
        let mut i: u16 = start_address;
        while i < DISASSEMBLY_END
            invariant
                self.wf(),
                *self == *old(self),
                start_address == old(self).databus.cartridge.spec_instruction_offset(),
                i >= crate::cartridge::CARTRIDGE_OFFSET,
                i as int == disassembly_address(start_address, instructions@, instructions@.len() as int),
                forall|k: int|
                    0 <= k < instructions@.len() ==> #[trigger] decoded_at(
                        &self.databus,
                        start_address,
                        instructions@,
                        k,
                    ),
            decreases 0x10000 - i,
        {
            let instruction = decode_instruction(&mut self.databus, i);
            let ghost before = instructions@;
            instructions.push(instruction);
            proof {
                lemma_disassembly_prefix(start_address, before, instruction);
                let n = before.len() as int;
                assert(instructions@[n] == instruction);
                assert(disassembly_address(start_address, instructions@, n + 1)
                    == disassembly_address(start_address, instructions@, n) + instruction.opcode.size);
                assert forall|k: int| 0 <= k < instructions@.len() implies #[trigger] decoded_at(
                    &self.databus,
                    start_address,
                    instructions@,
                    k,
                ) by {
                    if k < before.len() {
                        assert(decoded_at(&self.databus, start_address, before, k));
                        assert(instructions@[k] == before[k]);
                    }
                }
            }
            i = i + instruction.get_size() as u16;
        }
        (instructions, start_address)
    }
}

/// Instruction `k` of `instrs` is the one decoded from `bus` at its
/// address, which lies below `0xFFFC`.
pub open spec fn decoded_at(bus: &NesDatabus, entry: u16, instrs: Seq<Instruction>, k: int) -> bool {
    let a = disassembly_address(entry, instrs, k);
    &&& a < DISASSEMBLY_END
    &&& instrs[k].wf()
    &&& instrs[k].opcode == opcode_table(bus.peek(a as u16))
    &&& instrs[k].operand == decoded_operand(bus, a as u16, instrs[k].opcode.size)
}

/// Address of instruction `k` of `instrs` decoded one after another from
/// `entry`: `entry` plus the sizes of the instructions before it.
pub open spec fn disassembly_address(entry: u16, instrs: Seq<Instruction>, k: int) -> int
    decreases k,
{
    if k <= 0 {
        entry as int
    } else {
        disassembly_address(entry, instrs, k - 1) + instrs[k - 1].opcode.size
    }
}

/// Appending an instruction keeps the addresses of those before it.
proof fn lemma_disassembly_prefix(entry: u16, s: Seq<Instruction>, x: Instruction)
    ensures
        forall|k: int|
            0 <= k <= s.len() ==> #[trigger] disassembly_address(entry, s.push(x), k)
                == disassembly_address(entry, s, k),
{
    assert forall|k: int| 0 <= k <= s.len() implies #[trigger] disassembly_address(
        entry,
        s.push(x),
        k,
    ) == disassembly_address(entry, s, k) by {
        lemma_disassembly_prefix_at(entry, s, x, k);
    }
}

proof fn lemma_disassembly_prefix_at(entry: u16, s: Seq<Instruction>, x: Instruction, k: int)
    requires
        0 <= k <= s.len(),
    ensures
        disassembly_address(entry, s.push(x), k) == disassembly_address(entry, s, k),
    decreases k,
{
    if k > 0 {
        lemma_disassembly_prefix_at(entry, s, x, k - 1);
        assert(s.push(x)[k - 1] == s[k - 1]);
    }
}

} // verus!
