use vstd::prelude::*;
use crate::addressing::{peek_word, AddressingMode};
use crate::databus::Databus;
use crate::instruction::{
    cycle_cost, decode_instruction, executes, irq_instruction, nmi_instruction, opcode_table,
    Instruction, Operation, RES_VECTOR_ADDRESS,
};
use crate::state::{add16, add32, flag, State, DEFAULT_STATUS_BYTE, SR_MASK_INTERRUPT};

verus! {

/// Stack pointer after reset.
pub const RESET_STACK_POINTER: u8 = 0xFD;

/// The 6502 core: registers, the pre-fetched next instruction and its
/// cost, the cycle budget, and the interrupt lines (high = not asserted).
pub struct Cpu {
    pub state: State,
    pub next_instruction: Instruction,
    pub next_instruction_cost: u8,
    pub unspent_cycles: u8,
    pub cycle_count: u32,
    pub instruction_count: u32,
    pub irq: bool,
    pub nmi: bool,
    /// Set while the NMI line has been seen high since the last NMI, so
    /// that an NMI fires once per high-to-low edge.
    pub nmi_seen_hi: bool,
}

/// `c1` and `bus1` follow `c0` and `bus0` by interrupt polling and
/// pre-fetch: a pending NMI edge is taken first, then an IRQ when the line
/// is low and InterruptDisable is clear, else the instruction at PC is
/// decoded and its cost computed. Registers and lines are kept; when the
/// reads are quiet the bus is unchanged.
pub open spec fn prefetched<B: Databus>(c0: Cpu, bus0: B, c1: Cpu, bus1: B) -> bool {
    let pc = c0.state.program_counter;
    &&& c1.next_instruction.wf()
    &&& 1 <= c1.next_instruction_cost <= 9
    &&& c1.state == c0.state
    &&& c1.irq == c0.irq
    &&& c1.nmi == c0.nmi
    &&& c0.picks_nmi() ==> {
        &&& c1.next_instruction == nmi_instruction_spec()
        &&& !c1.nmi_seen_hi
        &&& c1.next_instruction_cost == 7
        &&& bus1 == bus0
    }
    &&& c0.picks_irq() ==> {
        &&& c1.next_instruction == irq_instruction_spec()
        &&& c1.nmi_seen_hi == c0.nmi_seen_hi
        &&& c1.next_instruction_cost == 7
        &&& bus1 == bus0
    }
    &&& !c0.picks_nmi() && !c0.picks_irq() ==> {
        &&& c1.nmi_seen_hi == c0.nmi_seen_hi
        &&& B::quiet(pc) && B::quiet(add16(pc, 1)) && B::quiet(add16(pc, 2)) ==> {
            &&& c1.next_instruction.opcode == opcode_table(bus0.peek(pc))
            &&& c1.next_instruction.operand == crate::instruction::decoded_operand(
                &bus0,
                pc,
                c1.next_instruction.opcode.size,
            )
            &&& c1.next_instruction.opcode.mode.pointer_reads_quiet::<B>(
                c1.next_instruction.operand,
                &c0.state,
            ) ==> c1.next_instruction_cost == cycle_cost(c1.next_instruction, &c0.state, &bus0)
                && bus1 == bus0
        }
    }
}

/// The pending instruction of `c0` ran from `bus0` to an intermediate bus
/// `mid`, giving `c1`'s registers, and the next one was pre-fetched from
/// `mid` into `c1` with bus `bus1`.
pub open spec fn stepped<B: Databus>(c0: Cpu, bus0: B, mid: B, c1: Cpu, bus1: B) -> bool {
    &&& executes(c0.next_instruction, c0.state, bus0, c1.state, mid)
    &&& prefetched(Cpu { state: c1.state, ..c0 }, mid, c1, bus1)
}

/// One CPU cycle from `c0` and `bus0`: the cycle is counted; when the
/// budget covers the pending instruction's cost it is spent, the
/// instruction runs and the next one is pre-fetched; otherwise only the
/// budget grows.
pub open spec fn ticked<B: Databus>(c0: Cpu, bus0: B, c1: Cpu, bus1: B) -> bool {
    &&& c1.cycle_count == add32(c0.cycle_count, 1)
    &&& c0.unspent_cycles + 1 >= c0.next_instruction_cost ==> {
        &&& c1.unspent_cycles == c0.unspent_cycles + 1 - c0.next_instruction_cost
        &&& c1.instruction_count == add32(c0.instruction_count, 1)
        &&& c1.irq == c0.irq && c1.nmi == c0.nmi
        &&& exists|mid: B| #[trigger] stepped(c0, bus0, mid, c1, bus1)
    }
    &&& c0.unspent_cycles + 1 < c0.next_instruction_cost ==> {
        &&& c1 == Cpu {
            unspent_cycles: (c0.unspent_cycles + 1) as u8,
            cycle_count: c1.cycle_count,
            ..c0
        }
        &&& bus1 == bus0
    }
}

/// The pending instruction of `c0` run at once: its cost counted, the
/// instruction run and the next one pre-fetched.
pub open spec fn ran_instruction<B: Databus>(c0: Cpu, bus0: B, c1: Cpu, bus1: B) -> bool {
    &&& c1.cycle_count == add32(c0.cycle_count, c0.next_instruction_cost as u32)
    &&& c1.instruction_count == add32(c0.instruction_count, 1)
    &&& c1.unspent_cycles == c0.unspent_cycles
    &&& exists|mid: B| #[trigger] stepped(c0, bus0, mid, c1, bus1)
}

impl Cpu {
    pub open spec fn wf(&self) -> bool {
        &&& self.next_instruction.wf()
        &&& 1 <= self.next_instruction_cost <= 9
        &&& self.unspent_cycles < 10
    }

    /// The instruction polling picks next: an NMI on a pending edge, else
    /// an IRQ when the line is low and InterruptDisable is clear, else the
    /// opcode at PC.
    pub open spec fn picks_nmi(&self) -> bool {
        !self.nmi && self.nmi_seen_hi
    }

    pub open spec fn picks_irq(&self) -> bool {
        !self.picks_nmi() && !self.irq && !flag(self.state.status.status, SR_MASK_INTERRUPT)
    }

    pub fn new() -> (r: Cpu)
        ensures
            r.wf(),
            r.state.is_cleared(),
            r.irq && r.nmi && r.nmi_seen_hi,
            r.cycle_count == 0,
            r.instruction_count == 0,
            r.unspent_cycles == 0,
    {
        proof {
            reveal(crate::instruction::is_branch_op);
        }
        Cpu {
            state: State::new(),
            next_instruction: Instruction {
                opcode: crate::instruction::Opcode {
                    operation: Operation::UNKNOWN,
                    mode: AddressingMode::Implied,
                    size: 1,
                    cycles: 2,
                    page_boundary_penalty: false,
                },
                operand: 0,
            },
            next_instruction_cost: 2,
            unspent_cycles: 0,
            cycle_count: 0,
            instruction_count: 0,
            irq: true,
            nmi: true,
            nmi_seen_hi: true,
        }
    }

    pub fn set_irq_lo(&mut self)
        ensures
            *final(self) == (Cpu { irq: false, ..*old(self) }),
    {
        self.irq = false;
    }

    pub fn set_irq_hi(&mut self)
        ensures
            *final(self) == (Cpu { irq: true, ..*old(self) }),
    {
        self.irq = true;
    }

    pub fn set_nmi_hi(&mut self)
        ensures
            *final(self) == (Cpu { nmi: true, nmi_seen_hi: true, ..*old(self) }),
    {
        self.nmi = true;
        self.nmi_seen_hi = true;
    }

    pub fn set_nmi_lo(&mut self)
        ensures
            *final(self) == (Cpu { nmi: false, ..*old(self) }),
    {
        self.nmi = false;
    }

    /// Resets the CPU: registers cleared, S = `0xFD`, P = InterruptDisable,
    /// PC from the reset vector, and the first instruction pre-fetched.
    pub fn reset<B: Databus>(&mut self, bus: &mut B)
        requires
            old(bus).inv(),
        ensures
            final(bus).inv(),
            final(bus).clock() == old(bus).clock(),
            final(self).wf(),
            final(self).state.acc == 0 && final(self).state.x == 0 && final(self).state.y == 0,
            final(self).state.stack_pointer == RESET_STACK_POINTER,
            final(self).unspent_cycles == 0,
            B::quiet(RES_VECTOR_ADDRESS) && B::quiet(add16(RES_VECTOR_ADDRESS, 1)) ==> {
                &&& final(self).state.program_counter == peek_word(old(bus), RES_VECTOR_ADDRESS)
                &&& final(self).state.status.status == DEFAULT_STATUS_BYTE
                &&& prefetched(
                    Cpu { state: final(self).state, ..*old(self) },
                    *old(bus),
                    *final(self),
                    *final(bus),
                )
            },
    {
        self.state.clear();
        self.state.stack_pointer = RESET_STACK_POINTER;
        let pc = bus.read_u16(RES_VECTOR_ADDRESS);
        self.state.set_next_pc(pc);
        self.state.update_pc();
        self._load_next_instruction(bus);
        self.unspent_cycles = 0;
    }

    /// One CPU cycle: the budget grows by one, and once it covers the
    /// pending instruction's cost that cost is spent and the instruction
    /// runs.
    pub fn tick<B: Databus>(&mut self, bus: &mut B)
        requires
            old(self).wf(),
            old(bus).inv(),
        ensures
            final(self).wf(),
            final(bus).inv(),
            final(bus).clock() == old(bus).clock(),
            ticked(*old(self), *old(bus), *final(self), *final(bus)),
    {
        self.unspent_cycles = self.unspent_cycles + 1;
        self.cycle_count = self.cycle_count.wrapping_add(1);
        if self.unspent_cycles >= self.next_instruction_cost {
            self.unspent_cycles = self.unspent_cycles - self.next_instruction_cost;
            let ghost pre = *self;
            self._execute_next_instruction(bus);
            proof {
                let mid = choose|mid: B| stepped(pre, *old(bus), mid, *self, *bus);
                assert(stepped(*old(self), *old(bus), mid, *self, *bus));
            }
        }
    }

    /// Runs the pending instruction at once, counting its cycles; returns
    /// how many cycles it cost.
    pub fn tick_instruction<B: Databus>(&mut self, bus: &mut B) -> (r: u8)
        requires
            old(self).wf(),
            old(bus).inv(),
        ensures
            final(self).wf(),
            final(bus).inv(),
            final(bus).clock() == old(bus).clock(),
            r == old(self).next_instruction_cost,
            ran_instruction(*old(self), *old(bus), *final(self), *final(bus)),
    {
        let cost = self.next_instruction_cost;
        self.cycle_count = self.cycle_count.wrapping_add(cost as u32);
        let ghost pre = *self;
        self._execute_next_instruction(bus);
        proof {
            let mid = choose|mid: B| stepped(pre, *old(bus), mid, *self, *bus);
            assert(stepped(*old(self), *old(bus), mid, *self, *bus));
        }
        cost
    }

    pub fn get_state(&self) -> (r: &State)
        ensures
            *r == self.state,
    {
        &self.state
    }

    pub fn get_cycle_count(&self) -> (r: u32)
        ensures
            r == self.cycle_count,
    {
        self.cycle_count
    }

    pub fn get_instruction_count(&self) -> (r: u32)
        ensures
            r == self.instruction_count,
    {
        self.instruction_count
    }

    /// Runs the pending instruction, then polls and pre-fetches the next.
    pub fn _execute_next_instruction<B: Databus>(&mut self, bus: &mut B)
        requires
            old(self).wf(),
            old(bus).inv(),
        ensures
            final(self).wf(),
            final(bus).inv(),
            final(bus).clock() == old(bus).clock(),
            final(self).instruction_count == add32(old(self).instruction_count, 1),
            final(self).cycle_count == old(self).cycle_count,
            final(self).unspent_cycles == old(self).unspent_cycles,
            final(self).irq == old(self).irq,
            final(self).nmi == old(self).nmi,
            exists|mid: B| #[trigger] stepped(*old(self), *old(bus), mid, *final(self), *final(bus)),
    {
        let instruction = self.next_instruction;
        instruction.execute(&mut self.state, bus);
        let ghost mid = *bus;
        self._load_next_instruction(bus);
        self.instruction_count = self.instruction_count.wrapping_add(1);
        assert(stepped(*old(self), *old(bus), mid, *self, *bus));
    }

    /// Polls the interrupt lines and pre-fetches the next instruction with
    /// its cost.
    #[verifier::rlimit(40)]
    pub fn _load_next_instruction<B: Databus>(&mut self, bus: &mut B)
        requires
            old(bus).inv(),
        ensures
            final(bus).inv(),
            final(bus).clock() == old(bus).clock(),
            final(self).next_instruction.wf(),
            1 <= final(self).next_instruction_cost <= 9,
            final(self).state == old(self).state,
            final(self).irq == old(self).irq,
            final(self).nmi == old(self).nmi,
            final(self).unspent_cycles == old(self).unspent_cycles,
            final(self).cycle_count == old(self).cycle_count,
            final(self).instruction_count == old(self).instruction_count,
            prefetched(*old(self), *old(bus), *final(self), *final(bus)),
    {
        if !self.nmi && self.nmi_seen_hi {
            self.nmi_seen_hi = false;
            self.next_instruction = nmi_instruction();
        } else if !self.irq && !self.state.get_status_field(SR_MASK_INTERRUPT) {
            self.next_instruction = irq_instruction();
        } else {
            self.next_instruction = decode_instruction(bus, self.state.get_pc());
        }
        let instruction = self.next_instruction;
        self.next_instruction_cost = instruction.calculate_cycle_cost(&self.state, bus);
    }
}

/// The synthetic NMI instruction record.
pub open spec fn nmi_instruction_spec() -> Instruction {
    Instruction {
        opcode: crate::instruction::Opcode {
            operation: Operation::INTERNAL_NMI,
            mode: AddressingMode::Unknown,
            size: 0,
            cycles: 7,
            page_boundary_penalty: false,
        },
        operand: 0,
    }
}

/// The synthetic IRQ instruction record.
pub open spec fn irq_instruction_spec() -> Instruction {
    Instruction {
        opcode: crate::instruction::Opcode {
            operation: Operation::INTERNAL_IRQ,
            mode: AddressingMode::Unknown,
            size: 0,
            cycles: 7,
            page_boundary_penalty: false,
        },
        operand: 0,
    }
}

} // verus!
