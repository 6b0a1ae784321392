use vstd::prelude::*;
use vstd::string::StringExecFns;
use crate::addressing::{sign_extend, word, AddressingMode};
use crate::databus::Databus;
use crate::state::{
    add16, add8, flag, sub8, with_flag, with_nz, State, Status, SR_MASK_BREAK, SR_MASK_B_FLAG,
    SR_MASK_CARRY, SR_MASK_DECIMAL, SR_MASK_INTERRUPT, SR_MASK_NEGATIVE, SR_MASK_OVERFLOW,
    SR_MASK_ZERO,
};

verus! {

pub const NMI_VECTOR_ADDRESS: u16 = 0xFFFA;
pub const RES_VECTOR_ADDRESS: u16 = 0xFFFC;
pub const IRQ_VECTOR_ADDRESS: u16 = 0xFFFE;
pub const STACK_OFFSET: u16 = 0x0100;

/// What an opcode does. `_IMM` takes its value from the operand, `_MEM`
/// from memory, `_ACC` works on A.
#[allow(non_camel_case_types)]
#[derive(Clone, Copy, Debug, PartialEq, Eq, Structural)]
pub enum Operation {
    ADC_IMM,
    ADC_MEM,
    AND_IMM,
    AND_MEM,
    ASL_ACC,
    ASL_MEM,
    BCC,
    BCS,
    BEQ,
    BIT,
    BMI,
    BNE,
    BPL,
    BRK,
    BVC,
    BVS,
    CLC,
    CLD,
    CLI,
    CLV,
    CMP_IMM,
    CMP_MEM,
    CPX_IMM,
    CPX_MEM,
    CPY_IMM,
    CPY_MEM,
    DEC,
    DEX,
    DEY,
    EOR_IMM,
    EOR_MEM,
    INC,
    INX,
    INY,
    JMP,
    JSR,
    LDA_IMM,
    LDA_MEM,
    LDX_IMM,
    LDX_MEM,
    LDY_IMM,
    LDY_MEM,
    LSR_ACC,
    LSR_MEM,
    NOP,
    ORA_IMM,
    ORA_MEM,
    PHA,
    PHP,
    PLA,
    PLP,
    ROL_ACC,
    ROL_MEM,
    ROR_ACC,
    ROR_MEM,
    RTI,
    RTS,
    SBC_IMM,
    SBC_MEM,
    SEC,
    SED,
    SEI,
    STA,
    STX,
    STY,
    TAX,
    TAY,
    TSX,
    TXA,
    TXS,
    TYA,
    UNKNOWN,
    INTERNAL_IRQ,
    INTERNAL_NMI,
}

/// The state with status byte `p`.
pub open spec fn with_p(s: State, p: u8) -> State {
    State { status: Status { status: p }, ..s }
}

/// N and Z set from `r`.
pub open spec fn nz(s: State, r: u8) -> State {
    with_p(s, with_nz(s.status.status, r))
}

pub open spec fn carry_in(s: State) -> int {
    if flag(s.status.status, SR_MASK_CARRY) {
        1
    } else {
        0
    }
}

/// ADC: A + M + C, with C from the 9th bit and V from the sign rule
/// `~(A ^ M) & (A ^ sum) & 0x80`.
pub open spec fn adc_spec(s: State, m: u8) -> State {
    let sum = s.acc as int + m as int + carry_in(s);
    let res = (sum % 256) as u8;
    let p = with_nz(s.status.status, res);
    let p = with_flag(p, SR_MASK_CARRY, sum > 0xFF);
    let p = with_flag(p, SR_MASK_OVERFLOW, (!(s.acc ^ m) & (s.acc ^ res) & 0x80) != 0);
    State { acc: res, status: Status { status: p }, ..s }
}

/// SBC is ADC of the operand's one's complement.
pub open spec fn sbc_spec(s: State, m: u8) -> State {
    adc_spec(s, (255 - m) as u8)
}

/// CMP/CPX/CPY of register value `reg` against `m`.
pub open spec fn compare_spec(s: State, reg: u8, m: u8) -> State {
    let p = with_flag(s.status.status, SR_MASK_NEGATIVE, sub8(reg, m) >= 128);
    let p = with_flag(p, SR_MASK_ZERO, reg == m);
    let p = with_flag(p, SR_MASK_CARRY, reg >= m);
    with_p(s, p)
}

/// BIT: Z from A & M, N and V from bits 7 and 6 of M.
pub open spec fn bit_spec(s: State, m: u8) -> State {
    let p = with_flag(s.status.status, SR_MASK_NEGATIVE, m & SR_MASK_NEGATIVE != 0);
    let p = with_flag(p, SR_MASK_OVERFLOW, m & SR_MASK_OVERFLOW != 0);
    let p = with_flag(p, SR_MASK_ZERO, m & s.acc == 0);
    with_p(s, p)
}

/// Result of a shift or rotate of `v` with carry-in `c`.
pub open spec fn shift_value(op: Operation, v: u8, c: bool) -> u8 {
    match op {
        Operation::ASL_ACC | Operation::ASL_MEM => ((v as int * 2) % 256) as u8,
        Operation::LSR_ACC | Operation::LSR_MEM => v / 2,
        Operation::ROL_ACC | Operation::ROL_MEM => ((v as int * 2) % 256 + if c {
            1int
        } else {
            0
        }) as u8,
        _ => (v / 2 + if c {
            128u8
        } else {
            0
        }) as u8,
    }
}

/// Carry out of a shift or rotate of `v`.
pub open spec fn shift_carry(op: Operation, v: u8) -> bool {
    match op {
        Operation::ASL_ACC | Operation::ASL_MEM | Operation::ROL_ACC | Operation::ROL_MEM => v
            >= 128,
        _ => v % 2 == 1,
    }
}

/// Flags after a shift or rotate whose result is `r`.
pub open spec fn shift_flags(op: Operation, s: State, v: u8) -> u8 {
    let r = shift_value(op, v, flag(s.status.status, SR_MASK_CARRY));
    with_nz(with_flag(s.status.status, SR_MASK_CARRY, shift_carry(op, v)), r)
}

/// Value a read-modify-write operation stores back.
pub open spec fn rmw_value(op: Operation, s: State, m: u8) -> u8 {
    match op {
        Operation::INC => add8(m, 1),
        Operation::DEC => sub8(m, 1),
        _ => shift_value(op, m, flag(s.status.status, SR_MASK_CARRY)),
    }
}

/// State after a read-modify-write operation on `m`.
pub open spec fn rmw_state(op: Operation, s: State, m: u8) -> State {
    match op {
        Operation::INC | Operation::DEC => nz(s, rmw_value(op, s, m)),
        _ => with_p(s, shift_flags(op, s, m)),
    }
}

/// Operations that take one value (immediate, from memory or none) and
/// change only registers.
#[verifier::opaque]
pub open spec fn is_value_op(op: Operation) -> bool {
    match op {
        Operation::ADC_IMM | Operation::ADC_MEM | Operation::AND_IMM | Operation::AND_MEM
        | Operation::ASL_ACC | Operation::BIT | Operation::CLC | Operation::CLD | Operation::CLI
        | Operation::CLV | Operation::CMP_IMM | Operation::CMP_MEM | Operation::CPX_IMM
        | Operation::CPX_MEM | Operation::CPY_IMM | Operation::CPY_MEM | Operation::DEX
        | Operation::DEY | Operation::EOR_IMM | Operation::EOR_MEM | Operation::INX
        | Operation::INY | Operation::LDA_IMM | Operation::LDA_MEM | Operation::LDX_IMM
        | Operation::LDX_MEM | Operation::LDY_IMM | Operation::LDY_MEM | Operation::LSR_ACC
        | Operation::NOP | Operation::ORA_IMM | Operation::ORA_MEM | Operation::ROL_ACC
        | Operation::ROR_ACC | Operation::SBC_IMM | Operation::SBC_MEM | Operation::SEC
        | Operation::SED | Operation::SEI | Operation::TAX | Operation::TAY | Operation::TSX
        | Operation::TXA | Operation::TXS | Operation::TYA | Operation::UNKNOWN => true,
        _ => false,
    }
}

/// Value operations whose value is read from memory.
#[verifier::opaque]
pub open spec fn reads_memory(op: Operation) -> bool {
    match op {
        Operation::ADC_MEM | Operation::AND_MEM | Operation::BIT | Operation::CMP_MEM
        | Operation::CPX_MEM | Operation::CPY_MEM | Operation::EOR_MEM | Operation::LDA_MEM
        | Operation::LDX_MEM | Operation::LDY_MEM | Operation::ORA_MEM | Operation::SBC_MEM =>
            true,
        _ => false,
    }
}

#[verifier::opaque]
pub open spec fn is_rmw(op: Operation) -> bool {
    match op {
        Operation::ASL_MEM | Operation::LSR_MEM | Operation::ROL_MEM | Operation::ROR_MEM
        | Operation::INC | Operation::DEC => true,
        _ => false,
    }
}

#[verifier::opaque]
pub open spec fn is_store(op: Operation) -> bool {
    match op {
        Operation::STA | Operation::STX | Operation::STY => true,
        _ => false,
    }
}

pub open spec fn store_value(op: Operation, s: State) -> u8 {
    match op {
        Operation::STA => s.acc,
        Operation::STX => s.x,
        _ => s.y,
    }
}

/// State after value operation `op` with value `m`.
#[verifier::opaque]
pub open spec fn apply_value(op: Operation, s: State, m: u8) -> State {
    match op {
        Operation::ADC_IMM | Operation::ADC_MEM => adc_spec(s, m),
        Operation::SBC_IMM | Operation::SBC_MEM => sbc_spec(s, m),
        Operation::AND_IMM | Operation::AND_MEM => nz(State { acc: s.acc & m, ..s }, s.acc & m),
        Operation::EOR_IMM | Operation::EOR_MEM => nz(State { acc: s.acc ^ m, ..s }, s.acc ^ m),
        Operation::ORA_IMM | Operation::ORA_MEM => nz(State { acc: s.acc | m, ..s }, s.acc | m),
        Operation::LDA_IMM | Operation::LDA_MEM => nz(State { acc: m, ..s }, m),
        Operation::LDX_IMM | Operation::LDX_MEM => nz(State { x: m, ..s }, m),
        Operation::LDY_IMM | Operation::LDY_MEM => nz(State { y: m, ..s }, m),
        Operation::CMP_IMM | Operation::CMP_MEM => compare_spec(s, s.acc, m),
        Operation::CPX_IMM | Operation::CPX_MEM => compare_spec(s, s.x, m),
        Operation::CPY_IMM | Operation::CPY_MEM => compare_spec(s, s.y, m),
        Operation::BIT => bit_spec(s, m),
        Operation::ASL_ACC | Operation::LSR_ACC | Operation::ROL_ACC | Operation::ROR_ACC => {
            let r = shift_value(op, s.acc, flag(s.status.status, SR_MASK_CARRY));
            State { acc: r, status: Status { status: shift_flags(op, s, s.acc) }, ..s }
        },
        Operation::CLC => with_p(s, with_flag(s.status.status, SR_MASK_CARRY, false)),
        Operation::CLD => with_p(s, with_flag(s.status.status, SR_MASK_DECIMAL, false)),
        Operation::CLI => with_p(s, with_flag(s.status.status, SR_MASK_INTERRUPT, false)),
        Operation::CLV => with_p(s, with_flag(s.status.status, SR_MASK_OVERFLOW, false)),
        Operation::SEC => with_p(s, with_flag(s.status.status, SR_MASK_CARRY, true)),
        Operation::SED => with_p(s, with_flag(s.status.status, SR_MASK_DECIMAL, true)),
        Operation::SEI => with_p(s, with_flag(s.status.status, SR_MASK_INTERRUPT, true)),
        Operation::DEX => nz(State { x: sub8(s.x, 1), ..s }, sub8(s.x, 1)),
        Operation::DEY => nz(State { y: sub8(s.y, 1), ..s }, sub8(s.y, 1)),
        Operation::INX => nz(State { x: add8(s.x, 1), ..s }, add8(s.x, 1)),
        Operation::INY => nz(State { y: add8(s.y, 1), ..s }, add8(s.y, 1)),
        Operation::TAX => nz(State { x: s.acc, ..s }, s.acc),
        Operation::TAY => nz(State { y: s.acc, ..s }, s.acc),
        Operation::TSX => nz(State { x: s.stack_pointer, ..s }, s.stack_pointer),
        Operation::TXA => nz(State { acc: s.x, ..s }, s.x),
        Operation::TXS => State { stack_pointer: s.x, ..s },
        Operation::TYA => nz(State { acc: s.y, ..s }, s.y),
        _ => s,
    }
}

#[verifier::opaque]
pub open spec fn is_branch_op(op: Operation) -> bool {
    match op {
        Operation::BCC | Operation::BCS | Operation::BEQ | Operation::BMI | Operation::BNE
        | Operation::BPL | Operation::BVC | Operation::BVS => true,
        _ => false,
    }
}

/// Whether branch `op` is taken under status `p`.
#[verifier::opaque]
pub open spec fn branch_taken(op: Operation, p: u8) -> bool {
    match op {
        Operation::BCC => !flag(p, SR_MASK_CARRY),
        Operation::BCS => flag(p, SR_MASK_CARRY),
        Operation::BEQ => flag(p, SR_MASK_ZERO),
        Operation::BMI => flag(p, SR_MASK_NEGATIVE),
        Operation::BNE => !flag(p, SR_MASK_ZERO),
        Operation::BPL => !flag(p, SR_MASK_NEGATIVE),
        Operation::BVC => !flag(p, SR_MASK_OVERFLOW),
        Operation::BVS => flag(p, SR_MASK_OVERFLOW),
        _ => false,
    }
}

/// Absolute address of stack slot `sp`.
pub open spec fn stack_address(sp: u8) -> u16 {
    (STACK_OFFSET + sp) as u16
}

/// Status as pulled by PLP and RTI: Break and Unused keep their current
/// values, the other bits come from the stack.
pub open spec fn pulled_status(current: u8, pulled: u8) -> u8 {
    (pulled & 0xCF) | (current & 0x30)
}

/// Status as pushed by BRK (`brk`), IRQ and NMI: Unused set, Break set
/// only for BRK.
pub open spec fn pushed_status(p: u8, brk: bool) -> u8 {
    with_flag(with_flag(p, SR_MASK_BREAK, brk), SR_MASK_B_FLAG, true)
}

/// The vector an interrupting operation jumps through.
pub open spec fn vector_of(op: Operation) -> u16 {
    match op {
        Operation::INTERNAL_NMI => NMI_VECTOR_ADDRESS,
        _ => IRQ_VECTOR_ADDRESS,
    }
}

/// One entry of the opcode table.
#[derive(Clone, Copy, Debug, PartialEq, Eq, Structural)]
pub struct Opcode {
    pub operation: Operation,
    pub mode: AddressingMode,
    pub size: u8,
    pub cycles: u8,
    pub page_boundary_penalty: bool,
}

/// An opcode record.
pub open spec fn opcode(
    operation: Operation,
    mode: AddressingMode,
    size: u8,
    cycles: u8,
    page_boundary_penalty: bool,
) -> Opcode {
    Opcode { operation, mode, size, cycles, page_boundary_penalty }
}

/// The record of an opcode byte that is not a legal 6502 opcode: a
/// one-byte no-op costing two cycles.
pub open spec fn unknown_opcode() -> Opcode {
    Opcode {
        operation: Operation::UNKNOWN,
        mode: AddressingMode::Implied,
        size: 1,
        cycles: 2,
        page_boundary_penalty: false,
    }
}

/// The opcode table: operation, addressing mode, size, base cycles and
/// whether a page crossing costs a cycle, for each legal opcode byte.
pub open spec fn opcode_table(b: u8) -> Opcode {
    match b {
        0x00 => opcode(Operation::BRK, AddressingMode::Implied, 1, 7, false),
        0x01 => opcode(Operation::ORA_MEM, AddressingMode::IndexedIndirectX, 2, 6, false),
        0x05 => opcode(Operation::ORA_MEM, AddressingMode::Zeropage, 2, 3, false),
        0x06 => opcode(Operation::ASL_MEM, AddressingMode::Zeropage, 2, 5, false),
        0x08 => opcode(Operation::PHP, AddressingMode::Implied, 1, 3, false),
        0x09 => opcode(Operation::ORA_IMM, AddressingMode::Immediate, 2, 2, false),
        0x0A => opcode(Operation::ASL_ACC, AddressingMode::Accumulator, 1, 2, false),
        0x0D => opcode(Operation::ORA_MEM, AddressingMode::Absolute, 3, 4, false),
        0x0E => opcode(Operation::ASL_MEM, AddressingMode::Absolute, 3, 6, false),
        0x10 => opcode(Operation::BPL, AddressingMode::Relative, 2, 2, true),
        0x11 => opcode(Operation::ORA_MEM, AddressingMode::IndirectIndexedY, 2, 5, true),
        0x15 => opcode(Operation::ORA_MEM, AddressingMode::ZeropageIndexedX, 2, 4, false),
        0x16 => opcode(Operation::ASL_MEM, AddressingMode::ZeropageIndexedX, 2, 6, false),
        0x18 => opcode(Operation::CLC, AddressingMode::Implied, 1, 2, false),
        0x19 => opcode(Operation::ORA_MEM, AddressingMode::AbsoluteIndexedY, 3, 4, true),
        0x1D => opcode(Operation::ORA_MEM, AddressingMode::AbsoluteIndexedX, 3, 4, true),
        0x1E => opcode(Operation::ASL_MEM, AddressingMode::AbsoluteIndexedX, 3, 7, false),
        0x20 => opcode(Operation::JSR, AddressingMode::Absolute, 3, 6, false),
        0x21 => opcode(Operation::AND_MEM, AddressingMode::IndexedIndirectX, 2, 6, false),
        0x24 => opcode(Operation::BIT, AddressingMode::Zeropage, 2, 3, false),
        0x25 => opcode(Operation::AND_MEM, AddressingMode::Zeropage, 2, 3, false),
        0x26 => opcode(Operation::ROL_MEM, AddressingMode::Zeropage, 2, 5, false),
        0x28 => opcode(Operation::PLP, AddressingMode::Implied, 1, 4, false),
        0x29 => opcode(Operation::AND_IMM, AddressingMode::Immediate, 2, 2, false),
        0x2A => opcode(Operation::ROL_ACC, AddressingMode::Accumulator, 1, 2, false),
        0x2C => opcode(Operation::BIT, AddressingMode::Absolute, 3, 4, false),
        0x2D => opcode(Operation::AND_MEM, AddressingMode::Absolute, 3, 4, false),
        0x2E => opcode(Operation::ROL_MEM, AddressingMode::Absolute, 3, 6, false),
        0x30 => opcode(Operation::BMI, AddressingMode::Relative, 2, 2, true),
        0x31 => opcode(Operation::AND_MEM, AddressingMode::IndirectIndexedY, 2, 5, true),
        0x35 => opcode(Operation::AND_MEM, AddressingMode::ZeropageIndexedX, 2, 4, false),
        0x36 => opcode(Operation::ROL_MEM, AddressingMode::ZeropageIndexedX, 2, 6, false),
        0x38 => opcode(Operation::SEC, AddressingMode::Implied, 1, 2, false),
        0x39 => opcode(Operation::AND_MEM, AddressingMode::AbsoluteIndexedY, 3, 4, true),
        0x3D => opcode(Operation::AND_MEM, AddressingMode::AbsoluteIndexedX, 3, 4, true),
        0x3E => opcode(Operation::ROL_MEM, AddressingMode::AbsoluteIndexedX, 3, 7, false),
        0x40 => opcode(Operation::RTI, AddressingMode::Implied, 1, 6, false),
        0x41 => opcode(Operation::EOR_MEM, AddressingMode::IndexedIndirectX, 2, 6, false),
        0x45 => opcode(Operation::EOR_MEM, AddressingMode::Zeropage, 2, 3, false),
        0x46 => opcode(Operation::LSR_MEM, AddressingMode::Zeropage, 2, 5, false),
        0x48 => opcode(Operation::PHA, AddressingMode::Implied, 1, 3, false),
        0x49 => opcode(Operation::EOR_IMM, AddressingMode::Immediate, 2, 2, false),
        0x4A => opcode(Operation::LSR_ACC, AddressingMode::Accumulator, 1, 2, false),
        0x4C => opcode(Operation::JMP, AddressingMode::Absolute, 3, 3, false),
        0x4D => opcode(Operation::EOR_MEM, AddressingMode::Absolute, 3, 4, false),
        0x4E => opcode(Operation::LSR_MEM, AddressingMode::Absolute, 3, 6, false),
        0x50 => opcode(Operation::BVC, AddressingMode::Relative, 2, 2, true),
        0x51 => opcode(Operation::EOR_MEM, AddressingMode::IndirectIndexedY, 2, 5, true),
        0x55 => opcode(Operation::EOR_MEM, AddressingMode::ZeropageIndexedX, 2, 4, false),
        0x56 => opcode(Operation::LSR_MEM, AddressingMode::ZeropageIndexedX, 2, 6, false),
        0x58 => opcode(Operation::CLI, AddressingMode::Implied, 1, 2, false),
        0x59 => opcode(Operation::EOR_MEM, AddressingMode::AbsoluteIndexedY, 3, 4, true),
        0x5D => opcode(Operation::EOR_MEM, AddressingMode::AbsoluteIndexedX, 3, 4, true),
        0x5E => opcode(Operation::LSR_MEM, AddressingMode::AbsoluteIndexedX, 3, 7, false),
        0x60 => opcode(Operation::RTS, AddressingMode::Implied, 1, 6, false),
        0x61 => opcode(Operation::ADC_MEM, AddressingMode::IndexedIndirectX, 2, 6, false),
        0x65 => opcode(Operation::ADC_MEM, AddressingMode::Zeropage, 2, 3, false),
        0x66 => opcode(Operation::ROR_MEM, AddressingMode::Zeropage, 2, 5, false),
        0x68 => opcode(Operation::PLA, AddressingMode::Implied, 1, 4, false),
        0x69 => opcode(Operation::ADC_IMM, AddressingMode::Immediate, 2, 2, false),
        0x6A => opcode(Operation::ROR_ACC, AddressingMode::Accumulator, 1, 2, false),
        0x6C => opcode(Operation::JMP, AddressingMode::Indirect, 3, 5, false),
        0x6D => opcode(Operation::ADC_MEM, AddressingMode::Absolute, 3, 4, false),
        0x6E => opcode(Operation::ROR_MEM, AddressingMode::Absolute, 3, 6, false),
        0x70 => opcode(Operation::BVS, AddressingMode::Relative, 2, 2, true),
        0x71 => opcode(Operation::ADC_MEM, AddressingMode::IndirectIndexedY, 2, 5, true),
        0x75 => opcode(Operation::ADC_MEM, AddressingMode::ZeropageIndexedX, 2, 4, false),
        0x76 => opcode(Operation::ROR_MEM, AddressingMode::ZeropageIndexedX, 2, 6, false),
        0x78 => opcode(Operation::SEI, AddressingMode::Implied, 1, 2, false),
        0x79 => opcode(Operation::ADC_MEM, AddressingMode::AbsoluteIndexedY, 3, 4, true),
        0x7D => opcode(Operation::ADC_MEM, AddressingMode::AbsoluteIndexedX, 3, 4, true),
        0x7E => opcode(Operation::ROR_MEM, AddressingMode::AbsoluteIndexedX, 3, 7, false),
        0x81 => opcode(Operation::STA, AddressingMode::IndexedIndirectX, 2, 6, false),
        0x84 => opcode(Operation::STY, AddressingMode::Zeropage, 2, 3, false),
        0x85 => opcode(Operation::STA, AddressingMode::Zeropage, 2, 3, false),
        0x86 => opcode(Operation::STX, AddressingMode::Zeropage, 2, 3, false),
        0x88 => opcode(Operation::DEY, AddressingMode::Implied, 1, 2, false),
        0x8A => opcode(Operation::TXA, AddressingMode::Implied, 1, 2, false),
        0x8C => opcode(Operation::STY, AddressingMode::Absolute, 3, 4, false),
        0x8D => opcode(Operation::STA, AddressingMode::Absolute, 3, 4, false),
        0x8E => opcode(Operation::STX, AddressingMode::Absolute, 3, 4, false),
        0x90 => opcode(Operation::BCC, AddressingMode::Relative, 2, 2, true),
        0x91 => opcode(Operation::STA, AddressingMode::IndirectIndexedY, 2, 6, false),
        0x94 => opcode(Operation::STY, AddressingMode::ZeropageIndexedX, 2, 4, false),
        0x95 => opcode(Operation::STA, AddressingMode::ZeropageIndexedX, 2, 4, false),
        0x96 => opcode(Operation::STX, AddressingMode::ZeropageIndexedY, 2, 4, false),
        0x98 => opcode(Operation::TYA, AddressingMode::Implied, 1, 2, false),
        0x99 => opcode(Operation::STA, AddressingMode::AbsoluteIndexedY, 3, 5, false),
        0x9A => opcode(Operation::TXS, AddressingMode::Implied, 1, 2, false),
        0x9D => opcode(Operation::STA, AddressingMode::AbsoluteIndexedX, 3, 5, false),
        0xA0 => opcode(Operation::LDY_IMM, AddressingMode::Immediate, 2, 2, false),
        0xA1 => opcode(Operation::LDA_MEM, AddressingMode::IndexedIndirectX, 2, 6, false),
        0xA2 => opcode(Operation::LDX_IMM, AddressingMode::Immediate, 2, 2, false),
        0xA4 => opcode(Operation::LDY_MEM, AddressingMode::Zeropage, 2, 3, false),
        0xA5 => opcode(Operation::LDA_MEM, AddressingMode::Zeropage, 2, 3, false),
        0xA6 => opcode(Operation::LDX_MEM, AddressingMode::Zeropage, 2, 3, false),
        0xA8 => opcode(Operation::TAY, AddressingMode::Implied, 1, 2, false),
        0xA9 => opcode(Operation::LDA_IMM, AddressingMode::Immediate, 2, 2, false),
        0xAA => opcode(Operation::TAX, AddressingMode::Implied, 1, 2, false),
        0xAC => opcode(Operation::LDY_MEM, AddressingMode::Absolute, 3, 4, false),
        0xAD => opcode(Operation::LDA_MEM, AddressingMode::Absolute, 3, 4, false),
        0xAE => opcode(Operation::LDX_MEM, AddressingMode::Absolute, 3, 4, false),
        0xB0 => opcode(Operation::BCS, AddressingMode::Relative, 2, 2, true),
        0xB1 => opcode(Operation::LDA_MEM, AddressingMode::IndirectIndexedY, 2, 5, true),
        0xB4 => opcode(Operation::LDY_MEM, AddressingMode::ZeropageIndexedX, 2, 4, false),
        0xB5 => opcode(Operation::LDA_MEM, AddressingMode::ZeropageIndexedX, 2, 4, false),
        0xB6 => opcode(Operation::LDX_MEM, AddressingMode::ZeropageIndexedY, 2, 4, false),
        0xB8 => opcode(Operation::CLV, AddressingMode::Implied, 1, 2, false),
        0xB9 => opcode(Operation::LDA_MEM, AddressingMode::AbsoluteIndexedY, 3, 4, true),
        0xBA => opcode(Operation::TSX, AddressingMode::Implied, 1, 2, false),
        0xBC => opcode(Operation::LDY_MEM, AddressingMode::AbsoluteIndexedX, 3, 4, true),
        0xBD => opcode(Operation::LDA_MEM, AddressingMode::AbsoluteIndexedX, 3, 4, true),
        0xBE => opcode(Operation::LDX_MEM, AddressingMode::AbsoluteIndexedY, 3, 4, true),
        0xC0 => opcode(Operation::CPY_IMM, AddressingMode::Immediate, 2, 2, false),
        0xC1 => opcode(Operation::CMP_MEM, AddressingMode::IndexedIndirectX, 2, 6, false),
        0xC4 => opcode(Operation::CPY_MEM, AddressingMode::Zeropage, 2, 3, false),
        0xC5 => opcode(Operation::CMP_MEM, AddressingMode::Zeropage, 2, 3, false),
        0xC6 => opcode(Operation::DEC, AddressingMode::Zeropage, 2, 5, false),
        0xC8 => opcode(Operation::INY, AddressingMode::Implied, 1, 2, false),
        0xC9 => opcode(Operation::CMP_IMM, AddressingMode::Immediate, 2, 2, false),
        0xCA => opcode(Operation::DEX, AddressingMode::Implied, 1, 2, false),
        0xCC => opcode(Operation::CPY_MEM, AddressingMode::Absolute, 3, 4, false),
        0xCD => opcode(Operation::CMP_MEM, AddressingMode::Absolute, 3, 4, false),
        0xCE => opcode(Operation::DEC, AddressingMode::Absolute, 3, 6, false),
        0xD0 => opcode(Operation::BNE, AddressingMode::Relative, 2, 2, true),
        0xD1 => opcode(Operation::CMP_MEM, AddressingMode::IndirectIndexedY, 2, 5, true),
        0xD5 => opcode(Operation::CMP_MEM, AddressingMode::ZeropageIndexedX, 2, 4, false),
        0xD6 => opcode(Operation::DEC, AddressingMode::ZeropageIndexedX, 2, 6, false),
        0xD8 => opcode(Operation::CLD, AddressingMode::Implied, 1, 2, false),
        0xD9 => opcode(Operation::CMP_MEM, AddressingMode::AbsoluteIndexedY, 3, 4, true),
        0xDD => opcode(Operation::CMP_MEM, AddressingMode::AbsoluteIndexedX, 3, 4, true),
        0xDE => opcode(Operation::DEC, AddressingMode::AbsoluteIndexedX, 3, 7, false),
        0xE0 => opcode(Operation::CPX_IMM, AddressingMode::Immediate, 2, 2, false),
        0xE1 => opcode(Operation::SBC_MEM, AddressingMode::IndexedIndirectX, 2, 6, false),
        0xE4 => opcode(Operation::CPX_MEM, AddressingMode::Zeropage, 2, 3, false),
        0xE5 => opcode(Operation::SBC_MEM, AddressingMode::Zeropage, 2, 3, false),
        0xE6 => opcode(Operation::INC, AddressingMode::Zeropage, 2, 5, false),
        0xE8 => opcode(Operation::INX, AddressingMode::Implied, 1, 2, false),
        0xE9 => opcode(Operation::SBC_IMM, AddressingMode::Immediate, 2, 2, false),
        0xEA => opcode(Operation::NOP, AddressingMode::Implied, 1, 2, false),
        0xEC => opcode(Operation::CPX_MEM, AddressingMode::Absolute, 3, 4, false),
        0xED => opcode(Operation::SBC_MEM, AddressingMode::Absolute, 3, 4, false),
        0xEE => opcode(Operation::INC, AddressingMode::Absolute, 3, 6, false),
        0xF0 => opcode(Operation::BEQ, AddressingMode::Relative, 2, 2, true),
        0xF1 => opcode(Operation::SBC_MEM, AddressingMode::IndirectIndexedY, 2, 5, true),
        0xF5 => opcode(Operation::SBC_MEM, AddressingMode::ZeropageIndexedX, 2, 4, false),
        0xF6 => opcode(Operation::INC, AddressingMode::ZeropageIndexedX, 2, 6, false),
        0xF8 => opcode(Operation::SED, AddressingMode::Implied, 1, 2, false),
        0xF9 => opcode(Operation::SBC_MEM, AddressingMode::AbsoluteIndexedY, 3, 4, true),
        0xFD => opcode(Operation::SBC_MEM, AddressingMode::AbsoluteIndexedX, 3, 4, true),
        0xFE => opcode(Operation::INC, AddressingMode::AbsoluteIndexedX, 3, 7, false),
        _ => unknown_opcode(),
    }
}

/// Looks up opcode byte `b` in the opcode table.
pub fn lookup_opcode(b: u8) -> (r: Opcode)
    ensures
        r == opcode_table(b),
        wf_opcode(r),
        r.operation != Operation::INTERNAL_IRQ && r.operation != Operation::INTERNAL_NMI,
{
    proof {
        reveal(is_branch_op);
    }
    match b {
        0x00 => Opcode { operation: Operation::BRK, mode: AddressingMode::Implied, size: 1, cycles: 7, page_boundary_penalty: false },
        0x01 => Opcode { operation: Operation::ORA_MEM, mode: AddressingMode::IndexedIndirectX, size: 2, cycles: 6, page_boundary_penalty: false },
        0x05 => Opcode { operation: Operation::ORA_MEM, mode: AddressingMode::Zeropage, size: 2, cycles: 3, page_boundary_penalty: false },
        0x06 => Opcode { operation: Operation::ASL_MEM, mode: AddressingMode::Zeropage, size: 2, cycles: 5, page_boundary_penalty: false },
        0x08 => Opcode { operation: Operation::PHP, mode: AddressingMode::Implied, size: 1, cycles: 3, page_boundary_penalty: false },
        0x09 => Opcode { operation: Operation::ORA_IMM, mode: AddressingMode::Immediate, size: 2, cycles: 2, page_boundary_penalty: false },
        0x0A => Opcode { operation: Operation::ASL_ACC, mode: AddressingMode::Accumulator, size: 1, cycles: 2, page_boundary_penalty: false },
        0x0D => Opcode { operation: Operation::ORA_MEM, mode: AddressingMode::Absolute, size: 3, cycles: 4, page_boundary_penalty: false },
        0x0E => Opcode { operation: Operation::ASL_MEM, mode: AddressingMode::Absolute, size: 3, cycles: 6, page_boundary_penalty: false },
        0x10 => Opcode { operation: Operation::BPL, mode: AddressingMode::Relative, size: 2, cycles: 2, page_boundary_penalty: true },
        0x11 => Opcode { operation: Operation::ORA_MEM, mode: AddressingMode::IndirectIndexedY, size: 2, cycles: 5, page_boundary_penalty: true },
        0x15 => Opcode { operation: Operation::ORA_MEM, mode: AddressingMode::ZeropageIndexedX, size: 2, cycles: 4, page_boundary_penalty: false },
        0x16 => Opcode { operation: Operation::ASL_MEM, mode: AddressingMode::ZeropageIndexedX, size: 2, cycles: 6, page_boundary_penalty: false },
        0x18 => Opcode { operation: Operation::CLC, mode: AddressingMode::Implied, size: 1, cycles: 2, page_boundary_penalty: false },
        0x19 => Opcode { operation: Operation::ORA_MEM, mode: AddressingMode::AbsoluteIndexedY, size: 3, cycles: 4, page_boundary_penalty: true },
        0x1D => Opcode { operation: Operation::ORA_MEM, mode: AddressingMode::AbsoluteIndexedX, size: 3, cycles: 4, page_boundary_penalty: true },
        0x1E => Opcode { operation: Operation::ASL_MEM, mode: AddressingMode::AbsoluteIndexedX, size: 3, cycles: 7, page_boundary_penalty: false },
        0x20 => Opcode { operation: Operation::JSR, mode: AddressingMode::Absolute, size: 3, cycles: 6, page_boundary_penalty: false },
        0x21 => Opcode { operation: Operation::AND_MEM, mode: AddressingMode::IndexedIndirectX, size: 2, cycles: 6, page_boundary_penalty: false },
        0x24 => Opcode { operation: Operation::BIT, mode: AddressingMode::Zeropage, size: 2, cycles: 3, page_boundary_penalty: false },
        0x25 => Opcode { operation: Operation::AND_MEM, mode: AddressingMode::Zeropage, size: 2, cycles: 3, page_boundary_penalty: false },
        0x26 => Opcode { operation: Operation::ROL_MEM, mode: AddressingMode::Zeropage, size: 2, cycles: 5, page_boundary_penalty: false },
        0x28 => Opcode { operation: Operation::PLP, mode: AddressingMode::Implied, size: 1, cycles: 4, page_boundary_penalty: false },
        0x29 => Opcode { operation: Operation::AND_IMM, mode: AddressingMode::Immediate, size: 2, cycles: 2, page_boundary_penalty: false },
        0x2A => Opcode { operation: Operation::ROL_ACC, mode: AddressingMode::Accumulator, size: 1, cycles: 2, page_boundary_penalty: false },
        0x2C => Opcode { operation: Operation::BIT, mode: AddressingMode::Absolute, size: 3, cycles: 4, page_boundary_penalty: false },
        0x2D => Opcode { operation: Operation::AND_MEM, mode: AddressingMode::Absolute, size: 3, cycles: 4, page_boundary_penalty: false },
        0x2E => Opcode { operation: Operation::ROL_MEM, mode: AddressingMode::Absolute, size: 3, cycles: 6, page_boundary_penalty: false },
        0x30 => Opcode { operation: Operation::BMI, mode: AddressingMode::Relative, size: 2, cycles: 2, page_boundary_penalty: true },
        0x31 => Opcode { operation: Operation::AND_MEM, mode: AddressingMode::IndirectIndexedY, size: 2, cycles: 5, page_boundary_penalty: true },
        0x35 => Opcode { operation: Operation::AND_MEM, mode: AddressingMode::ZeropageIndexedX, size: 2, cycles: 4, page_boundary_penalty: false },
        0x36 => Opcode { operation: Operation::ROL_MEM, mode: AddressingMode::ZeropageIndexedX, size: 2, cycles: 6, page_boundary_penalty: false },
        0x38 => Opcode { operation: Operation::SEC, mode: AddressingMode::Implied, size: 1, cycles: 2, page_boundary_penalty: false },
        0x39 => Opcode { operation: Operation::AND_MEM, mode: AddressingMode::AbsoluteIndexedY, size: 3, cycles: 4, page_boundary_penalty: true },
        0x3D => Opcode { operation: Operation::AND_MEM, mode: AddressingMode::AbsoluteIndexedX, size: 3, cycles: 4, page_boundary_penalty: true },
        0x3E => Opcode { operation: Operation::ROL_MEM, mode: AddressingMode::AbsoluteIndexedX, size: 3, cycles: 7, page_boundary_penalty: false },
        0x40 => Opcode { operation: Operation::RTI, mode: AddressingMode::Implied, size: 1, cycles: 6, page_boundary_penalty: false },
        0x41 => Opcode { operation: Operation::EOR_MEM, mode: AddressingMode::IndexedIndirectX, size: 2, cycles: 6, page_boundary_penalty: false },
        0x45 => Opcode { operation: Operation::EOR_MEM, mode: AddressingMode::Zeropage, size: 2, cycles: 3, page_boundary_penalty: false },
        0x46 => Opcode { operation: Operation::LSR_MEM, mode: AddressingMode::Zeropage, size: 2, cycles: 5, page_boundary_penalty: false },
        0x48 => Opcode { operation: Operation::PHA, mode: AddressingMode::Implied, size: 1, cycles: 3, page_boundary_penalty: false },
        0x49 => Opcode { operation: Operation::EOR_IMM, mode: AddressingMode::Immediate, size: 2, cycles: 2, page_boundary_penalty: false },
        0x4A => Opcode { operation: Operation::LSR_ACC, mode: AddressingMode::Accumulator, size: 1, cycles: 2, page_boundary_penalty: false },
        0x4C => Opcode { operation: Operation::JMP, mode: AddressingMode::Absolute, size: 3, cycles: 3, page_boundary_penalty: false },
        0x4D => Opcode { operation: Operation::EOR_MEM, mode: AddressingMode::Absolute, size: 3, cycles: 4, page_boundary_penalty: false },
        0x4E => Opcode { operation: Operation::LSR_MEM, mode: AddressingMode::Absolute, size: 3, cycles: 6, page_boundary_penalty: false },
        0x50 => Opcode { operation: Operation::BVC, mode: AddressingMode::Relative, size: 2, cycles: 2, page_boundary_penalty: true },
        0x51 => Opcode { operation: Operation::EOR_MEM, mode: AddressingMode::IndirectIndexedY, size: 2, cycles: 5, page_boundary_penalty: true },
        0x55 => Opcode { operation: Operation::EOR_MEM, mode: AddressingMode::ZeropageIndexedX, size: 2, cycles: 4, page_boundary_penalty: false },
        0x56 => Opcode { operation: Operation::LSR_MEM, mode: AddressingMode::ZeropageIndexedX, size: 2, cycles: 6, page_boundary_penalty: false },
        0x58 => Opcode { operation: Operation::CLI, mode: AddressingMode::Implied, size: 1, cycles: 2, page_boundary_penalty: false },
        0x59 => Opcode { operation: Operation::EOR_MEM, mode: AddressingMode::AbsoluteIndexedY, size: 3, cycles: 4, page_boundary_penalty: true },
        0x5D => Opcode { operation: Operation::EOR_MEM, mode: AddressingMode::AbsoluteIndexedX, size: 3, cycles: 4, page_boundary_penalty: true },
        0x5E => Opcode { operation: Operation::LSR_MEM, mode: AddressingMode::AbsoluteIndexedX, size: 3, cycles: 7, page_boundary_penalty: false },
        0x60 => Opcode { operation: Operation::RTS, mode: AddressingMode::Implied, size: 1, cycles: 6, page_boundary_penalty: false },
        0x61 => Opcode { operation: Operation::ADC_MEM, mode: AddressingMode::IndexedIndirectX, size: 2, cycles: 6, page_boundary_penalty: false },
        0x65 => Opcode { operation: Operation::ADC_MEM, mode: AddressingMode::Zeropage, size: 2, cycles: 3, page_boundary_penalty: false },
        0x66 => Opcode { operation: Operation::ROR_MEM, mode: AddressingMode::Zeropage, size: 2, cycles: 5, page_boundary_penalty: false },
        0x68 => Opcode { operation: Operation::PLA, mode: AddressingMode::Implied, size: 1, cycles: 4, page_boundary_penalty: false },
        0x69 => Opcode { operation: Operation::ADC_IMM, mode: AddressingMode::Immediate, size: 2, cycles: 2, page_boundary_penalty: false },
        0x6A => Opcode { operation: Operation::ROR_ACC, mode: AddressingMode::Accumulator, size: 1, cycles: 2, page_boundary_penalty: false },
        0x6C => Opcode { operation: Operation::JMP, mode: AddressingMode::Indirect, size: 3, cycles: 5, page_boundary_penalty: false },
        0x6D => Opcode { operation: Operation::ADC_MEM, mode: AddressingMode::Absolute, size: 3, cycles: 4, page_boundary_penalty: false },
        0x6E => Opcode { operation: Operation::ROR_MEM, mode: AddressingMode::Absolute, size: 3, cycles: 6, page_boundary_penalty: false },
        0x70 => Opcode { operation: Operation::BVS, mode: AddressingMode::Relative, size: 2, cycles: 2, page_boundary_penalty: true },
        0x71 => Opcode { operation: Operation::ADC_MEM, mode: AddressingMode::IndirectIndexedY, size: 2, cycles: 5, page_boundary_penalty: true },
        0x75 => Opcode { operation: Operation::ADC_MEM, mode: AddressingMode::ZeropageIndexedX, size: 2, cycles: 4, page_boundary_penalty: false },
        0x76 => Opcode { operation: Operation::ROR_MEM, mode: AddressingMode::ZeropageIndexedX, size: 2, cycles: 6, page_boundary_penalty: false },
        0x78 => Opcode { operation: Operation::SEI, mode: AddressingMode::Implied, size: 1, cycles: 2, page_boundary_penalty: false },
        0x79 => Opcode { operation: Operation::ADC_MEM, mode: AddressingMode::AbsoluteIndexedY, size: 3, cycles: 4, page_boundary_penalty: true },
        0x7D => Opcode { operation: Operation::ADC_MEM, mode: AddressingMode::AbsoluteIndexedX, size: 3, cycles: 4, page_boundary_penalty: true },
        0x7E => Opcode { operation: Operation::ROR_MEM, mode: AddressingMode::AbsoluteIndexedX, size: 3, cycles: 7, page_boundary_penalty: false },
        0x81 => Opcode { operation: Operation::STA, mode: AddressingMode::IndexedIndirectX, size: 2, cycles: 6, page_boundary_penalty: false },
        0x84 => Opcode { operation: Operation::STY, mode: AddressingMode::Zeropage, size: 2, cycles: 3, page_boundary_penalty: false },
        0x85 => Opcode { operation: Operation::STA, mode: AddressingMode::Zeropage, size: 2, cycles: 3, page_boundary_penalty: false },
        0x86 => Opcode { operation: Operation::STX, mode: AddressingMode::Zeropage, size: 2, cycles: 3, page_boundary_penalty: false },
        0x88 => Opcode { operation: Operation::DEY, mode: AddressingMode::Implied, size: 1, cycles: 2, page_boundary_penalty: false },
        0x8A => Opcode { operation: Operation::TXA, mode: AddressingMode::Implied, size: 1, cycles: 2, page_boundary_penalty: false },
        0x8C => Opcode { operation: Operation::STY, mode: AddressingMode::Absolute, size: 3, cycles: 4, page_boundary_penalty: false },
        0x8D => Opcode { operation: Operation::STA, mode: AddressingMode::Absolute, size: 3, cycles: 4, page_boundary_penalty: false },
        0x8E => Opcode { operation: Operation::STX, mode: AddressingMode::Absolute, size: 3, cycles: 4, page_boundary_penalty: false },
        0x90 => Opcode { operation: Operation::BCC, mode: AddressingMode::Relative, size: 2, cycles: 2, page_boundary_penalty: true },
        0x91 => Opcode { operation: Operation::STA, mode: AddressingMode::IndirectIndexedY, size: 2, cycles: 6, page_boundary_penalty: false },
        0x94 => Opcode { operation: Operation::STY, mode: AddressingMode::ZeropageIndexedX, size: 2, cycles: 4, page_boundary_penalty: false },
        0x95 => Opcode { operation: Operation::STA, mode: AddressingMode::ZeropageIndexedX, size: 2, cycles: 4, page_boundary_penalty: false },
        0x96 => Opcode { operation: Operation::STX, mode: AddressingMode::ZeropageIndexedY, size: 2, cycles: 4, page_boundary_penalty: false },
        0x98 => Opcode { operation: Operation::TYA, mode: AddressingMode::Implied, size: 1, cycles: 2, page_boundary_penalty: false },
        0x99 => Opcode { operation: Operation::STA, mode: AddressingMode::AbsoluteIndexedY, size: 3, cycles: 5, page_boundary_penalty: false },
        0x9A => Opcode { operation: Operation::TXS, mode: AddressingMode::Implied, size: 1, cycles: 2, page_boundary_penalty: false },
        0x9D => Opcode { operation: Operation::STA, mode: AddressingMode::AbsoluteIndexedX, size: 3, cycles: 5, page_boundary_penalty: false },
        0xA0 => Opcode { operation: Operation::LDY_IMM, mode: AddressingMode::Immediate, size: 2, cycles: 2, page_boundary_penalty: false },
        0xA1 => Opcode { operation: Operation::LDA_MEM, mode: AddressingMode::IndexedIndirectX, size: 2, cycles: 6, page_boundary_penalty: false },
        0xA2 => Opcode { operation: Operation::LDX_IMM, mode: AddressingMode::Immediate, size: 2, cycles: 2, page_boundary_penalty: false },
        0xA4 => Opcode { operation: Operation::LDY_MEM, mode: AddressingMode::Zeropage, size: 2, cycles: 3, page_boundary_penalty: false },
        0xA5 => Opcode { operation: Operation::LDA_MEM, mode: AddressingMode::Zeropage, size: 2, cycles: 3, page_boundary_penalty: false },
        0xA6 => Opcode { operation: Operation::LDX_MEM, mode: AddressingMode::Zeropage, size: 2, cycles: 3, page_boundary_penalty: false },
        0xA8 => Opcode { operation: Operation::TAY, mode: AddressingMode::Implied, size: 1, cycles: 2, page_boundary_penalty: false },
        0xA9 => Opcode { operation: Operation::LDA_IMM, mode: AddressingMode::Immediate, size: 2, cycles: 2, page_boundary_penalty: false },
        0xAA => Opcode { operation: Operation::TAX, mode: AddressingMode::Implied, size: 1, cycles: 2, page_boundary_penalty: false },
        0xAC => Opcode { operation: Operation::LDY_MEM, mode: AddressingMode::Absolute, size: 3, cycles: 4, page_boundary_penalty: false },
        0xAD => Opcode { operation: Operation::LDA_MEM, mode: AddressingMode::Absolute, size: 3, cycles: 4, page_boundary_penalty: false },
        0xAE => Opcode { operation: Operation::LDX_MEM, mode: AddressingMode::Absolute, size: 3, cycles: 4, page_boundary_penalty: false },
        0xB0 => Opcode { operation: Operation::BCS, mode: AddressingMode::Relative, size: 2, cycles: 2, page_boundary_penalty: true },
        0xB1 => Opcode { operation: Operation::LDA_MEM, mode: AddressingMode::IndirectIndexedY, size: 2, cycles: 5, page_boundary_penalty: true },
        0xB4 => Opcode { operation: Operation::LDY_MEM, mode: AddressingMode::ZeropageIndexedX, size: 2, cycles: 4, page_boundary_penalty: false },
        0xB5 => Opcode { operation: Operation::LDA_MEM, mode: AddressingMode::ZeropageIndexedX, size: 2, cycles: 4, page_boundary_penalty: false },
        0xB6 => Opcode { operation: Operation::LDX_MEM, mode: AddressingMode::ZeropageIndexedY, size: 2, cycles: 4, page_boundary_penalty: false },
        0xB8 => Opcode { operation: Operation::CLV, mode: AddressingMode::Implied, size: 1, cycles: 2, page_boundary_penalty: false },
        0xB9 => Opcode { operation: Operation::LDA_MEM, mode: AddressingMode::AbsoluteIndexedY, size: 3, cycles: 4, page_boundary_penalty: true },
        0xBA => Opcode { operation: Operation::TSX, mode: AddressingMode::Implied, size: 1, cycles: 2, page_boundary_penalty: false },
        0xBC => Opcode { operation: Operation::LDY_MEM, mode: AddressingMode::AbsoluteIndexedX, size: 3, cycles: 4, page_boundary_penalty: true },
        0xBD => Opcode { operation: Operation::LDA_MEM, mode: AddressingMode::AbsoluteIndexedX, size: 3, cycles: 4, page_boundary_penalty: true },
        0xBE => Opcode { operation: Operation::LDX_MEM, mode: AddressingMode::AbsoluteIndexedY, size: 3, cycles: 4, page_boundary_penalty: true },
        0xC0 => Opcode { operation: Operation::CPY_IMM, mode: AddressingMode::Immediate, size: 2, cycles: 2, page_boundary_penalty: false },
        0xC1 => Opcode { operation: Operation::CMP_MEM, mode: AddressingMode::IndexedIndirectX, size: 2, cycles: 6, page_boundary_penalty: false },
        0xC4 => Opcode { operation: Operation::CPY_MEM, mode: AddressingMode::Zeropage, size: 2, cycles: 3, page_boundary_penalty: false },
        0xC5 => Opcode { operation: Operation::CMP_MEM, mode: AddressingMode::Zeropage, size: 2, cycles: 3, page_boundary_penalty: false },
        0xC6 => Opcode { operation: Operation::DEC, mode: AddressingMode::Zeropage, size: 2, cycles: 5, page_boundary_penalty: false },
        0xC8 => Opcode { operation: Operation::INY, mode: AddressingMode::Implied, size: 1, cycles: 2, page_boundary_penalty: false },
        0xC9 => Opcode { operation: Operation::CMP_IMM, mode: AddressingMode::Immediate, size: 2, cycles: 2, page_boundary_penalty: false },
        0xCA => Opcode { operation: Operation::DEX, mode: AddressingMode::Implied, size: 1, cycles: 2, page_boundary_penalty: false },
        0xCC => Opcode { operation: Operation::CPY_MEM, mode: AddressingMode::Absolute, size: 3, cycles: 4, page_boundary_penalty: false },
        0xCD => Opcode { operation: Operation::CMP_MEM, mode: AddressingMode::Absolute, size: 3, cycles: 4, page_boundary_penalty: false },
        0xCE => Opcode { operation: Operation::DEC, mode: AddressingMode::Absolute, size: 3, cycles: 6, page_boundary_penalty: false },
        0xD0 => Opcode { operation: Operation::BNE, mode: AddressingMode::Relative, size: 2, cycles: 2, page_boundary_penalty: true },
        0xD1 => Opcode { operation: Operation::CMP_MEM, mode: AddressingMode::IndirectIndexedY, size: 2, cycles: 5, page_boundary_penalty: true },
        0xD5 => Opcode { operation: Operation::CMP_MEM, mode: AddressingMode::ZeropageIndexedX, size: 2, cycles: 4, page_boundary_penalty: false },
        0xD6 => Opcode { operation: Operation::DEC, mode: AddressingMode::ZeropageIndexedX, size: 2, cycles: 6, page_boundary_penalty: false },
        0xD8 => Opcode { operation: Operation::CLD, mode: AddressingMode::Implied, size: 1, cycles: 2, page_boundary_penalty: false },
        0xD9 => Opcode { operation: Operation::CMP_MEM, mode: AddressingMode::AbsoluteIndexedY, size: 3, cycles: 4, page_boundary_penalty: true },
        0xDD => Opcode { operation: Operation::CMP_MEM, mode: AddressingMode::AbsoluteIndexedX, size: 3, cycles: 4, page_boundary_penalty: true },
        0xDE => Opcode { operation: Operation::DEC, mode: AddressingMode::AbsoluteIndexedX, size: 3, cycles: 7, page_boundary_penalty: false },
        0xE0 => Opcode { operation: Operation::CPX_IMM, mode: AddressingMode::Immediate, size: 2, cycles: 2, page_boundary_penalty: false },
        0xE1 => Opcode { operation: Operation::SBC_MEM, mode: AddressingMode::IndexedIndirectX, size: 2, cycles: 6, page_boundary_penalty: false },
        0xE4 => Opcode { operation: Operation::CPX_MEM, mode: AddressingMode::Zeropage, size: 2, cycles: 3, page_boundary_penalty: false },
        0xE5 => Opcode { operation: Operation::SBC_MEM, mode: AddressingMode::Zeropage, size: 2, cycles: 3, page_boundary_penalty: false },
        0xE6 => Opcode { operation: Operation::INC, mode: AddressingMode::Zeropage, size: 2, cycles: 5, page_boundary_penalty: false },
        0xE8 => Opcode { operation: Operation::INX, mode: AddressingMode::Implied, size: 1, cycles: 2, page_boundary_penalty: false },
        0xE9 => Opcode { operation: Operation::SBC_IMM, mode: AddressingMode::Immediate, size: 2, cycles: 2, page_boundary_penalty: false },
        0xEA => Opcode { operation: Operation::NOP, mode: AddressingMode::Implied, size: 1, cycles: 2, page_boundary_penalty: false },
        0xEC => Opcode { operation: Operation::CPX_MEM, mode: AddressingMode::Absolute, size: 3, cycles: 4, page_boundary_penalty: false },
        0xED => Opcode { operation: Operation::SBC_MEM, mode: AddressingMode::Absolute, size: 3, cycles: 4, page_boundary_penalty: false },
        0xEE => Opcode { operation: Operation::INC, mode: AddressingMode::Absolute, size: 3, cycles: 6, page_boundary_penalty: false },
        0xF0 => Opcode { operation: Operation::BEQ, mode: AddressingMode::Relative, size: 2, cycles: 2, page_boundary_penalty: true },
        0xF1 => Opcode { operation: Operation::SBC_MEM, mode: AddressingMode::IndirectIndexedY, size: 2, cycles: 5, page_boundary_penalty: true },
        0xF5 => Opcode { operation: Operation::SBC_MEM, mode: AddressingMode::ZeropageIndexedX, size: 2, cycles: 4, page_boundary_penalty: false },
        0xF6 => Opcode { operation: Operation::INC, mode: AddressingMode::ZeropageIndexedX, size: 2, cycles: 6, page_boundary_penalty: false },
        0xF8 => Opcode { operation: Operation::SED, mode: AddressingMode::Implied, size: 1, cycles: 2, page_boundary_penalty: false },
        0xF9 => Opcode { operation: Operation::SBC_MEM, mode: AddressingMode::AbsoluteIndexedY, size: 3, cycles: 4, page_boundary_penalty: true },
        0xFD => Opcode { operation: Operation::SBC_MEM, mode: AddressingMode::AbsoluteIndexedX, size: 3, cycles: 4, page_boundary_penalty: true },
        0xFE => Opcode { operation: Operation::INC, mode: AddressingMode::AbsoluteIndexedX, size: 3, cycles: 7, page_boundary_penalty: false },
        _ => Opcode {
            operation: Operation::UNKNOWN,
            mode: AddressingMode::Implied,
            size: 1,
            cycles: 2,
            page_boundary_penalty: false,
        },
    }
}

impl Opcode {
    pub fn new(
        operation: Operation,
        mode: AddressingMode,
        size: u8,
        cycles: u8,
        page_boundary_penalty: bool,
    ) -> (r: Opcode)
        ensures
            r == opcode(operation, mode, size, cycles, page_boundary_penalty),
    {
        Opcode { operation, mode, size, cycles, page_boundary_penalty }
    }

    pub fn is_branch(&self) -> (r: bool)
        ensures
            r == is_branch_op(self.operation),
    {
        proof {
            reveal(is_branch_op);
        }
        match self.operation {
            Operation::BCC | Operation::BCS | Operation::BEQ | Operation::BMI | Operation::BNE
            | Operation::BPL | Operation::BVC | Operation::BVS => true,
            _ => false,
        }
    }

    /// Whether this branch is taken in `state`; false for other operations.
    pub fn will_branch(&self, state: &State) -> (r: bool)
        ensures
            r == branch_taken(self.operation, state.status.status),
    {
        proof {
            reveal(branch_taken);
        }
        match self.operation {
            Operation::BCC => _should_bcc(state),
            Operation::BCS => _should_bcs(state),
            Operation::BEQ => _should_beq(state),
            Operation::BMI => _should_bmi(state),
            Operation::BNE => _should_bne(state),
            Operation::BPL => _should_bpl(state),
            Operation::BVC => _should_bvc(state),
            Operation::BVS => _should_bvs(state),
            _ => false,
        }
    }
}

/// The mnemonic of `op` (`##` for the synthetic and unknown operations).
pub open spec fn mnemonic(op: Operation) -> Seq<char> {
    match op {
        Operation::ADC_IMM | Operation::ADC_MEM => seq!['A', 'D', 'C'],
        Operation::AND_IMM | Operation::AND_MEM => seq!['A', 'N', 'D'],
        Operation::ASL_ACC | Operation::ASL_MEM => seq!['A', 'S', 'L'],
        Operation::BCC => seq!['B', 'C', 'C'],
        Operation::BCS => seq!['B', 'C', 'S'],
        Operation::BEQ => seq!['B', 'E', 'Q'],
        Operation::BIT => seq!['B', 'I', 'T'],
        Operation::BMI => seq!['B', 'M', 'I'],
        Operation::BNE => seq!['B', 'N', 'E'],
        Operation::BPL => seq!['B', 'P', 'L'],
        Operation::BRK => seq!['B', 'R', 'K'],
        Operation::BVC => seq!['B', 'V', 'C'],
        Operation::BVS => seq!['B', 'V', 'S'],
        Operation::CLC => seq!['C', 'L', 'C'],
        Operation::CLD => seq!['C', 'L', 'D'],
        Operation::CLI => seq!['C', 'L', 'I'],
        Operation::CLV => seq!['C', 'L', 'V'],
        Operation::CMP_IMM | Operation::CMP_MEM => seq!['C', 'M', 'P'],
        Operation::CPX_IMM | Operation::CPX_MEM => seq!['C', 'P', 'X'],
        Operation::CPY_IMM | Operation::CPY_MEM => seq!['C', 'P', 'Y'],
        Operation::DEC => seq!['D', 'E', 'C'],
        Operation::DEX => seq!['D', 'E', 'X'],
        Operation::DEY => seq!['D', 'E', 'Y'],
        Operation::EOR_IMM | Operation::EOR_MEM => seq!['E', 'O', 'R'],
        Operation::INC => seq!['I', 'N', 'C'],
        Operation::INX => seq!['I', 'N', 'X'],
        Operation::INY => seq!['I', 'N', 'Y'],
        Operation::JMP => seq!['J', 'M', 'P'],
        Operation::JSR => seq!['J', 'S', 'R'],
        Operation::LDA_IMM | Operation::LDA_MEM => seq!['L', 'D', 'A'],
        Operation::LDX_IMM | Operation::LDX_MEM => seq!['L', 'D', 'X'],
        Operation::LDY_IMM | Operation::LDY_MEM => seq!['L', 'D', 'Y'],
        Operation::LSR_ACC | Operation::LSR_MEM => seq!['L', 'S', 'R'],
        Operation::NOP => seq!['N', 'O', 'P'],
        Operation::ORA_IMM | Operation::ORA_MEM => seq!['O', 'R', 'A'],
        Operation::PHA => seq!['P', 'H', 'A'],
        Operation::PHP => seq!['P', 'H', 'P'],
        Operation::PLA => seq!['P', 'L', 'A'],
        Operation::PLP => seq!['P', 'L', 'P'],
        Operation::ROL_ACC | Operation::ROL_MEM => seq!['R', 'O', 'L'],
        Operation::ROR_ACC | Operation::ROR_MEM => seq!['R', 'O', 'R'],
        Operation::RTI => seq!['R', 'T', 'I'],
        Operation::RTS => seq!['R', 'T', 'S'],
        Operation::SBC_IMM | Operation::SBC_MEM => seq!['S', 'B', 'C'],
        Operation::SEC => seq!['S', 'E', 'C'],
        Operation::SED => seq!['S', 'E', 'D'],
        Operation::SEI => seq!['S', 'E', 'I'],
        Operation::STA => seq!['S', 'T', 'A'],
        Operation::STX => seq!['S', 'T', 'X'],
        Operation::STY => seq!['S', 'T', 'Y'],
        Operation::TAX => seq!['T', 'A', 'X'],
        Operation::TAY => seq!['T', 'A', 'Y'],
        Operation::TSX => seq!['T', 'S', 'X'],
        Operation::TXA => seq!['T', 'X', 'A'],
        Operation::TXS => seq!['T', 'X', 'S'],
        Operation::TYA => seq!['T', 'Y', 'A'],
        _ => seq!['#', '#'],
    }
}

impl Operation {
    /// The mnemonic.
    pub fn as_str(&self) -> (r: &'static str)
        ensures
            r@ == mnemonic(*self),
    {
        match *self {
            Operation::ADC_IMM | Operation::ADC_MEM => {
                proof {
                    reveal_strlit("ADC");
                }
                "ADC"
            },
            Operation::AND_IMM | Operation::AND_MEM => {
                proof {
                    reveal_strlit("AND");
                }
                "AND"
            },
            Operation::ASL_ACC | Operation::ASL_MEM => {
                proof {
                    reveal_strlit("ASL");
                }
                "ASL"
            },
            Operation::BCC => {
                proof {
                    reveal_strlit("BCC");
                }
                "BCC"
            },
            Operation::BCS => {
                proof {
                    reveal_strlit("BCS");
                }
                "BCS"
            },
            Operation::BEQ => {
                proof {
                    reveal_strlit("BEQ");
                }
                "BEQ"
            },
            Operation::BIT => {
                proof {
                    reveal_strlit("BIT");
                }
                "BIT"
            },
            Operation::BMI => {
                proof {
                    reveal_strlit("BMI");
                }
                "BMI"
            },
            Operation::BNE => {
                proof {
                    reveal_strlit("BNE");
                }
                "BNE"
            },
            Operation::BPL => {
                proof {
                    reveal_strlit("BPL");
                }
                "BPL"
            },
            Operation::BRK => {
                proof {
                    reveal_strlit("BRK");
                }
                "BRK"
            },
            Operation::BVC => {
                proof {
                    reveal_strlit("BVC");
                }
                "BVC"
            },
            Operation::BVS => {
                proof {
                    reveal_strlit("BVS");
                }
                "BVS"
            },
            Operation::CLC => {
                proof {
                    reveal_strlit("CLC");
                }
                "CLC"
            },
            Operation::CLD => {
                proof {
                    reveal_strlit("CLD");
                }
                "CLD"
            },
            Operation::CLI => {
                proof {
                    reveal_strlit("CLI");
                }
                "CLI"
            },
            Operation::CLV => {
                proof {
                    reveal_strlit("CLV");
                }
                "CLV"
            },
            Operation::CMP_IMM | Operation::CMP_MEM => {
                proof {
                    reveal_strlit("CMP");
                }
                "CMP"
            },
            Operation::CPX_IMM | Operation::CPX_MEM => {
                proof {
                    reveal_strlit("CPX");
                }
                "CPX"
            },
            Operation::CPY_IMM | Operation::CPY_MEM => {
                proof {
                    reveal_strlit("CPY");
                }
                "CPY"
            },
            Operation::DEC => {
                proof {
                    reveal_strlit("DEC");
                }
                "DEC"
            },
            Operation::DEX => {
                proof {
                    reveal_strlit("DEX");
                }
                "DEX"
            },
            Operation::DEY => {
                proof {
                    reveal_strlit("DEY");
                }
                "DEY"
            },
            Operation::EOR_IMM | Operation::EOR_MEM => {
                proof {
                    reveal_strlit("EOR");
                }
                "EOR"
            },
            Operation::INC => {
                proof {
                    reveal_strlit("INC");
                }
                "INC"
            },
            Operation::INX => {
                proof {
                    reveal_strlit("INX");
                }
                "INX"
            },
            Operation::INY => {
                proof {
                    reveal_strlit("INY");
                }
                "INY"
            },
            Operation::JMP => {
                proof {
                    reveal_strlit("JMP");
                }
                "JMP"
            },
            Operation::JSR => {
                proof {
                    reveal_strlit("JSR");
                }
                "JSR"
            },
            Operation::LDA_IMM | Operation::LDA_MEM => {
                proof {
                    reveal_strlit("LDA");
                }
                "LDA"
            },
            Operation::LDX_IMM | Operation::LDX_MEM => {
                proof {
                    reveal_strlit("LDX");
                }
                "LDX"
            },
            Operation::LDY_IMM | Operation::LDY_MEM => {
                proof {
                    reveal_strlit("LDY");
                }
                "LDY"
            },
            Operation::LSR_ACC | Operation::LSR_MEM => {
                proof {
                    reveal_strlit("LSR");
                }
                "LSR"
            },
            Operation::NOP => {
                proof {
                    reveal_strlit("NOP");
                }
                "NOP"
            },
            Operation::ORA_IMM | Operation::ORA_MEM => {
                proof {
                    reveal_strlit("ORA");
                }
                "ORA"
            },
            Operation::PHA => {
                proof {
                    reveal_strlit("PHA");
                }
                "PHA"
            },
            Operation::PHP => {
                proof {
                    reveal_strlit("PHP");
                }
                "PHP"
            },
            Operation::PLA => {
                proof {
                    reveal_strlit("PLA");
                }
                "PLA"
            },
            Operation::PLP => {
                proof {
                    reveal_strlit("PLP");
                }
                "PLP"
            },
            Operation::ROL_ACC | Operation::ROL_MEM => {
                proof {
                    reveal_strlit("ROL");
                }
                "ROL"
            },
            Operation::ROR_ACC | Operation::ROR_MEM => {
                proof {
                    reveal_strlit("ROR");
                }
                "ROR"
            },
            Operation::RTI => {
                proof {
                    reveal_strlit("RTI");
                }
                "RTI"
            },
            Operation::RTS => {
                proof {
                    reveal_strlit("RTS");
                }
                "RTS"
            },
            Operation::SBC_IMM | Operation::SBC_MEM => {
                proof {
                    reveal_strlit("SBC");
                }
                "SBC"
            },
            Operation::SEC => {
                proof {
                    reveal_strlit("SEC");
                }
                "SEC"
            },
            Operation::SED => {
                proof {
                    reveal_strlit("SED");
                }
                "SED"
            },
            Operation::SEI => {
                proof {
                    reveal_strlit("SEI");
                }
                "SEI"
            },
            Operation::STA => {
                proof {
                    reveal_strlit("STA");
                }
                "STA"
            },
            Operation::STX => {
                proof {
                    reveal_strlit("STX");
                }
                "STX"
            },
            Operation::STY => {
                proof {
                    reveal_strlit("STY");
                }
                "STY"
            },
            Operation::TAX => {
                proof {
                    reveal_strlit("TAX");
                }
                "TAX"
            },
            Operation::TAY => {
                proof {
                    reveal_strlit("TAY");
                }
                "TAY"
            },
            Operation::TSX => {
                proof {
                    reveal_strlit("TSX");
                }
                "TSX"
            },
            Operation::TXA => {
                proof {
                    reveal_strlit("TXA");
                }
                "TXA"
            },
            Operation::TXS => {
                proof {
                    reveal_strlit("TXS");
                }
                "TXS"
            },
            Operation::TYA => {
                proof {
                    reveal_strlit("TYA");
                }
                "TYA"
            },
            _ => {
                proof {
                    reveal_strlit("##");
                }
                "##"
            },
        }
    }
}

fn _should_bcc(state: &State) -> (r: bool)
    ensures
        r == !flag(state.status.status, SR_MASK_CARRY),
{
    !state.get_status_field(SR_MASK_CARRY)
}

fn _should_bcs(state: &State) -> (r: bool)
    ensures
        r == flag(state.status.status, SR_MASK_CARRY),
{
    state.get_status_field(SR_MASK_CARRY)
}

fn _should_beq(state: &State) -> (r: bool)
    ensures
        r == flag(state.status.status, SR_MASK_ZERO),
{
    state.get_status_field(SR_MASK_ZERO)
}

fn _should_bmi(state: &State) -> (r: bool)
    ensures
        r == flag(state.status.status, SR_MASK_NEGATIVE),
{
    state.get_status_field(SR_MASK_NEGATIVE)
}

fn _should_bne(state: &State) -> (r: bool)
    ensures
        r == !flag(state.status.status, SR_MASK_ZERO),
{
    !state.get_status_field(SR_MASK_ZERO)
}

fn _should_bpl(state: &State) -> (r: bool)
    ensures
        r == !flag(state.status.status, SR_MASK_NEGATIVE),
{
    !state.get_status_field(SR_MASK_NEGATIVE)
}

fn _should_bvc(state: &State) -> (r: bool)
    ensures
        r == !flag(state.status.status, SR_MASK_OVERFLOW),
{
    !state.get_status_field(SR_MASK_OVERFLOW)
}

fn _should_bvs(state: &State) -> (r: bool)
    ensures
        r == flag(state.status.status, SR_MASK_OVERFLOW),
{
    state.get_status_field(SR_MASK_OVERFLOW)
}

/// Adds `operand` and the carry to A.
pub fn _adc(state: &mut State, operand: u8)
    ensures
        *final(state) == adc_spec(*old(state), operand),
{
    let c: u16 = if state.get_status_field(SR_MASK_CARRY) {
        1
    } else {
        0
    };
    let sum: u16 = state.acc as u16 + operand as u16 + c;
    let res = (sum % 256) as u8;
    let overflow = (!(state.acc ^ operand) & (state.acc ^ res) & 0x80) != 0;
    state.acc = res;
    state.set_nz(res);
    state.set_status_field(SR_MASK_CARRY, sum > 0xFF);
    state.set_status_field(SR_MASK_OVERFLOW, overflow);
}

/// Subtracts `operand` and the borrow (inverted carry) from A.
pub fn _sbc(state: &mut State, operand: u8)
    ensures
        *final(state) == sbc_spec(*old(state), operand),
{
    _adc(state, 255 - operand);
}

/// Compares register value `operand` with `mem`.
pub fn _compare(state: &mut State, mem: u8, operand: u8)
    ensures
        *final(state) == compare_spec(*old(state), operand, mem),
{
    state.set_status_field(SR_MASK_NEGATIVE, operand.wrapping_sub(mem) >= 128);
    state.set_status_field(SR_MASK_ZERO, operand == mem);
    state.set_status_field(SR_MASK_CARRY, operand >= mem);
}

fn _bit(state: &mut State, m: u8)
    ensures
        *final(state) == bit_spec(*old(state), m),
{
    state.set_status_field(SR_MASK_NEGATIVE, m & SR_MASK_NEGATIVE != 0);
    state.set_status_field(SR_MASK_OVERFLOW, m & SR_MASK_OVERFLOW != 0);
    state.set_status_field(SR_MASK_ZERO, m & state.acc == 0);
}

/// Shifts or rotates `v` as `op` says, setting C, N and Z.
fn _shift(state: &mut State, op: Operation, v: u8) -> (r: u8)
    ensures
        r == shift_value(op, v, flag(old(state).status.status, SR_MASK_CARRY)),
        *final(state) == with_p(*old(state), shift_flags(op, *old(state), v)),
{
    let c = state.get_status_field(SR_MASK_CARRY);
    let r: u8 = match op {
        Operation::ASL_ACC | Operation::ASL_MEM => ((v as u16 * 2) % 256) as u8,
        Operation::LSR_ACC | Operation::LSR_MEM => v / 2,
        Operation::ROL_ACC | Operation::ROL_MEM => ((v as u16 * 2) % 256 + if c {
            1
        } else {
            0
        }) as u8,
        _ => v / 2 + if c {
            128
        } else {
            0
        },
    };
    let carry = match op {
        Operation::ASL_ACC | Operation::ASL_MEM | Operation::ROL_ACC | Operation::ROL_MEM => v
            >= 128,
        _ => v % 2 == 1,
    };
    state.set_status_field(SR_MASK_CARRY, carry);
    state.set_nz(r);
    r
}

/// `s1` and `bus1` are `s0` and `bus0` after pushing `data`: S moved down
/// by one, and the slot at the old S holds `data` when it is RAM.
pub open spec fn push_post<B: Databus>(s0: State, bus0: B, data: u8, s1: State, bus1: B) -> bool {
    let a = stack_address(s0.stack_pointer);
    &&& s1 == State { stack_pointer: sub8(s0.stack_pointer, 1), ..s0 }
    &&& B::is_ram(a) ==> B::quiet(a) && bus1.peek(a) == data
    &&& forall|b: u16|
        B::quiet(b) && !B::shares_cell(a, b) ==> #[trigger] bus1.peek(b) == bus0.peek(b)
}

/// `s1` is `s0` after pulling `r`: S moved up by one, and when that slot
/// is quiet `r` is what it held and the bus is unchanged.
pub open spec fn pull_post<B: Databus>(s0: State, bus0: B, r: u8, s1: State, bus1: B) -> bool {
    let a = stack_address(add8(s0.stack_pointer, 1));
    &&& s1 == State { stack_pointer: add8(s0.stack_pointer, 1), ..s0 }
    &&& B::quiet(a) ==> r == bus0.peek(a) && bus1 == bus0
}

/// Pushes `data` at `0x0100 | S`, then decrements S.
pub fn _push_stack<B: Databus>(state: &mut State, bus: &mut B, data: u8)
    requires
        old(bus).inv(),
    ensures
        final(bus).inv(),
        final(bus).clock() == old(bus).clock(),
        push_post(*old(state), *old(bus), data, *final(state), *final(bus)),
        *final(state) == (State { stack_pointer: sub8(old(state).stack_pointer, 1), ..*old(state) }),
        B::is_ram(stack_address(old(state).stack_pointer)) ==> final(bus).peek(
            stack_address(old(state).stack_pointer),
        ) == data,
        forall|b: u16|
            B::quiet(b) && !B::shares_cell(stack_address(old(state).stack_pointer), b)
                ==> #[trigger] final(bus).peek(b) == old(bus).peek(b),
{
    bus.write(STACK_OFFSET + state.stack_pointer as u16, data);
    state.dec_sp();
}

/// Increments S, then reads `0x0100 | S`.
pub fn _pull_stack<B: Databus>(state: &mut State, bus: &mut B) -> (r: u8)
    requires
        old(bus).inv(),
    ensures
        final(bus).inv(),
        final(bus).clock() == old(bus).clock(),
        pull_post(*old(state), *old(bus), r, *final(state), *final(bus)),
        *final(state) == (State { stack_pointer: add8(old(state).stack_pointer, 1), ..*old(state) }),
        B::quiet(stack_address(add8(old(state).stack_pointer, 1))) ==> r == old(bus).peek(
            stack_address(add8(old(state).stack_pointer, 1)),
        ) && *final(bus) == *old(bus),
{
    state.inc_sp();
    bus.read(STACK_OFFSET + state.stack_pointer as u16)
}

/// The return address an interrupting operation pushes: past BRK's
/// padding byte for BRK, the interrupted instruction for IRQ and NMI.
pub open spec fn interrupt_return(op: Operation, next_pc: u16) -> u16 {
    if op == Operation::BRK {
        add16(next_pc, 1)
    } else {
        next_pc
    }
}

/// The return address JSR pushes: the last byte of the JSR itself.
pub open spec fn jsr_return(next_pc: u16) -> u16 {
    add16(next_pc, 0xFFFF)
}

/// `bus1` holds `ret` pushed at S = `sp`: high byte at `0x0100 | sp`, low
/// byte at the slot below, where these are RAM.
pub open spec fn pushed_pc<B: Databus>(sp: u8, ret: u16, bus1: B) -> bool {
    let a_hi = stack_address(sp);
    let a_lo = stack_address(sub8(sp, 1));
    &&& B::is_ram(a_lo) ==> bus1.peek(a_lo) == ret % 256
    &&& B::is_ram(a_hi) && B::quiet(a_hi) && !B::shares_cell(a_lo, a_hi) ==> bus1.peek(a_hi)
        == ret / 256
}

/// JSR to `target` from `s0`: the return address pushed, S down by two,
/// the next PC at the target.
pub open spec fn jsr_post<B: Databus>(s0: State, target: u16, s1: State, bus1: B) -> bool {
    &&& s1 == State { next_pc: target, stack_pointer: sub8(s0.stack_pointer, 2), ..s0 }
    &&& pushed_pc(s0.stack_pointer, jsr_return(s0.next_pc), bus1)
}

/// RTS from `s0`: S up by two; with quiet stack slots, the next PC is the
/// pulled word plus one and the bus is unchanged.
pub open spec fn rts_post<B: Databus>(s0: State, bus0: B, s1: State, bus1: B) -> bool {
    let sp = s0.stack_pointer;
    let a_lo = stack_address(add8(sp, 1));
    let a_hi = stack_address(add8(sp, 2));
    &&& s1.stack_pointer == add8(sp, 2)
    &&& B::quiet(a_lo) && B::quiet(a_hi) ==> {
        &&& s1 == State {
            next_pc: add16(word(bus0.peek(a_lo), bus0.peek(a_hi)), 1),
            stack_pointer: add8(sp, 2),
            ..s0
        }
        &&& bus1 == bus0
    }
}

/// RTI from `s0`: S up by three; with quiet stack slots, the status is
/// pulled (Break and Unused kept), then the next PC, and the bus is
/// unchanged.
pub open spec fn rti_post<B: Databus>(s0: State, bus0: B, s1: State, bus1: B) -> bool {
    let sp = s0.stack_pointer;
    let a_p = stack_address(add8(sp, 1));
    let a_lo = stack_address(add8(sp, 2));
    let a_hi = stack_address(add8(sp, 3));
    &&& s1.stack_pointer == add8(sp, 3)
    &&& B::quiet(a_p) && B::quiet(a_lo) && B::quiet(a_hi) ==> {
        &&& s1 == State {
            status: Status { status: pulled_status(s0.status.status, bus0.peek(a_p)) },
            next_pc: word(bus0.peek(a_lo), bus0.peek(a_hi)),
            stack_pointer: add8(sp, 3),
            ..s0
        }
        &&& bus1 == bus0
    }
}

/// An interrupt through `vector` from `s0`: `ret` and the status (Break as
/// `brk`, Unused set) pushed, S down by three, InterruptDisable set, and
/// the next PC read from the vector as the bus held it before.
pub open spec fn interrupt_post<B: Databus>(
    s0: State,
    bus0: B,
    vector: u16,
    brk: bool,
    ret: u16,
    s1: State,
    bus1: B,
) -> bool {
    let sp = s0.stack_pointer;
    let a_hi = stack_address(sp);
    let a_lo = stack_address(sub8(sp, 1));
    let a_p = stack_address(sub8(sp, 2));
    let v1 = add16(vector, 1);
    &&& s1 == State {
        stack_pointer: sub8(sp, 3),
        status: Status { status: with_flag(s0.status.status, SR_MASK_INTERRUPT, true) },
        next_pc: s1.next_pc,
        ..s0
    }
    &&& flag(s1.status.status, SR_MASK_INTERRUPT)
    &&& B::quiet(vector) && B::quiet(v1) ==> {
        &&& !B::shares_cell(a_hi, vector) && !B::shares_cell(a_lo, vector) && !B::shares_cell(
            a_p,
            vector,
        ) && !B::shares_cell(a_hi, v1) && !B::shares_cell(a_lo, v1) && !B::shares_cell(a_p, v1)
            ==> s1.next_pc == crate::addressing::peek_word(&bus0, vector)
        &&& B::is_ram(a_p) ==> bus1.peek(a_p) == pushed_status(s0.status.status, brk)
        &&& !B::shares_cell(a_p, a_lo) && !B::shares_cell(a_p, a_hi) ==> pushed_pc(sp, ret, bus1)
    }
}

/// Pushes `pc`, high byte first.
pub fn _push_pc_to_stack<B: Databus>(state: &mut State, bus: &mut B, pc: u16)
    requires
        old(bus).inv(),
    ensures
        final(bus).inv(),
        final(bus).clock() == old(bus).clock(),
        *final(state) == (State { stack_pointer: sub8(old(state).stack_pointer, 2), ..*old(state) }),
        pushed_pc(old(state).stack_pointer, pc, *final(bus)),
        B::is_ram(stack_address(old(state).stack_pointer)) ==> B::quiet(
            stack_address(old(state).stack_pointer),
        ),
        B::is_ram(stack_address(sub8(old(state).stack_pointer, 1))) ==> B::quiet(
            stack_address(sub8(old(state).stack_pointer, 1)),
        ),
        forall|b: u16|
            B::quiet(b) && !B::shares_cell(stack_address(old(state).stack_pointer), b)
                && !B::shares_cell(stack_address(sub8(old(state).stack_pointer, 1)), b)
                ==> #[trigger] final(bus).peek(b) == old(bus).peek(b),
{
    let ghost s0 = state.stack_pointer;
    _push_stack(state, bus, (pc / 256) as u8);
    let ghost mid = *bus;
    _push_stack(state, bus, (pc % 256) as u8);
    proof {
        let a_hi = stack_address(s0);
        if B::is_ram(a_hi) && B::quiet(a_hi) && !B::shares_cell(stack_address(sub8(s0, 1)), a_hi) {
            assert(final_peek_eq(bus, &mid, a_hi));
        }
    }
}

spec fn final_peek_eq<B: Databus>(a: &B, b: &B, address: u16) -> bool {
    a.peek(address) == b.peek(address)
}

/// Pulls a 16-bit word, low byte first.
pub fn _pull_pc_from_stack<B: Databus>(state: &mut State, bus: &mut B) -> (r: u16)
    requires
        old(bus).inv(),
    ensures
        final(bus).inv(),
        final(bus).clock() == old(bus).clock(),
        *final(state) == (State { stack_pointer: add8(old(state).stack_pointer, 2), ..*old(state) }),
        ({
            let a_lo = stack_address(add8(old(state).stack_pointer, 1));
            let a_hi = stack_address(add8(old(state).stack_pointer, 2));
            B::quiet(a_lo) && B::quiet(a_hi) ==> r == word(old(bus).peek(a_lo), old(bus).peek(a_hi))
                && *final(bus) == *old(bus)
        }),
{
    let lo = _pull_stack(state, bus);
    let hi = _pull_stack(state, bus);
    hi as u16 * 256 + lo as u16
}

/// Pulls a status byte as PLP and RTI see it.
pub fn _pull_status_from_stack<B: Databus>(state: &mut State, bus: &mut B) -> (r: u8)
    requires
        old(bus).inv(),
    ensures
        final(bus).inv(),
        final(bus).clock() == old(bus).clock(),
        *final(state) == (State { stack_pointer: add8(old(state).stack_pointer, 1), ..*old(state) }),
        B::quiet(stack_address(add8(old(state).stack_pointer, 1))) ==> r == pulled_status(
            old(state).status.status,
            old(bus).peek(stack_address(add8(old(state).stack_pointer, 1))),
        ) && *final(bus) == *old(bus),
{
    let current = state.status.status;
    let pulled = _pull_stack(state, bus);
    (pulled & 0xCF) | (current & 0x30)
}

/// Pushes `return_address` and the status (Break set for BRK only, Unused
/// always), sets InterruptDisable and jumps through `interrupt_vector`.
pub fn _handle_interrupt<B: Databus>(
    state: &mut State,
    bus: &mut B,
    interrupt_vector: u16,
    break_flag: bool,
    return_address: u16,
)
    requires
        old(bus).inv(),
    ensures
        final(bus).inv(),
        final(bus).clock() == old(bus).clock(),
        final(state).program_counter == old(state).program_counter,
        interrupt_post(
            *old(state),
            *old(bus),
            interrupt_vector,
            break_flag,
            return_address,
            *final(state),
            *final(bus),
        ),
{
    let ghost b0 = *bus;
    let ghost sp = state.stack_pointer;
    _push_pc_to_stack(state, bus, return_address);
    let ghost b1 = *bus;
    let mut status = *state.get_status_ref();
    status.set(SR_MASK_BREAK, break_flag);
    status.set(SR_MASK_B_FLAG, true);
    _push_stack(state, bus, status.get_as_u8());
    let ghost b2 = *bus;
    state.set_status_field(SR_MASK_INTERRUPT, true);
    proof {
        crate::state::lemma_with_flag(old(state).status.status, SR_MASK_INTERRUPT, true);
    }
    let v = bus.read_u16(interrupt_vector);
    state.set_next_pc(v);
    proof {
        let a_hi = stack_address(sp);
        let a_lo = stack_address(sub8(sp, 1));
        let a_p = stack_address(sub8(sp, 2));
        let v0 = interrupt_vector;
        let v1 = add16(interrupt_vector, 1);
        if B::quiet(v0) && B::quiet(v1) {
            if !B::shares_cell(a_hi, v0) && !B::shares_cell(a_lo, v0) && !B::shares_cell(a_p, v0)
                && !B::shares_cell(a_hi, v1) && !B::shares_cell(a_lo, v1) && !B::shares_cell(a_p, v1) {
                assert(b2.peek(v0) == b1.peek(v0));
                assert(b1.peek(v0) == b0.peek(v0));
                assert(b2.peek(v1) == b1.peek(v1));
                assert(b1.peek(v1) == b0.peek(v1));
            }
            if !B::shares_cell(a_p, a_lo) && !B::shares_cell(a_p, a_hi) {
                if B::is_ram(a_lo) {
                    assert(B::quiet(a_lo));
                    assert(b2.peek(a_lo) == b1.peek(a_lo));
                }
                if B::is_ram(a_hi) && B::quiet(a_hi) {
                    assert(b2.peek(a_hi) == b1.peek(a_hi));
                }
            }
        }
    }
}

/// Operations that may move the PC elsewhere than the next instruction.
#[verifier::opaque]
pub open spec fn is_control(op: Operation) -> bool {
    is_branch_op(op) || match op {
        Operation::JMP | Operation::JSR | Operation::RTS | Operation::RTI | Operation::BRK
        | Operation::INTERNAL_IRQ | Operation::INTERNAL_NMI => true,
        _ => false,
    }
}

#[verifier::opaque]
pub open spec fn is_interrupt(op: Operation) -> bool {
    match op {
        Operation::BRK | Operation::INTERNAL_IRQ | Operation::INTERNAL_NMI => true,
        _ => false,
    }
}

/// Facts of the opcode table that execution relies on.
pub open spec fn wf_opcode(o: Opcode) -> bool {
    &&& is_branch_op(o.operation) ==> o.mode == AddressingMode::Relative
    &&& o.operation == Operation::JSR ==> o.mode == AddressingMode::Absolute
    &&& (o.operation == Operation::INTERNAL_IRQ || o.operation == Operation::INTERNAL_NMI) ==> o.size
        == 0
    &&& o.operation == Operation::BRK ==> o.size == 1
    &&& 1 <= o.cycles <= 7
    &&& 1 <= o.size <= 3 || o.operation == Operation::INTERNAL_IRQ || o.operation
        == Operation::INTERNAL_NMI
}

/// Runs a value operation: one value (immediate, from memory or none)
/// into the registers.
fn _value_op<B: Databus>(op: Operation, state: &mut State, bus: &mut B, ea: u16)
    requires
        old(bus).inv(),
        is_value_op(op),
    ensures
        final(bus).inv(),
        final(bus).clock() == old(bus).clock(),
        !reads_memory(op) ==> *final(state) == apply_value(op, *old(state), (ea % 256) as u8)
            && *final(bus) == *old(bus),
        reads_memory(op) && B::quiet(ea) ==> *final(state) == apply_value(
            op,
            *old(state),
            old(bus).peek(ea),
        ) && *final(bus) == *old(bus),
        final(state).program_counter == old(state).program_counter,
        final(state).next_pc == old(state).next_pc,
{
    proof {
        reveal(is_value_op);
        reveal(reads_memory);
        reveal(apply_value);
    }
    match op {
        Operation::ADC_IMM => _adc(state, (ea % 256) as u8),
        Operation::ADC_MEM => {
            let m = bus.read(ea);
            _adc(state, m);
        },
        Operation::SBC_IMM => _sbc(state, (ea % 256) as u8),
        Operation::SBC_MEM => {
            let m = bus.read(ea);
            _sbc(state, m);
        },
        Operation::AND_IMM | Operation::AND_MEM => {
            let m = if op == Operation::AND_MEM {
                bus.read(ea)
            } else {
                (ea % 256) as u8
            };
            state.acc = state.acc & m;
            state.set_nz(state.acc);
        },
        Operation::EOR_IMM | Operation::EOR_MEM => {
            let m = if op == Operation::EOR_MEM {
                bus.read(ea)
            } else {
                (ea % 256) as u8
            };
            state.acc = state.acc ^ m;
            state.set_nz(state.acc);
        },
        Operation::ORA_IMM | Operation::ORA_MEM => {
            let m = if op == Operation::ORA_MEM {
                bus.read(ea)
            } else {
                (ea % 256) as u8
            };
            state.acc = state.acc | m;
            state.set_nz(state.acc);
        },
        Operation::LDA_IMM | Operation::LDA_MEM => {
            let m = if op == Operation::LDA_MEM {
                bus.read(ea)
            } else {
                (ea % 256) as u8
            };
            state.acc = m;
            state.set_nz(m);
        },
        Operation::LDX_IMM | Operation::LDX_MEM => {
            let m = if op == Operation::LDX_MEM {
                bus.read(ea)
            } else {
                (ea % 256) as u8
            };
            state.x = m;
            state.set_nz(m);
        },
        Operation::LDY_IMM | Operation::LDY_MEM => {
            let m = if op == Operation::LDY_MEM {
                bus.read(ea)
            } else {
                (ea % 256) as u8
            };
            state.y = m;
            state.set_nz(m);
        },
        Operation::CMP_IMM | Operation::CMP_MEM => {
            let m = if op == Operation::CMP_MEM {
                bus.read(ea)
            } else {
                (ea % 256) as u8
            };
            let a = state.acc;
            _compare(state, m, a);
        },
        Operation::CPX_IMM | Operation::CPX_MEM => {
            let m = if op == Operation::CPX_MEM {
                bus.read(ea)
            } else {
                (ea % 256) as u8
            };
            let x = state.x;
            _compare(state, m, x);
        },
        Operation::CPY_IMM | Operation::CPY_MEM => {
            let m = if op == Operation::CPY_MEM {
                bus.read(ea)
            } else {
                (ea % 256) as u8
            };
            let y = state.y;
            _compare(state, m, y);
        },
        Operation::BIT => {
            let m = bus.read(ea);
            _bit(state, m);
        },
        Operation::ASL_ACC | Operation::LSR_ACC | Operation::ROL_ACC | Operation::ROR_ACC => {
            let a = state.acc;
            let r = _shift(state, op, a);
            state.acc = r;
        },
        Operation::CLC => state.set_status_field(SR_MASK_CARRY, false),
        Operation::CLD => state.set_status_field(SR_MASK_DECIMAL, false),
        Operation::CLI => state.set_status_field(SR_MASK_INTERRUPT, false),
        Operation::CLV => state.set_status_field(SR_MASK_OVERFLOW, false),
        Operation::SEC => state.set_status_field(SR_MASK_CARRY, true),
        Operation::SED => state.set_status_field(SR_MASK_DECIMAL, true),
        Operation::SEI => state.set_status_field(SR_MASK_INTERRUPT, true),
        Operation::DEX => {
            state.x = state.x.wrapping_sub(1);
            state.set_nz(state.x);
        },
        Operation::DEY => {
            state.y = state.y.wrapping_sub(1);
            state.set_nz(state.y);
        },
        Operation::INX => {
            state.x = state.x.wrapping_add(1);
            state.set_nz(state.x);
        },
        Operation::INY => {
            state.y = state.y.wrapping_add(1);
            state.set_nz(state.y);
        },
        Operation::TAX => {
            state.x = state.acc;
            state.set_nz(state.x);
        },
        Operation::TAY => {
            state.y = state.acc;
            state.set_nz(state.y);
        },
        Operation::TSX => {
            state.x = state.stack_pointer;
            state.set_nz(state.x);
        },
        Operation::TXA => {
            state.acc = state.x;
            state.set_nz(state.acc);
        },
        Operation::TXS => {
            state.stack_pointer = state.x;
        },
        Operation::TYA => {
            state.acc = state.y;
            state.set_nz(state.acc);
        },
        Operation::NOP | Operation::UNKNOWN => {},
        _ => {},
    }
}

/// Runs a store or a read-modify-write operation at `ea`.
fn _memory_op<B: Databus>(op: Operation, state: &mut State, bus: &mut B, ea: u16)
    requires
        old(bus).inv(),
        is_rmw(op) || is_store(op),
    ensures
        final(bus).inv(),
        final(bus).clock() == old(bus).clock(),
        final(state).program_counter == old(state).program_counter,
        final(state).next_pc == old(state).next_pc,
        is_rmw(op) && B::quiet(ea) && B::is_ram(ea) ==> final(bus).peek(ea) == rmw_value(
            op,
            *old(state),
            old(bus).peek(ea),
        ) && *final(state) == rmw_state(op, *old(state), old(bus).peek(ea)),
        is_store(op) && B::is_ram(ea) ==> final(bus).peek(ea) == store_value(op, *old(state))
            && *final(state) == *old(state),
{
    proof {
        reveal(is_rmw);
        reveal(is_store);
    }
    match op {
        Operation::ASL_MEM | Operation::LSR_MEM | Operation::ROL_MEM | Operation::ROR_MEM => {
            let m = bus.read(ea);
            let r = _shift(state, op, m);
            bus.write(ea, r);
        },
        Operation::INC | Operation::DEC => {
            let m = bus.read(ea);
            let r = if op == Operation::INC {
                m.wrapping_add(1)
            } else {
                m.wrapping_sub(1)
            };
            bus.write(ea, r);
            state.set_nz(r);
        },
        Operation::STA => bus.write(ea, state.acc),
        Operation::STX => bus.write(ea, state.x),
        Operation::STY => bus.write(ea, state.y),
        _ => {},
    }
}

/// Runs PHA, PHP, PLA or PLP.
fn _stack_op<B: Databus>(op: Operation, state: &mut State, bus: &mut B)
    requires
        old(bus).inv(),
        op == Operation::PHA || op == Operation::PHP || op == Operation::PLA || op
            == Operation::PLP,
    ensures
        final(bus).inv(),
        final(bus).clock() == old(bus).clock(),
        final(state).program_counter == old(state).program_counter,
        final(state).next_pc == old(state).next_pc,
        ({
            let sp = old(state).stack_pointer;
            let pushed = if op == Operation::PHA {
                old(state).acc
            } else {
                old(state).status.status | SR_MASK_BREAK | SR_MASK_B_FLAG
            };
            let top = stack_address(add8(sp, 1));
            &&& (op == Operation::PHA || op == Operation::PHP) ==> {
                &&& *final(state) == (State { stack_pointer: sub8(sp, 1), ..*old(state) })
                &&& B::is_ram(stack_address(sp)) ==> final(bus).peek(stack_address(sp)) == pushed
            }
            &&& op == Operation::PLA && B::quiet(top) ==> *final(state) == nz(
                State { acc: old(bus).peek(top), stack_pointer: add8(sp, 1), ..*old(state) },
                old(bus).peek(top),
            )
            &&& op == Operation::PLP && B::quiet(top) ==> *final(state) == (State {
                status: Status { status: pulled_status(old(state).status.status, old(bus).peek(top)) },
                stack_pointer: add8(sp, 1),
                ..*old(state)
            })
        }),
{
    match op {
        Operation::PHA => _push_stack(state, bus, state.acc),
        Operation::PHP => {
            let p = state.status.status | SR_MASK_BREAK | SR_MASK_B_FLAG;
            _push_stack(state, bus, p);
        },
        Operation::PLA => {
            let v = _pull_stack(state, bus);
            state.acc = v;
            state.set_nz(v);
        },
        Operation::PLP => {
            let p = _pull_status_from_stack(state, bus);
            state.set_status(Status::from_u8(p));
        },
        _ => {},
    }
}

/// Runs a branch, jump, return or interrupt: these set the next PC.
fn _control_op<B: Databus>(op: Operation, state: &mut State, bus: &mut B, ea: u16)
    requires
        old(bus).inv(),
        is_control(op),
    ensures
        final(bus).inv(),
        final(bus).clock() == old(bus).clock(),
        final(state).program_counter == old(state).program_counter,
        is_branch_op(op) ==> *final(bus) == *old(bus) && *final(state) == if branch_taken(
            op,
            old(state).status.status,
        ) {
            State { next_pc: ea, ..*old(state) }
        } else {
            *old(state)
        },
        op == Operation::JMP ==> *final(bus) == *old(bus) && *final(state) == (State {
            next_pc: ea,
            ..*old(state)
        }),
        op == Operation::JSR ==> jsr_post(*old(state), ea, *final(state), *final(bus)),
        op == Operation::RTS ==> rts_post(*old(state), *old(bus), *final(state), *final(bus)),
        op == Operation::RTI ==> rti_post(*old(state), *old(bus), *final(state), *final(bus)),
        is_interrupt(op) ==> interrupt_post(
            *old(state),
            *old(bus),
            vector_of(op),
            op == Operation::BRK,
            interrupt_return(op, old(state).next_pc),
            *final(state),
            *final(bus),
        ),
{
    proof {
        reveal(is_control);
        reveal(is_branch_op);
        reveal(is_interrupt);
        reveal(branch_taken);
    }
    match op {
        Operation::BCC | Operation::BCS | Operation::BEQ | Operation::BMI | Operation::BNE
        | Operation::BPL | Operation::BVC | Operation::BVS => {
            let o = Opcode::new(op, AddressingMode::Relative, 2, 2, false);
            if o.will_branch(state) {
                state.set_next_pc(ea);
            }
        },
        Operation::JMP => state.set_next_pc(ea),
        Operation::JSR => {
            let ret = state.next_pc.wrapping_sub(1);
            _push_pc_to_stack(state, bus, ret);
            state.set_next_pc(ea);
        },
        Operation::RTS => {
            let pc = _pull_pc_from_stack(state, bus);
            state.set_next_pc(pc.wrapping_add(1));
        },
        Operation::RTI => {
            let p = _pull_status_from_stack(state, bus);
            state.set_status(Status::from_u8(p));
            let pc = _pull_pc_from_stack(state, bus);
            state.set_next_pc(pc);
        },
        Operation::BRK => {
            let ret = state.next_pc.wrapping_add(1);
            _handle_interrupt(state, bus, IRQ_VECTOR_ADDRESS, true, ret);
        },
        Operation::INTERNAL_IRQ => {
            let ret = state.next_pc;
            _handle_interrupt(state, bus, IRQ_VECTOR_ADDRESS, false, ret);
        },
        Operation::INTERNAL_NMI => {
            let ret = state.next_pc;
            _handle_interrupt(state, bus, NMI_VECTOR_ADDRESS, false, ret);
        },
        _ => {},
    }
}

/// Runs `op` with effective address (or immediate value) `ea`, against a
/// state whose next PC is already latched.
fn _perform<B: Databus>(op: Operation, state: &mut State, bus: &mut B, ea: u16)
    requires
        old(bus).inv(),
    ensures
        final(bus).inv(),
        final(bus).clock() == old(bus).clock(),
        final(state).program_counter == old(state).program_counter,
        is_value_op(op) || is_rmw(op) || is_store(op) ==> final(state).next_pc == old(state).next_pc,
        !is_control(op) ==> final(state).next_pc == old(state).next_pc,
        is_value_op(op) && !reads_memory(op) ==> *final(state) == apply_value(
            op,
            *old(state),
            (ea % 256) as u8,
        ) && *final(bus) == *old(bus),
        reads_memory(op) && B::quiet(ea) ==> *final(state) == apply_value(
            op,
            *old(state),
            old(bus).peek(ea),
        ) && *final(bus) == *old(bus),
        is_rmw(op) && B::quiet(ea) && B::is_ram(ea) ==> final(bus).peek(ea) == rmw_value(
            op,
            *old(state),
            old(bus).peek(ea),
        ) && *final(state) == rmw_state(op, *old(state), old(bus).peek(ea)),
        is_store(op) && B::is_ram(ea) ==> final(bus).peek(ea) == store_value(op, *old(state))
            && *final(state) == *old(state),
        is_branch_op(op) ==> *final(bus) == *old(bus) && *final(state) == if branch_taken(
            op,
            old(state).status.status,
        ) {
            State { next_pc: ea, ..*old(state) }
        } else {
            *old(state)
        },
        op == Operation::JMP ==> *final(bus) == *old(bus) && *final(state) == (State {
            next_pc: ea,
            ..*old(state)
        }),
        op == Operation::JSR ==> jsr_post(*old(state), ea, *final(state), *final(bus)),
        op == Operation::RTS ==> rts_post(*old(state), *old(bus), *final(state), *final(bus)),
        op == Operation::RTI ==> rti_post(*old(state), *old(bus), *final(state), *final(bus)),
        is_interrupt(op) ==> interrupt_post(
            *old(state),
            *old(bus),
            vector_of(op),
            op == Operation::BRK,
            interrupt_return(op, old(state).next_pc),
            *final(state),
            *final(bus),
        ),
        op == Operation::PHA || op == Operation::PHP || op == Operation::PLA || op
            == Operation::PLP ==> ({
            let sp = old(state).stack_pointer;
            let pushed = if op == Operation::PHA {
                old(state).acc
            } else {
                old(state).status.status | SR_MASK_BREAK | SR_MASK_B_FLAG
            };
            let top = stack_address(add8(sp, 1));
            &&& (op == Operation::PHA || op == Operation::PHP) ==> {
                &&& *final(state) == (State { stack_pointer: sub8(sp, 1), ..*old(state) })
                &&& B::is_ram(stack_address(sp)) ==> final(bus).peek(stack_address(sp)) == pushed
            }
            &&& op == Operation::PLA && B::quiet(top) ==> *final(state) == nz(
                State { acc: old(bus).peek(top), stack_pointer: add8(sp, 1), ..*old(state) },
                old(bus).peek(top),
            )
            &&& op == Operation::PLP && B::quiet(top) ==> *final(state) == (State {
                status: Status { status: pulled_status(old(state).status.status, old(bus).peek(top)) },
                stack_pointer: add8(sp, 1),
                ..*old(state)
            })
        }),
{
    proof {
        reveal(is_value_op);
        reveal(reads_memory);
        reveal(is_rmw);
        reveal(is_store);
        reveal(is_branch_op);
        reveal(is_control);
        reveal(is_interrupt);
    }
    match op {
        Operation::ASL_MEM | Operation::LSR_MEM | Operation::ROL_MEM | Operation::ROR_MEM
        | Operation::INC | Operation::DEC | Operation::STA | Operation::STX | Operation::STY => {
            _memory_op(op, state, bus, ea)
        },
        Operation::PHA | Operation::PHP | Operation::PLA | Operation::PLP => _stack_op(op, state, bus),
        Operation::BCC | Operation::BCS | Operation::BEQ | Operation::BMI | Operation::BNE
        | Operation::BPL | Operation::BVC | Operation::BVS | Operation::JMP | Operation::JSR
        | Operation::RTS | Operation::RTI | Operation::BRK | Operation::INTERNAL_IRQ
        | Operation::INTERNAL_NMI => _control_op(op, state, bus, ea),
        _ => _value_op(op, state, bus, ea),
    }
}


/// `s` with `pc` committed as both PC and next PC.
pub open spec fn committed(s: State, pc: u16) -> State {
    State { program_counter: pc, next_pc: pc, ..s }
}

/// `s` as it was before the PC was committed, with PC `pc`.
pub open spec fn uncommitted(s: State, pc: u16) -> State {
    State { program_counter: pc, ..s }
}

/// `s1` and `bus1` are what running `i` from `before` on `bus0` leaves: the PC
/// moves to the next instruction, a branch or jump target, a return
/// address or an interrupt vector, and the registers and memory change as
/// the operation says.
pub open spec fn executes<B: Databus>(
    i: Instruction,
    before: State,
    bus0: B,
    s1: State,
    bus1: B,
) -> bool {
    let op = i.opcode.operation;
    let mode = i.opcode.mode;
    let next = add16(before.program_counter, i.opcode.size as u16);
    let latched = State { next_pc: next, ..before };
    let quiet_ptr = mode.pointer_reads_quiet::<B>(i.operand, &latched);
    let ea = mode.effective(&latched, &bus0, i.operand);
    let sp = before.stack_pointer;
    &&& !is_control(op) ==> s1.program_counter == next
    &&& is_branch_op(op) ==> s1.program_counter == if branch_taken(
        op,
        before.status.status,
    ) {
        add16(next, sign_extend((i.operand % 256) as u8))
    } else {
        next
    }
    &&& op == Operation::JMP && quiet_ptr ==> s1.program_counter == ea
    &&& op == Operation::JSR ==> s1.program_counter == i.operand
    &&& op == Operation::JSR && quiet_ptr ==> jsr_post(
        latched,
        i.operand,
        uncommitted(s1, before.program_counter),
        bus1,
    )
    &&& op == Operation::RTS && quiet_ptr ==> rts_post(
        latched,
        bus0,
        uncommitted(s1, before.program_counter),
        bus1,
    )
    &&& op == Operation::RTI && quiet_ptr ==> rti_post(
        latched,
        bus0,
        uncommitted(s1, before.program_counter),
        bus1,
    )
    &&& is_interrupt(op) && quiet_ptr ==> interrupt_post(
        latched,
        bus0,
        vector_of(op),
        op == Operation::BRK,
        interrupt_return(op, next),
        uncommitted(s1, before.program_counter),
        bus1,
    )
    &&& is_value_op(op) && !reads_memory(op) && quiet_ptr ==> s1
        == committed(apply_value(op, latched, (ea % 256) as u8), next)
        && bus1 == bus0
    &&& is_value_op(op) && reads_memory(op) && quiet_ptr && B::quiet(ea) ==> s1
        == committed(apply_value(op, latched, bus0.peek(ea)), next)
        && bus1 == bus0
    &&& is_rmw(op) && quiet_ptr && B::quiet(ea) && B::is_ram(ea) ==> bus1.peek(ea)
        == rmw_value(op, latched, bus0.peek(ea)) && s1 == committed(
        rmw_state(op, latched, bus0.peek(ea)),
        next,
    )
    &&& is_store(op) && quiet_ptr && B::is_ram(ea) ==> bus1.peek(ea)
        == store_value(op, before) && s1 == committed(before, next)
    &&& (op == Operation::PHA || op == Operation::PHP) && quiet_ptr ==> {
        &&& s1 == committed(State { stack_pointer: sub8(sp, 1), ..latched }, next)
        &&& B::is_ram(stack_address(sp)) ==> bus1.peek(stack_address(sp)) == if op
            == Operation::PHA {
            before.acc
        } else {
            before.status.status | SR_MASK_BREAK | SR_MASK_B_FLAG
        }
    }
    &&& op == Operation::PLA && quiet_ptr && B::quiet(stack_address(add8(sp, 1))) ==> s1
        == committed(
        nz(
            State { acc: bus0.peek(stack_address(add8(sp, 1))), stack_pointer: add8(sp, 1), ..latched },
            bus0.peek(stack_address(add8(sp, 1))),
        ),
        next,
    )
    &&& op == Operation::PLP && quiet_ptr && B::quiet(stack_address(add8(sp, 1))) ==> s1
        == committed(
        State {
            status: Status {
                status: pulled_status(before.status.status, bus0.peek(stack_address(add8(sp, 1)))),
            },
            stack_pointer: add8(sp, 1),
            ..latched
        },
        next,
    )
}

/// A decoded instruction: its opcode record and operand word.
#[derive(Clone, Copy, Debug, PartialEq, Eq, Structural)]
pub struct Instruction {
    pub opcode: Opcode,
    pub operand: u16,
}

/// The cycles an instruction at `pc` costs: base cycles, one more for a
/// page crossing on a penalty-bearing opcode; for a branch one more when
/// taken and a further one when the target page differs from the page of
/// the next instruction.
pub open spec fn cycle_cost<B: Databus>(i: Instruction, state: &State, bus: &B) -> int {
    let o = i.opcode;
    let next = add16(state.program_counter, o.size as u16);
    let target = add16(next, sign_extend((i.operand % 256) as u8));
    o.cycles + if is_branch_op(o.operation) {
        if branch_taken(o.operation, state.status.status) {
            if next / 256 != target / 256 {
                2int
            } else {
                1
            }
        } else {
            0
        }
    } else if o.page_boundary_penalty && o.mode.crosses(state, bus, i.operand) {
        1
    } else {
        0
    }
}

/// The operand a decode at `address` reads after the opcode byte.
pub open spec fn decoded_operand<B: Databus>(bus: &B, address: u16, size: u8) -> u16 {
    if size == 2 {
        bus.peek(add16(address, 1)) as u16
    } else if size == 3 {
        word(bus.peek(add16(address, 1)), bus.peek(add16(address, 2)))
    } else {
        0
    }
}

impl Instruction {
    pub open spec fn wf(&self) -> bool {
        wf_opcode(self.opcode)
    }

    pub fn new(opcode: Opcode, operand: u16) -> (r: Instruction)
        ensures
            r.opcode == opcode,
            r.operand == operand,
    {
        Instruction { opcode, operand }
    }

    /// Runs the instruction: latches `next_PC = PC + size`, evaluates the
    /// addressing mode, performs the operation, and commits the PC.
    #[verifier::rlimit(40)]
    pub fn execute<B: Databus>(&self, state: &mut State, bus: &mut B)
        requires
            self.wf(),
            old(bus).inv(),
        ensures
            final(bus).inv(),
            final(bus).clock() == old(bus).clock(),
            final(state).program_counter == final(state).next_pc,
            executes(*self, *old(state), *old(bus), *final(state), *final(bus)),
    {
        let next = state.program_counter.wrapping_add(self.opcode.size as u16);
        state.set_next_pc(next);
        let ea = self.opcode.mode.eval(state, bus, self.operand);
        _perform(self.opcode.operation, state, bus, ea);
        state.update_pc();
    }

    /// Cycles this instruction costs when it runs from `state`.
    pub fn calculate_cycle_cost<B: Databus>(&self, state: &State, bus: &mut B) -> (r: u8)
        requires
            self.wf(),
            old(bus).inv(),
        ensures
            final(bus).inv(),
            final(bus).clock() == old(bus).clock(),
            self.opcode.mode.pointer_reads_quiet::<B>(self.operand, state) ==> r == cycle_cost(
                *self,
                state,
                old(bus),
            ) && *final(bus) == *old(bus),
            self.opcode.cycles <= r <= self.opcode.cycles + 2,
    {
        let mut cost = self.opcode.cycles;
        if self.opcode.is_branch() {
            if self.opcode.will_branch(state) {
                let next = state.program_counter.wrapping_add(self.opcode.size as u16);
                let b = (self.operand % 256) as u8;
                let offset: u16 = if b < 128 {
                    b as u16
                } else {
                    b as u16 + 0xFF00
                };
                let target = next.wrapping_add(offset);
                if next / 256 != target / 256 {
                    cost = cost + 2;
                } else {
                    cost = cost + 1;
                }
            }
        } else if self.opcode.page_boundary_penalty {
            if self.opcode.mode.crossing_page_boundry(state, bus, self.operand) {
                cost = cost + 1;
            }
        }
        cost
    }

    pub fn get_size(&self) -> (r: u8)
        ensures
            r == self.opcode.size,
    {
        self.opcode.size
    }

    /// The instruction as `MNEMONIC OPERAND`.
    pub fn format(&self) -> (r: String)
        ensures
            r@ == mnemonic(self.opcode.operation) + seq![' '] + self.opcode.mode.operand_text(
                self.operand,
            ),
    {
        proof {
            reveal_strlit(" ");
        }
        let mut s = String::from_str(self.opcode.operation.as_str());
        let ghost head = s@;
        s.append(" ");
        let text = self.opcode.mode.format(self.operand);
        s.append(text.as_str());
        assert(s@ == head + seq![' '] + self.opcode.mode.operand_text(self.operand));
        s
    }
}

/// The synthetic instruction that services a hardware IRQ.
pub fn irq_instruction() -> (r: Instruction)
    ensures
        r.wf(),
        r == crate::cpu::irq_instruction_spec(),
        r.opcode.operation == Operation::INTERNAL_IRQ,
        r.opcode.cycles == 7,
        r.opcode.size == 0,
{
    proof {
        reveal(is_branch_op);
    }
    Instruction {
        opcode: Opcode {
            operation: Operation::INTERNAL_IRQ,
            mode: AddressingMode::Unknown,
            size: 0,
            cycles: 7,
            page_boundary_penalty: false,
        },
        operand: 0,
    }
}

/// The synthetic instruction that services an NMI.
pub fn nmi_instruction() -> (r: Instruction)
    ensures
        r.wf(),
        r == crate::cpu::nmi_instruction_spec(),
        r.opcode.operation == Operation::INTERNAL_NMI,
        r.opcode.cycles == 7,
        r.opcode.size == 0,
{
    proof {
        reveal(is_branch_op);
    }
    Instruction {
        opcode: Opcode {
            operation: Operation::INTERNAL_NMI,
            mode: AddressingMode::Unknown,
            size: 0,
            cycles: 7,
            page_boundary_penalty: false,
        },
        operand: 0,
    }
}

/// Decodes the instruction at `address`: the opcode byte, then `size - 1`
/// operand bytes, little-endian.
pub fn decode_instruction<B: Databus>(bus: &mut B, address: u16) -> (r: Instruction)
    requires
        old(bus).inv(),
    ensures
        final(bus).inv(),
        final(bus).clock() == old(bus).clock(),
        r.wf(),
        r.opcode.operation != Operation::INTERNAL_IRQ && r.opcode.operation
            != Operation::INTERNAL_NMI,
        B::quiet(address) && B::quiet(add16(address, 1)) && B::quiet(add16(address, 2)) ==> {
            &&& r.opcode == opcode_table(old(bus).peek(address))
            &&& r.operand == decoded_operand(old(bus), address, r.opcode.size)
            &&& *final(bus) == *old(bus)
        },
{
    let b = bus.read(address);
    let opcode = lookup_opcode(b);
    let operand: u16 = if opcode.size == 2 {
        bus.read(address.wrapping_add(1)) as u16
    } else if opcode.size == 3 {
        let lo = bus.read(address.wrapping_add(1));
        let hi = bus.read(address.wrapping_add(2));
        hi as u16 * 256 + lo as u16
    } else {
        0
    };
    Instruction::new(opcode, operand)
}


/// Pushing a byte and then pulling returns that byte and restores S (and
/// the whole register state), wherever the stack slot is RAM.
pub proof fn lemma_push_pull<B: Databus>(
    s0: State,
    bus0: B,
    b: u8,
    s1: State,
    bus1: B,
    r: u8,
    s2: State,
    bus2: B,
)
    requires
        B::is_ram(stack_address(s0.stack_pointer)),
        push_post(s0, bus0, b, s1, bus1),
        pull_post(s1, bus1, r, s2, bus2),
    ensures
        r == b,
        s2 == s0,
{
    assert(add8(sub8(s0.stack_pointer, 1), 1) == s0.stack_pointer);
}

/// ADC of M followed by SBC of the same M, with the carry going into the
/// SBC set to the opposite of the carry that went into the ADC, gives back
/// A. (With carry-in clear, that is the usual SEC before SBC.)
pub proof fn lemma_adc_sbc_inverse(s: State, m: u8)
    ensures
        ({
            let s1 = adc_spec(s, m);
            let s2 = with_p(
                s1,
                with_flag(s1.status.status, SR_MASK_CARRY, !flag(s.status.status, SR_MASK_CARRY)),
            );
            sbc_spec(s2, m).acc == s.acc
        }),
{
    let s1 = adc_spec(s, m);
    let p2 = with_flag(s1.status.status, SR_MASK_CARRY, !flag(s.status.status, SR_MASK_CARRY));
    crate::state::lemma_with_flag(s1.status.status, SR_MASK_CARRY, !flag(s.status.status, SR_MASK_CARRY));
    let c = carry_in(s);
    let sum = s.acc as int + m as int + c;
    let res = sum % 256;
    assert(s1.acc == res);
    let s2 = with_p(s1, p2);
    assert(carry_in(s2) == 1 - c);
    assert((res + (255 - m) + (1 - c)) % 256 == s.acc as int);
}

} // verus!
