use vstd::prelude::*;
use vstd::string::StringExecFns;
use crate::databus::Databus;
use crate::state::{add16, add8, State};

verus! {

/// The 6502 addressing modes.
#[derive(Clone, Copy, Debug, PartialEq, Eq, Structural)]
pub enum AddressingMode {
    Unknown,
    Implied,
    Immediate,
    Absolute,
    AbsoluteIndexedX,
    AbsoluteIndexedY,
    Zeropage,
    ZeropageIndexedX,
    ZeropageIndexedY,
    Relative,
    Accumulator,
    Indirect,
    IndexedIndirectX,
    IndirectIndexedY,
}

/// Little-endian word from two bytes.
pub open spec fn word(lo: u8, hi: u8) -> u16 {
    (hi as int * 256 + lo as int) as u16
}

/// A signed byte as a 16-bit two's complement offset.
pub open spec fn sign_extend(b: u8) -> u16 {
    if b < 128 {
        b as u16
    } else {
        (b as int + 0xFF00) as u16
    }
}

/// True when `base` and `base + index` lie in different pages.
pub open spec fn page_crossed(base: u16, index: u8) -> bool {
    base / 256 != add16(base, index as u16) / 256
}

/// The word at `address` as the bus shows it, high byte from `address + 1`.
pub open spec fn peek_word<B: Databus>(bus: &B, address: u16) -> u16 {
    word(bus.peek(address), bus.peek(add16(address, 1)))
}

/// The word at zero-page `pointer`, high byte at `pointer + 1` mod 256.
pub open spec fn peek_zp_word<B: Databus>(bus: &B, pointer: u8) -> u16 {
    word(bus.peek(pointer as u16), bus.peek(add8(pointer, 1) as u16))
}

/// The word `JMP (operand)` jumps to: with the low byte at `0xFF`, the high
/// byte comes from the start of the same page.
pub open spec fn peek_indirect<B: Databus>(bus: &B, operand: u16) -> u16 {
    let hi_address = if operand % 256 == 0xFF {
        (operand - 0xFF) as u16
    } else {
        add16(operand, 1)
    };
    word(bus.peek(operand), bus.peek(hi_address))
}

impl AddressingMode {
    /// Bytes of operand that follow the opcode.
    pub open spec fn operand_len(self) -> nat {
        match self {
            AddressingMode::Immediate | AddressingMode::Zeropage
            | AddressingMode::ZeropageIndexedX | AddressingMode::ZeropageIndexedY
            | AddressingMode::Relative | AddressingMode::IndexedIndirectX
            | AddressingMode::IndirectIndexedY => 1,
            AddressingMode::Absolute | AddressingMode::AbsoluteIndexedX
            | AddressingMode::AbsoluteIndexedY | AddressingMode::Indirect => 2,
            _ => 0,
        }
    }

    /// The addresses the mode reads to find its operand.
    pub open spec fn pointer_reads_quiet<B: Databus>(self, operand: u16, state: &State) -> bool {
        match self {
            AddressingMode::Indirect => B::quiet(operand) && B::quiet(
                if operand % 256 == 0xFF {
                    (operand - 0xFF) as u16
                } else {
                    add16(operand, 1)
                },
            ),
            AddressingMode::IndexedIndirectX => {
                let p = add8((operand % 256) as u8, state.x);
                B::quiet(p as u16) && B::quiet(add8(p, 1) as u16)
            },
            AddressingMode::IndirectIndexedY => B::quiet(((operand % 256) as u8) as u16) && B::quiet(
                add8((operand % 256) as u8, 1) as u16,
            ),
            _ => true,
        }
    }

    /// Effective address (or immediate value) of the mode.
    pub open spec fn effective<B: Databus>(self, state: &State, bus: &B, operand: u16) -> u16 {
        match self {
            AddressingMode::Immediate => operand % 256,
            AddressingMode::Relative => add16(state.next_pc, sign_extend((operand % 256) as u8)),
            AddressingMode::Absolute => operand,
            AddressingMode::AbsoluteIndexedX => add16(operand, state.x as u16),
            AddressingMode::AbsoluteIndexedY => add16(operand, state.y as u16),
            AddressingMode::Zeropage => operand % 256,
            AddressingMode::ZeropageIndexedX => add8((operand % 256) as u8, state.x) as u16,
            AddressingMode::ZeropageIndexedY => add8((operand % 256) as u8, state.y) as u16,
            AddressingMode::Indirect => peek_indirect(bus, operand),
            AddressingMode::IndexedIndirectX => peek_zp_word(bus, add8((operand % 256) as u8, state.x)),
            AddressingMode::IndirectIndexedY => add16(
                peek_zp_word(bus, (operand % 256) as u8),
                state.y as u16,
            ),
            _ => 0,
        }
    }

    /// Whether indexing crosses a page (indexed absolute and indirect-Y).
    pub open spec fn crosses<B: Databus>(self, state: &State, bus: &B, operand: u16) -> bool {
        match self {
            AddressingMode::AbsoluteIndexedX => page_crossed(operand, state.x),
            AddressingMode::AbsoluteIndexedY => page_crossed(operand, state.y),
            AddressingMode::IndirectIndexedY => page_crossed(
                peek_zp_word(bus, (operand % 256) as u8),
                state.y,
            ),
            _ => false,
        }
    }

    /// Evaluates the mode: the effective address, or the value itself for
    /// Immediate. When the pointer reads are quiet the bus is unchanged.
    #[verifier::rlimit(30)]
    pub fn eval<B: Databus>(&self, state: &State, bus: &mut B, operand: u16) -> (r: u16)
        requires
            old(bus).inv(),
        ensures
            final(bus).inv(),
            final(bus).clock() == old(bus).clock(),
            self.pointer_reads_quiet::<B>(operand, state) ==> r == self.effective(
                state,
                old(bus),
                operand,
            ) && *final(bus) == *old(bus),
    {
        match *self {
            AddressingMode::Immediate => operand % 256,
            AddressingMode::Relative => {
                let b = (operand % 256) as u8;
                let offset: u16 = if b < 128 {
                    b as u16
                } else {
                    b as u16 + 0xFF00
                };
                state.next_pc.wrapping_add(offset)
            },
            AddressingMode::Absolute => operand,
            AddressingMode::AbsoluteIndexedX => operand.wrapping_add(state.x as u16),
            AddressingMode::AbsoluteIndexedY => operand.wrapping_add(state.y as u16),
            AddressingMode::Zeropage => operand % 256,
            AddressingMode::ZeropageIndexedX => ((operand % 256) as u8).wrapping_add(state.x) as u16,
            AddressingMode::ZeropageIndexedY => ((operand % 256) as u8).wrapping_add(state.y) as u16,
            AddressingMode::Indirect => {
                let lo = bus.read(operand);
                let hi_address = if operand % 256 == 0xFF {
                    operand - 0xFF
                } else {
                    operand.wrapping_add(1)
                };
                let hi = bus.read(hi_address);
                hi as u16 * 256 + lo as u16
            },
            AddressingMode::IndexedIndirectX => {
                let p = ((operand % 256) as u8).wrapping_add(state.x);
                read_zp_word(bus, p)
            },
            AddressingMode::IndirectIndexedY => {
                let base = read_zp_word(bus, (operand % 256) as u8);
                base.wrapping_add(state.y as u16)
            },
            _ => 0,
        }
    }

    /// Whether the indexed access crosses a page boundary, which costs a
    /// cycle on penalty-bearing opcodes.
    pub fn crossing_page_boundry<B: Databus>(&self, state: &State, bus: &mut B, operand: u16) -> (r:
        bool)
        requires
            old(bus).inv(),
        ensures
            final(bus).inv(),
            final(bus).clock() == old(bus).clock(),
            self.pointer_reads_quiet::<B>(operand, state) ==> r == self.crosses(
                state,
                old(bus),
                operand,
            ) && *final(bus) == *old(bus),
    {
        match *self {
            AddressingMode::AbsoluteIndexedX => _crossing_page(operand, state.x),
            AddressingMode::AbsoluteIndexedY => _crossing_page(operand, state.y),
            AddressingMode::IndirectIndexedY => {
                let base = read_zp_word(bus, (operand % 256) as u8);
                _crossing_page(base, state.y)
            },
            _ => false,
        }
    }

    /// The operand in standard 6502 syntax.
    pub fn format(&self, operand: u16) -> (r: String)
        ensures
            r@ == self.operand_text(operand),
    {
        proof {
            reveal_strlit("#$");
            reveal_strlit("$");
            reveal_strlit(",X");
            reveal_strlit(",Y");
            reveal_strlit("A");
            reveal_strlit("($");
            reveal_strlit(")");
            reveal_strlit(",X)");
            reveal_strlit("),Y");
            reveal_strlit("##");
        }
        let mut s = String::new();
        match *self {
            AddressingMode::Implied => {},
            AddressingMode::Immediate => {
                s.append("#$");
                push_hex(&mut s, operand, 2);
            },
            AddressingMode::Absolute => {
                s.append("$");
                push_hex(&mut s, operand, 4);
            },
            AddressingMode::AbsoluteIndexedX => {
                s.append("$");
                push_hex(&mut s, operand, 4);
                s.append(",X");
            },
            AddressingMode::AbsoluteIndexedY => {
                s.append("$");
                push_hex(&mut s, operand, 4);
                s.append(",Y");
            },
            AddressingMode::Zeropage | AddressingMode::Relative => {
                s.append("$");
                push_hex(&mut s, operand, 2);
            },
            AddressingMode::ZeropageIndexedX => {
                s.append("$");
                push_hex(&mut s, operand, 2);
                s.append(",X");
            },
            AddressingMode::ZeropageIndexedY => {
                s.append("$");
                push_hex(&mut s, operand, 2);
                s.append(",Y");
            },
            AddressingMode::Accumulator => {
                s.append("A");
            },
            AddressingMode::Indirect => {
                s.append("($");
                push_hex(&mut s, operand, 4);
                s.append(")");
            },
            AddressingMode::IndexedIndirectX => {
                s.append("($");
                push_hex(&mut s, operand, 2);
                s.append(",X)");
            },
            AddressingMode::IndirectIndexedY => {
                s.append("($");
                push_hex(&mut s, operand, 2);
                s.append("),Y");
            },
            AddressingMode::Unknown => {
                s.append("##");
            },
        }
        assert(s@ =~= self.operand_text(operand));
        s
    }

    /// Operand text: `#$nn`, `$nn`, `$nnnn`, `$nnnn,X`, `($nnnn)`,
    /// `($nn,X)`, `($nn),Y`, `A`; nothing for Implied.
    pub open spec fn operand_text(self, operand: u16) -> Seq<char> {
        match self {
            AddressingMode::Implied => seq![],
            AddressingMode::Immediate => seq!['#', '$'] + hex_text(operand as int, 2),
            AddressingMode::Absolute => seq!['$'] + hex_text(operand as int, 4),
            AddressingMode::AbsoluteIndexedX => seq!['$'] + hex_text(operand as int, 4) + seq![
                ',',
                'X',
            ],
            AddressingMode::AbsoluteIndexedY => seq!['$'] + hex_text(operand as int, 4) + seq![
                ',',
                'Y',
            ],
            AddressingMode::Zeropage | AddressingMode::Relative => seq!['$'] + hex_text(
                operand as int,
                2,
            ),
            AddressingMode::ZeropageIndexedX => seq!['$'] + hex_text(operand as int, 2) + seq![
                ',',
                'X',
            ],
            AddressingMode::ZeropageIndexedY => seq!['$'] + hex_text(operand as int, 2) + seq![
                ',',
                'Y',
            ],
            AddressingMode::Accumulator => seq!['A'],
            AddressingMode::Indirect => seq!['(', '$'] + hex_text(operand as int, 4) + seq![')'],
            AddressingMode::IndexedIndirectX => seq!['(', '$'] + hex_text(operand as int, 2)
                + seq![',', 'X', ')'],
            AddressingMode::IndirectIndexedY => seq!['(', '$'] + hex_text(operand as int, 2)
                + seq![')', ',', 'Y'],
            AddressingMode::Unknown => seq!['#', '#'],
        }
    }
}

/// Upper-case hexadecimal digit of `d` in `0..16`.
pub open spec fn hex_digit(d: int) -> char {
    if d < 10 {
        ('0' as int + d) as char
    } else {
        ('A' as int + d - 10) as char
    }
}

/// The low `n` hexadecimal digits of `v`, most significant first.
pub open spec fn hex_text(v: int, n: nat) -> Seq<char>
    decreases n,
{
    if n == 0 {
        seq![]
    } else {
        hex_text(v / 16, (n - 1) as nat).push(hex_digit(v % 16))
    }
}

fn hex_digit_str(d: u16) -> (r: &'static str)
    requires
        d < 16,
    ensures
        r@ == seq![hex_digit(d as int)],
{
    proof {
        reveal_strlit("0");
        reveal_strlit("1");
        reveal_strlit("2");
        reveal_strlit("3");
        reveal_strlit("4");
        reveal_strlit("5");
        reveal_strlit("6");
        reveal_strlit("7");
        reveal_strlit("8");
        reveal_strlit("9");
        reveal_strlit("A");
        reveal_strlit("B");
        reveal_strlit("C");
        reveal_strlit("D");
        reveal_strlit("E");
        reveal_strlit("F");
    }
    match d {
        0 => "0",
        1 => "1",
        2 => "2",
        3 => "3",
        4 => "4",
        5 => "5",
        6 => "6",
        7 => "7",
        8 => "8",
        9 => "9",
        10 => "A",
        11 => "B",
        12 => "C",
        13 => "D",
        14 => "E",
        _ => "F",
    }
}

/// Appends the low `digits` hexadecimal digits of `v`.
pub fn push_hex(s: &mut String, v: u16, digits: u16)
    requires
        digits <= 4,
    ensures
        final(s)@ == old(s)@ + hex_text(v as int, digits as nat),
    decreases digits,
{
    if digits > 0 {
        push_hex(s, v / 16, digits - 1);
        s.append(hex_digit_str(v % 16));
        assert(hex_text(v as int, digits as nat) =~= hex_text((v / 16) as int, (digits - 1) as nat).push(hex_digit((v % 16) as int)));
    }
}

/// Reads the word at zero-page `pointer`, wrapping within page 0.
fn read_zp_word<B: Databus>(bus: &mut B, pointer: u8) -> (r: u16)
    requires
        old(bus).inv(),
    ensures
        final(bus).inv(),
        final(bus).clock() == old(bus).clock(),
        B::quiet(pointer as u16) && B::quiet(add8(pointer, 1) as u16) ==> r == peek_zp_word(
            old(bus),
            pointer,
        ) && *final(bus) == *old(bus),
{
    let lo = bus.read(pointer as u16);
    let hi = bus.read(pointer.wrapping_add(1) as u16);
    hi as u16 * 256 + lo as u16
}

fn _crossing_page(operand: u16, offset: u8) -> (r: bool)
    ensures
        r == page_crossed(operand, offset),
{
    operand / 256 != operand.wrapping_add(offset as u16) / 256
}

} // verus!
