use cnese::bus::NesDatabus;
use cnese::cartridge::create_cartridge_from_ines;
use cnese::cpu::Cpu;
use cnese::databus::Databus;
use cnese::instruction::{
    _adc, _pull_stack, _push_stack, _sbc, decode_instruction, Operation,
};
use cnese::nes::NES;
use cnese::state::{
    State, SR_MASK_BREAK, SR_MASK_CARRY, SR_MASK_INTERRUPT, SR_MASK_NEGATIVE, SR_MASK_OVERFLOW,
    SR_MASK_ZERO,
};

/// One 16 KiB PRG bank holding `program` at $8000, NOPs elsewhere, reset
/// vector $8000, NMI vector $9000, IRQ vector $9100.
fn prg_with(program: &[u8]) -> Vec<u8> {
    let mut prg = vec![0xEAu8; 0x4000];
    prg[..program.len()].copy_from_slice(program);
    prg[0x3FFA] = 0x00;
    prg[0x3FFB] = 0x90;
    prg[0x3FFC] = 0x00;
    prg[0x3FFD] = 0x80;
    prg[0x3FFE] = 0x00;
    prg[0x3FFF] = 0x91;
    prg
}

fn bus_with(program: &[u8]) -> NesDatabus {
    let prg = prg_with(program);
    let chr = vec![0u8; 0x2000];
    let cart = create_cartridge_from_ines(0, &prg, &chr, 0).unwrap();
    NesDatabus::new(cart)
}

fn state_at(pc: u16) -> State {
    let mut state = State::new();
    state.program_counter = pc;
    state.next_pc = pc;
    state.stack_pointer = 0xFD;
    state
}

fn flag(state: &State, mask: u8) -> bool {
    state.get_status_field(mask)
}

#[test]
fn lda_immediate() {
    let mut bus = bus_with(&[0xA9, 0x00]);
    let mut state = state_at(0x8000);
    let inst = decode_instruction(&mut bus, 0x8000);
    assert_eq!(inst.calculate_cycle_cost(&state, &mut bus), 2);
    inst.execute(&mut state, &mut bus);
    assert_eq!(state.acc, 0);
    assert!(flag(&state, SR_MASK_ZERO));
    assert!(!flag(&state, SR_MASK_NEGATIVE));
    assert_eq!(state.program_counter, 0x8002);
}

#[test]
fn adc_with_overflow() {
    let mut bus = bus_with(&[0x69, 0x50]);
    let mut state = state_at(0x8000);
    state.acc = 0x50;
    state.set_status_field(SR_MASK_CARRY, false);
    let inst = decode_instruction(&mut bus, 0x8000);
    inst.execute(&mut state, &mut bus);
    assert_eq!(state.acc, 0xA0);
    assert!(flag(&state, SR_MASK_NEGATIVE));
    assert!(flag(&state, SR_MASK_OVERFLOW));
    assert!(!flag(&state, SR_MASK_ZERO));
    assert!(!flag(&state, SR_MASK_CARRY));
}

#[test]
fn jsr_rts_round_trip() {
    let mut bus = bus_with(&[0x20, 0x34, 0x12]);
    bus.write(0x1234, 0x60);
    let mut state = state_at(0x8000);
    let jsr = decode_instruction(&mut bus, 0x8000);
    assert_eq!(jsr.opcode.operation, Operation::JSR);
    jsr.execute(&mut state, &mut bus);
    assert_eq!(state.program_counter, 0x1234);
    assert_eq!(bus.read(0x01FD), 0x80);
    assert_eq!(bus.read(0x01FC), 0x02);
    assert_eq!(state.stack_pointer, 0xFB);
    let rts = decode_instruction(&mut bus, 0x1234);
    assert_eq!(rts.opcode.operation, Operation::RTS);
    rts.execute(&mut state, &mut bus);
    assert_eq!(state.program_counter, 0x8003);
    assert_eq!(state.stack_pointer, 0xFD);
}

#[test]
fn page_cross_penalty() {
    let mut bus = bus_with(&[0xBD, 0x01, 0x80]);
    let mut state = state_at(0x8000);
    state.acc = 0;
    state.x = 0xFF;
    let inst = decode_instruction(&mut bus, 0x8000);
    assert_eq!(inst.calculate_cycle_cost(&state, &mut bus), 5);
    assert_eq!(inst.opcode.mode.eval(&state, &mut bus, inst.operand), 0x8100);
    inst.execute(&mut state, &mut bus);
    assert_eq!(state.acc, bus.read(0x8100));
    assert_eq!(state.program_counter, 0x8003);
}

#[test]
fn no_page_cross_no_penalty() {
    let mut bus = bus_with(&[0xBD, 0x01, 0x80]);
    let mut state = state_at(0x8000);
    state.x = 0x10;
    let inst = decode_instruction(&mut bus, 0x8000);
    assert_eq!(inst.calculate_cycle_cost(&state, &mut bus), 4);
}

#[test]
fn branch_taken_same_page() {
    let mut bus = bus_with(&[0xF0, 0x05]);
    let mut state = state_at(0x8000);
    state.set_status_field(SR_MASK_ZERO, true);
    let inst = decode_instruction(&mut bus, 0x8000);
    assert_eq!(inst.calculate_cycle_cost(&state, &mut bus), 3);
    inst.execute(&mut state, &mut bus);
    assert_eq!(state.program_counter, 0x8007);
}

#[test]
fn branch_not_taken_and_page_crossing() {
    let mut bus = bus_with(&[0xF0, 0x05]);
    let mut state = state_at(0x8000);
    state.set_status_field(SR_MASK_ZERO, false);
    let inst = decode_instruction(&mut bus, 0x8000);
    assert_eq!(inst.calculate_cycle_cost(&state, &mut bus), 2);
    inst.execute(&mut state, &mut bus);
    assert_eq!(state.program_counter, 0x8002);

    // BNE -4 from $8000 lands on $7FFE: another page.
    let mut bus = bus_with(&[0xD0, 0xFC]);
    let mut state = state_at(0x8000);
    state.set_status_field(SR_MASK_ZERO, false);
    let inst = decode_instruction(&mut bus, 0x8000);
    assert_eq!(inst.calculate_cycle_cost(&state, &mut bus), 4);
    inst.execute(&mut state, &mut bus);
    assert_eq!(state.program_counter, 0x7FFE);
}

#[test]
fn nmi_vector_dispatch() {
    // JMP $8000 forever.
    let prg = prg_with(&[0x4C, 0x00, 0x80]);
    let chr = vec![0u8; 0x2000];
    let cart = create_cartridge_from_ines(0, &prg, &chr, 0).unwrap();
    let mut nes = NES::new(cart);
    nes.reset();
    assert_eq!(nes.get_cpu_state().program_counter, 0x8000);
    // Let the NMI line be seen high, then enable NMI and raise vblank.
    for _ in 0..4 {
        nes.tick();
    }
    nes.databus.write(0x2000, 0x80);
    nes.databus.ppu.ppustatus |= 0x80;
    let mut guard = 0;
    while nes.get_cpu().next_instruction.opcode.operation != Operation::INTERNAL_NMI {
        nes.tick();
        guard += 1;
        assert!(guard < 100);
    }
    assert_eq!(nes.get_cpu().next_instruction_cost, 7);
    let sp = nes.get_cpu_state().stack_pointer;
    let pc = nes.get_cpu_state().program_counter;
    let count = nes.get_cpu().get_cycle_count();
    nes.tick_cpu_instruction();
    let state = nes.get_cpu_state();
    assert_eq!(state.program_counter, 0x9000);
    assert_eq!(state.stack_pointer, sp.wrapping_sub(3));
    assert!(state.get_status_field(SR_MASK_INTERRUPT));
    assert_eq!(nes.get_cpu().get_cycle_count(), count + 7);
    let ret = nes.databus.read(0x0100 + sp as u16) as u16 * 256
        + nes.databus.read(0x0100 + sp.wrapping_sub(1) as u16) as u16;
    assert_eq!(ret, pc);
    let pushed = nes.databus.read(0x0100 + sp.wrapping_sub(2) as u16);
    assert_eq!(pushed & SR_MASK_BREAK, 0);
    assert_eq!(pushed & 0x20, 0x20);
}

#[test]
fn push_then_pull_restores() {
    let mut bus = bus_with(&[]);
    for b in [0u8, 1, 0x7F, 0x80, 0xFF] {
        let mut state = state_at(0x8000);
        state.stack_pointer = 0x00;
        _push_stack(&mut state, &mut bus, b);
        assert_eq!(state.stack_pointer, 0xFF);
        let r = _pull_stack(&mut state, &mut bus);
        assert_eq!(r, b);
        assert_eq!(state.stack_pointer, 0x00);
    }
}

#[test]
fn adc_then_sbc_with_opposite_carry_is_identity() {
    for &(a, m) in &[(0u8, 0u8), (0x50, 0x50), (0xFF, 0x01), (0x80, 0x80), (0x12, 0xF0)] {
        for carry in [false, true] {
            let mut state = State::new();
            state.acc = a;
            state.set_status_field(SR_MASK_CARRY, carry);
            _adc(&mut state, m);
            state.set_status_field(SR_MASK_CARRY, !carry);
            _sbc(&mut state, m);
            assert_eq!(state.acc, a);
        }
    }
}

#[test]
fn sbc_sets_borrow() {
    let mut state = State::new();
    state.acc = 0x10;
    state.set_status_field(SR_MASK_CARRY, true);
    _sbc(&mut state, 0x20);
    assert_eq!(state.acc, 0xF0);
    assert!(!state.get_status_field(SR_MASK_CARRY));
    assert!(state.get_status_field(SR_MASK_NEGATIVE));
}

#[test]
fn compare_and_bit_flags() {
    let mut bus = bus_with(&[0xC9, 0x10, 0x24, 0x10]);
    bus.write(0x0010, 0xC0);
    let mut state = state_at(0x8000);
    state.acc = 0x10;
    let cmp = decode_instruction(&mut bus, 0x8000);
    cmp.execute(&mut state, &mut bus);
    assert!(state.get_status_field(SR_MASK_ZERO));
    assert!(state.get_status_field(SR_MASK_CARRY));
    assert!(!state.get_status_field(SR_MASK_NEGATIVE));
    let bit = decode_instruction(&mut bus, 0x8002);
    bit.execute(&mut state, &mut bus);
    assert!(state.get_status_field(SR_MASK_ZERO));
    assert!(state.get_status_field(SR_MASK_NEGATIVE));
    assert!(state.get_status_field(SR_MASK_OVERFLOW));
}

#[test]
fn indirect_jump_wraps_within_page() {
    let mut bus = bus_with(&[0x6C, 0xFF, 0x02]);
    bus.write(0x02FF, 0x34);
    bus.write(0x0200, 0x12);
    bus.write(0x0300, 0x99);
    let mut state = state_at(0x8000);
    let inst = decode_instruction(&mut bus, 0x8000);
    inst.execute(&mut state, &mut bus);
    assert_eq!(state.program_counter, 0x1234);
}

#[test]
fn indirect_indexed_y_reads_zero_page_pointer() {
    // LDA ($10),Y with the pointer at $10/$11 = $02F0 and Y = $20.
    let mut bus = bus_with(&[0xB1, 0x10]);
    bus.write(0x0010, 0xF0);
    bus.write(0x0011, 0x02);
    bus.write(0x0310, 0x5A);
    let mut state = state_at(0x8000);
    state.y = 0x20;
    let inst = decode_instruction(&mut bus, 0x8000);
    assert_eq!(inst.calculate_cycle_cost(&state, &mut bus), 6);
    inst.execute(&mut state, &mut bus);
    assert_eq!(state.acc, 0x5A);
}

#[test]
fn read_modify_write_and_store() {
    // INC $10; ASL $10; STA $11
    let mut bus = bus_with(&[0xE6, 0x10, 0x06, 0x10, 0x85, 0x11]);
    bus.write(0x0010, 0x7F);
    let mut state = state_at(0x8000);
    state.acc = 0x33;
    for pc in [0x8000u16, 0x8002, 0x8004] {
        let inst = decode_instruction(&mut bus, pc);
        inst.execute(&mut state, &mut bus);
    }
    assert_eq!(bus.read(0x0010), 0x00);
    assert!(state.get_status_field(SR_MASK_CARRY));
    assert!(state.get_status_field(SR_MASK_ZERO));
    assert_eq!(bus.read(0x0811), 0x33);
    assert_eq!(state.program_counter, 0x8006);
}

#[test]
fn brk_pushes_return_and_status() {
    let mut bus = bus_with(&[0x00]);
    let mut prg_state = state_at(0x8000);
    prg_state.set_status_field(SR_MASK_CARRY, true);
    let brk = decode_instruction(&mut bus, 0x8000);
    brk.execute(&mut prg_state, &mut bus);
    assert_eq!(prg_state.program_counter, 0x9100);
    assert!(prg_state.get_status_field(SR_MASK_INTERRUPT));
    let pushed = bus.read(0x01FB);
    assert_eq!(pushed & 0x30, 0x30);
    let ret = bus.read(0x01FD) as u16 * 256 + bus.read(0x01FC) as u16;
    assert_eq!(ret, 0x8002);
}

#[test]
fn unknown_opcode_is_two_cycle_nop() {
    let mut bus = bus_with(&[0x02]);
    let mut state = state_at(0x8000);
    let inst = decode_instruction(&mut bus, 0x8000);
    assert_eq!(inst.opcode.operation, Operation::UNKNOWN);
    assert_eq!(inst.calculate_cycle_cost(&state, &mut bus), 2);
    inst.execute(&mut state, &mut bus);
    assert_eq!(state.program_counter, 0x8001);
}

#[test]
fn cpu_tick_spends_cycles() {
    let mut bus = bus_with(&[0xA9, 0x07, 0xEA]);
    let mut cpu = Cpu::new();
    cpu.reset(&mut bus);
    assert_eq!(cpu.get_state().program_counter, 0x8000);
    assert_eq!(cpu.get_state().stack_pointer, 0xFD);
    assert_eq!(cpu.next_instruction_cost, 2);
    cpu.tick(&mut bus);
    assert_eq!(cpu.get_instruction_count(), 0);
    cpu.tick(&mut bus);
    assert_eq!(cpu.get_instruction_count(), 1);
    assert_eq!(cpu.get_state().acc, 7);
    assert_eq!(cpu.get_state().program_counter, 0x8002);
    assert_eq!(cpu.get_cycle_count(), 2);
}

#[test]
fn irq_respects_interrupt_disable() {
    // CLI; NOP; NOP
    let mut bus = bus_with(&[0x58, 0xEA, 0xEA]);
    let mut cpu = Cpu::new();
    cpu.reset(&mut bus);
    cpu.set_irq_lo();
    cpu.tick_instruction(&mut bus);
    assert_eq!(cpu.next_instruction.opcode.operation, Operation::INTERNAL_IRQ);
    cpu.tick_instruction(&mut bus);
    assert_eq!(cpu.get_state().program_counter, 0x9100);
    // With InterruptDisable set again the line is ignored.
    assert_ne!(cpu.next_instruction.opcode.operation, Operation::INTERNAL_IRQ);
}

#[test]
fn jsr_rts_through_cpu_stepping() {
    let mut bus = bus_with(&[0x20, 0x34, 0x12]);
    bus.write(0x1234, 0x60);
    let mut cpu = Cpu::new();
    cpu.reset(&mut bus);
    assert_eq!(cpu.get_state().stack_pointer, 0xFD);
    assert_eq!(cpu.tick_instruction(&mut bus), 6);
    assert_eq!(cpu.get_state().program_counter, 0x1234);
    assert_eq!(cpu.get_state().stack_pointer, 0xFB);
    assert_eq!(bus.read(0x01FD), 0x80);
    assert_eq!(bus.read(0x01FC), 0x02);
    assert_eq!(cpu.next_instruction.opcode.operation, Operation::RTS);
    cpu.tick_instruction(&mut bus);
    assert_eq!(cpu.get_state().program_counter, 0x8003);
    assert_eq!(cpu.get_state().stack_pointer, 0xFD);
}

#[test]
fn nmi_fires_once_per_edge() {
    let mut bus = bus_with(&[0xEA, 0xEA, 0xEA, 0xEA]);
    let mut cpu = Cpu::new();
    cpu.reset(&mut bus);
    cpu.set_nmi_lo();
    cpu.tick_instruction(&mut bus);
    assert_eq!(cpu.next_instruction.opcode.operation, Operation::INTERNAL_NMI);
    cpu.tick_instruction(&mut bus);
    assert_eq!(cpu.get_state().program_counter, 0x9000);
    // The line stays low: no second NMI.
    assert_ne!(cpu.next_instruction.opcode.operation, Operation::INTERNAL_NMI);
    cpu.set_nmi_lo();
    cpu.tick_instruction(&mut bus);
    assert_ne!(cpu.next_instruction.opcode.operation, Operation::INTERNAL_NMI);
}
