use cnese::state::{
    State, SR_MASK_BREAK, SR_MASK_CARRY, SR_MASK_INTERRUPT, SR_MASK_OVERFLOW, SR_MASK_ZERO,
};

#[test]
fn test_offset_pc() {
    let mut state = State::new();

    state.set_next_pc(0);
    state.update_pc();

    state.set_next_pc(state.calculate_relative_pc(5));
    state.set_next_pc(state.calculate_relative_pc(-5));
    assert_eq!(0, state.program_counter);

    state.set_next_pc(state.calculate_relative_pc(100));
    state.update_pc();
    assert_eq!(100, state.program_counter);

    state.set_next_pc(state.calculate_relative_pc(-50));
    state.update_pc();
    assert_eq!(50, state.program_counter);

    state.set_next_pc(state.calculate_relative_pc(-128));
    state.update_pc();
    assert_eq!(65458, state.program_counter);
}

#[test]
fn test_set_status_field() {
    let mut state = State::new();

    let initial = SR_MASK_OVERFLOW | SR_MASK_CARRY | SR_MASK_ZERO | SR_MASK_INTERRUPT;

    state.set_status_field(initial, true);
    assert_eq!(initial, state.status.get_as_u8());
    state.set_status_field(SR_MASK_BREAK, true);
    assert_eq!(initial | SR_MASK_BREAK, state.status.get_as_u8());
    state.set_status_field(SR_MASK_BREAK, false);
    assert_eq!(initial, state.status.get_as_u8());
}

#[test]
fn new_state_has_only_interrupt_disable_set() {
    let state = State::new();
    assert_eq!(state.status.get_as_u8(), 0x04);
    assert!(state.get_status_field(SR_MASK_INTERRUPT));
    assert!(!state.get_status_field(SR_MASK_CARRY));
}

#[test]
fn stack_pointer_wraps() {
    let mut state = State::new();
    state.dec_sp();
    assert_eq!(state.stack_pointer, 0xFF);
    state.inc_sp();
    assert_eq!(state.stack_pointer, 0x00);
}
