use baby_actor::snapshot::MachineSnapshot;
use baby_actor::vm::{is_step_safe, step_or_end};

#[test]
fn blank_machine_is_safe_to_step() {
    let s = MachineSnapshot::new();
    assert!(is_step_safe(&s));
    // Instruction zero is a jump through address zero: the blank
    // machine steps to itself.
    assert_eq!(step_or_end(&s).unwrap(), s);
}

#[test]
fn backward_relative_jump_is_out_of_bounds() {
    // A relative jump whose operand word reads -1: its low sixteen bits
    // are 0xFFFF, and the engine adds them to the instruction address in
    // sixteen bits before masking. From address one that overflows.
    let mut s = MachineSnapshot::new();
    s.instruction = 0x8000;
    s.instruction_address = 1;
    s.main_store[0] = -1;
    assert!(!is_step_safe(&s));
    assert!(step_or_end(&s).is_none());
    // From address zero the same add stays within sixteen bits.
    s.instruction_address = 0;
    assert!(is_step_safe(&s));
    assert!(step_or_end(&s).is_some());
}

#[test]
fn negating_the_minimum_word_is_out_of_bounds() {
    let mut s = MachineSnapshot::new();
    s.instruction = 0b010 << 13;
    s.main_store[0] = i32::MIN;
    assert!(!is_step_safe(&s));
    assert!(step_or_end(&s).is_none());
    s.main_store[0] = 7;
    assert!(is_step_safe(&s));
    let next = step_or_end(&s).unwrap();
    assert_eq!(next.accumulator, -7);
}

#[test]
fn overflowing_subtraction_is_out_of_bounds() {
    let mut s = MachineSnapshot::new();
    s.instruction = (0b001 << 13) | 1;
    s.main_store[1] = 1;
    s.accumulator = i32::MIN;
    assert!(!is_step_safe(&s));
    assert!(step_or_end(&s).is_none());
    s.accumulator = 12;
    assert!(is_step_safe(&s));
    let next = step_or_end(&s).unwrap();
    assert_eq!(next.accumulator, 11);
}

#[test]
fn saturated_instruction_address_is_out_of_bounds() {
    // A store would increment the instruction address past sixteen bits.
    let mut s = MachineSnapshot::new();
    s.instruction = 0b110 << 13;
    s.instruction_address = 0xFFFF;
    assert!(!is_step_safe(&s));
    assert!(step_or_end(&s).is_none());
    // An absolute jump never increments: the same address is fine.
    s.instruction = 0;
    assert!(is_step_safe(&s));
    assert!(step_or_end(&s).is_some());
}

#[test]
fn skip_if_negative_bounds_depend_on_the_accumulator() {
    let mut s = MachineSnapshot::new();
    s.instruction = 0b011 << 13;
    s.instruction_address = 0xFFFE;
    s.accumulator = 1;
    // Adding one stays within sixteen bits.
    assert!(is_step_safe(&s));
    // A negative accumulator skips: adding two overflows.
    s.accumulator = -1;
    assert!(!is_step_safe(&s));
    assert!(step_or_end(&s).is_none());
}

#[test]
fn stop_instruction_halts_in_bounds() {
    let mut s = MachineSnapshot::new();
    s.instruction = 0xE000;
    assert!(is_step_safe(&s));
    assert!(step_or_end(&s).is_none());
}
