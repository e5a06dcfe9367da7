use bfvm::cpu::new_cpu;
use bfvm::memory::VmError;
use bfvm::semantics::StepResult;

#[test]
fn fresh_machine_starts_at_zero() {
    let c = new_cpu(4, 4);
    assert_eq!(c.instruction_pointer(), 0);
    assert_eq!(c.data_pointer(), 0);
    for a in 0..4 {
        assert_eq!(c.read_data(a), Ok(0));
    }
}

#[test]
fn load_resets_pointers_but_keeps_data() {
    let mut c = new_cpu(8, 4);
    // move right and bump two cells so every piece of state is nonzero
    c.load_program(">+>++");
    for _ in 0..5 {
        assert_eq!(c.step(None), Ok(StepResult { halted: false, output: None }));
    }
    assert_eq!(c.instruction_pointer(), 5);
    assert_eq!(c.data_pointer(), 2);
    c.load_program("---");
    assert_eq!(c.instruction_pointer(), 0);
    assert_eq!(c.data_pointer(), 0);
    // prior tape contents survive the load untouched
    assert_eq!(c.read_data(0), Ok(0));
    assert_eq!(c.read_data(1), Ok(1));
    assert_eq!(c.read_data(2), Ok(2));
    assert_eq!(c.read_data(3), Ok(0));
}

#[test]
fn input_exhausted_advances_and_leaves_memory() {
    let mut c = new_cpu(4, 2);
    c.load_program(",");
    assert_eq!(c.step(None), Ok(StepResult { halted: false, output: None }));
    assert_eq!(c.instruction_pointer(), 1);
    assert_eq!(c.read_data(0), Ok(0));
    // the next step runs off the end of the one-byte program
    assert_eq!(c.step(None), Ok(StepResult { halted: true, output: None }));
}

#[test]
fn input_available_stores_byte_without_advancing() {
    let mut c = new_cpu(4, 2);
    c.load_program(",");
    assert_eq!(c.step(Some(7)), Ok(StepResult { halted: false, output: None }));
    assert_eq!(c.instruction_pointer(), 0);
    assert_eq!(c.read_data(0), Ok(7));
    // the same instruction runs again and reads again
    assert_eq!(c.step(Some(9)), Ok(StepResult { halted: false, output: None }));
    assert_eq!(c.instruction_pointer(), 0);
    assert_eq!(c.read_data(0), Ok(9));
}

#[test]
fn needs_input_only_at_the_input_opcode() {
    let mut c = new_cpu(4, 1);
    c.load_program(",+");
    assert!(c.needs_input());
    assert_eq!(c.step(None), Ok(StepResult { halted: false, output: None }));
    assert!(!c.needs_input());
    assert_eq!(c.step(None), Ok(StepResult { halted: false, output: None }));
    // past the end of the program no input is wanted either
    assert!(!c.needs_input());
}

#[test]
fn moving_left_of_the_first_cell_faults() {
    let mut c = new_cpu(4, 2);
    c.load_program("<");
    assert_eq!(c.step(None), Err(VmError::OutOfBounds));
    // a fault leaves the machine untouched
    assert_eq!(c.instruction_pointer(), 0);
    assert_eq!(c.data_pointer(), 0);
}

#[test]
fn access_beyond_data_memory_faults() {
    let mut c = new_cpu(4, 1);
    c.load_program(">+");
    // moving the pointer past the end is itself no fault...
    assert_eq!(c.step(None), Ok(StepResult { halted: false, output: None }));
    assert_eq!(c.data_pointer(), 1);
    // ...the access at that address is
    assert_eq!(c.step(None), Err(VmError::OutOfBounds));
    assert_eq!(c.instruction_pointer(), 1);
    assert_eq!(c.read_data(0), Ok(0));
}

#[test]
fn input_beyond_data_memory_faults() {
    let mut c = new_cpu(4, 0);
    c.load_program(",");
    assert_eq!(c.step(Some(5)), Err(VmError::OutOfBounds));
}

#[test]
fn unmatched_open_bracket_faults() {
    let mut c = new_cpu(4, 1);
    c.load_program("[");
    assert_eq!(c.step(None), Err(VmError::UnmatchedBracket));
    assert_eq!(c.instruction_pointer(), 0);
}

#[test]
fn unmatched_close_bracket_faults() {
    let mut c = new_cpu(4, 1);
    c.load_program("+]");
    assert_eq!(c.step(None), Ok(StepResult { halted: false, output: None }));
    assert_eq!(c.step(None), Err(VmError::UnmatchedBracket));
    assert_eq!(c.instruction_pointer(), 1);
}

#[test]
fn close_bracket_at_start_faults() {
    let mut c = new_cpu(4, 1);
    c.load_program("]");
    // the cell is zero, so the bracket merely exits: no scan, no fault
    assert_eq!(c.step(None), Ok(StepResult { halted: false, output: None }));
    assert_eq!(c.instruction_pointer(), 1);
    // with a nonzero cell the backward scan starts before the program
    let mut c2 = new_cpu(4, 1);
    c2.load_program("-]");
    assert_eq!(c2.step(None), Ok(StepResult { halted: false, output: None }));
    assert_eq!(c2.step(None), Err(VmError::UnmatchedBracket));
}

#[test]
fn staged_zero_byte_is_still_emitted() {
    let mut c = new_cpu(4, 1);
    c.load_program(".");
    assert_eq!(c.step(None), Ok(StepResult { halted: false, output: None }));
    assert_eq!(c.step(None), Ok(StepResult { halted: true, output: Some(0) }));
}

#[test]
fn stepping_after_halt_keeps_reporting_halt() {
    let mut c = new_cpu(4, 1);
    c.load_program("+");
    assert_eq!(c.step(None), Ok(StepResult { halted: false, output: None }));
    assert_eq!(c.step(None), Ok(StepResult { halted: true, output: None }));
    assert_eq!(c.step(None), Ok(StepResult { halted: true, output: None }));
    assert_eq!(c.instruction_pointer(), 1);
}
