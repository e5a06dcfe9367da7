//! The mathematical model of the machine: its state, the meaning of each of
//! the eight opcodes, and the bracket-matching scans. The executable machine
//! in [`crate::cpu`] is proved to follow [`spec_step`] exactly.

use vstd::prelude::*;
use crate::memory::VmError;

verus! {

/// Opcode: move the data pointer one cell to the right (`>`).
pub const OP_RIGHT: u8 = 62;

/// Opcode: move the data pointer one cell to the left (`<`).
pub const OP_LEFT: u8 = 60;

/// Opcode: increment the byte under the data pointer, wrapping at 255 (`+`).
pub const OP_INC: u8 = 43;

/// Opcode: decrement the byte under the data pointer, wrapping at 0 (`-`).
pub const OP_DEC: u8 = 45;

/// Opcode: enter or skip a loop, by the byte under the data pointer (`[`).
pub const OP_OPEN: u8 = 91;

/// Opcode: exit or re-enter a loop, by the byte under the data pointer (`]`).
pub const OP_CLOSE: u8 = 93;

/// Opcode: stage the byte under the data pointer for output (`.`).
pub const OP_OUT: u8 = 46;

/// Opcode: read one byte of input into the cell under the data pointer (`,`).
pub const OP_IN: u8 = 44;

/// The whole observable state of a machine: instruction pointer, data
/// pointer, the staged output byte, and the two memories.
#[verifier::ext_equal]
pub ghost struct VmState {
    pub ip: nat,
    pub dp: nat,
    pub pending: Option<u8>,
    pub rom: Seq<u8>,
    pub ram: Seq<u8>,
}

/// What one `step` call reports back: whether the instruction pointer had
/// already passed the end of the program, and the output byte flushed at the
/// start of the call, if one was staged.
#[derive(Clone, Copy, Debug, PartialEq, Eq)]
pub struct StepResult {
    pub halted: bool,
    pub output: Option<u8>,
}

/// True of the bytes that are opcodes; every other byte is a no-op.
pub open spec fn is_opcode(b: u8) -> bool {
    b == OP_RIGHT || b == OP_LEFT || b == OP_INC || b == OP_DEC || b == OP_OPEN
        || b == OP_CLOSE || b == OP_OUT || b == OP_IN
}

/// Increment modulo 256.
pub open spec fn wrap_inc(b: u8) -> u8 {
    if b == 255 { 0 } else { (b + 1) as u8 }
}

/// Decrement modulo 256.
pub open spec fn wrap_dec(b: u8) -> u8 {
    if b == 0 { 255 } else { (b - 1) as u8 }
}

/// Position of the closing bracket that a forward scan starting at `i` with
/// `depth` unmatched opening brackets stops at, or `None` when the scan runs
/// past the end of `rom`.
pub open spec fn scan_fwd(rom: Seq<u8>, i: int, depth: nat) -> Option<int>
    decreases rom.len() - i,
{
    if i < 0 || i >= rom.len() {
        None
    } else if rom[i] == OP_CLOSE && depth == 0 {
        Some(i)
    } else if rom[i] == OP_CLOSE {
        scan_fwd(rom, i + 1, (depth - 1) as nat)
    } else if rom[i] == OP_OPEN {
        scan_fwd(rom, i + 1, depth + 1)
    } else {
        scan_fwd(rom, i + 1, depth)
    }
}

/// Position of the opening bracket that a backward scan starting at `i` with
/// `depth` unmatched closing brackets stops at, or `None` when the scan runs
/// past the start of `rom`.
pub open spec fn scan_back(rom: Seq<u8>, i: int, depth: nat) -> Option<int>
    decreases i + 1,
{
    if i < 0 || i >= rom.len() {
        None
    } else if rom[i] == OP_OPEN && depth == 0 {
        Some(i)
    } else if rom[i] == OP_OPEN {
        scan_back(rom, i - 1, (depth - 1) as nat)
    } else if rom[i] == OP_CLOSE {
        scan_back(rom, i - 1, depth + 1)
    } else {
        scan_back(rom, i - 1, depth)
    }
}

/// Effect of executing the fetched opcode `op` on state `s` (whose pending
/// output has already been flushed), with `input` the byte available on the
/// input stream, if any. `Err` means the fault that stops the run.
pub open spec fn spec_exec_op(s: VmState, op: u8, input: Option<u8>) -> Result<VmState, VmError> {
    if op == OP_RIGHT {
        if s.dp == usize::MAX as nat {
            Err(VmError::OutOfBounds)
        } else {
            Ok(VmState { dp: s.dp + 1, ip: s.ip + 1, ..s })
        }
    } else if op == OP_LEFT {
        if s.dp == 0 {
            Err(VmError::OutOfBounds)
        } else {
            Ok(VmState { dp: (s.dp - 1) as nat, ip: s.ip + 1, ..s })
        }
    } else if op == OP_INC {
        if s.dp >= s.ram.len() {
            Err(VmError::OutOfBounds)
        } else {
            Ok(VmState { ram: s.ram.update(s.dp as int, wrap_inc(s.ram[s.dp as int])), ip: s.ip + 1, ..s })
        }
    } else if op == OP_DEC {
        if s.dp >= s.ram.len() {
            Err(VmError::OutOfBounds)
        } else {
            Ok(VmState { ram: s.ram.update(s.dp as int, wrap_dec(s.ram[s.dp as int])), ip: s.ip + 1, ..s })
        }
    } else if op == OP_OPEN {
        if s.dp >= s.ram.len() {
            Err(VmError::OutOfBounds)
        } else if s.ram[s.dp as int] != 0 {
            Ok(VmState { ip: s.ip + 1, ..s })
        } else {
            match scan_fwd(s.rom, s.ip as int + 1, 0) {
                Some(j) => Ok(VmState { ip: (j + 1) as nat, ..s }),
                None => Err(VmError::UnmatchedBracket),
            }
        }
    } else if op == OP_CLOSE {
        if s.dp >= s.ram.len() {
            Err(VmError::OutOfBounds)
        } else if s.ram[s.dp as int] == 0 {
            Ok(VmState { ip: s.ip + 1, ..s })
        } else {
            match scan_back(s.rom, s.ip as int - 1, 0) {
                Some(j) => Ok(VmState { ip: j as nat, ..s }),
                None => Err(VmError::UnmatchedBracket),
            }
        }
    } else if op == OP_OUT {
        if s.dp >= s.ram.len() {
            Err(VmError::OutOfBounds)
        } else {
            Ok(VmState { pending: Some(s.ram[s.dp as int]), ip: s.ip + 1, ..s })
        }
    } else if op == OP_IN {
        match input {
            None => Ok(VmState { ip: s.ip + 1, ..s }),
            Some(b) => if s.dp >= s.ram.len() {
                Err(VmError::OutOfBounds)
            } else {
                Ok(VmState { ram: s.ram.update(s.dp as int, b), ..s })
            },
        }
    } else {
        Ok(VmState { ip: s.ip + 1, ..s })
    }
}

/// One full step of the machine from state `pre` with `input` the byte
/// available on the input stream, if any: flush the staged output byte, halt
/// if the instruction pointer has passed the end of the program, and
/// otherwise fetch and execute one opcode. Returns the state after the call
/// and the call's result; a fault leaves the state exactly as it was.
pub open spec fn spec_step(pre: VmState, input: Option<u8>) -> (VmState, Result<
    StepResult,
    VmError,
>) {
    if pre.ip >= pre.rom.len() {
        (
            VmState { pending: None, ..pre },
            Ok(StepResult { halted: true, output: pre.pending }),
        )
    } else {
        match spec_exec_op(
            VmState { pending: None, ..pre },
            pre.rom[pre.ip as int],
            input,
        ) {
            Ok(post) => (post, Ok(StepResult { halted: false, output: pre.pending })),
            Err(e) => (pre, Err(e)),
        }
    }
}

/// True when the next `step` call would fetch the input opcode, so a driver
/// should offer it a byte from the input stream.
pub open spec fn wants_input(s: VmState) -> bool {
    s.ip < s.rom.len() && s.rom[s.ip as int] == OP_IN
}

/// Cell values wrap modulo 256: incrementing and decrementing a byte is
/// addition and subtraction modulo 256, so incrementing 255 gives 0 and
/// decrementing 0 gives 255.
pub proof fn lemma_cell_wraps(v: u8)
    ensures
        wrap_inc(v) == ((v as int + 1) % 256) as u8,
        wrap_dec(v) == ((v as int + 255) % 256) as u8,
        wrap_inc(255) == 0,
        wrap_dec(0) == 255,
{
}

/// A step on a byte that is not an opcode only advances the instruction
/// pointer by one (and flushes the staged output byte, as every step does):
/// memory, data pointer and result are untouched by such a byte, whatever
/// input is available.
pub proof fn lemma_non_opcode_is_noop(pre: VmState, input: Option<u8>)
    requires
        pre.ip < pre.rom.len(),
        !is_opcode(pre.rom[pre.ip as int]),
    ensures
        spec_step(pre, input).0 == (VmState { ip: pre.ip + 1, pending: None, ..pre }),
        spec_step(pre, input).1 == Ok::<StepResult, VmError>(
            StepResult { halted: false, output: pre.pending },
        ),
{
}

/// An input opcode with the input stream exhausted advances the instruction
/// pointer by one and leaves data memory unchanged; it never faults, even
/// with the data pointer out of range, since no memory access happens.
pub proof fn lemma_input_exhausted(pre: VmState)
    requires
        pre.ip < pre.rom.len(),
        pre.rom[pre.ip as int] == OP_IN,
    ensures
        spec_step(pre, None).0 == (VmState { ip: pre.ip + 1, pending: None, ..pre }),
        spec_step(pre, None).1 == Ok::<StepResult, VmError>(
            StepResult { halted: false, output: pre.pending },
        ),
{
}

/// An input opcode with a byte available stores that byte at the data
/// pointer and does not advance the instruction pointer, so the same input
/// opcode runs again on the next step.
pub proof fn lemma_input_available(pre: VmState, b: u8)
    requires
        pre.ip < pre.rom.len(),
        pre.rom[pre.ip as int] == OP_IN,
        pre.dp < pre.ram.len(),
    ensures
        spec_step(pre, Some(b)).0 == (VmState {
            ram: pre.ram.update(pre.dp as int, b),
            pending: None,
            ..pre
        }),
        spec_step(pre, Some(b)).1 == Ok::<StepResult, VmError>(
            StepResult { halted: false, output: pre.pending },
        ),
{
}

} // verus!
