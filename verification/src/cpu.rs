//! The executable machine. Each public operation is proved to follow the
//! transition function [`crate::semantics::spec_step`] on the machine's
//! abstract state.

use vstd::prelude::*;
use vstd::string::StringSliceAdditionalSpecFns;
use crate::memory::{Mem, VmError, new_mem};
use crate::semantics::{
    VmState, StepResult, spec_step, spec_exec_op, scan_fwd, scan_back, wants_input, wrap_inc,
    wrap_dec, OP_RIGHT, OP_LEFT, OP_INC, OP_DEC, OP_OPEN, OP_CLOSE, OP_OUT, OP_IN,
};

verus! {

/// A machine that runs programs of the eight-opcode tape language. It owns
/// an instruction memory (`rom`), a data memory (`ram`), an instruction
/// pointer, a data pointer, and the one-byte pending-output register.
///
/// The pending-output register carries an explicit presence flag, so a
/// staged byte of value zero is flushed like any other value; a design that
/// reserves the value zero as its "nothing pending" sentinel could never
/// emit that byte.
pub struct CPU {
    ir: usize,
    mem_ptr: usize,
    output: Option<u8>,
    rom: Mem,
    ram: Mem,
}

impl View for CPU {
    type V = VmState;

    closed spec fn view(&self) -> VmState {
        VmState {
            ip: self.ir as nat,
            dp: self.mem_ptr as nat,
            pending: self.output,
            rom: self.rom@,
            ram: self.ram@,
        }
    }
}

/// Walks `rom` forward from `start`, tracking bracket nesting, to the
/// closing bracket that `scan_fwd` names, or `None` when there is none.
fn scan_forward(rom: &Mem, start: usize) -> (r: Option<usize>)
    requires
        start <= rom@.len(),
    ensures
        r is None ==> scan_fwd(rom@, start as int, 0) is None,
        r matches Some(u) ==> scan_fwd(rom@, start as int, 0) == Some(u as int)
            && u < rom@.len(),
{
    let n = rom.len();
    let mut i: usize = start;
    let mut depth: usize = 0;
    loop
        invariant
            n == rom@.len(),
            start <= i <= n,
            depth <= i - start,
            scan_fwd(rom@, start as int, 0) == scan_fwd(rom@, i as int, depth as nat),
        decreases n - i,
    {
        if i == n {
            return None;
        }
        let op = rom.fetch(i);
        if op == OP_CLOSE {
            if depth == 0 {
                return Some(i);
            }
            depth = depth - 1;
        } else if op == OP_OPEN {
            depth = depth + 1;
        }
        i = i + 1;
    }
}

/// Walks `rom` backward from `start`, tracking bracket nesting, to the
/// opening bracket that `scan_back` names, or `None` when there is none.
fn scan_backward(rom: &Mem, start: usize) -> (r: Option<usize>)
    requires
        start < rom@.len(),
    ensures
        r is None ==> scan_back(rom@, start as int, 0) is None,
        r matches Some(u) ==> scan_back(rom@, start as int, 0) == Some(u as int)
            && u < rom@.len(),
{
    let mut i: usize = start;
    let mut depth: usize = 0;
    loop
        invariant
            i <= start < rom@.len(),
            depth <= start - i,
            scan_back(rom@, start as int, 0) == scan_back(rom@, i as int, depth as nat),
        decreases i,
    {
        let op = rom.fetch(i);
        if op == OP_OPEN && depth == 0 {
            return Some(i);
        }
        if i == 0 {
            proof {
                let nd: nat = if op == OP_OPEN {
                    (depth - 1) as nat
                } else if op == OP_CLOSE {
                    depth as nat + 1
                } else {
                    depth as nat
                };
                assert(scan_back(rom@, -1, nd) is None);
            }
            return None;
        }
        if op == OP_OPEN {
            depth = depth - 1;
        } else if op == OP_CLOSE {
            depth = depth + 1;
        }
        i = i - 1;
    }
}

impl CPU {
    /// Moves the machine forward one cycle: flushes the staged output byte,
    /// reports halt when the instruction pointer has passed the end of the
    /// program, and otherwise executes one opcode. `input` is the byte
    /// available on the input stream, if any; it is consumed only by the
    /// input opcode. A fault leaves the machine exactly as it was.
    pub fn step(&mut self, input: Option<u8>) -> (r: Result<StepResult, VmError>)
        ensures
            final(self)@ == spec_step(old(self)@, input).0,
            r == spec_step(old(self)@, input).1,
    {
        if self.rom.len() <= self.ir {
            let out = self.output;
            self.output = None;
            proof {
                assert(final(self)@ =~= spec_step(old(self)@, input).0);
            }
            return Ok(StepResult { halted: true, output: out });
        }
        let op = self.rom.fetch(self.ir);
        if op == OP_RIGHT {
            if self.mem_ptr == usize::MAX {
                return Err(VmError::OutOfBounds);
            }
            self.mem_ptr = self.mem_ptr + 1;
            self.ir = self.ir + 1;
        } else if op == OP_LEFT {
            if self.mem_ptr == 0 {
                return Err(VmError::OutOfBounds);
            }
            self.mem_ptr = self.mem_ptr - 1;
            self.ir = self.ir + 1;
        } else if op == OP_INC {
            if self.ram.len() <= self.mem_ptr {
                return Err(VmError::OutOfBounds);
            }
            let val = self.ram.fetch(self.mem_ptr);
            self.ram.store(self.mem_ptr, if val == 255 { 0 } else { val + 1 });
            self.ir = self.ir + 1;
        } else if op == OP_DEC {
            if self.ram.len() <= self.mem_ptr {
                return Err(VmError::OutOfBounds);
            }
            let val = self.ram.fetch(self.mem_ptr);
            self.ram.store(self.mem_ptr, if val == 0 { 255 } else { val - 1 });
            self.ir = self.ir + 1;
        } else if op == OP_OPEN {
            if self.ram.len() <= self.mem_ptr {
                return Err(VmError::OutOfBounds);
            }
            if self.ram.fetch(self.mem_ptr) != 0 {
                self.ir = self.ir + 1;
            } else {
                match scan_forward(&self.rom, self.ir + 1) {
                    Some(j) => {
                        self.ir = j + 1;
                    },
                    None => {
                        return Err(VmError::UnmatchedBracket);
                    },
                }
            }
        } else if op == OP_CLOSE {
            if self.ram.len() <= self.mem_ptr {
                return Err(VmError::OutOfBounds);
            }
            if self.ram.fetch(self.mem_ptr) == 0 {
                self.ir = self.ir + 1;
            } else {
                if self.ir == 0 {
                    return Err(VmError::UnmatchedBracket);
                }
                match scan_backward(&self.rom, self.ir - 1) {
                    Some(j) => {
                        self.ir = j;
                    },
                    None => {
                        return Err(VmError::UnmatchedBracket);
                    },
                }
            }
        } else if op == OP_OUT {
            if self.ram.len() <= self.mem_ptr {
                return Err(VmError::OutOfBounds);
            }
            let b = self.ram.fetch(self.mem_ptr);
            let out = self.output;
            self.output = Some(b);
            self.ir = self.ir + 1;
            proof {
                assert(final(self)@ =~= spec_step(old(self)@, input).0);
            }
            return Ok(StepResult { halted: false, output: out });
        } else if op == OP_IN {
            match input {
                None => {
                    self.ir = self.ir + 1;
                },
                Some(b) => {
                    if self.ram.len() <= self.mem_ptr {
                        return Err(VmError::OutOfBounds);
                    }
                    self.ram.store(self.mem_ptr, b);
                },
            }
        } else {
            self.ir = self.ir + 1;
        }
        let out = self.output;
        self.output = None;
        proof {
            assert(final(self)@ =~= spec_step(old(self)@, input).0);
        }
        Ok(StepResult { halted: false, output: out })
    }

    /// Replaces instruction memory with the program's bytes (resized to the
    /// program's exact length) and resets the instruction and data pointers
    /// to zero. Data memory is left untouched: a caller that wants a clean
    /// tape must zero it itself.
    pub fn load_program(&mut self, prog: &str)
        ensures
            final(self)@ == (VmState {
                ip: 0,
                dp: 0,
                rom: prog.spec_bytes(),
                ..old(self)@
            }),
    {
        let p = prog.as_bytes();
        self.rom = Mem::from_bytes(p);
        self.mem_ptr = 0;
        self.ir = 0;
        proof {
            assert(final(self)@ =~= (VmState { ip: 0, dp: 0, rom: prog.spec_bytes(), ..old(self)@ }));
        }
    }

    /// True when the next `step` call would fetch the input opcode, so a
    /// driver should offer it a byte from the input stream.
    pub fn needs_input(&self) -> (b: bool)
        ensures
            b == wants_input(self@),
    {
        self.ir < self.rom.len() && self.rom.fetch(self.ir) == OP_IN
    }

    /// Current instruction pointer.
    pub fn instruction_pointer(&self) -> (r: usize)
        ensures
            r == self@.ip,
    {
        self.ir
    }

    /// Current data pointer.
    pub fn data_pointer(&self) -> (r: usize)
        ensures
            r == self@.dp,
    {
        self.mem_ptr
    }

    /// Reads a byte of data memory, with the same bounds check as the data
    /// memory itself.
    pub fn read_data(&self, addr: usize) -> (r: Result<u8, VmError>)
        ensures
            addr < self@.ram.len() ==> r == Ok::<u8, VmError>(self@.ram[addr as int]),
            addr >= self@.ram.len() ==> r == Err::<u8, VmError>(VmError::OutOfBounds),
    {
        self.ram.read(addr)
    }
}

/// Builds a machine with zero-filled instruction and data memories of the
/// given sizes, pointers at zero and no output staged.
pub fn new_cpu(rom_size: usize, ram_size: usize) -> (c: CPU)
    ensures
        c@.ip == 0,
        c@.dp == 0,
        c@.pending is None,
        c@.rom.len() == rom_size,
        forall|i: int| 0 <= i < rom_size ==> c@.rom[i] == 0,
        c@.ram.len() == ram_size,
        forall|i: int| 0 <= i < ram_size ==> c@.ram[i] == 0,
{
    CPU {
        ir: 0,
        mem_ptr: 0,
        output: None,
        rom: new_mem(rom_size),
        ram: new_mem(ram_size),
    }
}

} // verus!
