//! A verified virtual machine for a tiny eight-instruction language that
//! operates on a linear, byte-addressable tape.
//!
//! The machine owns two fixed-size byte memories (one for the program, one
//! for the working tape), an instruction pointer, a data pointer and a
//! one-byte pending-output register. A driver repeatedly calls
//! [`cpu::CPU::step`], feeding in at most one input byte per call and
//! collecting at most one output byte per call, until the machine reports
//! that execution has run off the end of the program.

pub mod semantics;
pub mod memory;
pub mod cpu;
