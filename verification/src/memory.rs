//! Fixed-size, zero-initialized byte memory with bounds-checked access.

use vstd::prelude::*;

verus! {

/// The two fatal conditions a running machine can hit.
#[derive(Clone, Copy, Debug, PartialEq, Eq, Structural)]
pub enum VmError {
    /// An instruction- or data-memory access addressed a location at or
    /// beyond the memory's length, or the data pointer would have left the
    /// representable address range.
    OutOfBounds,
    /// A bracket scan exhausted instruction memory without finding the
    /// matching bracket.
    UnmatchedBracket,
}

/// A fixed-length sequence of bytes, all zero at creation. Its length never
/// changes afterwards; every access is checked against that length.
pub struct Mem {
    mem: Vec<u8>,
}

impl View for Mem {
    type V = Seq<u8>;

    closed spec fn view(&self) -> Seq<u8> {
        self.mem@
    }
}

impl Mem {
    /// Builds a memory holding exactly the given bytes.
    pub fn from_bytes(b: &[u8]) -> (m: Mem)
        ensures
            m@ == b@,
    {
        Mem { mem: vstd::slice::slice_to_vec(b) }
    }

    /// Number of addressable bytes.
    pub fn len(&self) -> (n: usize)
        ensures
            n == self@.len(),
    {
        self.mem.len()
    }

    /// Unchecked-by-the-caller fetch: the address is known in bounds.
    pub(crate) fn fetch(&self, addr: usize) -> (b: u8)
        requires
            addr < self@.len(),
        ensures
            b == self@[addr as int],
    {
        self.mem[addr]
    }

    /// Counterpart of `fetch` for writing: the address is known in bounds.
    pub(crate) fn store(&mut self, addr: usize, val: u8)
        requires
            addr < old(self)@.len(),
        ensures
            final(self)@ == old(self)@.update(addr as int, val),
    {
        self.mem[addr] = val;
    }

    /// Returns the byte at `addr`, or `OutOfBounds` when `addr` is at or
    /// beyond the memory's length.
    pub fn read(&self, addr: usize) -> (r: Result<u8, VmError>)
        ensures
            addr < self@.len() ==> r == Ok::<u8, VmError>(self@[addr as int]),
            addr >= self@.len() ==> r == Err::<u8, VmError>(VmError::OutOfBounds),
    {
        if addr < self.mem.len() {
            Ok(self.mem[addr])
        } else {
            Err(VmError::OutOfBounds)
        }
    }

    /// Stores `val` at `addr`, or returns `OutOfBounds` when `addr` is at or
    /// beyond the memory's length; a failed write leaves the memory unchanged.
    pub fn write(&mut self, addr: usize, val: u8) -> (r: Result<(), VmError>)
        ensures
            addr < old(self)@.len() ==> final(self)@ == old(self)@.update(addr as int, val)
                && r == Ok::<(), VmError>(()),
            addr >= old(self)@.len() ==> final(self)@ == old(self)@
                && r == Err::<(), VmError>(VmError::OutOfBounds),
    {
        if addr < self.mem.len() {
            self.mem[addr] = val;
            Ok(())
        } else {
            Err(VmError::OutOfBounds)
        }
    }
}

/// Creates a zero-filled memory of exactly `sz` bytes. `sz == 0` is legal
/// and makes every later access a fault.
pub fn new_mem(sz: usize) -> (m: Mem)
    ensures
        m@.len() == sz,
        forall|i: int| 0 <= i < sz ==> m@[i] == 0,
{
    let mut v: Vec<u8> = Vec::new();
    while v.len() < sz
        invariant
            v@.len() <= sz,
            forall|i: int| 0 <= i < v@.len() ==> v@[i] == 0,
        decreases sz - v.len(),
    {
        v.push(0);
    }
    Mem { mem: v }
}

/// A write followed by a read of the same address returns the value written:
/// updating a memory's contents at `a` with `v` makes `v` the byte at `a`.
pub proof fn lemma_write_then_read(m: Seq<u8>, a: int, v: u8)
    requires
        0 <= a < m.len(),
    ensures
        m.update(a, v)[a] == v,
{
}

} // verus!
