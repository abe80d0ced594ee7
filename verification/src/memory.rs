//! Bounds-checked access to a guest module's linear memory.
//!
//! Every imported function that moves bytes across the host-guest boundary
//! goes through these two functions. The guest chooses the offset and the
//! length, so both are treated as hostile: the window check is stated over
//! unbounded integers and computed in 64-bit arithmetic, and a sum that would
//! wrap 32-bit arithmetic can never pass it.

use vstd::prelude::*;
use vstd::slice::slice_subrange;
use vstd::slice::slice_to_vec;

verus! {

/// A guest-supplied pointer+length window fell outside linear memory.
#[derive(Clone, Copy, Debug, PartialEq, Eq, Structural)]
pub struct MemoryBoundsError;

/// The window `[offset, offset + len)` lies inside a memory of `size` bytes.
/// `offset + len` is evaluated over unbounded integers, never modulo 2^32.
pub open spec fn in_bounds(offset: u32, len: int, size: nat) -> bool {
    offset + len <= size
}

/// Read the window `[offset, offset + len)` out of linear memory.
///
/// Returns exactly the bytes of the window, or `MemoryBoundsError` if and only
/// if the window does not fit; nothing is read on failure.
pub fn mem_read(mem: &[u8], offset: u32, len: u32) -> (r: Result<Vec<u8>, MemoryBoundsError>)
    ensures
        r is Ok <==> in_bounds(offset, len as int, mem@.len()),
        r matches Ok(bytes) ==> bytes@ == mem@.subrange(offset as int, offset + len),
{
    let end: u64 = offset as u64 + len as u64;
    if end <= mem.len() as u64 {
        let start: usize = offset as usize;
        let window = slice_subrange(mem, start, start + len as usize);
        Ok(slice_to_vec(window))
    } else {
        Err(MemoryBoundsError)
    }
}

/// Write all of `data` at `offset` into linear memory.
///
/// On success every byte of `data` lands at its place in the window and every
/// byte outside the window keeps its value. Fails, with no partial write, if
/// and only if the window does not fit.
pub fn mem_write(mem: &mut [u8], offset: u32, data: &[u8]) -> (r: Result<(), MemoryBoundsError>)
    ensures
        r is Ok <==> in_bounds(offset, data@.len() as int, old(mem)@.len()),
        final(mem)@.len() == old(mem)@.len(),
        r is Ok ==> forall|j: int|
            0 <= j < data@.len() ==> final(mem)@[offset + j] == data@[j],
        r is Ok ==> forall|j: int|
            0 <= j < old(mem)@.len() && !(offset <= j < offset + data@.len()) ==> final(mem)@[j]
                == old(mem)@[j],
        r is Err ==> final(mem)@ == old(mem)@,
{
    if data.len() <= mem.len() && offset as usize <= mem.len() - data.len() {
        let start: usize = offset as usize;
        let mem_len: usize = mem.len();
        let mut i: usize = 0;
        while i < data.len()
            invariant
                0 <= i <= data@.len(),
                start == offset as usize,
                start + data@.len() <= mem@.len(),
                mem@.len() == mem_len,
                mem@.len() == old(mem)@.len(),
                forall|j: int| 0 <= j < i ==> mem@[start + j] == data@[j],
                forall|j: int|
                    0 <= j < old(mem)@.len() && !(start <= j < start + i) ==> mem@[j] == old(
                        mem,
                    )@[j],
            decreases data@.len() - i,
        {
            mem[start + i] = data[i];
            i = i + 1;
        }
        Ok(())
    } else {
        Err(MemoryBoundsError)
    }
}

} // verus!
