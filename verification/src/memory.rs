//! The rules of the memory bridge: which accesses to a guest's linear memory
//! are allowed, and what a write leaves behind.

use vstd::prelude::*;
use crate::sandbox::{SandboxError, SandboxErrorSpec};

verus! {

/// Whether `length` bytes from `offset` on lie inside a memory of `size` bytes.
pub open spec fn in_bounds(size: nat, offset: nat, length: nat) -> bool {
    offset + length <= size
}

/// The memory after `bytes` were written at `offset`: those bytes in their
/// place, and every other byte as it was.
pub open spec fn overwrite(memory: Seq<u8>, offset: int, bytes: Seq<u8>) -> Seq<u8>
    recommends
        0 <= offset,
        offset + bytes.len() <= memory.len(),
{
    memory.subrange(0, offset) + bytes + memory.subrange(
        offset + bytes.len(),
        memory.len() as int,
    )
}

/// A write in bounds keeps the size of the memory, puts the bytes in their
/// place and leaves every byte outside the range as it was.
pub proof fn overwrite_is_local(memory: Seq<u8>, offset: int, bytes: Seq<u8>)
    requires
        0 <= offset,
        offset + bytes.len() <= memory.len(),
    ensures
        overwrite(memory, offset, bytes).len() == memory.len(),
        overwrite(memory, offset, bytes).subrange(offset, offset + bytes.len()) == bytes,
        forall|i: int|
            0 <= i < memory.len() && !(offset <= i < offset + bytes.len()) ==> overwrite(
                memory,
                offset,
                bytes,
            )[i] == memory[i],
{
    assert(overwrite(memory, offset, bytes).subrange(offset, offset + bytes.len()) =~= bytes);
}

/// Allows an access exactly when it lies inside the memory as it is now. The
/// sum of offset and length is never formed, so a huge offset cannot wrap
/// around into range.
pub fn check_access(size: usize, offset: usize, length: usize) -> (outcome: Result<
    (),
    SandboxError,
>)
    ensures
        outcome is Ok <==> in_bounds(size as nat, offset as nat, length as nat),
        outcome matches Err(error) ==> error@ == SandboxErrorSpec::OutOfBounds,
{
    if offset <= size && length <= size - offset {
        Ok(())
    } else {
        Err(SandboxError::OutOfBounds)
    }
}

} // verus!
