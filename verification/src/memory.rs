//! The byte-copy routine behind the memory-copy command.

use vstd::prelude::*;

verus! {

/// Byte-for-byte copy of `size` bytes from the front of `source` over the
/// front of `destination`; the rest of `destination` survives unchanged.
/// This is the data-level content of the worker's memory-copy command; the
/// runtime that owns raw addresses applies it to the process's own memory,
/// where bounds are the caller's responsibility.
pub fn memory_copy(source: &Vec<u8>, destination: &mut Vec<u8>, size: usize)
    requires
        size <= source.len(),
        size <= old(destination).len(),
    ensures
        final(destination).len() == old(destination).len(),
        forall|j: int| 0 <= j < size ==> final(destination)@[j] == source@[j],
        forall|j: int|
            size <= j < old(destination).len() ==> final(destination)@[j] == old(destination)@[j],
{
    let mut i: usize = 0;
    while i < size
        invariant
            size <= source.len(),
            size <= destination.len(),
            destination.len() == old(destination).len(),
            i <= size,
            forall|j: int| 0 <= j < i ==> destination@[j] == source@[j],
            forall|j: int| i <= j < destination.len() ==> destination@[j] == old(destination)@[j],
        decreases size - i,
    {
        let b = source[i];
        destination[i] = b;
        i += 1;
    }
}

} // verus!
