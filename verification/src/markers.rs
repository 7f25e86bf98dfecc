//! Values that are cheap or expensive to copy: a plain integer, copied
//! bit-for-bit, and a vector of bytes, whose copy allocates. These are the
//! two values safe to move across a thread boundary; the callers spawn the
//! thread that captures and discards them.

use vstd::prelude::*;

verus! {

/// Builds the two values the demonstration moves around: the cheap-to-copy
/// integer 42 and the expensive-to-copy vector of eight maximal bytes.
pub fn marker_traits() -> (r: (i32, Vec<u8>))
    ensures
        r.0 == 42,
        r.1@.len() == 8,
        forall|i: int| 0 <= i < r.1@.len() ==> r.1@[i] == u8::MAX,
{
    let copy_value: i32 = 42;
    let mut clone_value: Vec<u8> = Vec::new();
    let mut idx: usize = 0;
    while idx < 8
        invariant
            idx <= 8,
            clone_value@.len() == idx,
            forall|i: int| 0 <= i < idx ==> clone_value@[i] == u8::MAX,
        decreases 8 - idx,
    {
        clone_value.push(u8::MAX);
        idx += 1;
    }
    (copy_value, clone_value)
}

} // verus!
