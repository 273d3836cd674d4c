//! Buffers of bytes: copies, comparison, and lists of buffers as
//! mathematical values.

use vstd::prelude::*;

verus! {

/// The buffers of a list as sequences of bytes.
pub open spec fn buffers_view(buffers: Seq<Vec<u8>>) -> Seq<Seq<u8>> {
    buffers.map_values(|buffer: Vec<u8>| buffer@)
}

/// Copies a buffer.
pub fn copy_of(buffer: &Vec<u8>) -> (copy: Vec<u8>)
    ensures
        copy@ == buffer@,
{
    let mut copy: Vec<u8> = Vec::new();
    let mut i: usize = 0;
    while i < buffer.len()
        invariant
            i <= buffer@.len(),
            copy@ == buffer@.take(i as int),
        decreases buffer@.len() - i,
    {
        copy.push(buffer[i]);
        i = i + 1;
    }
    copy
}

/// Whether two byte strings are the same.
pub fn same_bytes(a: &[u8], b: &[u8]) -> (same: bool)
    ensures
        same == (a@ == b@),
{
    if a.len() != b.len() {
        return false;
    }
    let mut i: usize = 0;
    while i < a.len()
        invariant
            i <= a@.len(),
            a@.len() == b@.len(),
            forall|j: int| 0 <= j < i ==> a@[j] == b@[j],
        decreases a@.len() - i,
    {
        if a[i] != b[i] {
            return false;
        }
        i = i + 1;
    }
    assert(a@ =~= b@);
    true
}

} // verus!
