//! The diagnostic echo: bytes received on the best-effort diagnostic port
//! are echoed back upper-cased. Only the byte transformation lives here;
//! reading and writing the port is the caller's business, and a failed or
//! empty read is simply not echoed.

use vstd::prelude::*;

verus! {

/// `b` with an ASCII lowercase letter mapped to its uppercase form and
/// every other byte unchanged.
pub open spec fn ascii_uppercase(b: u8) -> u8 {
    if 97 <= b && b <= 122 {
        (b - 32) as u8
    } else {
        b
    }
}

/// Upper-case the first `count` bytes of a received buffer in place, as the
/// echo path does; the rest of the buffer is left as it was.
pub fn uppercase_prefix(buf: &mut Vec<u8>, count: usize)
    requires
        count <= old(buf).len(),
    ensures
        final(buf).len() == old(buf).len(),
        forall|i: int| 0 <= i < count ==> final(buf)[i] == ascii_uppercase(old(buf)[i]),
        forall|i: int| count <= i < old(buf).len() ==> final(buf)[i] == old(buf)[i],
{
    let mut i: usize = 0;
    while i < count
        invariant
            i <= count,
            count <= buf.len(),
            buf.len() == old(buf).len(),
            forall|j: int| 0 <= j < i ==> buf[j] == ascii_uppercase(old(buf)[j]),
            forall|j: int| i <= j < buf.len() ==> buf[j] == old(buf)[j],
        decreases count - i,
    {
        let b = buf[i];
        if 97 <= b && b <= 122 {
            buf.set(i, b - 32);
        }
        i += 1;
    }
}

} // verus!
