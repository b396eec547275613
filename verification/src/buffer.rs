//! The growing buffer that a request or response body is read into.

use vstd::prelude::*;

verus! {

/// How an attempt to read from a connection ended.
#[derive(Debug, PartialEq, Eq, Clone, Copy, Structural)]
pub enum ReadOutcome {
    /// The peer has sent everything.
    Closed,
    /// `n > 0` bytes were stored behind the bytes read before.
    Data { n: usize },
    /// Nothing to read at the moment.
    WouldBlock,
    /// The connection failed.
    Failed,
}

/// Makes room for a read behind `read_pos`: a buffer that is full grows by
/// `chunk` zeros, and what it held stays.
pub fn grow_if_full(buf: &mut Vec<u8>, read_pos: usize, chunk: usize)
    requires
        read_pos <= old(buf).len(),
        chunk > 0,
        old(buf).len() + chunk <= usize::MAX,
    ensures
        final(buf)@.len() == if read_pos >= old(buf)@.len() {
            old(buf)@.len() + chunk
        } else {
            old(buf)@.len() as int
        },
        read_pos < final(buf)@.len(),
        final(buf)@.subrange(0, old(buf)@.len() as int) == old(buf)@,
        forall|i: int| old(buf)@.len() <= i < final(buf)@.len() ==> final(buf)@[i] == 0,
{
    if read_pos >= buf.len() {
        let newsize: usize = buf.len() + chunk;
        buf.resize(newsize, 0);
    } else {
        assert(buf@.subrange(0, old(buf)@.len() as int) =~= old(buf)@);
    }
}

/// A buffer of `n` zeros.
pub fn zeroed(n: usize) -> (buf: Vec<u8>)
    ensures
        buf@.len() == n,
        forall|i: int| 0 <= i < n ==> buf@[i] == 0,
{
    let mut buf: Vec<u8> = Vec::new();
    while buf.len() < n
        invariant
            buf@.len() <= n,
            forall|i: int| 0 <= i < buf@.len() ==> buf@[i] == 0,
        decreases n - buf@.len(),
    {
        buf.push(0);
    }
    buf
}

} // verus!
