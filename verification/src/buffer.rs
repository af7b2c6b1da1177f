//! The byte-buffer transfer protocol: a dynamically sized result (such as a
//! serialized proof) moves to its receiver as an owned buffer. The receiver
//! either copies the bytes out into its own storage or releases the buffer
//! — exactly one of the two.

use vstd::prelude::*;

verus! {

/// An owned, heap-backed byte run in transfer. The buffer tracks its own
/// length and capacity, so releasing it reconstructs and drops exactly the
/// storage that was handed over.
pub struct RawVec {
    data: Vec<u8>,
}

impl RawVec {
    /// The bytes this buffer carries.
    pub closed spec fn bytes(self) -> Seq<u8> {
        self.data@
    }

    /// Take over a byte vector's backing storage as a transfer buffer.
    pub fn transfer_buffer(source: Vec<u8>) -> (r: RawVec)
        ensures
            r.bytes() == source@,
    {
        RawVec { data: source }
    }

    /// How many bytes the buffer carries.
    pub fn len(&self) -> (n: usize)
        ensures
            n == self.bytes().len(),
    {
        self.data.len()
    }
}

/// Copy a byte vector without touching its source.
pub(crate) fn clone_byte_vec(src: &Vec<u8>) -> (r: Vec<u8>)
    ensures
        r@ == src@,
{
    let mut out: Vec<u8> = Vec::new();
    let mut i: usize = 0;
    while i < src.len()
        invariant
            i <= src@.len(),
            out@ == src@.take(i as int),
        decreases src@.len() - i,
    {
        out.push(src[i]);
        proof {
            assert(src@.take(i as int).push(src@[i as int]) =~= src@.take(i + 1 as int));
        }
        i += 1;
    }
    proof {
        assert(src@.take(src@.len() as int) =~= src@);
    }
    out
}

/// Copy the buffer's bytes into caller-owned storage, replacing what the
/// destination held; ownership of the buffer does not move.
pub fn fill_bytes(raw: &RawVec, dst: &mut Vec<u8>)
    ensures
        final(dst)@ == raw.bytes(),
{
    let copied = clone_byte_vec(&raw.data);
    let mut fresh = copied;
    dst.clear();
    dst.append(&mut fresh);
}

/// Release a transferred buffer, dropping its backing storage: the one
/// matching release of every buffer that was not consumed otherwise.
/// Releasing is safe exactly once; afterwards the buffer is gone, which
/// ownership enforces.
pub fn free_vec(raw: RawVec)
{
    let _ = raw;
}

} // verus!
