//! The reply side of a message: a writer accumulating the reply bytes, and
//! the marker type for methods that reply manually.
//!
//! The host's reply primitive is append-only: the guest writes the encoded
//! reply in one or more chunks and then commits it.  The writer models the
//! appended bytes; the driver hands its contents to the host when the reply
//! is committed.

use vstd::prelude::*;

use crate::codec::{encode_nat64_args, nat64_args_wire};

verus! {

/// The accumulated bytes of the reply under construction.
pub struct CallReplyWriter {
    pub data: Vec<u8>,
}

impl CallReplyWriter {
    /// A writer with nothing appended yet.
    pub fn new() -> (w: Self)
        ensures
            w.data@ == Seq::<u8>::empty(),
    {
        CallReplyWriter { data: Vec::new() }
    }

    /// Appends `buf` to the reply and reports how many bytes were written:
    /// always all of them.
    pub fn write(&mut self, buf: &[u8]) -> (n: usize)
        ensures
            final(self).data@ == old(self).data@ + buf@,
            n == buf@.len(),
    {
        let mut i: usize = 0;
        while i < buf.len()
            invariant
                i <= buf@.len(),
                self.data@ == old(self).data@ + buf@.subrange(0, i as int),
            decreases buf@.len() - i,
        {
            proof {
                assert(buf@.subrange(0, i as int + 1) =~= buf@.subrange(0, i as int).push(
                    buf@[i as int],
                ));
            }
            self.data.push(buf[i]);
            i = i + 1;
        }
        proof {
            assert(buf@.subrange(0, buf@.len() as int) =~= buf@);
        }
        buf.len()
    }

    /// Flushing is a no-op: nothing is buffered beyond the data itself.
    pub fn flush(&mut self)
        ensures
            *final(self) == *old(self),
    {
    }
}

/// Replies to the current call with a single 64-bit natural: the encoded
/// bytes — encoding this shape cannot fail — are appended to the writer.
pub fn reply_nat64(w: &mut CallReplyWriter, x: u64)
    ensures
        final(w).data@ == old(w).data@ + nat64_args_wire(x),
{
    match encode_nat64_args(x) {
        Some(bytes) => {
            let _ = w.write(bytes.as_slice());
        },
        None => vstd::pervasive::unreached(),
    }
}

/// Marker for a method that replies manually through the writer while
/// pretending, for interface purposes, to return a value of type `T`.
#[derive(Debug)]
#[verifier::reject_recursive_types(T)]
pub struct ManualReply<T> {
    marker: core::marker::PhantomData<T>,
}

impl<T> ManualReply<T> {
    /// Constructs the marker.
    pub fn empty() -> (r: Self) {
        ManualReply { marker: core::marker::PhantomData }
    }
}

} // verus!
