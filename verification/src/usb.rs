//! Sending a text over the USB serial port.
//!
//! The port accepts a message in chunks: each write takes some prefix of
//! what is still unsent, or nothing when its buffers are full. A
//! [`WriteCursor`] tracks how far the message has gone out; the firmware
//! offers the port the unsent rest until the cursor says it is done.
use vstd::prelude::*;

verus! {

/// Progress of a message of `count` bytes through the port.
pub struct WriteCursor {
    offset: usize,
    count: usize,
}

impl WriteCursor {
    /// Bytes of the message accepted so far.
    pub closed spec fn sent(&self) -> nat {
        self.offset as nat
    }

    /// Length of the message.
    pub closed spec fn len(&self) -> nat {
        self.count as nat
    }

    /// Whether the whole message has been accepted.
    pub open spec fn done(&self) -> bool {
        self.sent() >= self.len()
    }

    /// A message of `count` bytes, none of them sent.
    pub fn new(count: usize) -> (r: WriteCursor)
        ensures
            r.sent() == 0,
            r.len() == count,
    {
        WriteCursor { offset: 0, count }
    }

    /// Bytes of the message accepted so far: the unsent rest starts here.
    pub fn offset(&self) -> (r: usize)
        ensures
            r == self.sent(),
    {
        self.offset
    }

    /// Length of the message: the unsent rest ends here.
    pub fn count(&self) -> (r: usize)
        ensures
            r == self.len(),
    {
        self.count
    }

    /// Whether the whole message has been accepted.
    pub fn is_done(&self) -> (r: bool)
        ensures
            r == self.done(),
    {
        self.offset >= self.count
    }

    /// Records what one write reported: `Some(n)` when the port took `n`
    /// bytes, `None` when it reported an error. Only a write that took at
    /// least one byte moves the cursor.
    pub fn record_write(&mut self, written: Option<usize>)
        requires
            written matches Some(n) ==> old(self).sent() + n <= usize::MAX,
        ensures
            final(self).len() == old(self).len(),
            final(self).sent() == match written {
                Some(n) => old(self).sent() + n,
                None => old(self).sent() as int,
            },
    {
        match written {
            Some(n) => {
                if n > 0 {
                    self.offset = self.offset + n;
                }
            },
            None => {},
        }
    }
}

/// A write never takes back bytes: the cursor only moves forward, and a
/// message that is done stays done. When every write takes at most the
/// unsent rest, the cursor never passes the end, so the message is done
/// exactly when every byte has gone out once.
pub proof fn lemma_cursor_progress(before: WriteCursor, after: WriteCursor, n: nat)
    requires
        after.len() == before.len(),
        after.sent() == before.sent() + n,
    ensures
        before.sent() <= after.sent(),
        before.done() ==> after.done(),
        before.sent() <= before.len() && n <= before.len() - before.sent() ==> {
            &&& after.sent() <= after.len()
            &&& (after.done() <==> after.sent() == after.len())
        },
{
}

} // verus!
