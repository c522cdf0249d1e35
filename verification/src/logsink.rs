//! The durable byte sink that captures one instance's combined output, and
//! the read handles that observe it.
//!
//! The sink is a single append-only byte store created before execution
//! starts. Any number of independently positioned read handles can be opened
//! at any time, including after the writer is done; a handle opened at time T
//! can read every byte written up to T from offset zero, and only those.

use vstd::prelude::*;

verus! {

/// What a read handle positioned at `pos` still has in front of it.
pub open spec fn observed_from(contents: Seq<u8>, pos: int) -> Seq<u8> {
    contents.skip(pos)
}

/// The append-only byte store of one instance's output.
///
/// It also acts as the handle factory: `new_handle` vends a fresh,
/// independently positioned read handle and never mutates the store, so the
/// store may be shared freely among readers.
pub struct LogSink {
    data: Vec<u8>,
}

/// A read handle into a [`LogSink`]: an independent cursor that starts at
/// offset zero and only moves forward as it reads.
pub struct LogHandle {
    pos: usize,
}

impl LogHandle {
    /// The handle's current offset into the sink.
    pub closed spec fn position(&self) -> int {
        self.pos as int
    }
}

impl View for LogSink {
    type V = Seq<u8>;

    closed spec fn view(&self) -> Seq<u8> {
        self.data@
    }
}

impl LogSink {
    /// Creates the empty sink, before execution starts.
    pub fn new() -> (sink: Self)
        ensures
            sink@ =~= Seq::<u8>::empty(),
    {
        LogSink { data: Vec::new() }
    }

    /// Appends `bytes` to the store. Appending never disturbs what earlier
    /// read handles have already observed: the old contents stay a prefix.
    pub fn write(&mut self, bytes: &[u8])
        ensures
            final(self)@ =~= old(self)@ + bytes@,
    {
        let mut i: usize = 0;
        while i < bytes.len()
            invariant
                i <= bytes@.len(),
                self@ =~= old(self)@ + bytes@.take(i as int),
            decreases bytes@.len() - i,
        {
            self.data.push(bytes[i]);
            i = i + 1;
            proof {
                assert(bytes@.take(i as int) =~= bytes@.take(i - 1).push(bytes@[i - 1]));
            }
        }
        proof {
            assert(bytes@.take(bytes@.len() as int) =~= bytes@);
        }
    }

    /// The number of bytes written so far.
    pub fn len(&self) -> (n: usize)
        ensures
            n == self@.len(),
    {
        self.data.len()
    }

    /// Opens a fresh read handle, positioned at offset zero, so that it can
    /// observe every byte written so far.
    pub fn new_handle(&self) -> (h: LogHandle)
        ensures
            h.position() == 0,
    {
        LogHandle { pos: 0 }
    }

    /// Reads everything the handle has not yet observed, advancing the handle
    /// to the end of the store.
    pub fn read_to_end(&self, h: &mut LogHandle) -> (bytes: Vec<u8>)
        requires
            0 <= old(h).position() <= self@.len(),
        ensures
            bytes@ =~= observed_from(self@, old(h).position()),
            final(h).position() == self@.len(),
    {
        let mut bytes: Vec<u8> = Vec::new();
        let mut i: usize = h.pos;
        while i < self.data.len()
            invariant
                h.pos <= i <= self@.len(),
                bytes@ =~= self@.subrange(h.pos as int, i as int),
            decreases self@.len() - i,
        {
            bytes.push(self.data[i]);
            i = i + 1;
            proof {
                assert(self@.subrange(h.pos as int, i as int) =~= self@.subrange(
                    h.pos as int,
                    i - 1,
                ).push(self@[i - 1]));
            }
        }
        h.pos = i;
        bytes
    }
}

/// Log sink round trip: bytes written before a read handle exists and bytes
/// written after are both fully visible to a handle opened once writing has
/// completed — no truncation and no duplication. A fresh handle stands at
/// offset zero, and a sink filled by two writes from empty holds exactly the
/// two payloads in order, so the handle observes exactly their concatenation.
pub proof fn lemma_log_round_trip(first: Seq<u8>, second: Seq<u8>)
    ensures
        observed_from(Seq::<u8>::empty() + first + second, 0) =~= first + second,
        observed_from(Seq::<u8>::empty() + first + second, 0).len() == first.len() + second.len(),
{
}

} // verus!
