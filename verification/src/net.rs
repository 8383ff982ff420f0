//! The byte sink a response is written to.

use vstd::prelude::*;

use crate::rfc7230::push_all;

verus! {

/// An I/O failure reported by the underlying sink.  The sequencer draws no
/// distinction beyond the fact of failure: nothing is retried internally,
/// and reacting is the caller's choice.
#[derive(Clone, Copy, PartialEq, Eq, Structural, Debug)]
pub struct IoError;

/// An exclusively owned, byte-oriented destination: the buffered output
/// side of an open connection.  `bytes()` is the sequence of bytes the sink
/// has accepted so far; a conforming sink accepts a write whole or not at
/// all, and flushing moves accepted bytes onward without changing them.
pub trait ByteSink: Sized {
    /// The bytes this sink has accepted so far.  An implementation gives
    /// this its own meaning; one left to the default has no observable
    /// contents.
    open spec fn bytes(&self) -> Seq<u8> {
        Seq::empty()
    }

    /// Appends `data` to the sink, whole or not at all.
    fn write(&mut self, data: &[u8]) -> (r: Result<(), IoError>)
        ensures
            r is Ok ==> final(self).bytes() == old(self).bytes() + data@,
            r is Err ==> final(self).bytes() == old(self).bytes(),
    ;

    /// Forces buffered bytes toward the destination; what the sink has
    /// accepted does not change.
    fn flush(&mut self) -> (r: Result<(), IoError>)
        ensures
            final(self).bytes() == old(self).bytes(),
    ;
}

/// An in-memory sink: accepts every byte into a vector and never fails.
pub struct MemSink {
    /// Every byte accepted so far.
    pub data: Vec<u8>,
}

impl MemSink {
    /// An empty in-memory sink.
    pub fn new() -> (r: MemSink)
        ensures
            r.bytes() == Seq::<u8>::empty(),
    {
        MemSink { data: Vec::new() }
    }
}

impl ByteSink for MemSink {
    open spec fn bytes(&self) -> Seq<u8> {
        self.data@
    }

    fn write(&mut self, data: &[u8]) -> (r: Result<(), IoError>)
        ensures
            r is Ok,
    {
        push_all(&mut self.data, data);
        Ok(())
    }

    fn flush(&mut self) -> (r: Result<(), IoError>)
        ensures
            r is Ok,
    {
        Ok(())
    }
}

} // verus!
