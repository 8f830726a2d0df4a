use vstd::prelude::*;

use crate::peek::PeekReader;
use crate::source::ByteSource;
use crate::DecompressError;

verus! {

/// The passthrough adapter: the identity transform over the peek buffer.
/// It is selected by configuration alone; there is no signature to sniff.
pub struct UncompressedReader<R: ByteSource> {
    source: PeekReader<R>,
    emitted: Ghost<Seq<u8>>,
}

impl<R: ByteSource> UncompressedReader<R> {
    /// The compressed-side bytes still to be read (for this adapter, the
    /// decoded bytes as well: it copies its input).
    pub closed spec fn upcoming(&self) -> Seq<u8> {
        self.source.total()
    }

    /// Decoded bytes handed to the consumer so far.
    pub closed spec fn emitted(&self) -> Seq<u8> {
        self.emitted@
    }

    /// Decoded bytes waiting to be handed out (always none: reads copy
    /// straight from the peek buffer).
    pub open spec fn staged(&self) -> Seq<u8> {
        Seq::<u8>::empty()
    }

    /// Whether the underlying source can never fail a read.
    pub closed spec fn src_infallible(&self) -> bool {
        self.source.src_infallible()
    }

    pub closed spec fn wf(&self) -> bool {
        self.source.wf()
    }

    pub fn new(source: PeekReader<R>) -> (r: Self)
        requires
            source.wf(),
        ensures
            r.wf(),
            r.upcoming() == source.total(),
            r.staged() == Seq::<u8>::empty(),
            r.emitted() == Seq::<u8>::empty(),
            r.src_infallible() == source.src_infallible(),
    {
        UncompressedReader { source, emitted: Ghost(Seq::empty()) }
    }

    /// Identity read: hands out the next bytes of the stream unchanged.
    pub fn read(&mut self, max: usize) -> (r: Result<Vec<u8>, DecompressError>)
        requires
            old(self).wf(),
        ensures
            final(self).wf(),
            final(self).src_infallible() == old(self).src_infallible(),
            max == 0 ==> r is Ok,
            old(self).src_infallible() ==> r is Ok,
            match r {
                Ok(v) => {
                    &&& v@.len() <= max
                    &&& v@.len() <= old(self).upcoming().len()
                    &&& v@ == old(self).upcoming().take(v@.len() as int)
                    &&& final(self).upcoming() == old(self).upcoming().skip(v@.len() as int)
                    &&& final(self).emitted() == old(self).emitted() + v@
                    &&& (v@.len() == 0 ==> max == 0 || old(self).upcoming().len() == 0)
                },
                Err(e) => {
                    &&& e is Source
                    &&& final(self).upcoming() == old(self).upcoming()
                    &&& final(self).emitted() == old(self).emitted()
                },
            },
    {
        match self.source.read(max) {
            Ok(v) => {
                self.emitted = Ghost(self.emitted@ + v@);
                Ok(v)
            },
            Err(e) => Err(DecompressError::Source(e)),
        }
    }

    /// Whether any byte is still to come; the stream does not advance.
    pub fn has_more(&mut self) -> (r: Result<bool, std::io::Error>)
        requires
            old(self).wf(),
        ensures
            final(self).wf(),
            final(self).upcoming() == old(self).upcoming(),
            final(self).emitted() == old(self).emitted(),
            final(self).src_infallible() == old(self).src_infallible(),
            old(self).src_infallible() ==> r is Ok,
            r matches Ok(b) ==> b == (old(self).upcoming().len() > 0),
    {
        match self.source.peek(1) {
            Ok(v) => Ok(v.len() > 0),
            Err(e) => Err(e),
        }
    }

    /// Borrows the peek buffer, for callers that want to inspect or read
    /// the stream in place.
    pub fn get_mut(&mut self) -> (r: &mut PeekReader<R>)
        requires
            old(self).wf(),
        ensures
            (*r).wf(),
            (*r).total() == old(self).upcoming(),
            final(self).upcoming() == final(r).total(),
            final(self).staged() == old(self).staged(),
            final(self).emitted() == old(self).emitted(),
            final(r).wf() ==> final(self).wf(),
    {
        &mut self.source
    }

    /// Reclaims the peek buffer; the stream it holds is unchanged.
    pub fn into_inner(self) -> (r: PeekReader<R>)
        requires
            self.wf(),
        ensures
            r.wf(),
            r.total() == self.upcoming(),
    {
        self.source
    }
}

} // verus!
