use vstd::prelude::*;

use crate::format::{is_gzip_magic, Staging};
use crate::peek::{peek_spec, PeekReader};
use crate::source::ByteSource;
use crate::DecompressError;

verus! {

/// Holds flate2's write-side gzip decoder, fixed to an owned output
/// vector.  The decoder type is generic over its writer with a trait bound
/// Verus refuses to declare, so this handle hides it; its state is opaque
/// to the verifier.
#[verifier::external_body]
pub struct GzDecoderHandle {
    inner: flate2::write::GzDecoder<Vec<u8>>,
}

/// Relies on flate2::write::GzDecoder::new: a fresh decoder for a single
/// gzip member, writing decoded bytes into the owned vector.
#[verifier::external_body]
fn gz_new() -> GzDecoderHandle {
    GzDecoderHandle { inner: flate2::write::GzDecoder::new(Vec::new()) }
}

/// Relies on std::io::Write::write for flate2::write::GzDecoder: feeds
/// compressed bytes and returns how many were accepted, never more than
/// were given (the Write contract).  Once the member and its trailer are
/// fully consumed it accepts nothing further and returns zero, so trailing
/// bytes stay with the caller.
#[verifier::external_body]
fn gz_write(d: &mut GzDecoderHandle, input: &Vec<u8>) -> (r: Result<
    usize,
    std::io::Error,
>)
    ensures
        r matches Ok(n) ==> n <= input@.len(),
{
    std::io::Write::write(&mut d.inner, input.as_slice())
}

/// Relies on flate2::write::GzDecoder::get_mut: hands over the decoded
/// bytes accumulated so far, leaving the decoder's output vector empty.
#[verifier::external_body]
fn gz_take_output(d: &mut GzDecoderHandle) -> Vec<u8> {
    std::mem::take(d.inner.get_mut())
}

/// Relies on flate2::write::GzDecoder::try_finish: flushes what remains and
/// succeeds only if a complete gzip member was consumed and its CRC trailer
/// matches; a truncated or corrupt member is reported as an error.
#[verifier::external_body]
fn gz_try_finish(d: &mut GzDecoderHandle) -> (r: Result<(), std::io::Error>) {
    d.inner.try_finish()
}

/// Adapter for gzip streams: a single member, decoded by flate2 until its
/// trailer, after which any residual bytes remain unread in the peek
/// buffer.
pub struct GzipReader<R: ByteSource> {
    source: PeekReader<R>,
    decoder: GzDecoderHandle,
    staging: Staging,
    finished: bool,
    emitted: Ghost<Seq<u8>>,
}

impl<R: ByteSource> GzipReader<R> {
    /// Compressed-side bytes still to be read.
    pub closed spec fn upcoming(&self) -> Seq<u8> {
        self.source.total()
    }

    /// Decoded bytes waiting to be handed out.
    pub closed spec fn staged(&self) -> Seq<u8> {
        self.staging.bytes()
    }

    /// Decoded bytes handed to the consumer so far.
    pub closed spec fn emitted(&self) -> Seq<u8> {
        self.emitted@
    }

    /// Whether the member has ended (cleanly or at source end) and no more
    /// decoding will happen.
    pub closed spec fn done(&self) -> bool {
        self.finished
    }

    /// Whether the underlying source can never fail a read.
    pub closed spec fn src_infallible(&self) -> bool {
        self.source.src_infallible()
    }

    pub closed spec fn wf(&self) -> bool {
        self.source.wf() && self.staging.wf()
    }

    /// Whether the stream starts with the gzip signature; nothing is
    /// consumed.
    pub fn detect(source: &mut PeekReader<R>) -> (r: Result<bool, std::io::Error>)
        requires
            old(source).wf(),
        ensures
            final(source).wf(),
            final(source).total() == old(source).total(),
            final(source).delivered_bytes() == old(source).delivered_bytes(),
            final(source).initial_bytes() == old(source).initial_bytes(),
            final(source).src_infallible() == old(source).src_infallible(),
            old(source).src_infallible() ==> r is Ok,
            old(source).queued().len() >= 2 ==> r is Ok,
            r matches Ok(b) ==> b == is_gzip_magic(old(source).total()),
    {
        let v = match source.peek(2) {
            Ok(v) => v,
            Err(e) => {
                return Err(e);
            },
        };
        let b = v.len() == 2 && v[0] == 0x1fu8 && v[1] == 0x8bu8;
        proof {
            let t = old(source).total();
            if t.len() >= 2 {
                assert(v@ == t.take(2));
                assert(v@[0] == t[0] && v@[1] == t[1]);
            }
        }
        Ok(b)
    }

    pub fn new(source: PeekReader<R>) -> (r: Self)
        requires
            source.wf(),
        ensures
            r.wf(),
            r.upcoming() == source.total(),
            r.staged() == Seq::<u8>::empty(),
            r.emitted() == Seq::<u8>::empty(),
            !r.done(),
            r.src_infallible() == source.src_infallible(),
    {
        GzipReader {
            source,
            decoder: gz_new(),
            staging: Staging::new(),
            finished: false,
            emitted: Ghost(Seq::empty()),
        }
    }

    /// One read step: drains staged decoded bytes first; otherwise feeds
    /// compressed bytes to the decoder until it produces output, finishes
    /// its member, or the source ends.  An empty result with `max > 0`
    /// means the decode is complete; bytes after the member stay unread.
    pub fn read(&mut self, max: usize) -> (r: Result<Vec<u8>, DecompressError>)
        requires
            old(self).wf(),
        ensures
            final(self).wf(),
            final(self).src_infallible() == old(self).src_infallible(),
            max == 0 ==> r is Ok,
            old(self).staged().len() > 0 ==> r is Ok,
            (old(self).done() && old(self).staged().len() == 0) ==> (r matches Ok(v)
                && v@.len() == 0 && final(self).upcoming() == old(self).upcoming()
                && final(self).done()),
            match r {
                Ok(v) => {
                    &&& v@.len() <= max
                    &&& final(self).emitted() == old(self).emitted() + v@
                    &&& (old(self).staged().len() > 0 ==> {
                        &&& v@ == peek_spec(old(self).staged(), max as int)
                        &&& final(self).staged() == old(self).staged().skip(v@.len() as int)
                        &&& final(self).upcoming() == old(self).upcoming()
                    })
                    &&& (v@.len() == 0 && max > 0 ==> final(self).staged().len() == 0
                        && final(self).done())
                },
                Err(e) => {
                    &&& final(self).emitted() == old(self).emitted()
                    &&& (e is Source || e is Underlying)
                },
            },
    {
        if !self.staging.is_empty() {
            let v = self.staging.drain(max);
            self.emitted = Ghost(self.emitted@ + v@);
            return Ok(v);
        }
        if self.finished || max == 0 {
            let v: Vec<u8> = Vec::new();
            proof {
                assert(self.emitted@ + v@ =~= self.emitted@);
            }
            self.emitted = Ghost(self.emitted@ + v@);
            return Ok(v);
        }
        loop
            invariant
                self.wf(),
                self.staged().len() == 0,
                !self.finished,
                !old(self).done(),
                max >= 1,
                self.emitted() == old(self).emitted(),
                old(self).staged().len() == 0,
                self.src_infallible() == old(self).src_infallible(),
            decreases self.upcoming().len(),
        {
            let chunk = match self.source.fill_buf() {
                Ok(c) => c,
                Err(e) => {
                    return Err(DecompressError::Source(e));
                },
            };
            if chunk.len() == 0 {
                // Source exhausted: the member must be complete and checked.
                match gz_try_finish(&mut self.decoder) {
                    Ok(()) => {},
                    Err(e) => {
                        return Err(DecompressError::Underlying(e));
                    },
                }
                self.finished = true;
                let out = gz_take_output(&mut self.decoder);
                return Ok(self.deliver(out, max));
            }
            let n = match gz_write(&mut self.decoder, &chunk) {
                Ok(n) => n,
                Err(e) => {
                    return Err(DecompressError::Underlying(e));
                },
            };
            if n == 0 {
                // The decoder is done with its member; whatever follows in
                // the stream is trailing data and stays unread.
                match gz_try_finish(&mut self.decoder) {
                    Ok(()) => {},
                    Err(e) => {
                        return Err(DecompressError::Underlying(e));
                    },
                }
                self.finished = true;
                let out = gz_take_output(&mut self.decoder);
                return Ok(self.deliver(out, max));
            }
            self.source.consume(n);
            // Decoded bytes reach the owned vector as later writes push
            // them through; try_finish drains the remainder at the end.
            let out = gz_take_output(&mut self.decoder);
            if out.len() > 0 {
                return Ok(self.deliver(out, max));
            }
        }
    }

    /// Stages freshly decoded bytes and hands out the first `max` of them.
    fn deliver(&mut self, out: Vec<u8>, max: usize) -> (v: Vec<u8>)
        requires
            old(self).wf(),
            old(self).staged().len() == 0,
            max >= 1,
        ensures
            final(self).wf(),
            v@.len() <= max,
            final(self).emitted() == old(self).emitted() + v@,
            final(self).upcoming() == old(self).upcoming(),
            final(self).src_infallible() == old(self).src_infallible(),
            final(self).done() == old(self).done(),
            (v@.len() == 0 ==> max == 0 || out@.len() == 0),
            (v@.len() == 0 ==> final(self).staged().len() == 0),
    {
        self.staging.refill(out);
        let v = self.staging.drain(max);
        self.emitted = Ghost(self.emitted@ + v@);
        v
    }

    /// Whether any byte is still to come on the compressed side; the stream
    /// does not advance.
    pub fn has_more(&mut self) -> (r: Result<bool, std::io::Error>)
        requires
            old(self).wf(),
        ensures
            final(self).wf(),
            final(self).upcoming() == old(self).upcoming(),
            final(self).staged() == old(self).staged(),
            final(self).emitted() == old(self).emitted(),
            final(self).src_infallible() == old(self).src_infallible(),
            old(self).src_infallible() ==> r is Ok,
            r matches Ok(b) ==> b == (old(self).upcoming().len() > 0),
    {
        match self.source.peek(1) {
            Ok(v) => Ok(v.len() > 0),
            Err(e) => Err(e),
        }
    }

    /// Borrows the peek buffer, for callers that want to inspect or read
    /// the stream in place.
    pub fn get_mut(&mut self) -> (r: &mut PeekReader<R>)
        requires
            old(self).wf(),
        ensures
            (*r).wf(),
            (*r).total() == old(self).upcoming(),
            final(self).upcoming() == final(r).total(),
            final(self).staged() == old(self).staged(),
            final(self).emitted() == old(self).emitted(),
            final(self).done() == old(self).done(),
            final(r).wf() ==> final(self).wf(),
    {
        &mut self.source
    }

    /// Reclaims the peek buffer; the unread compressed bytes are unchanged.
    pub fn into_inner(self) -> (r: PeekReader<R>)
        requires
            self.wf(),
        ensures
            r.wf(),
            r.total() == self.upcoming(),
    {
        self.source
    }
}

} // verus!
