use vstd::prelude::*;

use crate::format::{decoder_stall_error, is_xz_magic, Staging};
use crate::peek::{peek_spec, PeekReader};
use crate::source::ByteSource;
use crate::DecompressError;

verus! {

/// Declares liblzma's low-level stream so it can live in a field.  Its
/// state is opaque to the verifier.
#[verifier::external_type_specification]
#[verifier::external_body]
pub struct ExXzStream(xz2::stream::Stream);

/// Relies on xz2::stream::Stream::new_stream_decoder: a fresh decoder for
/// a single xz stream, with no memory limit and no extra flags.
#[verifier::external_body]
fn xz_new() -> (r: Result<xz2::stream::Stream, std::io::Error>) {
    match xz2::stream::Stream::new_stream_decoder(u64::MAX, 0) {
        Ok(s) => Ok(s),
        Err(e) => Err(e.into()),
    }
}

/// Relies on xz2::stream::Stream::process_vec and total_in: one decoding
/// step.  The result is how many input bytes were consumed (the growth of
/// total_in, never more than were offered), the decoded bytes
/// (process_vec fills at most the scratch vector's spare capacity, at
/// least `cap`), and whether the stream's end was reached — after which
/// liblzma accepts no further input, so bytes past the stream stay with
/// the caller.  A decode error is reported as an error, unchanged.
#[verifier::external_body]
fn xz_step(s: &mut xz2::stream::Stream, input: &Vec<u8>, cap: usize) -> (r: Result<
    (usize, Vec<u8>, bool),
    std::io::Error,
>)
    ensures
        r matches Ok(t) ==> t.0 <= input@.len(),
{
    let mut out: Vec<u8> = Vec::with_capacity(cap);
    let before = s.total_in();
    match s.process_vec(input.as_slice(), &mut out, xz2::stream::Action::Run) {
        Ok(st) => {
            let used = (s.total_in() - before) as usize;
            Ok((used, out, st == xz2::stream::Status::StreamEnd))
        },
        Err(e) => Err(e.into()),
    }
}

/// Adapter for xz streams, driving liblzma's low-level stream directly so
/// that a clean end of stream can be told apart from a decode error.  It
/// decodes a single xz stream; whatever follows it is trailing data.
pub struct XzReader<R: ByteSource> {
    source: PeekReader<R>,
    stream: xz2::stream::Stream,
    staging: Staging,
    at_end: bool,
    emitted: Ghost<Seq<u8>>,
}

impl<R: ByteSource> XzReader<R> {
    /// Compressed-side bytes still to be read.
    pub closed spec fn upcoming(&self) -> Seq<u8> {
        self.source.total()
    }

    /// Decoded bytes waiting to be handed out.
    pub closed spec fn staged(&self) -> Seq<u8> {
        self.staging.bytes()
    }

    /// Decoded bytes handed to the consumer so far.
    pub closed spec fn emitted(&self) -> Seq<u8> {
        self.emitted@
    }

    /// Whether the stream has ended; no more decoding will happen.
    pub closed spec fn at_stream_end(&self) -> bool {
        self.at_end
    }

    /// Whether the underlying source can never fail a read.
    pub closed spec fn src_infallible(&self) -> bool {
        self.source.src_infallible()
    }

    pub closed spec fn wf(&self) -> bool {
        self.source.wf() && self.staging.wf()
    }

    /// Whether the stream starts with the xz signature; nothing is
    /// consumed.
    pub fn detect(source: &mut PeekReader<R>) -> (r: Result<bool, std::io::Error>)
        requires
            old(source).wf(),
        ensures
            final(source).wf(),
            final(source).total() == old(source).total(),
            final(source).delivered_bytes() == old(source).delivered_bytes(),
            final(source).initial_bytes() == old(source).initial_bytes(),
            final(source).src_infallible() == old(source).src_infallible(),
            old(source).src_infallible() ==> r is Ok,
            old(source).queued().len() >= 6 ==> r is Ok,
            r matches Ok(b) ==> b == is_xz_magic(old(source).total()),
    {
        let v = match source.peek(6) {
            Ok(v) => v,
            Err(e) => {
                return Err(e);
            },
        };
        let b = v.len() == 6 && v[0] == 0xfdu8 && v[1] == 0x37u8 && v[2] == 0x7au8 && v[3]
            == 0x58u8 && v[4] == 0x5au8 && v[5] == 0x00u8;
        proof {
            let t = old(source).total();
            if t.len() >= 6 {
                assert(v@ == t.take(6));
                assert(v@[0] == t[0] && v@[1] == t[1] && v@[2] == t[2] && v@[3] == t[3] && v@[4]
                    == t[4] && v@[5] == t[5]);
            }
        }
        Ok(b)
    }

    pub fn new(source: PeekReader<R>) -> (r: Result<Self, std::io::Error>)
        requires
            source.wf(),
        ensures
            r matches Ok(x) ==> {
                &&& x.wf()
                &&& x.upcoming() == source.total()
                &&& x.staged() == Seq::<u8>::empty()
                &&& x.emitted() == Seq::<u8>::empty()
                &&& !x.at_stream_end()
                &&& x.src_infallible() == source.src_infallible()
            },
    {
        let stream = match xz_new() {
            Ok(s) => s,
            Err(e) => {
                return Err(e);
            },
        };
        Ok(
            XzReader {
                source,
                stream,
                staging: Staging::new(),
                at_end: false,
                emitted: Ghost(Seq::empty()),
            },
        )
    }

    /// One read step: drains staged decoded bytes first; otherwise feeds
    /// compressed bytes to liblzma until it produces output or ends the
    /// stream.  An empty result with `max > 0` means the xz stream is
    /// complete; bytes after it stay unread.  A source that ends
    /// mid-stream is a premature end of file.
    pub fn read(&mut self, max: usize) -> (r: Result<Vec<u8>, DecompressError>)
        requires
            old(self).wf(),
        ensures
            final(self).wf(),
            final(self).src_infallible() == old(self).src_infallible(),
            max == 0 ==> r is Ok,
            old(self).staged().len() > 0 ==> r is Ok,
            (old(self).at_stream_end() && old(self).staged().len() == 0) ==> (r matches Ok(v)
                && v@.len() == 0 && final(self).upcoming() == old(self).upcoming()
                && final(self).at_stream_end()),
            (!old(self).at_stream_end() && old(self).staged().len() == 0
                && old(self).upcoming().len() == 0 && max > 0) ==> (r matches Err(e) && (
            e is PrematureEof || e is Source)),
            (r matches Err(e) && e is PrematureEof) ==> final(self).upcoming().len() == 0
                && final(self).staged().len() == 0,
            match r {
                Ok(v) => {
                    &&& v@.len() <= max
                    &&& final(self).emitted() == old(self).emitted() + v@
                    &&& (old(self).staged().len() > 0 ==> {
                        &&& v@ == peek_spec(old(self).staged(), max as int)
                        &&& final(self).staged() == old(self).staged().skip(v@.len() as int)
                        &&& final(self).upcoming() == old(self).upcoming()
                    })
                    &&& (v@.len() == 0 && max > 0 ==> final(self).staged().len() == 0
                        && final(self).at_stream_end())
                },
                Err(e) => {
                    &&& final(self).emitted() == old(self).emitted()
                    &&& (e is Source || e is Underlying || e is PrematureEof)
                },
            },
    {
        if !self.staging.is_empty() {
            let v = self.staging.drain(max);
            self.emitted = Ghost(self.emitted@ + v@);
            return Ok(v);
        }
        if max == 0 || self.at_end {
            let v: Vec<u8> = Vec::new();
            proof {
                assert(self.emitted@ + v@ =~= self.emitted@);
            }
            self.emitted = Ghost(self.emitted@ + v@);
            return Ok(v);
        }
        loop
            invariant
                self.wf(),
                self.staged().len() == 0,
                !self.at_end,
                max >= 1,
                self.emitted() == old(self).emitted(),
                old(self).staged().len() == 0,
                !old(self).at_stream_end(),
                self.src_infallible() == old(self).src_infallible(),
                old(self).upcoming().len() == 0 ==> self.upcoming() == old(self).upcoming(),
            decreases self.upcoming().len(),
        {
            let chunk = match self.source.fill_buf() {
                Ok(c) => c,
                Err(e) => {
                    return Err(DecompressError::Source(e));
                },
            };
            if chunk.len() == 0 {
                return Err(DecompressError::PrematureEof);
            }
            let step = match xz_step(&mut self.stream, &chunk, 16384) {
                Ok(s) => s,
                Err(e) => {
                    return Err(DecompressError::Underlying(e));
                },
            };
            let (used, out, end) = step;
            self.source.consume(used);
            if end {
                self.at_end = true;
            }
            if out.len() > 0 {
                return Ok(self.deliver(out, max));
            }
            if end {
                let v: Vec<u8> = Vec::new();
                proof {
                    assert(self.emitted@ + v@ =~= self.emitted@);
                }
                self.emitted = Ghost(self.emitted@ + v@);
                return Ok(v);
            }
            if used == 0 {
                return Err(DecompressError::Underlying(decoder_stall_error()));
            }
        }
    }

    /// Stages freshly decoded bytes and hands out the first `max` of them.
    fn deliver(&mut self, out: Vec<u8>, max: usize) -> (v: Vec<u8>)
        requires
            old(self).wf(),
            old(self).staged().len() == 0,
            max >= 1,
        ensures
            final(self).wf(),
            v@.len() <= max,
            final(self).emitted() == old(self).emitted() + v@,
            final(self).upcoming() == old(self).upcoming(),
            final(self).src_infallible() == old(self).src_infallible(),
            final(self).at_stream_end() == old(self).at_stream_end(),
            (v@.len() == 0 ==> max == 0 || out@.len() == 0),
            (v@.len() == 0 ==> final(self).staged().len() == 0),
    {
        self.staging.refill(out);
        let v = self.staging.drain(max);
        self.emitted = Ghost(self.emitted@ + v@);
        v
    }

    /// Whether any byte is still to come on the compressed side; the stream
    /// does not advance.
    pub fn has_more(&mut self) -> (r: Result<bool, std::io::Error>)
        requires
            old(self).wf(),
        ensures
            final(self).wf(),
            final(self).upcoming() == old(self).upcoming(),
            final(self).staged() == old(self).staged(),
            final(self).emitted() == old(self).emitted(),
            final(self).src_infallible() == old(self).src_infallible(),
            old(self).src_infallible() ==> r is Ok,
            r matches Ok(b) ==> b == (old(self).upcoming().len() > 0),
    {
        match self.source.peek(1) {
            Ok(v) => Ok(v.len() > 0),
            Err(e) => Err(e),
        }
    }

    /// Borrows the peek buffer, for callers that want to inspect or read
    /// the stream in place.
    pub fn get_mut(&mut self) -> (r: &mut PeekReader<R>)
        requires
            old(self).wf(),
        ensures
            (*r).wf(),
            (*r).total() == old(self).upcoming(),
            final(self).upcoming() == final(r).total(),
            final(self).staged() == old(self).staged(),
            final(self).emitted() == old(self).emitted(),
            final(self).at_stream_end() == old(self).at_stream_end(),
            final(r).wf() ==> final(self).wf(),
    {
        &mut self.source
    }

    /// Reclaims the peek buffer; the unread compressed bytes are unchanged.
    pub fn into_inner(self) -> (r: PeekReader<R>)
        requires
            self.wf(),
        ensures
            r.wf(),
            r.total() == self.upcoming(),
    {
        self.source
    }
}

} // verus!
