use vstd::prelude::*;

use crate::format::{decoder_stall_error, is_bzip2_magic, Staging};
use crate::peek::{peek_spec, PeekReader};
use crate::source::ByteSource;
use crate::DecompressError;

verus! {

/// Declares bzip2's low-level decompression stream so it can live in a
/// field.  Its state is opaque to the verifier.
#[verifier::external_type_specification]
#[verifier::external_body]
pub struct ExBzDecompress(bzip2::Decompress);

/// Relies on bzip2::Decompress::new: a fresh decompression stream.
#[verifier::external_body]
fn bz_new() -> bzip2::Decompress {
    bzip2::Decompress::new(false)
}

/// Relies on bzip2::Decompress::decompress_vec and total_in: one
/// decompression step.  The result is how many input bytes were consumed
/// (the growth of total_in, never more than were offered), the decoded
/// bytes (decompress_vec fills at most the scratch vector's spare
/// capacity, at least `cap`), and whether the stream's end was reached.
/// A decode error is reported as an error, unchanged.
#[verifier::external_body]
fn bz_step(d: &mut bzip2::Decompress, input: &Vec<u8>, cap: usize) -> (r: Result<
    (usize, Vec<u8>, bool),
    std::io::Error,
>)
    ensures
        r matches Ok(t) ==> t.0 <= input@.len(),
{
    let mut out: Vec<u8> = Vec::with_capacity(cap);
    let before = d.total_in();
    match d.decompress_vec(input.as_slice(), &mut out) {
        Ok(st) => {
            let used = (d.total_in() - before) as usize;
            Ok((used, out, st == bzip2::Status::StreamEnd))
        },
        Err(e) => Err(std::io::Error::new(std::io::ErrorKind::InvalidData, e)),
    }
}

/// Whether the stream starts with the bzip2 signature (`BZh` and a block
/// size digit); nothing is consumed.
pub fn has_magic<R: ByteSource>(source: &mut PeekReader<R>) -> (r: Result<bool, std::io::Error>)
    requires
        old(source).wf(),
    ensures
        final(source).wf(),
        final(source).total() == old(source).total(),
        final(source).delivered_bytes() == old(source).delivered_bytes(),
        final(source).initial_bytes() == old(source).initial_bytes(),
        final(source).src_infallible() == old(source).src_infallible(),
        old(source).src_infallible() ==> r is Ok,
        old(source).queued().len() >= 4 ==> r is Ok,
        r matches Ok(b) ==> b == is_bzip2_magic(old(source).total()),
{
    let v = match source.peek(4) {
        Ok(v) => v,
        Err(e) => {
            return Err(e);
        },
    };
    let b = v.len() == 4 && v[0] == 0x42u8 && v[1] == 0x5au8 && v[2] == 0x68u8 && v[3] >= 0x31u8
        && v[3] <= 0x39u8;
    proof {
        let t = old(source).total();
        if t.len() >= 4 {
            assert(v@ == t.take(4));
            assert(v@[0] == t[0] && v@[1] == t[1] && v@[2] == t[2] && v@[3] == t[3]);
        }
    }
    Ok(b)
}

/// Adapter for bzip2 streams, driving the low-level primitive directly.
/// When one stream ends it re-checks the next bytes for another bzip2
/// signature and, if present, decodes that stream too, so back-to-back
/// concatenated streams come out as one continuous decode.
pub struct Bzip2Reader<R: ByteSource> {
    source: PeekReader<R>,
    decomp: bzip2::Decompress,
    staging: Staging,
    at_end: bool,
    emitted: Ghost<Seq<u8>>,
}

impl<R: ByteSource> Bzip2Reader<R> {
    /// Compressed-side bytes still to be read.
    pub closed spec fn upcoming(&self) -> Seq<u8> {
        self.source.total()
    }

    /// Decoded bytes waiting to be handed out.
    pub closed spec fn staged(&self) -> Seq<u8> {
        self.staging.bytes()
    }

    /// Decoded bytes handed to the consumer so far.
    pub closed spec fn emitted(&self) -> Seq<u8> {
        self.emitted@
    }

    /// Whether the current stream has ended; the next read re-checks for a
    /// following concatenated stream.
    pub closed spec fn at_stream_end(&self) -> bool {
        self.at_end
    }

    /// Whether the underlying source can never fail a read.
    pub closed spec fn src_infallible(&self) -> bool {
        self.source.src_infallible()
    }

    pub closed spec fn wf(&self) -> bool {
        self.source.wf() && self.staging.wf()
    }

    /// Whether the stream starts with the bzip2 signature; nothing is
    /// consumed.
    pub fn detect(source: &mut PeekReader<R>) -> (r: Result<bool, std::io::Error>)
        requires
            old(source).wf(),
        ensures
            final(source).wf(),
            final(source).total() == old(source).total(),
            final(source).delivered_bytes() == old(source).delivered_bytes(),
            final(source).initial_bytes() == old(source).initial_bytes(),
            final(source).src_infallible() == old(source).src_infallible(),
            old(source).src_infallible() ==> r is Ok,
            old(source).queued().len() >= 4 ==> r is Ok,
            r matches Ok(b) ==> b == is_bzip2_magic(old(source).total()),
    {
        has_magic(source)
    }

    pub fn new(source: PeekReader<R>) -> (r: Self)
        requires
            source.wf(),
        ensures
            r.wf(),
            r.upcoming() == source.total(),
            r.staged() == Seq::<u8>::empty(),
            r.emitted() == Seq::<u8>::empty(),
            !r.at_stream_end(),
            r.src_infallible() == source.src_infallible(),
    {
        Bzip2Reader {
            source,
            decomp: bz_new(),
            staging: Staging::new(),
            at_end: false,
            emitted: Ghost(Seq::empty()),
        }
    }

    /// One read step: drains staged decoded bytes first; otherwise feeds
    /// compressed bytes to the primitive until it produces output or ends
    /// the stream.  An empty result with `max > 0` means decoding is
    /// complete and no further bzip2 stream follows: whatever comes next is
    /// trailing data, left unread.  A source that ends mid-stream is a
    /// premature end of file.
    pub fn read(&mut self, max: usize) -> (r: Result<Vec<u8>, DecompressError>)
        requires
            old(self).wf(),
        ensures
            final(self).wf(),
            final(self).src_infallible() == old(self).src_infallible(),
            max == 0 ==> r is Ok,
            old(self).staged().len() > 0 ==> r is Ok,
            (old(self).at_stream_end() && old(self).staged().len() == 0
                && !is_bzip2_magic(old(self).upcoming())) ==> (match r {
                Ok(v) => v@.len() == 0 && final(self).upcoming() == old(self).upcoming(),
                Err(e) => e is Source && !old(self).src_infallible(),
            }),
            (!old(self).at_stream_end() && old(self).staged().len() == 0
                && old(self).upcoming().len() == 0 && max > 0) ==> (r matches Err(e) && (
            e is PrematureEof || e is Source)),
            (r matches Err(e) && e is PrematureEof) ==> final(self).upcoming().len() == 0
                && final(self).staged().len() == 0,
            match r {
                Ok(v) => {
                    &&& v@.len() <= max
                    &&& final(self).emitted() == old(self).emitted() + v@
                    &&& (old(self).staged().len() > 0 ==> {
                        &&& v@ == peek_spec(old(self).staged(), max as int)
                        &&& final(self).staged() == old(self).staged().skip(v@.len() as int)
                        &&& final(self).upcoming() == old(self).upcoming()
                    })
                    &&& (v@.len() == 0 && max > 0 ==> {
                        &&& final(self).staged().len() == 0
                        &&& final(self).at_stream_end()
                        &&& !is_bzip2_magic(final(self).upcoming())
                    })
                },
                Err(e) => {
                    &&& final(self).emitted() == old(self).emitted()
                    &&& (e is Source || e is Underlying || e is PrematureEof)
                },
            },
    {
        if !self.staging.is_empty() {
            let v = self.staging.drain(max);
            self.emitted = Ghost(self.emitted@ + v@);
            return Ok(v);
        }
        if max == 0 {
            let v: Vec<u8> = Vec::new();
            proof {
                assert(self.emitted@ + v@ =~= self.emitted@);
            }
            self.emitted = Ghost(self.emitted@ + v@);
            return Ok(v);
        }
        loop
            invariant
                self.wf(),
                self.staged().len() == 0,
                max >= 1,
                self.emitted() == old(self).emitted(),
                old(self).staged().len() == 0,
                self.src_infallible() == old(self).src_infallible(),
                (old(self).at_stream_end() && !is_bzip2_magic(old(self).upcoming())) ==> (
                self.at_end && self.upcoming() == old(self).upcoming()),
                (!old(self).at_stream_end() && old(self).upcoming().len() == 0) ==> (!self.at_end
                    && self.upcoming() == old(self).upcoming()),
            decreases 2 * self.upcoming().len() + (if self.at_end {
                0int
            } else {
                1
            }),
        {
            let was_end = self.at_end;
            if self.at_end {
                // The stream ended; look for another one back-to-back.
                let m = match has_magic(&mut self.source) {
                    Ok(m) => m,
                    Err(e) => {
                        return Err(DecompressError::Source(e));
                    },
                };
                if !m {
                    let v: Vec<u8> = Vec::new();
                    proof {
                        assert(self.emitted@ + v@ =~= self.emitted@);
                    }
                    self.emitted = Ghost(self.emitted@ + v@);
                    return Ok(v);
                }
                self.decomp = bz_new();
                self.at_end = false;
            }
            let chunk = match self.source.fill_buf() {
                Ok(c) => c,
                Err(e) => {
                    return Err(DecompressError::Source(e));
                },
            };
            if chunk.len() == 0 {
                return Err(DecompressError::PrematureEof);
            }
            let step = match bz_step(&mut self.decomp, &chunk, 16384) {
                Ok(s) => s,
                Err(e) => {
                    return Err(DecompressError::Underlying(e));
                },
            };
            let (used, out, end) = step;
            self.source.consume(used);
            if end {
                self.at_end = true;
            }
            if out.len() > 0 {
                return Ok(self.deliver(out, max));
            }
            if used == 0 && (was_end || !end) {
                return Err(DecompressError::Underlying(decoder_stall_error()));
            }
        }
    }

    /// Stages freshly decoded bytes and hands out the first `max` of them.
    fn deliver(&mut self, out: Vec<u8>, max: usize) -> (v: Vec<u8>)
        requires
            old(self).wf(),
            old(self).staged().len() == 0,
            max >= 1,
        ensures
            final(self).wf(),
            v@.len() <= max,
            final(self).emitted() == old(self).emitted() + v@,
            final(self).upcoming() == old(self).upcoming(),
            final(self).src_infallible() == old(self).src_infallible(),
            final(self).at_stream_end() == old(self).at_stream_end(),
            (v@.len() == 0 ==> max == 0 || out@.len() == 0),
            (v@.len() == 0 ==> final(self).staged().len() == 0),
    {
        self.staging.refill(out);
        let v = self.staging.drain(max);
        self.emitted = Ghost(self.emitted@ + v@);
        v
    }

    /// Whether any byte is still to come on the compressed side; the stream
    /// does not advance.
    pub fn has_more(&mut self) -> (r: Result<bool, std::io::Error>)
        requires
            old(self).wf(),
        ensures
            final(self).wf(),
            final(self).upcoming() == old(self).upcoming(),
            final(self).staged() == old(self).staged(),
            final(self).emitted() == old(self).emitted(),
            final(self).src_infallible() == old(self).src_infallible(),
            old(self).src_infallible() ==> r is Ok,
            r matches Ok(b) ==> b == (old(self).upcoming().len() > 0),
    {
        match self.source.peek(1) {
            Ok(v) => Ok(v.len() > 0),
            Err(e) => Err(e),
        }
    }

    /// Borrows the peek buffer, for callers that want to inspect or read
    /// the stream in place.
    pub fn get_mut(&mut self) -> (r: &mut PeekReader<R>)
        requires
            old(self).wf(),
        ensures
            (*r).wf(),
            (*r).total() == old(self).upcoming(),
            final(self).upcoming() == final(r).total(),
            final(self).staged() == old(self).staged(),
            final(self).emitted() == old(self).emitted(),
            final(self).at_stream_end() == old(self).at_stream_end(),
            final(r).wf() ==> final(self).wf(),
    {
        &mut self.source
    }

    /// Reclaims the peek buffer; the unread compressed bytes are unchanged.
    pub fn into_inner(self) -> (r: PeekReader<R>)
        requires
            self.wf(),
        ensures
            r.wf(),
            r.total() == self.upcoming(),
    {
        self.source
    }
}

} // verus!
