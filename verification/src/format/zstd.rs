use vstd::prelude::*;

use crate::format::{
    decoder_stall_error, is_zstd_magic, le32_spec, zstd_magic_value, Staging,
    ZSTD_MAGICNUMBER, ZSTD_MAGIC_SKIPPABLE_MASK, ZSTD_MAGIC_SKIPPABLE_START,
};
use crate::peek::{peek_spec, PeekReader};
use crate::source::ByteSource;
use crate::DecompressError;

verus! {

/// Declares zstd's low-level streaming decoder so it can live in a field.
/// Its state is opaque to the verifier.
#[verifier::external_type_specification]
#[verifier::external_body]
pub struct ExZstdDecoder<'a>(zstd::stream::raw::Decoder<'a>);

/// Relies on zstd::stream::raw::Decoder::new: a fresh frame decoder.
#[verifier::external_body]
fn zstd_new() -> (r: Result<zstd::stream::raw::Decoder<'static>, std::io::Error>) {
    zstd::stream::raw::Decoder::new()
}

/// Relies on zstd::stream::raw::Operation::run_on_buffers: one decoding
/// step.  The returned status gives how many input bytes were read (at
/// most what was offered), the decoded bytes (at most the scratch
/// capacity; the scratch is zero-filled before the call and cut to the
/// written length after), and the hint of bytes still expected in the
/// current frame — zero exactly when the decoder stands at a frame
/// boundary.  A decode error is reported as an error, unchanged.
#[verifier::external_body]
fn zstd_step(d: &mut zstd::stream::raw::Decoder<'static>, input: &Vec<u8>, cap: usize) -> (r:
    Result<(usize, Vec<u8>, usize), std::io::Error>)
    ensures
        r matches Ok(t) ==> t.0 <= input@.len() && t.1@.len() <= cap,
{
    let mut out = vec![0u8; cap];
    match zstd::stream::raw::Operation::run_on_buffers(d, input.as_slice(), &mut out) {
        Ok(st) => {
            out.truncate(st.bytes_written);
            Ok((st.bytes_read, out, st.remaining))
        },
        Err(e) => Err(e),
    }
}

/// Whether four bytes, read as a little-endian value, are a zstd frame
/// magic: the fixed data-frame magic or one of the reserved skippable
/// range.
pub fn is_magic(buf: [u8; 4]) -> (r: bool)
    ensures
        r == zstd_magic_value(le32_spec(buf@[0], buf@[1], buf@[2], buf@[3])),
{
    let v: u32 = (buf[0] as u32) | ((buf[1] as u32) << 8) | ((buf[2] as u32) << 16) | ((
    buf[3] as u32) << 24);
    v == ZSTD_MAGICNUMBER || (v & ZSTD_MAGIC_SKIPPABLE_MASK) == ZSTD_MAGIC_SKIPPABLE_START
}

/// Adapter for zstd streams, driving the low-level frame decoder directly.
/// zstd data is a run of self-delimiting frames, each opened by a magic
/// value; at every frame boundary the adapter re-validates the next four
/// bytes, which is what lets it tell a following frame from trailing
/// garbage.  Skippable frames are within the magic range and are consumed
/// by the decoder itself.
pub struct ZstdReader<R: ByteSource> {
    source: PeekReader<R>,
    decoder: zstd::stream::raw::Decoder<'static>,
    staging: Staging,
    start_of_frame: bool,
    emitted: Ghost<Seq<u8>>,
}

impl<R: ByteSource> ZstdReader<R> {
    /// Compressed-side bytes still to be read.
    pub closed spec fn upcoming(&self) -> Seq<u8> {
        self.source.total()
    }

    /// Decoded bytes waiting to be handed out.
    pub closed spec fn staged(&self) -> Seq<u8> {
        self.staging.bytes()
    }

    /// Decoded bytes handed to the consumer so far.
    pub closed spec fn emitted(&self) -> Seq<u8> {
        self.emitted@
    }

    /// Whether the decoder stands at a frame boundary, where the next
    /// bytes must be a frame magic to continue.
    pub closed spec fn at_frame_start(&self) -> bool {
        self.start_of_frame
    }

    /// Whether the underlying source can never fail a read.
    pub closed spec fn src_infallible(&self) -> bool {
        self.source.src_infallible()
    }

    pub closed spec fn wf(&self) -> bool {
        self.source.wf() && self.staging.wf()
    }

    /// Whether the stream starts with a zstd frame magic; nothing is
    /// consumed.
    pub fn detect(source: &mut PeekReader<R>) -> (r: Result<bool, std::io::Error>)
        requires
            old(source).wf(),
        ensures
            final(source).wf(),
            final(source).total() == old(source).total(),
            final(source).delivered_bytes() == old(source).delivered_bytes(),
            final(source).initial_bytes() == old(source).initial_bytes(),
            final(source).src_infallible() == old(source).src_infallible(),
            old(source).src_infallible() ==> r is Ok,
            old(source).queued().len() >= 4 ==> r is Ok,
            r matches Ok(b) ==> b == is_zstd_magic(old(source).total()),
    {
        let v = match source.peek(4) {
            Ok(v) => v,
            Err(e) => {
                return Err(e);
            },
        };
        if v.len() < 4 {
            return Ok(false);
        }
        let b = is_magic([v[0], v[1], v[2], v[3]]);
        proof {
            let t = old(source).total();
            assert(v@ == t.take(4));
            assert(v@[0] == t[0] && v@[1] == t[1] && v@[2] == t[2] && v@[3] == t[3]);
        }
        Ok(b)
    }

    pub fn new(source: PeekReader<R>) -> (r: Result<Self, std::io::Error>)
        requires
            source.wf(),
        ensures
            r matches Ok(x) ==> {
                &&& x.wf()
                &&& x.upcoming() == source.total()
                &&& x.staged() == Seq::<u8>::empty()
                &&& x.emitted() == Seq::<u8>::empty()
                &&& x.at_frame_start()
                &&& x.src_infallible() == source.src_infallible()
            },
    {
        let decoder = match zstd_new() {
            Ok(d) => d,
            Err(e) => {
                return Err(e);
            },
        };
        Ok(
            ZstdReader {
                source,
                decoder,
                staging: Staging::new(),
                start_of_frame: true,
                emitted: Ghost(Seq::empty()),
            },
        )
    }

    /// One read step: drains staged decoded bytes first; otherwise decodes
    /// frame data until output appears.  At each frame boundary the next
    /// four bytes are validated: if they are no zstd magic, decoding is
    /// complete and they stay unread — an empty result with `max > 0`
    /// states exactly that.  A source that ends mid-frame is a premature
    /// end of file.
    pub fn read(&mut self, max: usize) -> (r: Result<Vec<u8>, DecompressError>)
        requires
            old(self).wf(),
        ensures
            final(self).wf(),
            final(self).src_infallible() == old(self).src_infallible(),
            max == 0 ==> r is Ok,
            old(self).staged().len() > 0 ==> r is Ok,
            (old(self).at_frame_start() && old(self).staged().len() == 0
                && !is_zstd_magic(old(self).upcoming())) ==> (match r {
                Ok(v) => v@.len() == 0 && final(self).upcoming() == old(self).upcoming(),
                Err(e) => e is Source && !old(self).src_infallible(),
            }),
            (!old(self).at_frame_start() && old(self).staged().len() == 0
                && old(self).upcoming().len() == 0 && max > 0) ==> (r matches Err(e) && (
            e is PrematureEof || e is Source)),
            (r matches Err(e) && e is PrematureEof) ==> final(self).upcoming().len() == 0
                && final(self).staged().len() == 0,
            match r {
                Ok(v) => {
                    &&& v@.len() <= max
                    &&& final(self).emitted() == old(self).emitted() + v@
                    &&& (old(self).staged().len() > 0 ==> {
                        &&& v@ == peek_spec(old(self).staged(), max as int)
                        &&& final(self).staged() == old(self).staged().skip(v@.len() as int)
                        &&& final(self).upcoming() == old(self).upcoming()
                    })
                    &&& (v@.len() == 0 && max > 0 ==> {
                        &&& final(self).staged().len() == 0
                        &&& final(self).at_frame_start()
                        &&& !is_zstd_magic(final(self).upcoming())
                    })
                },
                Err(e) => {
                    &&& final(self).emitted() == old(self).emitted()
                    &&& (e is Source || e is Underlying || e is PrematureEof)
                },
            },
    {
        if !self.staging.is_empty() {
            let v = self.staging.drain(max);
            self.emitted = Ghost(self.emitted@ + v@);
            return Ok(v);
        }
        if max == 0 {
            let v: Vec<u8> = Vec::new();
            proof {
                assert(self.emitted@ + v@ =~= self.emitted@);
            }
            self.emitted = Ghost(self.emitted@ + v@);
            return Ok(v);
        }
        loop
            invariant
                self.wf(),
                self.staged().len() == 0,
                max >= 1,
                self.emitted() == old(self).emitted(),
                old(self).staged().len() == 0,
                self.src_infallible() == old(self).src_infallible(),
                (old(self).at_frame_start() && !is_zstd_magic(old(self).upcoming())) ==> (
                self.start_of_frame && self.upcoming() == old(self).upcoming()),
                (!old(self).at_frame_start() && old(self).upcoming().len() == 0) ==> (
                !self.start_of_frame && self.upcoming() == old(self).upcoming()),
            decreases 2 * self.upcoming().len() + (if self.start_of_frame {
                0int
            } else {
                1
            }),
        {
            let was_start = self.start_of_frame;
            if self.start_of_frame {
                let p = match self.source.peek(4) {
                    Ok(p) => p,
                    Err(e) => {
                        return Err(DecompressError::Source(e));
                    },
                };
                if p.len() < 4 || !is_magic([p[0], p[1], p[2], p[3]]) {
                    // No further frame: end of compressed data.
                    proof {
                        let t = self.upcoming();
                        if t.len() >= 4 {
                            assert(p@ == t.take(4));
                            assert(p@[0] == t[0] && p@[1] == t[1] && p@[2] == t[2] && p@[3]
                                == t[3]);
                        }
                    }
                    let v: Vec<u8> = Vec::new();
                    proof {
                        assert(self.emitted@ + v@ =~= self.emitted@);
                    }
                    self.emitted = Ghost(self.emitted@ + v@);
                    return Ok(v);
                }
                self.start_of_frame = false;
            }
            let chunk = match self.source.fill_buf() {
                Ok(c) => c,
                Err(e) => {
                    return Err(DecompressError::Source(e));
                },
            };
            if chunk.len() == 0 {
                return Err(DecompressError::PrematureEof);
            }
            let step = match zstd_step(&mut self.decoder, &chunk, 16384) {
                Ok(s) => s,
                Err(e) => {
                    return Err(DecompressError::Underlying(e));
                },
            };
            let (used, out, rem) = step;
            self.source.consume(used);
            if rem == 0 {
                // The current frame is fully decoded; the next read
                // re-validates the following frame's magic.
                self.start_of_frame = true;
            }
            if out.len() > 0 {
                return Ok(self.deliver(out, max));
            }
            if used == 0 && (was_start || rem != 0) {
                return Err(DecompressError::Underlying(decoder_stall_error()));
            }
        }
    }

    /// Stages freshly decoded bytes and hands out the first `max` of them.
    fn deliver(&mut self, out: Vec<u8>, max: usize) -> (v: Vec<u8>)
        requires
            old(self).wf(),
            old(self).staged().len() == 0,
            max >= 1,
        ensures
            final(self).wf(),
            v@.len() <= max,
            final(self).emitted() == old(self).emitted() + v@,
            final(self).upcoming() == old(self).upcoming(),
            final(self).src_infallible() == old(self).src_infallible(),
            final(self).at_frame_start() == old(self).at_frame_start(),
            (v@.len() == 0 ==> max == 0 || out@.len() == 0),
            (v@.len() == 0 ==> final(self).staged().len() == 0),
    {
        self.staging.refill(out);
        let v = self.staging.drain(max);
        self.emitted = Ghost(self.emitted@ + v@);
        v
    }

    /// Whether any byte is still to come on the compressed side; the stream
    /// does not advance.
    pub fn has_more(&mut self) -> (r: Result<bool, std::io::Error>)
        requires
            old(self).wf(),
        ensures
            final(self).wf(),
            final(self).upcoming() == old(self).upcoming(),
            final(self).staged() == old(self).staged(),
            final(self).emitted() == old(self).emitted(),
            final(self).src_infallible() == old(self).src_infallible(),
            old(self).src_infallible() ==> r is Ok,
            r matches Ok(b) ==> b == (old(self).upcoming().len() > 0),
    {
        match self.source.peek(1) {
            Ok(v) => Ok(v.len() > 0),
            Err(e) => Err(e),
        }
    }

    /// Borrows the peek buffer, for callers that want to inspect or read
    /// the stream in place.
    pub fn get_mut(&mut self) -> (r: &mut PeekReader<R>)
        requires
            old(self).wf(),
        ensures
            (*r).wf(),
            (*r).total() == old(self).upcoming(),
            final(self).upcoming() == final(r).total(),
            final(self).staged() == old(self).staged(),
            final(self).emitted() == old(self).emitted(),
            final(self).at_frame_start() == old(self).at_frame_start(),
            final(r).wf() ==> final(self).wf(),
    {
        &mut self.source
    }

    /// Reclaims the peek buffer; the unread compressed bytes are unchanged.
    pub fn into_inner(self) -> (r: PeekReader<R>)
        requires
            self.wf(),
        ensures
            r.wf(),
            r.total() == self.upcoming(),
    {
        self.source
    }
}

} // verus!
