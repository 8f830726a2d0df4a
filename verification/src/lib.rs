//! A format-sniffing decompressing byte-stream reader.  Given a sequential
//! byte source, it identifies which (if any) supported compression format
//! the stream begins with — by magic bytes, without consuming them —
//! decodes it through the format's own library, and hands the decoded
//! bytes out through one uniform reading interface.  Each adapter stops
//! cleanly at its format's frame boundary, so residual bytes after a
//! complete stream stay readable; whether such trailing data is an error
//! is a per-session policy.

pub mod config;
pub mod format;
pub mod peek;
pub mod source;

use vstd::prelude::*;

use crate::config::DecompressBuilder;
use crate::format::bzip2::Bzip2Reader;
use crate::format::gzip::GzipReader;
use crate::format::uncompressed::UncompressedReader;
use crate::format::xz::XzReader;
use crate::format::zstd::ZstdReader;
use crate::format::{is_bzip2_magic, is_gzip_magic, is_xz_magic, is_zstd_magic};
use crate::peek::PeekReader;
use crate::source::ByteSource;

verus! {

/// The compression format a stream was recognized as.
#[derive(Clone, Copy, Debug, Eq, PartialEq, Structural)]
pub enum CompressionFormat {
    Uncompressed,
    Bzip2,
    Gzip,
    Xz,
    Zstd,
}

/// The name of a format, as a character sequence.
pub open spec fn spec_name(f: CompressionFormat) -> Seq<char> {
    match f {
        CompressionFormat::Uncompressed => "uncompressed"@,
        CompressionFormat::Bzip2 => "bzip2"@,
        CompressionFormat::Gzip => "gzip"@,
        CompressionFormat::Xz => "xz"@,
        CompressionFormat::Zstd => "zstd"@,
    }
}

impl CompressionFormat {
    /// The format's conventional lower-case name.
    pub fn name(&self) -> (r: &'static str)
        ensures
            r@ == spec_name(*self),
    {
        match self {
            CompressionFormat::Uncompressed => "uncompressed",
            CompressionFormat::Bzip2 => "bzip2",
            CompressionFormat::Gzip => "gzip",
            CompressionFormat::Xz => "xz",
            CompressionFormat::Zstd => "zstd",
        }
    }
}

/// Everything that can go wrong while detecting or decoding a stream.
#[derive(Debug)]
pub enum DecompressError {
    /// No enabled format matched the stream's first bytes and passthrough
    /// is disabled.
    UnrecognizedFormat,
    /// A compressed stream ended cleanly but bytes follow it, and
    /// trailing-data tolerance is disabled.
    TrailingData,
    /// The source ended in the middle of a compressed frame.
    PrematureEof,
    /// An error raised by a format's own decode primitive, unchanged.
    Underlying(std::io::Error),
    /// An error raised by the byte source itself, unchanged.
    Source(std::io::Error),
}

/// Which format the dispatch engine selects for a stream under a given
/// configuration.  Detectors are consulted in a fixed, documented priority
/// order — bzip2, gzip, xz, zstd — though the magic signatures cannot
/// overlap; passthrough is the fallback when it is enabled.  `None` means
/// the stream is rejected as unrecognized.
pub open spec fn spec_detect(c: DecompressBuilder, s: Seq<u8>) -> Option<CompressionFormat> {
    if c.bzip2 && is_bzip2_magic(s) {
        Some(CompressionFormat::Bzip2)
    } else if c.gzip && is_gzip_magic(s) {
        Some(CompressionFormat::Gzip)
    } else if c.xz && is_xz_magic(s) {
        Some(CompressionFormat::Xz)
    } else if c.zstd && is_zstd_magic(s) {
        Some(CompressionFormat::Zstd)
    } else if c.uncompressed {
        Some(CompressionFormat::Uncompressed)
    } else {
        None
    }
}

/// The selected adapter: one variant per supported format, matched
/// exhaustively everywhere it is used.
enum Format<R: ByteSource> {
    Uncompressed(UncompressedReader<R>),
    Bzip2(Bzip2Reader<R>),
    Gzip(GzipReader<R>),
    Xz(XzReader<R>),
    Zstd(ZstdReader<R>),
}

impl<R: ByteSource> Format<R> {
    spec fn format_spec(&self) -> CompressionFormat {
        match self {
            Format::Uncompressed(_) => CompressionFormat::Uncompressed,
            Format::Bzip2(_) => CompressionFormat::Bzip2,
            Format::Gzip(_) => CompressionFormat::Gzip,
            Format::Xz(_) => CompressionFormat::Xz,
            Format::Zstd(_) => CompressionFormat::Zstd,
        }
    }

    spec fn wf(&self) -> bool {
        match self {
            Format::Uncompressed(d) => d.wf(),
            Format::Bzip2(d) => d.wf(),
            Format::Gzip(d) => d.wf(),
            Format::Xz(d) => d.wf(),
            Format::Zstd(d) => d.wf(),
        }
    }

    spec fn upcoming(&self) -> Seq<u8> {
        match self {
            Format::Uncompressed(d) => d.upcoming(),
            Format::Bzip2(d) => d.upcoming(),
            Format::Gzip(d) => d.upcoming(),
            Format::Xz(d) => d.upcoming(),
            Format::Zstd(d) => d.upcoming(),
        }
    }

    spec fn staged(&self) -> Seq<u8> {
        match self {
            Format::Uncompressed(d) => d.staged(),
            Format::Bzip2(d) => d.staged(),
            Format::Gzip(d) => d.staged(),
            Format::Xz(d) => d.staged(),
            Format::Zstd(d) => d.staged(),
        }
    }

    spec fn emitted(&self) -> Seq<u8> {
        match self {
            Format::Uncompressed(d) => d.emitted(),
            Format::Bzip2(d) => d.emitted(),
            Format::Gzip(d) => d.emitted(),
            Format::Xz(d) => d.emitted(),
            Format::Zstd(d) => d.emitted(),
        }
    }

    spec fn src_infallible(&self) -> bool {
        match self {
            Format::Uncompressed(d) => d.src_infallible(),
            Format::Bzip2(d) => d.src_infallible(),
            Format::Gzip(d) => d.src_infallible(),
            Format::Xz(d) => d.src_infallible(),
            Format::Zstd(d) => d.src_infallible(),
        }
    }

    /// The plain tag for the selected adapter.
    fn as_primitive(&self) -> (r: CompressionFormat)
        ensures
            r == self.format_spec(),
    {
        match self {
            Format::Uncompressed(_) => CompressionFormat::Uncompressed,
            Format::Bzip2(_) => CompressionFormat::Bzip2,
            Format::Gzip(_) => CompressionFormat::Gzip,
            Format::Xz(_) => CompressionFormat::Xz,
            Format::Zstd(_) => CompressionFormat::Zstd,
        }
    }

    fn into_inner(self) -> (r: PeekReader<R>)
        requires
            self.wf(),
        ensures
            r.wf(),
            r.total() == self.upcoming(),
    {
        match self {
            Format::Uncompressed(d) => d.into_inner(),
            Format::Bzip2(d) => d.into_inner(),
            Format::Gzip(d) => d.into_inner(),
            Format::Xz(d) => d.into_inner(),
            Format::Zstd(d) => d.into_inner(),
        }
    }

    fn get_mut(&mut self) -> (r: &mut PeekReader<R>)
        requires
            old(self).wf(),
        ensures
            (*r).wf(),
            (*r).total() == old(self).upcoming(),
            final(self).upcoming() == final(r).total(),
            final(self).staged() == old(self).staged(),
            final(self).emitted() == old(self).emitted(),
            final(self).format_spec() == old(self).format_spec(),
            final(r).wf() ==> final(self).wf(),
    {
        match self {
            Format::Uncompressed(d) => d.get_mut(),
            Format::Bzip2(d) => d.get_mut(),
            Format::Gzip(d) => d.get_mut(),
            Format::Xz(d) => d.get_mut(),
            Format::Zstd(d) => d.get_mut(),
        }
    }
}

/// Format-sniffing decompressing reader: detection and adapter selection
/// happen at construction; every read delegates to the selected adapter
/// and then applies the trailing-data policy.
pub struct DecompressReader<R: ByteSource> {
    config: DecompressBuilder,
    reader: Format<R>,
}

impl<R: ByteSource> DecompressReader<R> {
    pub closed spec fn wf(&self) -> bool {
        self.reader.wf()
    }

    /// The configuration the session was built with.
    pub closed spec fn config_spec(&self) -> DecompressBuilder {
        self.config
    }

    /// The format the dispatch engine selected.
    pub closed spec fn format_spec(&self) -> CompressionFormat {
        self.reader.format_spec()
    }

    /// Compressed-side bytes not yet consumed from the peek buffer and
    /// source.
    pub closed spec fn upcoming(&self) -> Seq<u8> {
        self.reader.upcoming()
    }

    /// Decoded bytes waiting inside the adapter.
    pub closed spec fn staged(&self) -> Seq<u8> {
        self.reader.staged()
    }

    /// Decoded bytes handed to the consumer so far.
    pub closed spec fn emitted(&self) -> Seq<u8> {
        self.reader.emitted()
    }

    /// Whether the underlying source can never fail a read.
    pub closed spec fn src_infallible(&self) -> bool {
        self.reader.src_infallible()
    }

    /// Builds a session with the default configuration: all compression
    /// formats enabled, passthrough and trailing-data tolerance disabled.
    pub fn new(source: R) -> (r: Result<Self, DecompressError>)
        ensures
            (source.infallible() && spec_detect(
                DecompressBuilder::default_config(),
                source.remaining(),
            ) is None) ==> r matches Err(DecompressError::UnrecognizedFormat),
            match r {
                Ok(s) => {
                    &&& s.wf()
                    &&& Some(s.format_spec()) == spec_detect(
                        DecompressBuilder::default_config(),
                        source.remaining(),
                    )
                    &&& s.config_spec() == DecompressBuilder::default_config()
                    &&& s.upcoming() == source.remaining()
                    &&& s.staged().len() == 0
                    &&& s.emitted().len() == 0
                    &&& s.src_infallible() == source.infallible()
                },
                Err(e) => match e {
                    DecompressError::UnrecognizedFormat => spec_detect(
                        DecompressBuilder::default_config(),
                        source.remaining(),
                    ) is None,
                    DecompressError::Source(_) => true,
                    DecompressError::Underlying(_) => true,
                    _ => false,
                },
            },
    {
        Self::new_full(PeekReader::new(source), DecompressBuilder::new())
    }

    /// Builds a session with the default configuration over an existing
    /// peek buffer.
    pub fn from_peek(source: PeekReader<R>) -> (r: Result<Self, DecompressError>)
        requires
            source.wf(),
        ensures
            (source.src_infallible() && spec_detect(
                DecompressBuilder::default_config(),
                source.total(),
            ) is None) ==> r matches Err(DecompressError::UnrecognizedFormat),
            match r {
                Ok(s) => {
                    &&& s.wf()
                    &&& Some(s.format_spec()) == spec_detect(
                        DecompressBuilder::default_config(),
                        source.total(),
                    )
                    &&& s.config_spec() == DecompressBuilder::default_config()
                    &&& s.upcoming() == source.total()
                    &&& s.staged().len() == 0
                    &&& s.emitted().len() == 0
                    &&& s.src_infallible() == source.src_infallible()
                },
                Err(e) => match e {
                    DecompressError::UnrecognizedFormat => spec_detect(
                        DecompressBuilder::default_config(),
                        source.total(),
                    ) is None,
                    DecompressError::Source(_) => true,
                    DecompressError::Underlying(_) => true,
                    _ => false,
                },
            },
    {
        Self::new_full(source, DecompressBuilder::new())
    }

    pub(crate) fn new_full(source: PeekReader<R>, config: DecompressBuilder) -> (r: Result<
        Self,
        DecompressError,
    >)
        requires
            source.wf(),
        ensures
            (source.src_infallible() && spec_detect(config, source.total()) is None)
                ==> r matches Err(DecompressError::UnrecognizedFormat),
            match r {
                Ok(s) => {
                    &&& s.wf()
                    &&& Some(s.format_spec()) == spec_detect(config, source.total())
                    &&& s.config_spec() == config
                    &&& s.upcoming() == source.total()
                    &&& s.staged().len() == 0
                    &&& s.emitted().len() == 0
                    &&& s.src_infallible() == source.src_infallible()
                },
                Err(e) => match e {
                    DecompressError::UnrecognizedFormat => spec_detect(
                        config,
                        source.total(),
                    ) is None,
                    DecompressError::Source(_) => true,
                    DecompressError::Underlying(_) => true,
                    _ => false,
                },
            },
    {
        match Self::get_reader(source, &config) {
            Ok(reader) => Ok(DecompressReader { reader, config }),
            Err(e) => Err(e),
        }
    }

    /// Detection and selection: consults each enabled format's detector in
    /// the fixed priority order and constructs the first match, falling
    /// back to passthrough only when that is enabled.
    fn get_reader(source: PeekReader<R>, config: &DecompressBuilder) -> (r: Result<
        Format<R>,
        DecompressError,
    >)
        requires
            source.wf(),
        ensures
            (source.src_infallible() && spec_detect(*config, source.total()) is None)
                ==> r matches Err(DecompressError::UnrecognizedFormat),
            match r {
                Ok(f) => {
                    &&& f.wf()
                    &&& Some(f.format_spec()) == spec_detect(*config, source.total())
                    &&& f.upcoming() == source.total()
                    &&& f.staged().len() == 0
                    &&& f.emitted().len() == 0
                    &&& f.src_infallible() == source.src_infallible()
                },
                Err(e) => match e {
                    DecompressError::UnrecognizedFormat => spec_detect(
                        *config,
                        source.total(),
                    ) is None,
                    DecompressError::Source(_) => true,
                    DecompressError::Underlying(_) => true,
                    _ => false,
                },
            },
    {
        let mut source = source;
        if config.bzip2 {
            let hit = match Bzip2Reader::detect(&mut source) {
                Ok(b) => b,
                Err(e) => {
                    return Err(DecompressError::Source(e));
                },
            };
            if hit {
                return Ok(Format::Bzip2(Bzip2Reader::new(source)));
            }
        }
        if config.gzip {
            let hit = match GzipReader::detect(&mut source) {
                Ok(b) => b,
                Err(e) => {
                    return Err(DecompressError::Source(e));
                },
            };
            if hit {
                return Ok(Format::Gzip(GzipReader::new(source)));
            }
        }
        if config.xz {
            let hit = match XzReader::detect(&mut source) {
                Ok(b) => b,
                Err(e) => {
                    return Err(DecompressError::Source(e));
                },
            };
            if hit {
                match XzReader::new(source) {
                    Ok(d) => {
                        return Ok(Format::Xz(d));
                    },
                    Err(e) => {
                        return Err(DecompressError::Underlying(e));
                    },
                }
            }
        }
        if config.zstd {
            let hit = match ZstdReader::detect(&mut source) {
                Ok(b) => b,
                Err(e) => {
                    return Err(DecompressError::Source(e));
                },
            };
            if hit {
                match ZstdReader::new(source) {
                    Ok(d) => {
                        return Ok(Format::Zstd(d));
                    },
                    Err(e) => {
                        return Err(DecompressError::Underlying(e));
                    },
                }
            }
        }
        if config.uncompressed {
            return Ok(Format::Uncompressed(UncompressedReader::new(source)));
        }
        Err(DecompressError::UnrecognizedFormat)
    }

    /// One read step, then the trailing-data policy: when the adapter
    /// reports end of stream into a real request while a compression
    /// format is active and tolerance is off, one more byte is peeked; if
    /// present, the call fails with `TrailingData`.  So under the strict
    /// default, an empty result guarantees the whole input was consumed,
    /// and `TrailingData` is only ever raised with residual bytes present
    /// — and never when tolerance is on.
    pub fn read(&mut self, max: usize) -> (r: Result<Vec<u8>, DecompressError>)
        requires
            old(self).wf(),
        ensures
            final(self).wf(),
            final(self).config_spec() == old(self).config_spec(),
            final(self).format_spec() == old(self).format_spec(),
            final(self).src_infallible() == old(self).src_infallible(),
            max == 0 ==> r is Ok,
            old(self).staged().len() > 0 ==> r is Ok,
            (r matches Err(e) && e is PrematureEof) ==> final(self).upcoming().len() == 0
                && final(self).staged().len() == 0,
            match r {
                Ok(v) => {
                    &&& v@.len() <= max
                    &&& final(self).emitted() == old(self).emitted() + v@
                    &&& (old(self).staged().len() > 0 ==> {
                        &&& v@ == crate::peek::peek_spec(old(self).staged(), max as int)
                        &&& final(self).staged() == old(self).staged().skip(v@.len() as int)
                        &&& final(self).upcoming() == old(self).upcoming()
                    })
                    &&& (old(self).format_spec() == CompressionFormat::Uncompressed ==> {
                        &&& v@.len() <= old(self).upcoming().len()
                        &&& v@ == old(self).upcoming().take(v@.len() as int)
                        &&& final(self).upcoming() == old(self).upcoming().skip(v@.len() as int)
                        &&& (v@.len() == 0 ==> max == 0 || old(self).upcoming().len() == 0)
                    })
                    &&& ((v@.len() == 0 && max > 0
                        && old(self).format_spec() != CompressionFormat::Uncompressed
                        && !old(self).config_spec().trailing_data) ==> {
                        &&& final(self).upcoming().len() == 0
                        &&& final(self).staged().len() == 0
                    })
                },
                Err(e) => {
                    &&& final(self).emitted() == old(self).emitted()
                    &&& (e is TrailingData ==> {
                        &&& !old(self).config_spec().trailing_data
                        &&& old(self).format_spec() != CompressionFormat::Uncompressed
                        &&& final(self).upcoming().len() > 0
                        &&& final(self).staged().len() == 0
                    })
                    &&& !(e is UnrecognizedFormat)
                },
            },
    {
        let v = match (match &mut self.reader {
            Format::Uncompressed(d) => d.read(max),
            Format::Bzip2(d) => d.read(max),
            Format::Gzip(d) => d.read(max),
            Format::Xz(d) => d.read(max),
            Format::Zstd(d) => d.read(max),
        }) {
            Ok(v) => v,
            Err(e) => {
                return Err(e);
            },
        };
        if v.len() == 0 && max > 0 && !self.config.trailing_data {
            let fmt = self.reader.as_primitive();
            if !matches!(fmt, CompressionFormat::Uncompressed) {
                // The adapter stopped at its frame boundary; anything
                // still readable is trailing data.
                let more = match (match &mut self.reader {
                    Format::Uncompressed(d) => d.has_more(),
                    Format::Bzip2(d) => d.has_more(),
                    Format::Gzip(d) => d.has_more(),
                    Format::Xz(d) => d.has_more(),
                    Format::Zstd(d) => d.has_more(),
                }) {
                    Ok(b) => b,
                    Err(e) => {
                        return Err(DecompressError::Source(e));
                    },
                };
                if more {
                    return Err(DecompressError::TrailingData);
                }
            }
        }
        Ok(v)
    }

    /// Reclaims the peek buffer, with any unconsumed bytes (for example
    /// tolerated trailing data) still readable from it.
    pub fn into_inner(self) -> (r: PeekReader<R>)
        requires
            self.wf(),
        ensures
            r.wf(),
            r.total() == self.upcoming(),
    {
        self.reader.into_inner()
    }

    /// Borrows the peek buffer, so a caller can inspect or read the
    /// residual stream in place — for example after a clean boundary was
    /// confirmed under trailing-data tolerance.
    pub fn get_mut(&mut self) -> (r: &mut PeekReader<R>)
        requires
            old(self).wf(),
        ensures
            (*r).wf(),
            (*r).total() == old(self).upcoming(),
            final(self).upcoming() == final(r).total(),
            final(self).staged() == old(self).staged(),
            final(self).emitted() == old(self).emitted(),
            final(self).format_spec() == old(self).format_spec(),
            final(self).config_spec() == old(self).config_spec(),
            final(r).wf() ==> final(self).wf(),
    {
        self.reader.get_mut()
    }

    /// Which format the dispatch engine selected.
    pub fn format(&self) -> (r: CompressionFormat)
        ensures
            r == self.format_spec(),
    {
        self.reader.as_primitive()
    }
}

impl DecompressBuilder {
    /// The default configuration, as a value usable in contracts.
    pub open spec fn default_config() -> DecompressBuilder {
        DecompressBuilder {
            trailing_data: false,
            uncompressed: false,
            bzip2: true,
            gzip: true,
            xz: true,
            zstd: true,
        }
    }

    /// Builds a session over a raw byte source with this configuration.
    pub fn reader<R: ByteSource>(&self, source: R) -> (r: Result<
        DecompressReader<R>,
        DecompressError,
    >)
        ensures
            (source.infallible() && spec_detect(*self, source.remaining()) is None)
                ==> r matches Err(DecompressError::UnrecognizedFormat),
            match r {
                Ok(s) => {
                    &&& s.wf()
                    &&& Some(s.format_spec()) == spec_detect(*self, source.remaining())
                    &&& s.config_spec() == *self
                    &&& s.upcoming() == source.remaining()
                    &&& s.staged().len() == 0
                    &&& s.emitted().len() == 0
                    &&& s.src_infallible() == source.infallible()
                },
                Err(e) => match e {
                    DecompressError::UnrecognizedFormat => spec_detect(
                        *self,
                        source.remaining(),
                    ) is None,
                    DecompressError::Source(_) => true,
                    DecompressError::Underlying(_) => true,
                    _ => false,
                },
            },
    {
        DecompressReader::new_full(PeekReader::new(source), *self)
    }

    /// Builds a session over an existing peek buffer with this
    /// configuration.
    pub fn build_from_peek<R: ByteSource>(&self, source: PeekReader<R>) -> (r: Result<
        DecompressReader<R>,
        DecompressError,
    >)
        requires
            source.wf(),
        ensures
            (source.src_infallible() && spec_detect(*self, source.total()) is None)
                ==> r matches Err(DecompressError::UnrecognizedFormat),
            match r {
                Ok(s) => {
                    &&& s.wf()
                    &&& Some(s.format_spec()) == spec_detect(*self, source.total())
                    &&& s.config_spec() == *self
                    &&& s.upcoming() == source.total()
                    &&& s.staged().len() == 0
                    &&& s.emitted().len() == 0
                    &&& s.src_infallible() == source.src_infallible()
                },
                Err(e) => match e {
                    DecompressError::UnrecognizedFormat => spec_detect(
                        *self,
                        source.total(),
                    ) is None,
                    DecompressError::Source(_) => true,
                    DecompressError::Underlying(_) => true,
                    _ => false,
                },
            },
    {
        DecompressReader::new_full(source, *self)
    }
}

} // verus!
