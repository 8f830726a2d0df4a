use std::io::Write;

use decomp::config::DecompressBuilder;
use decomp::peek::PeekReader;
use decomp::source::{ByteSource, MemorySource};
use decomp::{CompressionFormat, DecompressError, DecompressReader};

fn source(data: &[u8], chunk: usize) -> MemorySource {
    MemorySource::with_chunk(data.to_vec(), chunk)
}

/// Peek idempotence: two peeks in a row return identical bytes, and a
/// subsequent read is unaffected by them.
#[test]
fn peek_twice_same_bytes() {
    let data = [1u8, 2, 3, 4, 5, 6, 7, 8, 9, 10];
    let mut peek = PeekReader::new(source(&data, 3));
    let first = peek.peek(4).unwrap();
    let second = peek.peek(4).unwrap();
    assert_eq!(first, vec![1u8, 2, 3, 4]);
    assert_eq!(first, second);
    // a read still starts at the logical position
    assert_eq!(peek.read(3).unwrap(), vec![1u8, 2, 3]);

    // and a reader that never peeked reads the same bytes
    let mut plain = PeekReader::new(source(&data, 3));
    assert_eq!(plain.read(3).unwrap(), vec![1u8, 2, 3]);
}

/// Peeking past the end of the source returns what is left, repeatably.
#[test]
fn peek_short_at_end() {
    let data = [9u8, 8, 7];
    let mut peek = PeekReader::new(source(&data, 2));
    assert_eq!(peek.peek(10).unwrap(), vec![9u8, 8, 7]);
    assert_eq!(peek.peek(10).unwrap(), vec![9u8, 8, 7]);
    assert_eq!(peek.read(10).unwrap(), vec![9u8, 8, 7]);
    assert_eq!(peek.read(10).unwrap(), Vec::<u8>::new());
}

/// Byte conservation: everything delivered through read and consume, plus
/// the residue from into_parts, is exactly the source's content.
#[test]
fn byte_conservation_across_calls() {
    let data: Vec<u8> = (0u8..100).collect();
    let mut peek = PeekReader::new(source(&data, 7));
    let mut delivered = Vec::new();

    let p = peek.peek(5).unwrap();
    delivered.extend_from_slice(&p[..2]);
    peek.consume(2);

    delivered.extend_from_slice(&peek.read(10).unwrap());

    let p = peek.peek(30).unwrap();
    delivered.extend_from_slice(&p[..9]);
    peek.consume(9);

    delivered.extend_from_slice(&peek.read(4).unwrap());

    let (residual, mut src) = peek.into_parts();
    delivered.extend_from_slice(&residual);
    loop {
        let v = src.read_bytes(8192).unwrap();
        if v.is_empty() {
            break;
        }
        delivered.extend_from_slice(&v);
    }
    assert_eq!(delivered, data);
}

/// fill_buf exposes queued bytes without advancing; consume then advances.
#[test]
fn fill_buf_then_consume() {
    let data = [10u8, 20, 30, 40];
    let mut peek = PeekReader::new(source(&data, 2));
    let buf = peek.fill_buf().unwrap();
    assert!(!buf.is_empty());
    peek.consume(buf.len());
    let mut rest = Vec::new();
    loop {
        let v = peek.read(16).unwrap();
        if v.is_empty() {
            break;
        }
        rest.extend_from_slice(&v);
    }
    let mut all = buf;
    all.extend_from_slice(&rest);
    assert_eq!(all, data.to_vec());
}

#[test]
fn builder_toggles() {
    let b = DecompressBuilder::none();
    assert!(!b.trailing_data && !b.uncompressed && !b.bzip2 && !b.gzip && !b.xz && !b.zstd);
    let b = DecompressBuilder::new();
    assert!(!b.trailing_data && !b.uncompressed && b.bzip2 && b.gzip && b.xz && b.zstd);
    let b = DecompressBuilder::default();
    assert!(b.gzip && !b.uncompressed);
    let b = DecompressBuilder::none().gzip(true).trailing_data(true).uncompressed(true);
    assert!(b.gzip && b.trailing_data && b.uncompressed && !b.xz);
}

#[test]
fn format_names() {
    assert_eq!(CompressionFormat::Uncompressed.name(), "uncompressed");
    assert_eq!(CompressionFormat::Bzip2.name(), "bzip2");
    assert_eq!(CompressionFormat::Gzip.name(), "gzip");
    assert_eq!(CompressionFormat::Xz.name(), "xz");
    assert_eq!(CompressionFormat::Zstd.name(), "zstd");
}

/// A read of zero bytes succeeds and touches nothing; reads after the end
/// of the decoded stream keep succeeding with an empty result.
#[test]
fn zero_and_repeated_reads() {
    let data = b"plain bytes".to_vec();
    let mut reader = DecompressBuilder::new()
        .uncompressed(true)
        .reader(source(&data, 4))
        .unwrap();
    assert_eq!(reader.read(0).unwrap(), Vec::<u8>::new());
    let mut out = Vec::new();
    loop {
        let v = reader.read(5).unwrap();
        if v.is_empty() {
            break;
        }
        out.extend_from_slice(&v);
    }
    assert_eq!(out, data);
    assert_eq!(reader.read(16).unwrap(), Vec::<u8>::new());
    assert_eq!(reader.read(16).unwrap(), Vec::<u8>::new());
}

/// An empty input matches no magic: rejected by default, passed through
/// when passthrough is enabled.
#[test]
fn empty_input() {
    let r = DecompressReader::new(source(b"", 32));
    assert!(matches!(r, Err(DecompressError::UnrecognizedFormat)));

    let mut reader = DecompressBuilder::new().uncompressed(true).reader(source(b"", 32)).unwrap();
    assert_eq!(reader.read(100).unwrap(), Vec::<u8>::new());
}

/// A disabled format is not sniffed even when its magic is present.
#[test]
fn disabled_format_not_detected() {
    let mut gz = flate2::write::GzEncoder::new(Vec::new(), flate2::Compression::new(1));
    gz.write_all(b"payload").unwrap();
    let gz = gz.finish().unwrap();
    let r = DecompressBuilder::none().bzip2(true).reader(source(&gz, 32));
    assert!(matches!(r, Err(DecompressError::UnrecognizedFormat)));
}

/// A truncated zstd frame is a premature end of file, not a silent stop.
#[test]
fn zstd_truncation_is_premature_eof() {
    let compressed = zstd::stream::encode_all(&b"some reasonably sized payload"[..], 1).unwrap();
    let cut = &compressed[..compressed.len() - 1];
    let mut reader = DecompressReader::new(source(cut, 32)).unwrap();
    let mut err = None;
    loop {
        match reader.read(64) {
            Ok(v) if v.is_empty() => break,
            Ok(_) => continue,
            Err(e) => {
                err = Some(e);
                break;
            },
        }
    }
    assert!(matches!(err, Some(DecompressError::PrematureEof)));
}

/// A corrupted gzip body surfaces the decoder's own error, unchanged in
/// kind.
#[test]
fn gzip_corruption_is_underlying_error() {
    let mut gz = flate2::write::GzEncoder::new(Vec::new(), flate2::Compression::new(1));
    gz.write_all(b"a longer body so that corruption hits compressed data").unwrap();
    let mut gz = gz.finish().unwrap();
    let mid = gz.len() / 2;
    gz[mid] ^= 0xFF;
    let mut reader = DecompressReader::new(source(&gz, 32)).unwrap();
    let mut err = None;
    loop {
        match reader.read(64) {
            Ok(v) if v.is_empty() => break,
            Ok(_) => continue,
            Err(e) => {
                err = Some(e);
                break;
            },
        }
    }
    assert!(matches!(err, Some(DecompressError::Underlying(_))));
}

/// A zstd skippable frame ahead of a data frame is consumed silently: its
/// magic is within the reserved range the detector accepts.
#[test]
fn zstd_skippable_frame() {
    let payload = b"payload behind a skippable frame".to_vec();
    let mut input = vec![0x50u8, 0x2A, 0x4D, 0x18, 4, 0, 0, 0, 9, 9, 9, 9];
    input.extend_from_slice(&zstd::stream::encode_all(&payload[..], 1).unwrap());
    let mut reader = DecompressReader::new(source(&input, 32)).unwrap();
    assert_eq!(reader.format(), CompressionFormat::Zstd);
    let mut out = Vec::new();
    loop {
        let v = reader.read(64).unwrap();
        if v.is_empty() {
            break;
        }
        out.extend_from_slice(&v);
    }
    assert_eq!(out, payload);
}

/// Trailing-data tolerance leaves several residual bytes readable after
/// the decoded stream, in order.
#[test]
fn tolerated_trailing_bytes_are_preserved() {
    let mut input = bzip2_of(b"conserved");
    input.extend_from_slice(b"RESIDUE");
    let mut reader = DecompressBuilder::new().trailing_data(true).reader(source(&input, 4)).unwrap();
    let mut out = Vec::new();
    loop {
        let v = reader.read(64).unwrap();
        if v.is_empty() {
            break;
        }
        out.extend_from_slice(&v);
    }
    assert_eq!(out, b"conserved".to_vec());
    let (mut rest, mut src) = reader.into_inner().into_parts();
    loop {
        let v = src.read_bytes(64).unwrap();
        if v.is_empty() {
            break;
        }
        rest.extend_from_slice(&v);
    }
    assert_eq!(rest, b"RESIDUE".to_vec());
}

/// After a tolerated clean boundary, get_mut exposes the residual bytes
/// in place, without consuming them.
#[test]
fn get_mut_exposes_residual() {
    let mut input = bzip2_of(b"inner payload");
    input.extend_from_slice(b"XY");
    let mut reader = DecompressBuilder::new()
        .trailing_data(true)
        .reader(source(&input, 8))
        .unwrap();
    loop {
        let v = reader.read(64).unwrap();
        if v.is_empty() {
            break;
        }
    }
    let peeked = reader.get_mut().peek(2).unwrap();
    assert_eq!(peeked, b"XY".to_vec());
    // the peek consumed nothing: the bytes are still there afterwards
    let peeked = reader.get_mut().peek(10).unwrap();
    assert_eq!(peeked, b"XY".to_vec());
    assert_eq!(reader.format(), CompressionFormat::Bzip2);
}

fn bzip2_of(data: &[u8]) -> Vec<u8> {
    let mut e = bzip2::write::BzEncoder::new(Vec::new(), bzip2::Compression::new(1));
    e.write_all(data).unwrap();
    e.finish().unwrap()
}
