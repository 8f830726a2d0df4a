use std::io::Write;

use decomp::config::DecompressBuilder;
use decomp::format::xz::XzReader;
use decomp::format::zstd::ZstdReader;
use decomp::peek::PeekReader;
use decomp::source::{ByteSource, MemorySource};
use decomp::{CompressionFormat, DecompressError, DecompressReader};

fn payload_empty() -> Vec<u8> {
    Vec::new()
}

fn payload_small() -> Vec<u8> {
    b"hello compression world".to_vec()
}

fn payload_text() -> Vec<u8> {
    let mut out = Vec::new();
    while out.len() < 1_050_000 {
        out.extend_from_slice(b"the quick brown fox jumps over the lazy dog; ");
    }
    out
}

fn payload_large() -> Vec<u8> {
    let mut out = Vec::with_capacity(1_200_000);
    for i in 0..1_200_000usize {
        out.push((i.wrapping_mul(31) ^ (i >> 8)) as u8);
    }
    out
}

fn payload_random() -> Vec<u8> {
    random_bytes(1_048_583)
}

/// A smaller high-entropy payload for the byte-at-a-time reads, which are
/// deliberately slow.
fn payload_random_small() -> Vec<u8> {
    random_bytes(32_768)
}

fn random_bytes(n: usize) -> Vec<u8> {
    let mut out = Vec::with_capacity(n);
    let mut s: u64 = 0x9E37_79B9_7F4A_7C15;
    for _ in 0..n {
        s ^= s << 13;
        s ^= s >> 7;
        s ^= s << 17;
        out.push((s & 0xFF) as u8);
    }
    out
}

fn payloads() -> Vec<(&'static str, Vec<u8>)> {
    vec![
        ("empty", payload_empty()),
        ("small", payload_small()),
        ("text", payload_text()),
        ("random", payload_random()),
        ("large", payload_large()),
    ]
}

fn gzip_compress(data: &[u8]) -> Vec<u8> {
    let mut e = flate2::write::GzEncoder::new(Vec::new(), flate2::Compression::new(1));
    e.write_all(data).unwrap();
    e.finish().unwrap()
}

fn bzip2_compress(data: &[u8]) -> Vec<u8> {
    let mut e = bzip2::write::BzEncoder::new(Vec::new(), bzip2::Compression::new(1));
    e.write_all(data).unwrap();
    e.finish().unwrap()
}

fn xz_compress(data: &[u8]) -> Vec<u8> {
    let mut e = xz2::write::XzEncoder::new(Vec::new(), 1);
    e.write_all(data).unwrap();
    e.finish().unwrap()
}

fn zstd_compress(data: &[u8]) -> Vec<u8> {
    zstd::stream::encode_all(data, 1).unwrap()
}

fn compress(format: CompressionFormat, data: &[u8]) -> Vec<u8> {
    match format {
        CompressionFormat::Uncompressed => data.to_vec(),
        CompressionFormat::Bzip2 => bzip2_compress(data),
        CompressionFormat::Gzip => gzip_compress(data),
        CompressionFormat::Xz => xz_compress(data),
        CompressionFormat::Zstd => zstd_compress(data),
    }
}

fn ms(data: &[u8]) -> MemorySource {
    MemorySource::with_chunk(data.to_vec(), 32)
}

fn read_all(reader: &mut DecompressReader<MemorySource>) -> Result<Vec<u8>, DecompressError> {
    let mut out = Vec::new();
    loop {
        let v = reader.read(8192)?;
        if v.is_empty() {
            return Ok(out);
        }
        out.extend_from_slice(&v);
    }
}

fn drain_peek(peek: PeekReader<MemorySource>) -> Vec<u8> {
    let (mut out, mut source) = peek.into_parts();
    loop {
        let v = source.read_bytes(8192).unwrap();
        if v.is_empty() {
            return out;
        }
        out.extend_from_slice(&v);
    }
}

fn test_set(format: CompressionFormat, inputs: &[(&str, Vec<u8>, Vec<u8>)]) {
    for (name, data, expected) in inputs {
        if *name == "large" {
            api_test(format, data, expected);
        }
    }
    for (name, data, expected) in inputs {
        test_case(name, data, expected);
    }
}

/// API surface test, repeated for each format.
fn api_test(format: CompressionFormat, input: &[u8], expected: &[u8]) {
    // specifically enable the algorithm
    let builder = match format {
        CompressionFormat::Uncompressed => unreachable!(),
        CompressionFormat::Bzip2 => DecompressBuilder::none().bzip2(true),
        CompressionFormat::Gzip => DecompressBuilder::none().gzip(true),
        CompressionFormat::Xz => DecompressBuilder::none().xz(true),
        CompressionFormat::Zstd => DecompressBuilder::none().zstd(true),
    };
    let mut reader = builder.reader(ms(input)).unwrap();
    assert_eq!(read_all(&mut reader).unwrap(), expected);
    assert_eq!(reader.format(), format);

    // do not enable algorithms
    let none = DecompressBuilder::none().reader(ms(input));
    assert!(matches!(none, Err(DecompressError::UnrecognizedFormat)));

    // from_peek
    let mut reader = DecompressReader::from_peek(PeekReader::new(ms(input))).unwrap();
    assert_eq!(read_all(&mut reader).unwrap(), expected);
    let remainder = drain_peek(reader.into_inner());
    assert_eq!(remainder, Vec::<u8>::new());

    // build_from_peek
    let mut reader = DecompressBuilder::new()
        .build_from_peek(PeekReader::new(ms(input)))
        .unwrap();
    assert_eq!(read_all(&mut reader).unwrap(), expected);
    let remainder = drain_peek(reader.into_inner());
    assert_eq!(remainder, Vec::<u8>::new());
}

/// One format case: clean decode, truncation, trailing garbage, and
/// trailing-garbage tolerance.
fn test_case(name: &str, data: &[u8], expected: &[u8]) {
    println!("=== {name} ===");
    let mut input = data.to_vec();

    // successful run
    let mut reader = DecompressReader::new(ms(&input)).unwrap();
    assert_eq!(read_all(&mut reader).unwrap(), expected);

    // drop last byte, make sure we notice
    let mut reader = DecompressReader::new(ms(&input[0..input.len() - 1])).unwrap();
    assert!(read_all(&mut reader).is_err());

    // add trailing garbage, make sure we notice
    input.push(12);
    let mut reader = DecompressReader::new(ms(&input)).unwrap();
    assert!(matches!(
        read_all(&mut reader),
        Err(DecompressError::TrailingData)
    ));

    // use concatenated mode, make sure we ignore trailing garbage
    let mut reader = DecompressBuilder::new()
        .trailing_data(true)
        .reader(ms(&input))
        .unwrap();
    assert_eq!(read_all(&mut reader).unwrap(), expected);
    let remainder = drain_peek(reader.into_inner());
    assert_eq!(remainder, vec![12u8]);
}

fn test_concatenated_inputs(compressed: &[u8], plain: &[u8]) {
    let mut input = Vec::new();
    let mut expected = Vec::new();
    for _ in 0..3 {
        input.extend_from_slice(compressed);
        expected.extend_from_slice(plain);
    }
    test_case("concatenated random", &input, &expected);
}

fn small_decode(mut reader: XzOrZstd, expected: &[u8]) {
    let mut out = Vec::new();
    loop {
        let v = match &mut reader {
            XzOrZstd::Xz(d) => d.read(1).unwrap(),
            XzOrZstd::Zstd(d) => d.read(1).unwrap(),
        };
        match v.len() {
            0 => break,
            1 => out.push(v[0]),
            _ => unreachable!(),
        }
    }
    assert_eq!(&out, &expected);
    let peek = match reader {
        XzOrZstd::Xz(d) => d.into_inner(),
        XzOrZstd::Zstd(d) => d.into_inner(),
    };
    assert_eq!(drain_peek(peek), b"abcdefg".to_vec());
}

enum XzOrZstd {
    Xz(XzReader<MemorySource>),
    Zstd(ZstdReader<MemorySource>),
}

fn small_decode_make(compressed: &[u8]) -> PeekReader<MemorySource> {
    let mut input = compressed.to_vec();
    input.extend_from_slice(b"abcdefg");
    PeekReader::new(MemorySource::with_chunk(input, 1))
}

fn fixtures(format: CompressionFormat) -> Vec<(&'static str, Vec<u8>, Vec<u8>)> {
    payloads()
        .into_iter()
        .map(|(name, plain)| (name, compress(format, &plain), plain))
        .collect()
}

#[test]
fn uncompressed() {
    for (name, plain) in payloads() {
        println!("=== {name} ===");
        let mut reader = DecompressBuilder::new()
            .uncompressed(true)
            .reader(ms(&plain))
            .unwrap();
        let output = read_all(&mut reader).unwrap();
        assert_eq!(output, plain);
        assert_eq!(reader.format(), CompressionFormat::Uncompressed);
    }
}

#[test]
fn bzip2() {
    test_set(CompressionFormat::Bzip2, &fixtures(CompressionFormat::Bzip2));
    // multiple streams may be concatenated; pbzip2 does this
    let plain = payload_random();
    test_concatenated_inputs(&bzip2_compress(&plain), &plain);
}

#[test]
fn gzip() {
    test_set(CompressionFormat::Gzip, &fixtures(CompressionFormat::Gzip));
}

#[test]
fn xz() {
    test_set(CompressionFormat::Xz, &fixtures(CompressionFormat::Xz));
    // test the underlying reader one byte at a time
    let plain = payload_random_small();
    let reader = XzReader::new(small_decode_make(&xz_compress(&plain))).unwrap();
    small_decode(XzOrZstd::Xz(reader), &plain);
}

#[test]
fn zstd() {
    test_set(CompressionFormat::Zstd, &fixtures(CompressionFormat::Zstd));
    // test with multiple frames
    let plain = payload_random();
    test_concatenated_inputs(&zstd_compress(&plain), &plain);
    // test the underlying reader one byte at a time
    let small = payload_random_small();
    let reader = ZstdReader::new(small_decode_make(&zstd_compress(&small))).unwrap();
    small_decode(XzOrZstd::Zstd(reader), &small);
}

#[test]
fn invalid() {
    let r = DecompressReader::new(ms(b"hello world"));
    assert!(matches!(r, Err(DecompressError::UnrecognizedFormat)));
}

#[test]
fn xz_small_decode() {
    let plain = payload_text();
    let reader = XzReader::new(small_decode_make(&xz_compress(&plain))).unwrap();
    small_decode(XzOrZstd::Xz(reader), &plain);
}

#[test]
fn zstd_small_decode() {
    let plain = payload_text();
    let reader = ZstdReader::new(small_decode_make(&zstd_compress(&plain))).unwrap();
    small_decode(XzOrZstd::Zstd(reader), &plain);
}
