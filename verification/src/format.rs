use vstd::prelude::*;

use crate::peek::peek_spec;

pub mod bzip2;
pub mod gzip;
pub mod uncompressed;
pub mod xz;
pub mod zstd;

verus! {

/// The fixed magic number that opens a zstd data frame, as the format
/// defines it (read from the stream as a little-endian 32-bit value).
pub const ZSTD_MAGICNUMBER: u32 = 0xFD2FB528;

/// The first value of the reserved range of zstd skippable-frame magics.
pub const ZSTD_MAGIC_SKIPPABLE_START: u32 = 0x184D2A50;

/// Mask selecting the fixed bits of the skippable-frame magic range.
pub const ZSTD_MAGIC_SKIPPABLE_MASK: u32 = 0xFFFFFFF0;

/// Four bytes read as a little-endian 32-bit value.
pub open spec fn le32_spec(b0: u8, b1: u8, b2: u8, b3: u8) -> u32 {
    (b0 as u32) | ((b1 as u32) << 8) | ((b2 as u32) << 16) | ((b3 as u32) << 24)
}

/// Whether a 32-bit value is a zstd frame magic: the fixed data-frame magic
/// or any value in the reserved skippable-frame range.
pub open spec fn zstd_magic_value(v: u32) -> bool {
    v == ZSTD_MAGICNUMBER || (v & ZSTD_MAGIC_SKIPPABLE_MASK) == ZSTD_MAGIC_SKIPPABLE_START
}

/// Whether a stream starts with a zstd frame: at least four bytes, read
/// little-endian, matching a zstd frame magic.
pub open spec fn is_zstd_magic(s: Seq<u8>) -> bool {
    s.len() >= 4 && zstd_magic_value(le32_spec(s[0], s[1], s[2], s[3]))
}

/// Whether a stream starts with the two-byte gzip signature.
pub open spec fn is_gzip_magic(s: Seq<u8>) -> bool {
    s.len() >= 2 && s[0] == 0x1fu8 && s[1] == 0x8bu8
}

/// Whether a stream starts with the six-byte xz signature.
pub open spec fn is_xz_magic(s: Seq<u8>) -> bool {
    &&& s.len() >= 6
    &&& s[0] == 0xfdu8
    &&& s[1] == 0x37u8
    &&& s[2] == 0x7au8
    &&& s[3] == 0x58u8
    &&& s[4] == 0x5au8
    &&& s[5] == 0x00u8
}

/// Whether a stream starts with the bzip2 signature: `BZh` followed by a
/// block-size digit between '1' and '9'.
pub open spec fn is_bzip2_magic(s: Seq<u8>) -> bool {
    &&& s.len() >= 4
    &&& s[0] == 0x42u8
    &&& s[1] == 0x5au8
    &&& s[2] == 0x68u8
    &&& 0x31u8 <= s[3] <= 0x39u8
}

/// A staging buffer of decoded-but-undelivered bytes, drained from the
/// front.  The valid contents are `bytes()`; the backing storage before the
/// drain position is already delivered and dead.
pub struct Staging {
    buf: Vec<u8>,
    pos: usize,
}

impl Staging {
    /// The decoded bytes not yet handed to the consumer.
    pub closed spec fn bytes(&self) -> Seq<u8> {
        self.buf@.skip(self.pos as int)
    }

    pub closed spec fn wf(&self) -> bool {
        self.pos <= self.buf@.len()
    }

    pub fn new() -> (r: Self)
        ensures
            r.wf(),
            r.bytes() == Seq::<u8>::empty(),
    {
        let r = Staging { buf: Vec::new(), pos: 0 };
        proof {
            assert(r.bytes() =~= Seq::<u8>::empty());
        }
        r
    }

    pub fn is_empty(&self) -> (r: bool)
        requires
            self.wf(),
        ensures
            r == (self.bytes().len() == 0),
    {
        self.buf.len() - self.pos == 0
    }

    /// Replaces the (drained) contents with freshly decoded bytes.
    pub fn refill(&mut self, data: Vec<u8>)
        requires
            old(self).wf(),
            old(self).bytes().len() == 0,
        ensures
            final(self).wf(),
            final(self).bytes() == data@,
    {
        self.buf = data;
        self.pos = 0;
        proof {
            assert(final(self).bytes() =~= data@);
        }
    }

    /// Hands out up to `max` bytes from the front.
    pub fn drain(&mut self, max: usize) -> (v: Vec<u8>)
        requires
            old(self).wf(),
        ensures
            final(self).wf(),
            v@ == peek_spec(old(self).bytes(), max as int),
            final(self).bytes() == old(self).bytes().skip(v@.len() as int),
    {
        let blen = self.buf.len();
        let have = blen - self.pos;
        let k = if max < have {
            max
        } else {
            have
        };
        let mut v: Vec<u8> = Vec::new();
        let mut i: usize = 0;
        while i < k
            invariant
                i <= k,
                self.wf(),
                k <= self.bytes().len(),
                self.buf@.len() == blen,
                v@.len() == i,
                forall|j: int| 0 <= j < i ==> v@[j] == self.bytes()[j],
            decreases k - i,
        {
            let b = self.buf[self.pos + i];
            v.push(b);
            i = i + 1;
        }
        proof {
            assert(v@ =~= peek_spec(self.bytes(), max as int));
        }
        let ghost b0 = self.bytes();
        self.pos = self.pos + k;
        if self.pos == self.buf.len() {
            self.buf = Vec::new();
            self.pos = 0;
        }
        proof {
            assert(final(self).bytes() =~= b0.skip(k as int));
        }
        v
    }
}

/// Relies on std::io::Error::new to build the error reported when a decode
/// primitive accepts no input and produces no output on a non-empty feed.
#[verifier::external_body]
pub(crate) fn decoder_stall_error() -> std::io::Error {
    std::io::Error::new(std::io::ErrorKind::Other, "decoder made no progress on available input")
}

} // verus!
