use vstd::prelude::*;

verus! {

/// Declares `std::io::Error` so it can appear in signatures.  The value is
/// opaque to the verifier; it is only carried through, never inspected.
#[verifier::external_type_specification]
#[verifier::external_body]
pub struct ExIoError(std::io::Error);

/// A blocking, sequentially readable byte source, the input end of the
/// decoding chain.  The model is the sequence of bytes the source will still
/// deliver; reading hands out a prefix of it and drops that prefix from the
/// model.  An error leaves the model unchanged.
///
/// Everything proved about readers over a source is relative to the model
/// its implementation declares.  Implementations outside the verifier are
/// held to nothing; they keep the cautious defaults below, and the
/// guarantees over them are correspondingly weak.
pub trait ByteSource: Sized {
    /// The bytes this source will still deliver, in order.  Sources that
    /// live outside the verifier (an application's real readers) keep the
    /// default model; sources defined here give their actual content.
    open spec fn remaining(&self) -> Seq<u8> {
        Seq::empty()
    }

    /// Whether reads on this source can never fail.  Sources outside the
    /// verifier keep the cautious default; an in-memory source overrides
    /// it, which lets callers conclude that specific outcomes are owed.
    open spec fn infallible(&self) -> bool {
        false
    }

    /// Read up to `max` bytes.  A successful result is a prefix of
    /// `remaining()`; it is empty only if `max` is zero or the source is
    /// exhausted.  An infallible source must succeed.  One call blocks at
    /// most as long as one underlying read.
    fn read_bytes(&mut self, max: usize) -> (r: Result<Vec<u8>, std::io::Error>)
        ensures
            final(self).infallible() == old(self).infallible(),
            old(self).infallible() ==> r is Ok,
            match r {
                Ok(v) => {
                    &&& v@.len() <= max
                    &&& v@.len() <= old(self).remaining().len()
                    &&& v@ == old(self).remaining().take(v@.len() as int)
                    &&& final(self).remaining() == old(self).remaining().skip(v@.len() as int)
                    &&& (v@.len() == 0 ==> max == 0 || old(self).remaining().len() == 0)
                },
                Err(_) => final(self).remaining() == old(self).remaining(),
            },
    ;
}

/// An in-memory byte source over an owned buffer.  `chunk` caps how many
/// bytes a single read hands out, which models sources that deliver input in
/// small pieces.
pub struct MemorySource {
    data: Vec<u8>,
    pos: usize,
    chunk: usize,
}

impl MemorySource {
    #[verifier::type_invariant]
    spec fn inv(self) -> bool {
        self.pos <= self.data@.len() && 1 <= self.chunk
    }

    /// A source over `data` that delivers as much as is asked for.
    pub fn new(data: Vec<u8>) -> (r: Self)
        ensures
            r.remaining() == data@,
    {
        let r = MemorySource { data, pos: 0, chunk: usize::MAX };
        proof {
            assert(r.remaining() =~= r.data@);
        }
        r
    }

    /// A source over `data` that delivers at most `chunk` bytes per read
    /// (a zero chunk is raised to one).
    pub fn with_chunk(data: Vec<u8>, chunk: usize) -> (r: Self)
        ensures
            r.remaining() == data@,
    {
        let c: usize = if chunk == 0 { 1 } else { chunk };
        let r = MemorySource { data, pos: 0, chunk: c };
        proof {
            assert(r.remaining() =~= r.data@);
        }
        r
    }
}

impl ByteSource for MemorySource {
    closed spec fn remaining(&self) -> Seq<u8> {
        self.data@.skip(self.pos as int)
    }

    open spec fn infallible(&self) -> bool {
        true
    }

    fn read_bytes(&mut self, max: usize) -> (r: Result<Vec<u8>, std::io::Error>) {
        proof {
            use_type_invariant(&*self);
        }
        let avail = self.data.len() - self.pos;
        let mut k: usize = if max < avail { max } else { avail };
        if self.chunk < k {
            k = self.chunk;
        }
        let mut v: Vec<u8> = Vec::new();
        let mut i: usize = 0;
        while i < k
            invariant
                i <= k,
                self.pos + k <= self.data@.len(),
                self.data@.len() <= usize::MAX,
                v@.len() == i,
                forall|j: int| 0 <= j < i ==> v@[j] == self.data@[self.pos + j],
            decreases k - i,
        {
            let b = self.data[self.pos + i];
            v.push(b);
            i = i + 1;
        }
        proof {
            assert(v@ =~= self.data@.skip(self.pos as int).take(k as int));
        }
        self.pos = self.pos + k;
        proof {
            assert(self.data@.skip(self.pos as int) =~= old(self).remaining().skip(k as int));
        }
        Ok(v)
    }
}

} // verus!
