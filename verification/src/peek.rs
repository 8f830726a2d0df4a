use vstd::prelude::*;

use crate::source::ByteSource;

verus! {

/// What a peek of `n` bytes returns out of a stream `s`: the first `n`
/// bytes, or all of `s` if it is shorter.
pub open spec fn peek_spec(s: Seq<u8>, n: int) -> Seq<u8>
    recommends
        0 <= n,
{
    if n <= s.len() {
        s.take(n)
    } else {
        s
    }
}

/// Wraps a byte source and lets callers inspect upcoming bytes without
/// consuming them.  Bytes pulled from the source ahead of time wait in an
/// internal queue; the logical read position only moves on `consume` and
/// `read`.  The model is three sequences: `delivered_bytes()` (everything
/// handed to the consumer so far), `queued()` (read from the source, not yet
/// delivered) and `src_rem()` (still inside the source).  Well-formedness
/// says their concatenation is exactly the content the source held at
/// construction: no byte is dropped or duplicated.
pub struct PeekReader<R: ByteSource> {
    source: R,
    queue: Vec<u8>,
    qpos: usize,
    delivered: Ghost<Seq<u8>>,
    init: Ghost<Seq<u8>>,
}

impl<R: ByteSource> PeekReader<R> {
    /// Bytes read from the source but not yet delivered to the consumer.
    pub closed spec fn queued(&self) -> Seq<u8> {
        self.queue@.skip(self.qpos as int)
    }

    /// Bytes the underlying source still holds.
    pub closed spec fn src_rem(&self) -> Seq<u8> {
        self.source.remaining()
    }

    /// Bytes still to be delivered, in order: the queue, then the source.
    pub open spec fn total(&self) -> Seq<u8> {
        self.queued() + self.src_rem()
    }

    /// Everything delivered to the consumer so far, via `read` or `consume`.
    pub closed spec fn delivered_bytes(&self) -> Seq<u8> {
        self.delivered@
    }

    /// Whether the underlying source can never fail a read.
    pub closed spec fn src_infallible(&self) -> bool {
        self.source.infallible()
    }

    /// The content the source held when this reader was built.
    pub closed spec fn initial_bytes(&self) -> Seq<u8> {
        self.init@
    }

    /// Well-formedness: the queue position is in range, and delivered plus
    /// still-to-come bytes make up exactly the initial content.
    pub closed spec fn wf(&self) -> bool {
        &&& self.qpos <= self.queue@.len()
        &&& self.initial_bytes() == self.delivered_bytes() + self.total()
    }

    pub fn new(source: R) -> (r: Self)
        ensures
            r.wf(),
            r.total() == source.remaining(),
            r.delivered_bytes() == Seq::<u8>::empty(),
            r.initial_bytes() == source.remaining(),
            r.src_infallible() == source.infallible(),
    {
        let ghost rem = source.remaining();
        let r = PeekReader {
            source,
            queue: Vec::new(),
            qpos: 0,
            delivered: Ghost(Seq::empty()),
            init: Ghost(rem),
        };
        proof {
            assert(r.total() =~= rem);
            assert(r.initial_bytes() =~= r.delivered_bytes() + r.total());
        }
        r
    }

    /// Pulls bytes from the source into the queue until `n` bytes are queued
    /// or the source is exhausted.  The logical stream does not change.
    fn fill_queue_to(&mut self, n: usize) -> (r: Result<(), std::io::Error>)
        requires
            old(self).wf(),
        ensures
            final(self).wf(),
            final(self).total() == old(self).total(),
            final(self).delivered_bytes() == old(self).delivered_bytes(),
            final(self).initial_bytes() == old(self).initial_bytes(),
            final(self).src_infallible() == old(self).src_infallible(),
            r is Ok ==> final(self).queued().len() >= peek_spec(old(self).total(), n as int).len(),
            old(self).src_infallible() ==> r is Ok,
            old(self).queued().len() >= n ==> r is Ok,
    {
        let ghost t0 = self.total();
        let ghost d0 = self.delivered@;
        let ghost i0 = self.init@;
        loop
            invariant
                self.wf(),
                self.total() == t0,
                self.delivered@ == d0,
                self.init@ == i0,
                t0 == old(self).total(),
                d0 == old(self).delivered_bytes(),
                i0 == old(self).initial_bytes(),
                self.src_infallible() == old(self).src_infallible(),
                old(self).queued().len() >= n ==> self.queued().len() >= n,
            decreases n - (self.queue@.len() - self.qpos),
        {
            let have = self.queue.len() - self.qpos;
            if have >= n {
                return Ok(());
            }
            let want = n - have;
            let ghost oldq = self.queue@;
            let ghost oldrem = self.src_rem();
            let got = match self.source.read_bytes(want) {
                Ok(g) => g,
                Err(e) => {
                    return Err(e);
                },
            };
            if got.len() == 0 {
                proof {
                    assert(self.src_rem().len() == 0);
                    assert(self.total() =~= self.queued());
                }
                return Ok(());
            }
            let ghost g = got@;
            let mut got = got;
            self.queue.append(&mut got);
            proof {
                assert(self.queued() =~= oldq.skip(self.qpos as int) + g);
                assert(g + self.src_rem() =~= oldrem);
                assert(self.total() =~= (oldq.skip(self.qpos as int) + g) + self.src_rem());
                assert(self.total() =~= t0);
                assert(self.initial_bytes() =~= self.delivered_bytes() + self.total());
            }
        }
    }

    /// Copies `k` queued bytes, starting at the read position, into a fresh
    /// vector.
    fn copy_queued(&self, k: usize) -> (v: Vec<u8>)
        requires
            self.wf(),
            k <= self.queued().len(),
        ensures
            v@ == self.queued().take(k as int),
    {
        let qlen = self.queue.len();
        let mut v: Vec<u8> = Vec::new();
        let mut i: usize = 0;
        while i < k
            invariant
                i <= k,
                self.wf(),
                k <= self.queued().len(),
                self.queue@.len() == qlen,
                v@.len() == i,
                forall|j: int| 0 <= j < i ==> v@[j] == self.queued()[j],
            decreases k - i,
        {
            let b = self.queue[self.qpos + i];
            v.push(b);
            i = i + 1;
        }
        proof {
            assert(v@ =~= self.queued().take(k as int));
        }
        v
    }

    /// Returns up to `n` upcoming bytes without advancing the read position.
    /// Fewer than `n` bytes come back only when the stream ends before that.
    /// Afterwards at least the returned bytes are queued, so they may be
    /// consumed directly.  A peek that the queue can already answer, or on
    /// an infallible source, succeeds.
    pub fn peek(&mut self, n: usize) -> (r: Result<Vec<u8>, std::io::Error>)
        requires
            old(self).wf(),
        ensures
            final(self).wf(),
            final(self).total() == old(self).total(),
            final(self).delivered_bytes() == old(self).delivered_bytes(),
            final(self).initial_bytes() == old(self).initial_bytes(),
            final(self).src_infallible() == old(self).src_infallible(),
            old(self).src_infallible() ==> r is Ok,
            old(self).queued().len() >= n ==> r is Ok,
            match r {
                Ok(v) => {
                    &&& v@ == peek_spec(old(self).total(), n as int)
                    &&& v@.len() <= final(self).queued().len()
                },
                Err(_) => true,
            },
    {
        match self.fill_queue_to(n) {
            Ok(()) => {},
            Err(e) => {
                return Err(e);
            },
        }
        let have = self.queue.len() - self.qpos;
        let k = if n < have {
            n
        } else {
            have
        };
        proof {
            assert(self.queued().len() <= self.total().len());
            assert(self.queued().take(k as int) =~= peek_spec(self.total(), n as int));
        }
        Ok(self.copy_queued(k))
    }

    /// Advances the read position by `n` bytes, which must already be
    /// queued (a preceding `peek` guarantees that).  The consumed bytes
    /// count as delivered.
    pub fn consume(&mut self, n: usize)
        requires
            old(self).wf(),
            n <= old(self).queued().len(),
        ensures
            final(self).wf(),
            final(self).queued() == old(self).queued().skip(n as int),
            final(self).src_rem() == old(self).src_rem(),
            final(self).total() == old(self).total().skip(n as int),
            final(self).delivered_bytes() == old(self).delivered_bytes()
                + old(self).total().take(n as int),
            final(self).initial_bytes() == old(self).initial_bytes(),
            final(self).src_infallible() == old(self).src_infallible(),
    {
        let ghost taken = self.queued().take(n as int);
        proof {
            assert(taken =~= self.total().take(n as int));
        }
        let qlen = self.queue.len();
        proof {
            assert(self.qpos + n <= qlen);
        }
        self.qpos = self.qpos + n;
        self.delivered = Ghost(self.delivered@ + taken);
        if self.qpos == self.queue.len() {
            self.queue = Vec::new();
            self.qpos = 0;
        }
        proof {
            assert(final(self).queued() =~= old(self).queued().skip(n as int));
            assert(final(self).total() =~= old(self).total().skip(n as int));
            assert(old(self).total().take(n as int) + final(self).total()
                =~= old(self).total());
            assert(final(self).initial_bytes() =~= final(self).delivered_bytes()
                + final(self).total());
        }
    }

    /// Returns the queued bytes, reading from the source once if the queue
    /// is empty.  An empty result means the stream is exhausted.  The read
    /// position does not move; a following `consume` of up to the returned
    /// length is legal.  A call that the queue can already answer, or on
    /// an infallible source, succeeds.
    pub fn fill_buf(&mut self) -> (r: Result<Vec<u8>, std::io::Error>)
        requires
            old(self).wf(),
        ensures
            final(self).wf(),
            final(self).total() == old(self).total(),
            final(self).delivered_bytes() == old(self).delivered_bytes(),
            final(self).initial_bytes() == old(self).initial_bytes(),
            final(self).src_infallible() == old(self).src_infallible(),
            old(self).src_infallible() ==> r is Ok,
            old(self).queued().len() > 0 ==> r is Ok,
            match r {
                Ok(v) => {
                    &&& v@ == final(self).queued()
                    &&& v@ == old(self).total().take(v@.len() as int)
                    &&& (v@.len() == 0 ==> old(self).total().len() == 0)
                },
                Err(_) => true,
            },
    {
        if self.queue.len() - self.qpos == 0 {
            match self.fill_queue_to(1) {
                Ok(()) => {},
                Err(e) => {
                    return Err(e);
                },
            }
        }
        let have = self.queue.len() - self.qpos;
        let v = self.copy_queued(have);
        proof {
            assert(v@ =~= self.queued());
            assert(v@ =~= self.total().take(v@.len() as int));
        }
        Ok(v)
    }

    /// Sequential read: delivers up to `max` upcoming bytes and advances the
    /// read position past them.  An empty result means `max` was zero or the
    /// stream is exhausted.  A read that the queue can already answer, a
    /// read of nothing, or one on an infallible source, succeeds.
    pub fn read(&mut self, max: usize) -> (r: Result<Vec<u8>, std::io::Error>)
        requires
            old(self).wf(),
        ensures
            final(self).wf(),
            final(self).initial_bytes() == old(self).initial_bytes(),
            final(self).src_infallible() == old(self).src_infallible(),
            old(self).src_infallible() ==> r is Ok,
            old(self).queued().len() > 0 ==> r is Ok,
            max == 0 ==> r is Ok,
            match r {
                Ok(v) => {
                    &&& v@.len() <= max
                    &&& v@.len() <= old(self).total().len()
                    &&& v@ == old(self).total().take(v@.len() as int)
                    &&& final(self).total() == old(self).total().skip(v@.len() as int)
                    &&& final(self).delivered_bytes() == old(self).delivered_bytes() + v@
                    &&& (v@.len() == 0 ==> max == 0 || old(self).total().len() == 0)
                },
                Err(_) => {
                    &&& final(self).total() == old(self).total()
                    &&& final(self).delivered_bytes() == old(self).delivered_bytes()
                },
            },
    {
        if max == 0 {
            let v: Vec<u8> = Vec::new();
            proof {
                assert(v@ =~= old(self).total().take(0));
                assert(final(self).total() =~= old(self).total().skip(0));
                assert(final(self).delivered_bytes() =~= old(self).delivered_bytes() + v@);
            }
            return Ok(v);
        }
        let have = self.queue.len() - self.qpos;
        if have > 0 {
            let k = if max < have {
                max
            } else {
                have
            };
            let v = self.copy_queued(k);
            proof {
                assert(v@ =~= self.total().take(k as int));
            }
            self.consume(k);
            proof {
                assert(v@.len() == k);
                assert(old(self).total().len() > 0);
            }
            Ok(v)
        } else {
            let ghost t0 = self.total();
            let ghost d0 = self.delivered@;
            proof {
                assert(t0 =~= self.src_rem());
            }
            let got = match self.source.read_bytes(max) {
                Ok(g) => g,
                Err(e) => {
                    proof {
                        assert(final(self).total() =~= old(self).total());
                    }
                    return Err(e);
                },
            };
            let ghost g = got@;
            self.delivered = Ghost(self.delivered@ + g);
            proof {
                assert(g =~= t0.take(g.len() as int));
                assert(self.total() =~= t0.skip(g.len() as int));
                assert(g + self.total() =~= t0);
                assert((d0 + g) + self.total() =~= d0 + (g + self.total()));
                assert(self.initial_bytes() =~= self.delivered_bytes() + self.total());
            }
            Ok(got)
        }
    }

    /// Unwinds the reader: hands back the queued, still-undelivered bytes
    /// and the underlying source.  Together they are exactly what had not
    /// been delivered yet.
    pub fn into_parts(self) -> (r: (Vec<u8>, R))
        requires
            self.wf(),
        ensures
            r.0@ == self.queued(),
            r.1.remaining() == self.src_rem(),
            r.0@ + r.1.remaining() == self.total(),
    {
        let have = self.queue.len() - self.qpos;
        let v = self.copy_queued(have);
        proof {
            assert(v@ =~= self.queued());
        }
        let PeekReader { source, .. } = self;
        (v, source)
    }
}

/// Peeking is idempotent: a peek leaves the stream of upcoming bytes
/// unchanged, and what any peek — or any later read of a prefix — returns is
/// a function of that stream alone.  So two peeks in a row see the same
/// bytes, and a read after them sees what it would have seen without them.
pub proof fn lemma_peek_idempotent<R: ByteSource>(
    before: PeekReader<R>,
    after: PeekReader<R>,
    n: int,
)
    requires
        after.total() == before.total(),
    ensures
        peek_spec(after.total(), n) == peek_spec(before.total(), n),
        forall|m: int| peek_spec(after.total(), m) == peek_spec(before.total(), m),
{
}

/// Byte conservation: everything a well-formed peek reader has delivered,
/// followed by its queued bytes and the source's remainder, is exactly the
/// content the source held at construction — no loss, no duplication.
pub proof fn lemma_byte_conservation<R: ByteSource>(b: PeekReader<R>)
    requires
        b.wf(),
    ensures
        b.delivered_bytes() + b.queued() + b.src_rem() == b.initial_bytes(),
{
    assert(b.delivered_bytes() + b.queued() + b.src_rem()
        =~= b.delivered_bytes() + (b.queued() + b.src_rem()));
}

} // verus!
