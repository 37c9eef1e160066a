//! Bounded transfer buffer between the capture (producer) callback and the
//! playback (consumer) callback.
//!
//! Storage is a `ringbuf` heap ring, held opaquely in [`SampleRing`] and
//! reached only through its trusted methods. The real-time policies are
//! layered on top in verified code: the producer overwrites the oldest
//! samples on overflow and the consumer reads digital silence on underrun,
//! so neither side ever blocks or reports an error.

use vstd::prelude::*;

verus! {

use vstd::slice::slice_subrange;
use ringbuf::traits::Consumer;
use ringbuf::traits::Observer;
use ringbuf::traits::Producer;

/// Opaque holder for a `ringbuf::HeapRb<i16>`; every method is a trusted
/// wrapper around one call into `ringbuf`.
#[verifier::external_body]
pub struct SampleRing {
    rb: ringbuf::HeapRb<i16>,
}

/// The samples currently held by a ring, oldest first.
pub uninterp spec fn ring_contents(ring: &SampleRing) -> Seq<i16>;

/// The fixed capacity the ring was created with.
pub uninterp spec fn ring_capacity(ring: &SampleRing) -> nat;

impl SampleRing {
    /// Relies on ringbuf's `HeapRb::new`: an empty ring holding up to
    /// `capacity` items (`new` panics when `capacity` is zero, so that
    /// input is excluded here).
    #[verifier::external_body]
    fn with_capacity(capacity: usize) -> (r: SampleRing)
        requires
            capacity >= 1,
        ensures
            ring_contents(&r) == Seq::<i16>::empty(),
            ring_capacity(&r) == capacity,
    {
        SampleRing { rb: ringbuf::HeapRb::new(capacity) }
    }

    /// Relies on ringbuf's `Observer::occupied_len`: the number of stored
    /// items (exact here, because the ring is owned through `&self`/`&mut
    /// self` rather than shared).
    #[verifier::external_body]
    fn occupied_len(&self) -> (n: usize)
        ensures
            n == ring_contents(self).len(),
    {
        self.rb.occupied_len()
    }

    /// Relies on ringbuf's `Producer::push_slice`: appends items from the
    /// front of `elems` until the ring is full and returns how many were
    /// appended.
    #[verifier::external_body]
    fn push_slice(&mut self, elems: &[i16]) -> (n: usize)
        ensures
            n == if elems@.len() <= ring_capacity(old(self)) - ring_contents(old(self)).len() {
                elems@.len() as int
            } else {
                ring_capacity(old(self)) - ring_contents(old(self)).len() as int
            },
            ring_contents(final(self)) == ring_contents(old(self)) + elems@.take(n as int),
            ring_capacity(final(self)) == ring_capacity(old(self)),
    {
        self.rb.push_slice(elems)
    }

    /// Relies on ringbuf's `Consumer::skip`: removes up to `count` of the
    /// oldest items and returns how many were removed.
    #[verifier::external_body]
    fn skip(&mut self, count: usize) -> (n: usize)
        ensures
            n == if count as int <= ring_contents(old(self)).len() {
                count as int
            } else {
                ring_contents(old(self)).len() as int
            },
            ring_contents(final(self)) == ring_contents(old(self)).skip(n as int),
            ring_capacity(final(self)) == ring_capacity(old(self)),
    {
        self.rb.skip(count)
    }

    /// Relies on ringbuf's `Consumer::pop_slice`: removes the oldest items
    /// into a slice and returns how many were removed; the result here is
    /// those removed items, in order.
    #[verifier::external_body]
    fn pop_upto(&mut self, count: usize) -> (out: Vec<i16>)
        ensures
            out@ == ring_contents(old(self)).take(
                if count as int <= ring_contents(old(self)).len() {
                    count as int
                } else {
                    ring_contents(old(self)).len() as int
                },
            ),
            ring_contents(final(self)) == ring_contents(old(self)).skip(out@.len() as int),
            ring_capacity(final(self)) == ring_capacity(old(self)),
    {
        let mut buf = vec![0i16; count];
        let n = self.rb.pop_slice(buf.as_mut_slice());
        buf.truncate(n);
        buf
    }
}

/// What a transfer buffer holds after the producer inserts `s`: the most
/// recent `cap` samples of the previous contents followed by `s`.
pub open spec fn push_result(contents: Seq<i16>, cap: nat, s: Seq<i16>) -> Seq<i16> {
    let total = contents + s;
    if total.len() <= cap {
        total
    } else {
        total.skip(total.len() - cap)
    }
}

/// What the consumer receives when it requests `n` samples: everything
/// available, in order, padded with digital silence up to `n`.
pub open spec fn pop_result(contents: Seq<i16>, n: nat) -> Seq<i16> {
    if n <= contents.len() {
        contents.take(n as int)
    } else {
        contents + Seq::new((n - contents.len()) as nat, |i: int| 0i16)
    }
}

/// What a transfer buffer holds after the consumer requested `n` samples.
pub open spec fn pop_remainder(contents: Seq<i16>, n: nat) -> Seq<i16> {
    if n <= contents.len() {
        contents.skip(n as int)
    } else {
        Seq::empty()
    }
}

/// Fixed-capacity FIFO of normalized samples, written by one producer and
/// read by one consumer. Overflow silently drops the oldest samples and
/// underrun silently yields zeros: real-time callbacks must not stall.
pub struct TransferBuffer {
    ring: SampleRing,
    cap: usize,
}

impl View for TransferBuffer {
    type V = Seq<i16>;

    closed spec fn view(&self) -> Seq<i16> {
        ring_contents(&self.ring)
    }
}

impl TransferBuffer {
    /// The capacity the buffer was created with.
    pub closed spec fn spec_capacity(&self) -> nat {
        self.cap as nat
    }

    /// Internal consistency: the held ring matches the recorded capacity
    /// and is never over-full.
    pub closed spec fn wf(&self) -> bool {
        &&& ring_capacity(&self.ring) == self.cap
        &&& self.cap >= 1
        &&& ring_contents(&self.ring).len() <= self.cap
    }

    /// Creates an empty buffer for up to `capacity` samples.
    pub fn new(capacity: usize) -> (r: TransferBuffer)
        requires
            capacity >= 1,
        ensures
            r.wf(),
            r@ == Seq::<i16>::empty(),
            r.spec_capacity() == capacity,
    {
        TransferBuffer { ring: SampleRing::with_capacity(capacity), cap: capacity }
    }

    /// The fixed capacity, in samples.
    pub fn capacity(&self) -> (n: usize)
        ensures
            n == self.spec_capacity(),
    {
        self.cap
    }

    /// How many samples are currently stored.
    pub fn len(&self) -> (n: usize)
        ensures
            n == self@.len(),
    {
        self.ring.occupied_len()
    }

    /// Discards everything stored.
    pub fn clear(&mut self)
        requires
            old(self).wf(),
        ensures
            final(self).wf(),
            final(self)@ == Seq::<i16>::empty(),
            final(self).spec_capacity() == old(self).spec_capacity(),
    {
        let occ = self.ring.occupied_len();
        let _ = self.ring.skip(occ);
        proof {
            assert(self@ =~= Seq::<i16>::empty());
        }
    }

    /// Producer-side bulk insert. When the buffer would overflow, the
    /// oldest unread samples are silently dropped; the producer never
    /// blocks and never errors. Returns how many of the given samples were
    /// retained.
    pub fn push_slice(&mut self, samples: &[i16]) -> (pushed: usize)
        requires
            old(self).wf(),
        ensures
            final(self).wf(),
            final(self).spec_capacity() == old(self).spec_capacity(),
            final(self)@ == push_result(old(self)@, old(self).spec_capacity(), samples@),
            pushed == if samples@.len() <= old(self).spec_capacity() {
                samples@.len() as int
            } else {
                old(self).spec_capacity() as int
            },
    {
        let ghost prior = self@;
        let ghost cap = self.spec_capacity();
        if samples.len() >= self.cap {
            // The input alone fills the ring: drop everything stored and
            // keep only the input's most recent samples.
            let occ = self.ring.occupied_len();
            let _ = self.ring.skip(occ);
            let start = samples.len() - self.cap;
            let tail = slice_subrange(samples, start, samples.len());
            let n = self.ring.push_slice(tail);
            proof {
                assert(self@ =~= push_result(prior, cap, samples@));
            }
            self.cap
        } else {
            let occ = self.ring.occupied_len();
            let vacant = self.cap - occ;
            if samples.len() > vacant {
                // Make room by dropping just enough of the oldest samples.
                let _ = self.ring.skip(samples.len() - vacant);
            }
            let n = self.ring.push_slice(samples);
            proof {
                assert(self@ =~= push_result(prior, cap, samples@));
            }
            samples.len()
        }
    }

    /// Consumer-side bulk read of exactly `count` samples. Whatever is not
    /// available is replaced by digital silence rather than blocking, so
    /// the output callback always meets its deadline.
    pub fn pop(&mut self, count: usize) -> (out: Vec<i16>)
        requires
            old(self).wf(),
        ensures
            final(self).wf(),
            final(self).spec_capacity() == old(self).spec_capacity(),
            out@ == pop_result(old(self)@, count as nat),
            final(self)@ == pop_remainder(old(self)@, count as nat),
            out@.len() == count,
    {
        let ghost prior = self@;
        let mut out = self.ring.pop_upto(count);
        while out.len() < count
            invariant
                out@.len() <= count,
                out@.len() >= if count as int <= prior.len() {
                    count as int
                } else {
                    prior.len() as int
                },
                out@ == pop_result(prior, count as nat).take(out@.len() as int),
                pop_result(prior, count as nat).len() == count,
            decreases count - out@.len(),
        {
            out.push(0i16);
            proof {
                assert(out@ =~= pop_result(prior, count as nat).take(out@.len() as int));
            }
        }
        proof {
            assert(out@ =~= pop_result(prior, count as nat));
            assert(self@ =~= pop_remainder(prior, count as nat));
        }
        out
    }
}

/// Law: samples pass through in strict FIFO order — pushing `s` into an
/// empty buffer and then popping `s.len()` samples yields exactly `s`,
/// whenever `s` fits the capacity.
pub proof fn lemma_fifo_round_trip(cap: nat, s: Seq<i16>)
    requires
        1 <= cap,
        s.len() <= cap,
    ensures
        pop_result(push_result(Seq::<i16>::empty(), cap, s), s.len()) == s,
{
    assert(push_result(Seq::<i16>::empty(), cap, s) =~= s);
    assert(pop_result(s, s.len()) =~= s);
}

/// Law: popping `n` samples from an empty buffer yields `n` zeros.
pub proof fn lemma_pop_empty_is_silence(n: nat)
    ensures
        pop_result(Seq::<i16>::empty(), n) == Seq::new(n, |i: int| 0i16),
{
    assert(pop_result(Seq::<i16>::empty(), n) =~= Seq::new(n, |i: int| 0i16));
}

/// Law: pushing more samples than the capacity retains only the most
/// recent `cap` of them; the oldest are dropped.
pub proof fn lemma_push_overflow_keeps_latest(cap: nat, s: Seq<i16>)
    requires
        1 <= cap <= s.len(),
    ensures
        push_result(Seq::<i16>::empty(), cap, s) == s.skip(s.len() - cap),
{
    assert(push_result(Seq::<i16>::empty(), cap, s) =~= s.skip(s.len() - cap));
}

} // verus!
