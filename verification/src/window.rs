use vstd::prelude::*;

use ringbuf::storage::Heap;
use ringbuf::traits::{Consumer, Observer, RingBuffer};
use ringbuf::LocalRb;

verus! {

// The ring buffer that backs a `SampleWindow` comes from the `ringbuf`
// crate. Verus cannot see inside its buffer type (its storage trait bound
// defeats a direct type declaration), so `RingBuf` holds it behind an
// opaque struct; the two names below stand for what a buffer holds
// (oldest to newest) and the capacity it was created with, and the
// wrappers state what each called method does to them.

/// An opaque handle to a `ringbuf::LocalRb` of heap-stored samples.
#[verifier::external_body]
pub struct RingBuf {
    rb: LocalRb<Heap<i16>>,
}

/// The samples a ring buffer holds, oldest first.
pub uninterp spec fn rb_contents(rb: RingBuf) -> Seq<i16>;

/// The capacity a ring buffer was created with.
pub uninterp spec fn rb_capacity(rb: RingBuf) -> nat;

/// Relies on ringbuf's `LocalRb::<Heap<i16>>::new`: a fresh buffer is empty
/// and keeps the given capacity. It panics on zero capacity, so that is
/// excluded here.
#[verifier::external_body]
fn rb_new(capacity: usize) -> (rb: RingBuf)
    requires
        1 <= capacity,
    ensures
        rb_contents(rb) == Seq::<i16>::empty(),
        rb_capacity(rb) == capacity as nat,
{
    RingBuf { rb: LocalRb::new(capacity) }
}

/// Relies on ringbuf's `RingBuffer::push_overwrite`: when the buffer is not
/// full the element is appended; when it is full the oldest element is
/// popped first and then the element is appended.
#[verifier::external_body]
fn rb_push_overwrite(rb: &mut RingBuf, x: i16)
    ensures
        rb_capacity(*final(rb)) == rb_capacity(*old(rb)),
        rb_contents(*final(rb)) == (if rb_contents(*old(rb)).len() < rb_capacity(*old(rb)) {
            rb_contents(*old(rb)).push(x)
        } else {
            rb_contents(*old(rb)).drop_first().push(x)
        }),
{
    rb.rb.push_overwrite(x);
}

/// Relies on ringbuf's `Consumer::iter`: a front-to-back iterator over the
/// buffered items, oldest first, leaving the buffer unchanged.
#[verifier::external_body]
fn rb_snapshot(rb: &RingBuf) -> (items: Vec<i16>)
    ensures
        items@ == rb_contents(*rb),
{
    rb.rb.iter().copied().collect()
}

/// Relies on ringbuf's `Observer::occupied_len`: the number of buffered
/// items (exact here, since nothing shares the buffer).
#[verifier::external_body]
fn rb_len(rb: &RingBuf) -> (n: usize)
    ensures
        n as nat == rb_contents(*rb).len(),
{
    rb.rb.occupied_len()
}

/// One overwriting push: append `x`, evicting the oldest element first when
/// the contents already fill the capacity.
pub open spec fn ring_step(c: Seq<i16>, x: i16, cap: nat) -> Seq<i16> {
    if c.len() < cap {
        c.push(x)
    } else {
        c.drop_first().push(x)
    }
}

/// Overwriting pushes of all of `s` onto `c`, in order.
pub open spec fn ring_push_all(c: Seq<i16>, s: Seq<i16>, cap: nat) -> Seq<i16>
    decreases s.len(),
{
    if s.len() == 0 {
        c
    } else {
        ring_push_all(ring_step(c, s[0], cap), s.drop_first(), cap)
    }
}

/// A fixed-capacity window over the most recent samples: pushing always
/// succeeds and silently evicts the oldest samples once the capacity is
/// reached.
pub struct SampleWindow {
    rb: RingBuf,
    cap: usize,
}

impl SampleWindow {
    /// The buffered samples, oldest first.
    pub closed spec fn contents(self) -> Seq<i16> {
        rb_contents(self.rb)
    }

    /// The fixed capacity chosen at construction.
    pub closed spec fn capacity(self) -> nat {
        self.cap as nat
    }

    /// Well-formedness: the backing buffer keeps the declared capacity and
    /// never holds more than it.
    pub closed spec fn wf(self) -> bool {
        &&& rb_capacity(self.rb) == self.cap as nat
        &&& 1 <= self.cap
        &&& rb_contents(self.rb).len() <= self.cap as nat
    }

    /// An empty window with the given capacity.
    pub fn new(capacity: usize) -> (w: Self)
        requires
            1 <= capacity,
        ensures
            w.wf(),
            w.capacity() == capacity as nat,
            w.contents() == Seq::<i16>::empty(),
    {
        SampleWindow { rb: rb_new(capacity), cap: capacity }
    }

    /// Appends all given samples, evicting the oldest entries once the
    /// total exceeds the capacity. Never fails, for input of any length.
    pub fn push_overwrite(&mut self, samples: &Vec<i16>)
        requires
            old(self).wf(),
        ensures
            final(self).wf(),
            final(self).capacity() == old(self).capacity(),
            final(self).contents() == ring_push_all(
                old(self).contents(),
                samples@,
                old(self).capacity(),
            ),
    {
        let ghost c0: Seq<i16> = self.contents();
        let ghost cap: nat = self.capacity();
        let n: usize = samples.len();
        let mut i: usize = 0;
        while i < n
            invariant
                i <= n,
                n == samples@.len(),
                self.cap as nat == cap,
                1 <= self.cap,
                rb_capacity(self.rb) == cap,
                rb_contents(self.rb).len() <= cap,
                rb_contents(self.rb) == ring_push_all(c0, samples@.take(i as int), cap),
            decreases n - i,
        {
            let x: i16 = samples[i];
            proof {
                lemma_ring_push_all_snoc(c0, samples@.take(i as int), x, cap);
                assert(samples@.take(i as int).push(x) =~= samples@.take(i + 1));
            }
            rb_push_overwrite(&mut self.rb, x);
            i = i + 1;
        }
        proof {
            assert(samples@.take(n as int) =~= samples@);
        }
    }

    /// The current contents, oldest to newest, as a fresh vector.
    pub fn snapshot(&self) -> (samples: Vec<i16>)
        ensures
            samples@ == self.contents(),
    {
        rb_snapshot(&self.rb)
    }

    /// The number of samples currently buffered.
    pub fn len(&self) -> (n: usize)
        ensures
            n as nat == self.contents().len(),
    {
        rb_len(&self.rb)
    }
}

/// Appending one element to the pushed sequence is one more overwriting
/// push at the end.
pub proof fn lemma_ring_push_all_snoc(c: Seq<i16>, s: Seq<i16>, x: i16, cap: nat)
    ensures
        ring_push_all(c, s.push(x), cap) == ring_step(ring_push_all(c, s, cap), x, cap),
    decreases s.len(),
{
    if s.len() == 0 {
        assert(s.push(x)[0] == x);
        assert(s.push(x).drop_first() =~= Seq::<i16>::empty());
        assert(ring_push_all(c, s.push(x), cap) == ring_push_all(
            ring_step(c, x, cap),
            Seq::<i16>::empty(),
            cap,
        ));
        assert(ring_push_all(ring_step(c, x, cap), Seq::<i16>::empty(), cap) == ring_step(
            c,
            x,
            cap,
        ));
        assert(ring_push_all(c, s, cap) == c);
    } else {
        assert(s.push(x)[0] == s[0]);
        assert(s.push(x).drop_first() =~= s.drop_first().push(x));
        assert(ring_push_all(c, s.push(x), cap) == ring_push_all(
            ring_step(c, s[0], cap),
            s.drop_first().push(x),
            cap,
        ));
        lemma_ring_push_all_snoc(ring_step(c, s[0], cap), s.drop_first(), x, cap);
        assert(ring_push_all(c, s, cap) == ring_push_all(
            ring_step(c, s[0], cap),
            s.drop_first(),
            cap,
        ));
    }
}

/// Law: starting from contents that fit the capacity, the window never
/// holds more than `cap` samples, and after pushing `s` it holds exactly
/// the newest samples that fit: all of `c + s` when that fits, else the
/// last `cap` entries of `c + s`, in order.
pub proof fn lemma_ring_push_all_window(c: Seq<i16>, s: Seq<i16>, cap: nat)
    requires
        c.len() <= cap,
        1 <= cap,
    ensures
        ring_push_all(c, s, cap).len() <= cap,
        c.len() + s.len() <= cap ==> ring_push_all(c, s, cap) == c + s,
        c.len() + s.len() > cap ==> ring_push_all(c, s, cap) == (c + s).subrange(
            c.len() + s.len() - cap,
            (c.len() + s.len()) as int,
        ),
    decreases s.len(),
{
    if s.len() == 0 {
        assert(c + s =~= c);
    } else {
        let c1 = ring_step(c, s[0], cap);
        let rest = s.drop_first();
        lemma_ring_push_all_window(c1, rest, cap);
        assert(ring_push_all(c, s, cap) == ring_push_all(c1, rest, cap));
        if c.len() < cap {
            assert(c1 + rest =~= c + s);
        } else {
            let n = c.len() + s.len();
            assert(c1 + rest =~= (c + s).subrange(1, n as int));
            if c1.len() + rest.len() <= cap {
                assert(ring_push_all(c1, rest, cap) == c1 + rest);
                assert(c + s =~= (c + s));
                assert(c1 + rest =~= (c + s).subrange(n - cap, n as int));
            } else {
                assert(ring_push_all(c1, rest, cap) == (c1 + rest).subrange(
                    c1.len() + rest.len() - cap,
                    (c1.len() + rest.len()) as int,
                ));
                assert((c1 + rest).subrange(
                    c1.len() + rest.len() - cap,
                    (c1.len() + rest.len()) as int,
                ) =~= (c + s).subrange(n - cap, n as int));
            }
        }
    }
}

/// Law: once at least `cap` samples are pushed in one call, the window
/// holds exactly the last `cap` pushed samples, in order, whatever it held
/// before.
pub proof fn lemma_window_last_pushed(c: Seq<i16>, s: Seq<i16>, cap: nat)
    requires
        c.len() <= cap,
        s.len() >= cap,
        1 <= cap,
    ensures
        ring_push_all(c, s, cap) == s.subrange(s.len() - cap, s.len() as int),
{
    lemma_ring_push_all_window(c, s, cap);
    if c.len() + s.len() <= cap {
        assert(c.len() == 0 && s.len() == cap);
        assert(c + s =~= s.subrange(s.len() - cap, s.len() as int));
    } else {
        assert((c + s).subrange(c.len() + s.len() - cap, (c.len() + s.len()) as int) =~= s.subrange(
            s.len() - cap,
            s.len() as int,
        ));
    }
}

} // verus!
