//! Fixed-capacity circular store of audio samples.
use vstd::prelude::*;

verus! {

/// `len` samples of silence.
pub open spec fn silence(len: nat) -> Seq<i32> {
    Seq::new(len, |i: int| 0i32)
}

/// The last `min(n, s.len())` elements of `s`, oldest first.
pub open spec fn last_n(s: Seq<i32>, n: nat) -> Seq<i32> {
    if n >= s.len() {
        s
    } else {
        s.subrange(s.len() - n, s.len() as int)
    }
}

/// What a store holding `contents` holds after `batch` was written to it:
/// the store keeps its length and the oldest samples give way.
pub open spec fn pushed(contents: Seq<i32>, batch: Seq<i32>) -> Seq<i32> {
    last_n(contents + batch, contents.len())
}

/// All batches of `batches` in one sequence, in the order they were written.
pub open spec fn concat_all(batches: Seq<Seq<i32>>) -> Seq<i32>
    decreases batches.len(),
{
    if batches.len() == 0 {
        Seq::empty()
    } else {
        concat_all(batches.drop_last()) + batches.last()
    }
}

/// What a store holding `contents` holds after each batch of `batches` was
/// written to it in turn.
pub open spec fn pushed_all(contents: Seq<i32>, batches: Seq<Seq<i32>>) -> Seq<i32>
    decreases batches.len(),
{
    if batches.len() == 0 {
        contents
    } else {
        pushed(pushed_all(contents, batches.drop_last()), batches.last())
    }
}

/// Writing `first` and then `second` leaves what writing both at once leaves.
pub proof fn lemma_pushed_twice(contents: Seq<i32>, first: Seq<i32>, second: Seq<i32>)
    ensures
        pushed(pushed(contents, first), second) == pushed(contents, first + second),
{
    assert(pushed(pushed(contents, first), second) =~= pushed(contents, first + second));
}

/// Writing batches one after another leaves what writing their
/// concatenation at once leaves.
pub proof fn lemma_pushed_all(contents: Seq<i32>, batches: Seq<Seq<i32>>)
    ensures
        pushed_all(contents, batches) == pushed(contents, concat_all(batches)),
        pushed_all(contents, batches).len() == contents.len(),
    decreases batches.len(),
{
    if batches.len() == 0 {
        assert(pushed(contents, concat_all(batches)) =~= contents);
    } else {
        lemma_pushed_all(contents, batches.drop_last());
        lemma_pushed_twice(contents, concat_all(batches.drop_last()), batches.last());
    }
}

/// After any sequence of writes into a buffer, reading back `k` samples,
/// with `k` no larger than the capacity, yields the last `k` samples of the
/// buffer's earlier contents followed by everything written; when at least
/// `k` samples were written, these are exactly the last `k` written samples
/// in the order they were written.
pub proof fn lemma_reads_return_latest_writes(
    contents: Seq<i32>,
    batches: Seq<Seq<i32>>,
    k: nat,
)
    requires
        k <= contents.len(),
    ensures
        last_n(pushed_all(contents, batches), k) == last_n(contents + concat_all(batches), k),
        k <= concat_all(batches).len() ==> last_n(pushed_all(contents, batches), k) == last_n(
            concat_all(batches),
            k,
        ),
{
    lemma_pushed_all(contents, batches);
    let written = concat_all(batches);
    assert(last_n(pushed(contents, written), k) =~= last_n(contents + written, k));
    if k <= written.len() {
        assert(last_n(contents + written, k) =~= last_n(written, k));
    }
}

/// Writing fewer samples than the capacity into a cleared buffer and
/// reading back as many samples as were written yields exactly those samples.
pub proof fn lemma_read_after_clear(capacity: nat, batch: Seq<i32>)
    requires
        batch.len() < capacity,
    ensures
        last_n(pushed(silence(capacity), batch), batch.len()) == batch,
{
    assert(last_n(pushed(silence(capacity), batch), batch.len()) =~= batch);
}

/// Circular buffer for audio samples.
///
/// The buffer never resizes. Once full, each written sample overwrites the
/// oldest one; the writer gets no signal of that.
pub struct CircularBuffer {
    data: Vec<i32>,
    write_pos: usize,
    capacity: usize,
}

impl View for CircularBuffer {
    type V = Seq<i32>;

    /// The stored samples in chronological order, oldest first. Its length is
    /// the capacity; slots never written hold silence.
    closed spec fn view(&self) -> Seq<i32> {
        self.data@.subrange(self.write_pos as int, self.data@.len() as int) + self.data@.subrange(
            0,
            self.write_pos as int,
        )
    }
}

impl CircularBuffer {
    #[verifier::type_invariant]
    spec fn wf(self) -> bool {
        &&& self.capacity > 0
        &&& self.data@.len() == self.capacity
        &&& self.write_pos < self.capacity
    }

    /// Number of samples the buffer holds.
    pub closed spec fn spec_capacity(&self) -> nat {
        self.capacity as nat
    }

    /// A buffer of `capacity` samples of silence.
    pub fn new(capacity: usize) -> (buffer: Self)
        requires
            capacity > 0,
        ensures
            buffer@ == silence(capacity as nat),
            buffer.spec_capacity() == capacity,
    {
        let data: Vec<i32> = vec![0i32; capacity];
        let buffer = CircularBuffer { data, write_pos: 0, capacity };
        assert(buffer@ =~= silence(capacity as nat));
        buffer
    }

    /// Number of samples the buffer holds.
    pub fn capacity(&self) -> (c: usize)
        ensures
            c == self.spec_capacity(),
            c == self@.len(),
            c > 0,
    {
        proof {
            use_type_invariant(self);
        }
        self.capacity
    }

    /// Writes each sample of `samples` in order. Once the buffer is full the
    /// oldest samples are overwritten. This cannot fail.
    pub fn push_samples(&mut self, samples: &[i32])
        ensures
            final(self)@ == pushed(old(self)@, samples@),
            final(self)@.len() == old(self)@.len(),
            final(self).spec_capacity() == old(self).spec_capacity(),
    {
        proof {
            use_type_invariant(&*self);
            assert(pushed(self@, samples@.subrange(0, 0)) =~= self@);
        }
        let mut i: usize = 0;
        while i < samples.len()
            invariant
                0 <= i <= samples.len(),
                self.wf(),
                self.capacity == old(self).capacity,
                self@ == pushed(old(self)@, samples@.subrange(0, i as int)),
            decreases samples.len() - i,
        {
            let ghost before = self@;
            let ghost prefix = samples@.subrange(0, i as int);
            let sample = samples[i];
            self.data[self.write_pos] = sample;
            self.write_pos = if self.write_pos + 1 == self.capacity {
                0
            } else {
                self.write_pos + 1
            };
            i = i + 1;
            proof {
                let next = samples@.subrange(0, i as int);
                assert(next =~= prefix.push(sample));
                assert(self@ =~= before.subrange(1, before.len() as int).push(sample));
                assert(self@ =~= pushed(old(self)@, next));
            }
        }
        proof {
            assert(samples@.subrange(0, i as int) =~= samples@);
        }
    }

    /// The `min(n, capacity)` most recently written samples, oldest first.
    /// Asking for more than the capacity silently yields the whole buffer.
    pub fn get_last_n_samples(&self, n: usize) -> (result: Vec<i32>)
        ensures
            result@ == last_n(self@, n as nat),
            result@.len() == if n as nat <= self.spec_capacity() {
                n as nat
            } else {
                self.spec_capacity()
            },
    {
        proof {
            use_type_invariant(self);
        }
        let n = if n < self.capacity {
            n
        } else {
            self.capacity
        };
        let mut result: Vec<i32> = Vec::with_capacity(n);
        let start = if self.write_pos >= n {
            self.write_pos - n
        } else {
            self.capacity - (n - self.write_pos)
        };
        let mut i: usize = 0;
        while i < n
            invariant
                0 <= i <= n <= self.capacity,
                self.wf(),
                start < self.capacity || (start == self.capacity && n == 0),
                start as int == if self.write_pos >= n {
                    self.write_pos - n
                } else {
                    self.capacity - (n - self.write_pos)
                },
                result@ == last_n(self@, n as nat).subrange(0, i as int),
            decreases n - i,
        {
            let index = if i >= self.capacity - start {
                i - (self.capacity - start)
            } else {
                start + i
            };
            result.push(self.data[index]);
            i = i + 1;
            proof {
                assert(result@ =~= last_n(self@, n as nat).subrange(0, i as int));
            }
        }
        proof {
            assert(result@ =~= last_n(self@, n as nat));
        }
        result
    }

    /// Fills the buffer with silence and rewinds it. The capacity stays.
    pub fn clear(&mut self)
        ensures
            final(self)@ == silence(old(self).spec_capacity()),
            final(self).spec_capacity() == old(self).spec_capacity(),
    {
        proof {
            use_type_invariant(&*self);
        }
        let mut i: usize = 0;
        while i < self.capacity
            invariant
                0 <= i <= self.capacity,
                self.wf(),
                self.capacity == old(self).capacity,
                forall|j: int| 0 <= j < i ==> self.data@[j] == 0i32,
            decreases self.capacity - i,
        {
            self.data[i] = 0;
            i = i + 1;
        }
        self.write_pos = 0;
        proof {
            assert(self@ =~= silence(old(self).spec_capacity()));
        }
    }
}

} // verus!
