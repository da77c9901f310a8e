//! The per-channel energy accumulator: a fixed-size circular window over the
//! most recent samples of one audio channel, reporting the window's
//! instantaneous energy (sum of squared samples).

use vstd::prelude::*;

use crate::circular::{insert_model, inserts_model, lemma_fill_from_start, lemma_inserts_append};
use crate::limits::{MAX_BLOCK_SIZE, MAX_SAMPLE_MAGNITUDE, MAX_SAMPLE_SQUARE};
use vstd::pervasive::VecAdditionalExecFns;
use vstd::seq_lib::{commutative_foldr, lemma_fold_right_permutation};

verus! {

/// Sum of squares of a sample window: the instantaneous energy it represents.
pub open spec fn sum_squares(s: Seq<i64>) -> int
    decreases s.len(),
{
    if s.len() == 0 {
        0
    } else {
        sum_squares(s.drop_last()) + s.last() * s.last()
    }
}

/// Extending a prefix by one element adds that element's square.
pub proof fn lemma_sum_squares_take_step(s: Seq<i64>, i: int)
    requires
        0 <= i < s.len(),
    ensures
        sum_squares(s.take(i + 1)) == sum_squares(s.take(i)) + s[i] * s[i],
{
    assert(s.take(i + 1).drop_last() =~= s.take(i));
}

/// Folding squares over a window from the right adds `sum_squares` of the
/// window to the start value.
proof fn lemma_sum_squares_is_fold(s: Seq<i64>, f: spec_fn(i64, int) -> int, v: int)
    requires
        forall|x: i64, acc: int| #[trigger] f(x, acc) == acc + x * x,
    ensures
        s.fold_right(f, v) == sum_squares(s) + v,
    decreases s.len(),
{
    if s.len() > 0 {
        lemma_sum_squares_is_fold(s.drop_last(), f, f(s.last(), v));
    }
}

/// The instantaneous energy is insensitive to the order of the window's
/// samples: two windows holding the same samples, as a multiset, carry the
/// same energy.
pub proof fn lemma_sum_squares_order_independent(a: Seq<i64>, b: Seq<i64>)
    requires
        a.to_multiset() == b.to_multiset(),
    ensures
        sum_squares(a) == sum_squares(b),
{
    let f = (|x: i64, acc: int| acc + x * x);
    lemma_sum_squares_is_fold(a, f, 0);
    lemma_sum_squares_is_fold(b, f, 0);
    assert(commutative_foldr(f));
    lemma_fold_right_permutation(a, b, f, 0int);
}

/// The energy of an all-zero window is zero.
pub proof fn lemma_sum_squares_all_zero(s: Seq<i64>)
    requires
        forall|k: int| 0 <= k < s.len() ==> s[k] == 0,
    ensures
        sum_squares(s) == 0,
    decreases s.len(),
{
    if s.len() > 0 {
        lemma_sum_squares_all_zero(s.drop_last());
    }
}

/// One accumulator per audio channel: the most recent `buffer.len()` samples
/// in circular order, with `position` the next write index.
pub struct BeatDetectorChannel {
    /// The sample window; its length is the configured block size and never
    /// changes over the accumulator's lifetime.
    pub buffer: Vec<i64>,
    /// Next write index, always below `buffer.len()`.
    pub position: usize,
}

impl BeatDetectorChannel {
    /// The accumulator's invariant: a non-empty, bounded window, a cursor
    /// inside it, and every stored sample within the admissible magnitude.
    pub open spec fn wf(self) -> bool {
        &&& 1 <= self.buffer@.len() <= MAX_BLOCK_SIZE
        &&& self.position < self.buffer@.len()
        &&& forall|k: int|
            0 <= k < self.buffer@.len() ==> -MAX_SAMPLE_MAGNITUDE <= #[trigger] self.buffer@[k]
                <= MAX_SAMPLE_MAGNITUDE
    }

    /// Creates an accumulator with an all-zero window of `sample_buffer_size`
    /// samples and the write cursor at the front.
    pub fn new(sample_buffer_size: usize) -> (r: BeatDetectorChannel)
        requires
            1 <= sample_buffer_size <= MAX_BLOCK_SIZE,
        ensures
            r.wf(),
            r.buffer@.len() == sample_buffer_size,
            forall|k: int| 0 <= k < r.buffer@.len() ==> r.buffer@[k] == 0,
            r.position == 0,
    {
        let mut buffer: Vec<i64> = Vec::new();
        while buffer.len() < sample_buffer_size
            invariant
                buffer@.len() <= sample_buffer_size,
                forall|k: int| 0 <= k < buffer@.len() ==> buffer@[k] == 0,
            decreases sample_buffer_size - buffer@.len(),
        {
            buffer.push(0);
        }
        BeatDetectorChannel { buffer, position: 0 }
    }

    /// Returns the instantaneous energy of the current window: the sum of
    /// squares of all stored samples.
    pub fn sum_instant_energy(&self) -> (r: i128)
        requires
            self.wf(),
        ensures
            r == sum_squares(self.buffer@),
            0 <= r <= self.buffer@.len() * MAX_SAMPLE_SQUARE,
    {
        let n = self.buffer.len();
        let mut total: i128 = 0;
        let mut i: usize = 0;
        while i < n
            invariant
                self.wf(),
                n == self.buffer@.len(),
                i <= n,
                total == sum_squares(self.buffer@.take(i as int)),
                0 <= total <= i * MAX_SAMPLE_SQUARE,
            decreases n - i,
        {
            let v = self.buffer[i];
            proof {
                assert(0 <= v * v <= MAX_SAMPLE_SQUARE) by (nonlinear_arith)
                    requires
                        -MAX_SAMPLE_MAGNITUDE <= v <= MAX_SAMPLE_MAGNITUDE,
                ;
                lemma_sum_squares_take_step(self.buffer@, i as int);
            }
            let square = (v as i128) * (v as i128);
            total = total + square;
            i = i + 1;
        }
        proof {
            assert(self.buffer@.take(n as int) =~= self.buffer@);
        }
        total
    }

    /// Writes `sample` at the cursor and advances the cursor circularly: the
    /// oldest sample of the window is overwritten.
    pub fn insert_sample(&mut self, sample: i64)
        requires
            old(self).wf(),
            -MAX_SAMPLE_MAGNITUDE <= sample <= MAX_SAMPLE_MAGNITUDE,
        ensures
            final(self).wf(),
            (final(self).buffer@, final(self).position as int) == insert_model(
                old(self).buffer@,
                old(self).position as int,
                sample,
            ),
    {
        let n = self.buffer.len();
        self.buffer.set(self.position, sample);
        self.position = if self.position + 1 == n {
            0
        } else {
            self.position + 1
        };
    }
}

/// Circular-window law, first half: starting at cursor zero, a run of exactly
/// `buffer.len()` inserted samples replaces the whole window with precisely
/// those samples, so the instantaneous energy afterwards is the sum of their
/// squares.
pub proof fn lemma_full_block_replaces_window(ch: BeatDetectorChannel, vals: Seq<i64>)
    requires
        ch.wf(),
        ch.position == 0,
        vals.len() == ch.buffer@.len(),
    ensures
        ({
            let m = inserts_model(ch.buffer@, ch.position as int, vals);
            &&& m.0 == vals
            &&& m.1 == 0
            &&& sum_squares(m.0) == sum_squares(vals)
        }),
{
    lemma_fill_from_start(ch.buffer@, vals);
}

/// Circular-window law, second half: one more insert after a full block
/// evicts the block's first sample and keeps the most recent
/// `buffer.len()` ones — the latest value lands in the front slot, every
/// other written value keeps its slot.
pub proof fn lemma_extra_sample_evicts_oldest(ch: BeatDetectorChannel, vals: Seq<i64>)
    requires
        ch.wf(),
        ch.position == 0,
        vals.len() == ch.buffer@.len() + 1,
    ensures
        ({
            let n = ch.buffer@.len() as int;
            let m = inserts_model(ch.buffer@, ch.position as int, vals);
            &&& m.0 == seq![vals[n]] + vals.subrange(1, n)
            &&& m.1 == (if n == 1 {
                0int
            } else {
                1int
            })
        }),
{
    let n = ch.buffer@.len() as int;
    let block = vals.take(n);
    let extra = vals.subrange(n, n + 1);
    assert(vals =~= block + extra);
    lemma_inserts_append(ch.buffer@, 0, block, extra);
    lemma_fill_from_start(ch.buffer@, block);
    let after_block = inserts_model(ch.buffer@, 0, block);
    let stepped = insert_model(after_block.0, after_block.1, extra[0]);
    assert(extra.subrange(1, 1) =~= Seq::<i64>::empty());
    assert(inserts_model(stepped.0, stepped.1, extra.subrange(1, 1)) == stepped);
    assert(block.update(0, vals[n]) =~= seq![vals[n]] + vals.subrange(1, n));
}

} // verus!
