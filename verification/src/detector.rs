//! The beat detector: one energy accumulator per channel, a circular history
//! of recent instantaneous energies, and a threshold comparison that declares
//! a beat whenever the current block's energy exceeds the recent baseline by
//! the configured sensitivity and clears the absolute minimum-energy floor.
//!
//! The local (baseline) energy is the mean of the history entries. To keep
//! every comparison exact, that mean is never rounded: the threshold is
//! carried as the fraction `history_sum * sensitivity_num` over
//! `history_len * sensitivity_den`, and `instant > threshold` is decided by
//! cross-multiplication.

use vstd::prelude::*;

use crate::accumulator::{lemma_sum_squares_all_zero, sum_squares, BeatDetectorChannel};
use crate::arith::{lemma_mul_bounds, lemma_mul_le_mono, lemma_mul_nonneg};
use crate::circular::{insert_model, inserts_model, lemma_fill_from_start};
use crate::limits::{
    MAX_BLOCK_ENERGY, MAX_BLOCK_SIZE, MAX_CHANNELS, MAX_HISTORY_LEN, MAX_INSTANT_ENERGY,
    MAX_SAMPLE_MAGNITUDE, MAX_SAMPLE_RATE, MAX_SAMPLE_SQUARE, MAX_SENSITIVITY_PART,
};
use vstd::pervasive::VecAdditionalExecFns;

verus! {

/// Why the detector rejected a request.
#[derive(Clone, Copy, Debug, PartialEq, Eq, Structural)]
pub enum BeatDetectorError {
    /// Construction was given a block size of zero: the engine cannot keep a
    /// zero-length sample window.
    ZeroBlockSize,
    /// The derived history window (about one second of blocks) came out
    /// empty: the engine cannot average over a zero-length history.
    ZeroHistoryWindow,
    /// A sample was addressed to a channel index at or past the configured
    /// channel count — a caller/configuration mismatch, to be treated as
    /// fatal by the caller.
    ChannelIndexOutOfRange,
}

/// The outcome of one `detect` call: the decision together with the values
/// it was made from. The threshold — local energy scaled by the sensitivity —
/// is reported as the exact fraction `threshold_num / threshold_den`.
#[derive(Clone, Copy, Debug, PartialEq, Eq, Structural)]
pub struct BeatEvent {
    /// Whether this block was declared a beat.
    pub is_beat: bool,
    /// The instantaneous energy summed over all channels.
    pub instant_energy: i128,
    /// Numerator of the threshold the energy was compared against.
    pub threshold_num: i128,
    /// Denominator of that threshold; always positive.
    pub threshold_den: i128,
}

/// Total instantaneous energy over a sequence of channel accumulators.
pub open spec fn channels_energy(chs: Seq<BeatDetectorChannel>) -> int
    decreases chs.len(),
{
    if chs.len() == 0 {
        0
    } else {
        channels_energy(chs.drop_last()) + sum_squares(chs.last().buffer@)
    }
}

/// Extending a prefix of channels by one adds that channel's energy.
pub proof fn lemma_channels_energy_take_step(chs: Seq<BeatDetectorChannel>, i: int)
    requires
        0 <= i < chs.len(),
    ensures
        channels_energy(chs.take(i + 1)) == channels_energy(chs.take(i)) + sum_squares(
            chs[i].buffer@,
        ),
{
    assert(chs.take(i + 1).drop_last() =~= chs.take(i));
}

/// Replacing one channel shifts the total energy by exactly the difference
/// between the new and the old channel's energy.
pub proof fn lemma_channels_energy_update(
    chs: Seq<BeatDetectorChannel>,
    c: int,
    ch: BeatDetectorChannel,
)
    requires
        0 <= c < chs.len(),
    ensures
        channels_energy(chs.update(c, ch)) == channels_energy(chs) - sum_squares(chs[c].buffer@)
            + sum_squares(ch.buffer@),
    decreases chs.len(),
{
    let updated = chs.update(c, ch);
    if c == chs.len() - 1 {
        assert(updated.drop_last() =~= chs.drop_last());
    } else {
        assert(updated.drop_last() =~= chs.drop_last().update(c, ch));
        lemma_channels_energy_update(chs.drop_last(), c, ch);
    }
}

/// Sum of the stored history entries. Each entry already is an energy (a sum
/// of squares), so the local energy is this sum divided by the history
/// length — a division the engine never performs lossily.
pub open spec fn sum_values(s: Seq<i128>) -> int
    decreases s.len(),
{
    if s.len() == 0 {
        0
    } else {
        sum_values(s.drop_last()) + s.last()
    }
}

/// Extending a prefix by one entry adds that entry.
pub proof fn lemma_sum_values_take_step(s: Seq<i128>, i: int)
    requires
        0 <= i < s.len(),
    ensures
        sum_values(s.take(i + 1)) == sum_values(s.take(i)) + s[i],
{
    assert(s.take(i + 1).drop_last() =~= s.take(i));
}

/// A sum of non-negative entries is non-negative.
pub proof fn lemma_sum_values_nonneg(s: Seq<i128>)
    requires
        forall|k: int| 0 <= k < s.len() ==> 0 <= #[trigger] s[k],
    ensures
        0 <= sum_values(s),
    decreases s.len(),
{
    if s.len() > 0 {
        lemma_sum_values_nonneg(s.drop_last());
    }
}

/// The beat decision: a beat is declared iff the instantaneous energy
/// strictly exceeds both the scaled local energy
/// `(history_sum / window) * (sensitivity_num / sensitivity_den)` — compared
/// exactly by cross-multiplication — and the absolute minimum-energy floor.
pub open spec fn beat_decision(
    instant: int,
    history_sum: int,
    window: int,
    sensitivity_num: int,
    sensitivity_den: int,
    minimum_energy: int,
) -> bool {
    &&& instant * (window * sensitivity_den) > history_sum * sensitivity_num
    &&& instant > minimum_energy
}

/// The number of history slots: about one second of blocks, i.e. the sample
/// rate over the block size, rounded half-up to the nearest integer.
pub open spec fn history_window_size(sample_rate: u64, sample_buffer_size: usize) -> int {
    (2 * sample_rate + sample_buffer_size) / (2 * sample_buffer_size)
}

/// The detector: per-channel accumulators, the energy history with its write
/// cursor, and the decision configuration fixed at construction.
pub struct BeatDetectorSummer {
    /// One energy accumulator per audio channel.
    pub channels: Vec<BeatDetectorChannel>,
    /// Circular history of the most recent instantaneous energies, one per
    /// completed block.
    pub energy_history: Vec<i128>,
    /// Next write index into `energy_history`.
    pub history_position: usize,
    /// Numerator of the sensitivity ratio applied to the local energy.
    pub sensitivity_num: i128,
    /// Denominator of the sensitivity ratio; always positive.
    pub sensitivity_den: i128,
    /// Absolute energy floor below which no beat is ever declared.
    pub minimum_energy: i128,
}

impl BeatDetectorSummer {
    /// The detector's invariant: bounded channel count, well-formed channels,
    /// a non-empty bounded history of non-negative bounded energies with the
    /// cursor inside it, and an admissible configuration.
    pub open spec fn wf(self) -> bool {
        &&& self.channels@.len() <= MAX_CHANNELS
        &&& forall|c: int| 0 <= c < self.channels@.len() ==> (#[trigger] self.channels@[c]).wf()
        &&& 1 <= self.energy_history@.len() <= MAX_HISTORY_LEN
        &&& self.history_position < self.energy_history@.len()
        &&& forall|k: int|
            0 <= k < self.energy_history@.len() ==> 0 <= #[trigger] self.energy_history@[k]
                <= MAX_INSTANT_ENERGY
        &&& 0 <= self.sensitivity_num <= MAX_SENSITIVITY_PART
        &&& 1 <= self.sensitivity_den <= MAX_SENSITIVITY_PART
        &&& 0 <= self.minimum_energy
    }

    /// The instantaneous energy the detector currently sees: the sum over all
    /// channels of each window's sum of squares.
    pub open spec fn spec_instant_energy(self) -> int {
        channels_energy(self.channels@)
    }

    /// The sum of the stored history entries.
    pub open spec fn spec_history_sum(self) -> int {
        sum_values(self.energy_history@)
    }

    /// The history length, i.e. the number of blocks in the averaging window.
    pub open spec fn spec_window(self) -> int {
        self.energy_history@.len() as int
    }

    /// Whether a `detect` call in the current state declares a beat.
    pub open spec fn spec_is_beat(self) -> bool {
        beat_decision(
            self.spec_instant_energy(),
            self.spec_history_sum(),
            self.spec_window(),
            self.sensitivity_num as int,
            self.sensitivity_den as int,
            self.minimum_energy as int,
        )
    }

    /// Creates a detector for `num_channels` channels, a sample window of
    /// `sample_buffer_size` per channel, and a history window of
    /// `round(sample_rate / sample_buffer_size)` blocks — about one second.
    /// Sensitivity and minimum energy are fixed here for the detector's
    /// lifetime. Degenerate configurations (an empty sample window or an
    /// empty history window) are rejected.
    pub fn new(
        num_channels: usize,
        sample_buffer_size: usize,
        sample_rate: u64,
        sensitivity_num: i128,
        sensitivity_den: i128,
        minimum_energy: i128,
    ) -> (r: Result<BeatDetectorSummer, BeatDetectorError>)
        requires
            num_channels <= MAX_CHANNELS,
            sample_buffer_size <= MAX_BLOCK_SIZE,
            sample_rate <= MAX_SAMPLE_RATE,
            sample_buffer_size >= 1 ==> history_window_size(sample_rate, sample_buffer_size)
                <= MAX_HISTORY_LEN,
            0 <= sensitivity_num <= MAX_SENSITIVITY_PART,
            1 <= sensitivity_den <= MAX_SENSITIVITY_PART,
            0 <= minimum_energy,
        ensures
            sample_buffer_size == 0 ==> r == Err::<BeatDetectorSummer, BeatDetectorError>(
                BeatDetectorError::ZeroBlockSize,
            ),
            sample_buffer_size >= 1 && history_window_size(sample_rate, sample_buffer_size) == 0
                ==> r == Err::<BeatDetectorSummer, BeatDetectorError>(
                BeatDetectorError::ZeroHistoryWindow,
            ),
            sample_buffer_size >= 1 && history_window_size(sample_rate, sample_buffer_size) >= 1
                ==> r is Ok && ({
                let s = r->Ok_0;
                &&& s.wf()
                &&& s.channels@.len() == num_channels
                &&& forall|c: int|
                    0 <= c < num_channels ==> (#[trigger] s.channels@[c]).buffer@.len()
                        == sample_buffer_size
                &&& forall|c: int, k: int|
                    0 <= c < num_channels && 0 <= k < sample_buffer_size ==> (
                    #[trigger] s.channels@[c].buffer@[k]) == 0
                &&& forall|c: int| 0 <= c < num_channels ==> (#[trigger] s.channels@[c]).position == 0
                &&& s.energy_history@.len() == history_window_size(sample_rate, sample_buffer_size)
                &&& forall|k: int|
                    0 <= k < s.energy_history@.len() ==> #[trigger] s.energy_history@[k] == 0
                &&& s.history_position == 0
                &&& s.sensitivity_num == sensitivity_num
                &&& s.sensitivity_den == sensitivity_den
                &&& s.minimum_energy == minimum_energy
            }),
    {
        if sample_buffer_size == 0 {
            return Err(BeatDetectorError::ZeroBlockSize);
        }
        let window = ((2 * sample_rate + sample_buffer_size as u64) / (2 * (sample_buffer_size
            as u64))) as usize;
        if window == 0 {
            return Err(BeatDetectorError::ZeroHistoryWindow);
        }
        let mut channels: Vec<BeatDetectorChannel> = Vec::new();
        while channels.len() < num_channels
            invariant
                1 <= sample_buffer_size <= MAX_BLOCK_SIZE,
                channels@.len() <= num_channels,
                forall|c: int| 0 <= c < channels@.len() ==> (#[trigger] channels@[c]).wf(),
                forall|c: int|
                    0 <= c < channels@.len() ==> (#[trigger] channels@[c]).buffer@.len()
                        == sample_buffer_size,
                forall|c: int, k: int|
                    0 <= c < channels@.len() && 0 <= k < sample_buffer_size ==> (
                    #[trigger] channels@[c].buffer@[k]) == 0,
                forall|c: int| 0 <= c < channels@.len() ==> (#[trigger] channels@[c]).position == 0,
            decreases num_channels - channels@.len(),
        {
            channels.push(BeatDetectorChannel::new(sample_buffer_size));
        }
        let mut energy_history: Vec<i128> = Vec::new();
        while energy_history.len() < window
            invariant
                energy_history@.len() <= window,
                forall|k: int|
                    0 <= k < energy_history@.len() ==> #[trigger] energy_history@[k] == 0,
            decreases window - energy_history@.len(),
        {
            energy_history.push(0);
        }
        Ok(
            BeatDetectorSummer {
                channels,
                energy_history,
                history_position: 0,
                sensitivity_num,
                sensitivity_den,
                minimum_energy,
            },
        )
    }

    /// Forwards `sample` to channel `channel`'s accumulator. A channel index
    /// at or past the configured channel count is a caller error: it is
    /// reported as `ChannelIndexOutOfRange` and leaves the detector
    /// untouched.
    pub fn insert_sample(&mut self, channel: usize, sample: i64) -> (r: Result<
        (),
        BeatDetectorError,
    >)
        requires
            old(self).wf(),
            -MAX_SAMPLE_MAGNITUDE <= sample <= MAX_SAMPLE_MAGNITUDE,
        ensures
            final(self).wf(),
            r is Ok <==> channel < old(self).channels@.len(),
            channel >= old(self).channels@.len() ==> r == Err::<(), BeatDetectorError>(
                BeatDetectorError::ChannelIndexOutOfRange,
            ) && *final(self) == *old(self),
            channel < old(self).channels@.len() ==> ({
                let c = channel as int;
                let updated = insert_model(
                    old(self).channels@[c].buffer@,
                    old(self).channels@[c].position as int,
                    sample,
                );
                &&& (final(self).channels@[c].buffer@, final(self).channels@[c].position as int)
                    == updated
                &&& final(self).channels@ == old(self).channels@.update(
                    c,
                    final(self).channels@[c],
                )
                &&& final(self).energy_history@ == old(self).energy_history@
                &&& final(self).history_position == old(self).history_position
                &&& final(self).sensitivity_num == old(self).sensitivity_num
                &&& final(self).sensitivity_den == old(self).sensitivity_den
                &&& final(self).minimum_energy == old(self).minimum_energy
            }),
    {
        if channel < self.channels.len() {
            let ch = &mut self.channels[channel];
            ch.insert_sample(sample);
            Ok(())
        } else {
            Err(BeatDetectorError::ChannelIndexOutOfRange)
        }
    }

    /// Sums the instantaneous energies of all channels.
    pub fn calculate_instant_energy(&self) -> (r: i128)
        requires
            self.wf(),
        ensures
            r == self.spec_instant_energy(),
            0 <= r <= self.channels@.len() * MAX_BLOCK_ENERGY,
    {
        let n = self.channels.len();
        let mut total: i128 = 0;
        let mut i: usize = 0;
        while i < n
            invariant
                self.wf(),
                n == self.channels@.len(),
                i <= n,
                total == channels_energy(self.channels@.take(i as int)),
                0 <= total <= i * MAX_BLOCK_ENERGY,
            decreases n - i,
        {
            let ch = &self.channels[i];
            let e = ch.sum_instant_energy();
            proof {
                lemma_channels_energy_take_step(self.channels@, i as int);
                assert(ch.buffer@.len() * MAX_SAMPLE_SQUARE <= MAX_BLOCK_SIZE * MAX_SAMPLE_SQUARE);
                assert(MAX_BLOCK_SIZE * MAX_SAMPLE_SQUARE == MAX_BLOCK_ENERGY);
            }
            total = total + e;
            i = i + 1;
        }
        proof {
            assert(self.channels@.take(n as int) =~= self.channels@);
        }
        total
    }

    /// The local energy — the mean of the stored history entries — as the
    /// exact fraction (sum of entries, number of entries).
    pub fn calculate_local_energy(&self) -> (r: (i128, i128))
        requires
            self.wf(),
        ensures
            r.0 == self.spec_history_sum(),
            r.1 == self.spec_window(),
            0 <= r.0 <= self.spec_window() * MAX_INSTANT_ENERGY,
            1 <= r.1,
    {
        let m = self.energy_history.len();
        let mut total: i128 = 0;
        let mut i: usize = 0;
        while i < m
            invariant
                self.wf(),
                m == self.energy_history@.len(),
                i <= m,
                total == sum_values(self.energy_history@.take(i as int)),
                0 <= total <= i * MAX_INSTANT_ENERGY,
            decreases m - i,
        {
            proof {
                lemma_sum_values_take_step(self.energy_history@, i as int);
            }
            total = total + self.energy_history[i];
            i = i + 1;
        }
        proof {
            assert(self.energy_history@.take(m as int) =~= self.energy_history@);
        }
        (total, m as i128)
    }

    /// One detection step, to be called once per completed block: computes
    /// the instantaneous energy, compares it against the sensitivity-scaled
    /// local energy and the minimum-energy floor, and only then records the
    /// new energy in the history (so a block never biases its own baseline),
    /// advancing the circular history cursor.
    pub fn detect(&mut self) -> (r: BeatEvent)
        requires
            old(self).wf(),
        ensures
            final(self).wf(),
            r.instant_energy == old(self).spec_instant_energy(),
            r.threshold_num == old(self).spec_history_sum() * old(self).sensitivity_num,
            r.threshold_den == old(self).spec_window() * old(self).sensitivity_den,
            1 <= r.threshold_den,
            r.is_beat == old(self).spec_is_beat(),
            (final(self).energy_history@, final(self).history_position as int) == insert_model(
                old(self).energy_history@,
                old(self).history_position as int,
                r.instant_energy,
            ),
            final(self).channels == old(self).channels,
            final(self).sensitivity_num == old(self).sensitivity_num,
            final(self).sensitivity_den == old(self).sensitivity_den,
            final(self).minimum_energy == old(self).minimum_energy,
    {
        let instant = self.calculate_instant_energy();
        let (history_sum, window) = self.calculate_local_energy();
        proof {
            assert(self.channels@.len() * MAX_BLOCK_ENERGY <= MAX_CHANNELS * MAX_BLOCK_ENERGY);
            assert(MAX_CHANNELS * MAX_BLOCK_ENERGY == MAX_INSTANT_ENERGY);
            assert(self.spec_window() * MAX_INSTANT_ENERGY <= MAX_HISTORY_LEN
                * MAX_INSTANT_ENERGY);
            lemma_mul_bounds(
                history_sum as int,
                self.sensitivity_num as int,
                MAX_HISTORY_LEN * MAX_INSTANT_ENERGY,
                MAX_SENSITIVITY_PART as int,
            );
            lemma_mul_bounds(
                window as int,
                self.sensitivity_den as int,
                MAX_HISTORY_LEN as int,
                MAX_SENSITIVITY_PART as int,
            );
            assert(1 <= window * self.sensitivity_den) by (nonlinear_arith)
                requires
                    1 <= window,
                    1 <= self.sensitivity_den,
            ;
            lemma_mul_bounds(
                instant as int,
                window * self.sensitivity_den,
                MAX_INSTANT_ENERGY as int,
                MAX_HISTORY_LEN * MAX_SENSITIVITY_PART,
            );
        }
        let threshold_num = history_sum * self.sensitivity_num;
        let threshold_den = window * self.sensitivity_den;
        let is_beat = instant * threshold_den > threshold_num && instant > self.minimum_energy;
        let m = self.energy_history.len();
        self.energy_history.set(self.history_position, instant);
        self.history_position = if self.history_position + 1 == m {
            0
        } else {
            self.history_position + 1
        };
        BeatEvent { is_beat, instant_energy: instant, threshold_num, threshold_den }
    }
}

/// Whether every sample currently held in every channel window is zero.
pub open spec fn all_channels_silent(s: BeatDetectorSummer) -> bool {
    forall|c: int, k: int|
        0 <= c < s.channels@.len() && 0 <= k < s.channels@[c].buffer@.len() ==> (
        #[trigger] s.channels@[c].buffer@[k]) == 0
}

/// The total energy of all-silent channels is zero.
proof fn lemma_channels_energy_silent(chs: Seq<BeatDetectorChannel>)
    requires
        forall|c: int, k: int|
            0 <= c < chs.len() && 0 <= k < chs[c].buffer@.len() ==> (
            #[trigger] chs[c].buffer@[k]) == 0,
    ensures
        channels_energy(chs) == 0,
    decreases chs.len(),
{
    if chs.len() > 0 {
        lemma_sum_squares_all_zero(chs.last().buffer@);
        lemma_channels_energy_silent(chs.drop_last());
    }
}

/// Zero-input stability: while every stored sample is zero — as it is after
/// an all-zero input stream of any length — the instantaneous energy is zero
/// and `detect` never declares a beat, whatever the history holds.
pub proof fn lemma_silence_never_beats(s: BeatDetectorSummer)
    requires
        s.wf(),
        all_channels_silent(s),
    ensures
        s.spec_instant_energy() == 0,
        !s.spec_is_beat(),
{
    lemma_channels_energy_silent(s.channels@);
    lemma_sum_values_nonneg(s.energy_history@);
    lemma_mul_nonneg(s.spec_history_sum(), s.sensitivity_num as int);
}

/// History-window correctness: starting at history position zero, a run of
/// exactly `energy_history.len()` recorded energies leaves the history
/// holding precisely those values, in order, with the cursor back at zero —
/// so the local energy is then exactly their mean.
pub proof fn lemma_history_holds_last_window(s: BeatDetectorSummer, recorded: Seq<i128>)
    requires
        s.wf(),
        s.history_position == 0,
        recorded.len() == s.energy_history@.len(),
    ensures
        ({
            let m = inserts_model(s.energy_history@, s.history_position as int, recorded);
            &&& m.0 == recorded
            &&& m.1 == 0
            &&& sum_values(m.0) == sum_values(recorded)
        }),
{
    lemma_fill_from_start(s.energy_history@, recorded);
}

/// Threshold monotonicity over the decision itself: with the history, the
/// window and the configuration fixed, raising the instantaneous energy never
/// turns a declared beat into silence.
pub proof fn lemma_decision_monotone(
    lower: int,
    higher: int,
    history_sum: int,
    window: int,
    sensitivity_num: int,
    sensitivity_den: int,
    minimum_energy: int,
)
    requires
        lower <= higher,
        1 <= window,
        1 <= sensitivity_den,
        beat_decision(lower, history_sum, window, sensitivity_num, sensitivity_den, minimum_energy),
    ensures
        beat_decision(
            higher,
            history_sum,
            window,
            sensitivity_num,
            sensitivity_den,
            minimum_energy,
        ),
{
    lemma_mul_nonneg(window, sensitivity_den);
    lemma_mul_le_mono(lower, higher, window * sensitivity_den);
}

/// Threshold monotonicity at the detector level: two detectors that agree on
/// history and configuration and differ in one channel only, the second
/// holding at least as much energy in that channel's window — if the first
/// declares a beat, so does the second.
pub proof fn lemma_single_channel_monotone(
    s1: BeatDetectorSummer,
    s2: BeatDetectorSummer,
    c: int,
)
    requires
        s1.wf(),
        s2.wf(),
        0 <= c < s1.channels@.len(),
        s2.channels@ == s1.channels@.update(c, s2.channels@[c]),
        sum_squares(s1.channels@[c].buffer@) <= sum_squares(s2.channels@[c].buffer@),
        s2.energy_history@ == s1.energy_history@,
        s2.sensitivity_num == s1.sensitivity_num,
        s2.sensitivity_den == s1.sensitivity_den,
        s2.minimum_energy == s1.minimum_energy,
        s1.spec_is_beat(),
    ensures
        s2.spec_is_beat(),
{
    lemma_channels_energy_update(s1.channels@, c, s2.channels@[c]);
    lemma_decision_monotone(
        s1.spec_instant_energy(),
        s2.spec_instant_energy(),
        s1.spec_history_sum(),
        s1.spec_window(),
        s1.sensitivity_num as int,
        s1.sensitivity_den as int,
        s1.minimum_energy as int,
    );
}

} // verus!
