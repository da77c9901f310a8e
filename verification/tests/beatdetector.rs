use beatdetector::accumulator::BeatDetectorChannel;
use beatdetector::detector::{BeatDetectorError, BeatDetectorSummer};

fn summer(
    num_channels: usize,
    block: usize,
    rate: u64,
    minimum_energy: i128,
) -> BeatDetectorSummer {
    BeatDetectorSummer::new(num_channels, block, rate, 13, 10, minimum_energy)
        .expect("configuration is not degenerate")
}

fn feed_block(s: &mut BeatDetectorSummer, channels: usize, block: usize, first_frame: i64) {
    for frame in 0..block {
        for channel in 0..channels {
            let value = if frame == 0 { first_frame } else { 0 };
            s.insert_sample(channel, value).expect("channel index is in range");
        }
    }
}

#[test]
fn accumulator_starts_silent() {
    let ch = BeatDetectorChannel::new(3);
    assert_eq!(ch.sum_instant_energy(), 0);
}

#[test]
fn accumulator_full_block_energy() {
    let mut ch = BeatDetectorChannel::new(4);
    for v in [1, 2, 3, 4] {
        ch.insert_sample(v);
    }
    assert_eq!(ch.sum_instant_energy(), 30);

    // The same values in another order give the same energy.
    let mut ch2 = BeatDetectorChannel::new(4);
    for v in [4, 2, 1, 3] {
        ch2.insert_sample(v);
    }
    assert_eq!(ch2.sum_instant_energy(), 30);
}

#[test]
fn accumulator_extra_sample_evicts_oldest() {
    let mut ch = BeatDetectorChannel::new(4);
    for v in [1, 2, 3, 4, 5] {
        ch.insert_sample(v);
    }
    // The window now holds 5, 2, 3, 4: the first sample is gone.
    assert_eq!(ch.sum_instant_energy(), 54);
}

#[test]
fn accumulator_negative_samples_square() {
    let mut ch = BeatDetectorChannel::new(2);
    ch.insert_sample(-3);
    ch.insert_sample(3);
    assert_eq!(ch.sum_instant_energy(), 18);
}

#[test]
fn zero_input_never_beats() {
    // Block size 4 at rate 16 gives a 4-slot history window.
    let mut s = summer(2, 4, 16, 1);
    for _ in 0..10 {
        feed_block(&mut s, 2, 4, 0);
        let ev = s.detect();
        assert!(!ev.is_beat);
        assert_eq!(ev.instant_energy, 0);
        assert_eq!(ev.threshold_num, 0);
    }
}

#[test]
fn history_window_holds_recent_energies() {
    // One channel, one-sample blocks, 3-slot history window.
    let mut s = summer(1, 1, 3, 1);
    assert_eq!(s.calculate_local_energy(), (0, 3));
    for v in [1, 2, 3] {
        s.insert_sample(0, v).unwrap();
        let ev = s.detect();
        assert_eq!(ev.instant_energy, (v * v) as i128);
    }
    // The history now holds the energies 1, 4, 9; the local energy is their
    // exact mean 14/3.
    assert_eq!(s.calculate_local_energy(), (14, 3));
    // A fourth detection overwrites the oldest slot (energy 1) with 0.
    s.insert_sample(0, 0).unwrap();
    let ev = s.detect();
    assert_eq!(ev.instant_energy, 0);
    assert_eq!(ev.threshold_num, 14 * 13);
    assert_eq!(ev.threshold_den, 3 * 10);
    assert_eq!(s.calculate_local_energy(), (13, 3));
}

#[test]
fn threshold_boundary_exact() {
    // One channel, two-sample blocks, 1-slot history window.
    let mut s = summer(1, 2, 2, 1);

    // Empty history: threshold 0, instant 20 clears both bars.
    s.insert_sample(0, 4).unwrap();
    s.insert_sample(0, 2).unwrap();
    let ev = s.detect();
    assert!(ev.is_beat);
    assert_eq!(ev.instant_energy, 20);
    assert_eq!((ev.threshold_num, ev.threshold_den), (0, 10));

    // History holds 20, so the threshold is exactly 26; an instant energy of
    // exactly 26 is NOT a beat (the comparison is strict).
    s.insert_sample(0, 5).unwrap();
    s.insert_sample(0, 1).unwrap();
    let ev = s.detect();
    assert_eq!(ev.instant_energy, 26);
    assert_eq!((ev.threshold_num, ev.threshold_den), (20 * 13, 10));
    assert!(ev.instant_energy * ev.threshold_den == ev.threshold_num);
    assert!(!ev.is_beat);

    // History holds 26, threshold 33.8; an instant energy of 36 beats it.
    s.insert_sample(0, 6).unwrap();
    s.insert_sample(0, 0).unwrap();
    let ev = s.detect();
    assert_eq!(ev.instant_energy, 36);
    assert_eq!((ev.threshold_num, ev.threshold_den), (26 * 13, 10));
    assert!(ev.is_beat);
}

#[test]
fn minimum_energy_floor_is_strict() {
    // Empty history: the scaled-threshold bar is 0, so only the absolute
    // floor (1) is in the way. An instant energy of exactly 1 is not enough.
    let mut s = summer(1, 1, 1, 1);
    s.insert_sample(0, 1).unwrap();
    let ev = s.detect();
    assert_eq!(ev.instant_energy, 1);
    assert!(!ev.is_beat);

    // An instant energy of 4 clears the floor.
    let mut s2 = summer(1, 1, 1, 1);
    s2.insert_sample(0, 2).unwrap();
    let ev2 = s2.detect();
    assert_eq!(ev2.instant_energy, 4);
    assert!(ev2.is_beat);
}

#[test]
fn decision_monotone_in_instant_energy() {
    // Two identically configured detectors with identical histories (one
    // entry, 20); only the channel contents differ. The lower energy misses
    // the threshold, the higher one reaches it: more energy never turns a
    // beat off.
    let mut lower = summer(1, 2, 2, 1);
    let mut higher = summer(1, 2, 2, 1);
    for s in [&mut lower, &mut higher] {
        s.insert_sample(0, 4).unwrap();
        s.insert_sample(0, 2).unwrap();
        s.detect();
    }
    lower.insert_sample(0, 5).unwrap();
    lower.insert_sample(0, 1).unwrap();
    higher.insert_sample(0, 5).unwrap();
    higher.insert_sample(0, 2).unwrap();
    let low_ev = lower.detect();
    let high_ev = higher.detect();
    assert_eq!(low_ev.instant_energy, 26);
    assert_eq!(high_ev.instant_energy, 29);
    assert_eq!(low_ev.threshold_num, high_ev.threshold_num);
    assert_eq!(low_ev.threshold_den, high_ev.threshold_den);
    assert!(!low_ev.is_beat);
    assert!(high_ev.is_beat);
}

#[test]
fn channel_index_out_of_range() {
    for channels in 1..4usize {
        let mut s = summer(channels, 2, 2, 1);
        assert_eq!(s.insert_sample(channels - 1, 1), Ok(()));
        assert_eq!(
            s.insert_sample(channels, 1),
            Err(BeatDetectorError::ChannelIndexOutOfRange)
        );
        assert_eq!(
            s.insert_sample(channels + 100, 1),
            Err(BeatDetectorError::ChannelIndexOutOfRange)
        );
    }
}

#[test]
fn degenerate_configurations_rejected() {
    assert_eq!(
        BeatDetectorSummer::new(2, 0, 44100, 13, 10, 1).err(),
        Some(BeatDetectorError::ZeroBlockSize)
    );
    // Rate 50 with block size 128 rounds to a zero-slot history window.
    assert_eq!(
        BeatDetectorSummer::new(2, 128, 50, 13, 10, 1).err(),
        Some(BeatDetectorError::ZeroHistoryWindow)
    );
}

#[test]
fn history_window_is_rounded() {
    // 44100 / 128 = 344.53..., rounded to 345 slots.
    let s = summer(2, 128, 44100, 1);
    assert_eq!(s.calculate_local_energy().1, 345);
    // 5 / 2 = 2.5 rounds half-up to 3 slots.
    let s2 = summer(1, 2, 5, 1);
    assert_eq!(s2.calculate_local_energy().1, 3);
    // 7 / 2 = 3.5 rounds half-up to 4 slots.
    let s3 = summer(1, 2, 7, 1);
    assert_eq!(s3.calculate_local_energy().1, 4);
}

#[test]
fn one_second_scenario_two_channels() {
    // Two channels, 128-sample blocks, rate 44100: a 345-slot history window.
    // Energies are in quarters of the minimum-energy floor: the floor is 4,
    // each quiet block carries instant energy 2 (half the floor), the loud
    // block carries 8 (twice the floor).
    let mut s = summer(2, 128, 44100, 4);
    assert_eq!(s.calculate_local_energy().1, 345);

    for _ in 0..345 {
        feed_block(&mut s, 2, 128, 1);
        let ev = s.detect();
        assert_eq!(ev.instant_energy, 2);
        assert!(!ev.is_beat);
    }
    // The local energy has converged to 2 exactly: 690/345.
    assert_eq!(s.calculate_local_energy(), (690, 345));

    // One loud block: instant energy 8 exceeds both the scaled threshold
    // (690/345 * 13/10 = 2.6) and the floor (4).
    feed_block(&mut s, 2, 128, 2);
    let ev = s.detect();
    assert!(ev.is_beat);
    assert_eq!(ev.instant_energy, 8);
    assert_eq!(ev.threshold_num, 690 * 13);
    assert_eq!(ev.threshold_den, 345 * 10);
}
