use webcam_workspace::chi_square::{byte_frequency_chi_square, byte_histogram};
use webcam_workspace::decimal::decimal_string;
use webcam_workspace::frames::absolute_frame_difference;
use webcam_workspace::tracker::{ChiSquareTracker, CHI_SQUARE_CHUNK_SIZE, CHI_SQUARE_HISTORY_LIMIT};

fn uniform_chunk() -> Vec<u8> {
    (0..CHI_SQUARE_CHUNK_SIZE).map(|i| (i % 256) as u8).collect()
}

fn constant_chunk(b: u8) -> Vec<u8> {
    vec![b; CHI_SQUARE_CHUNK_SIZE]
}

#[test]
fn decimal_renders_like_display() {
    for n in [0u64, 7, 10, 42, 100, 4096, 1234567890, u64::MAX] {
        assert_eq!(decimal_string(n), n.to_string());
    }
}

#[test]
fn histogram_counts_each_value() {
    let counts = byte_histogram(&[3, 3, 0, 255, 3]);
    assert_eq!(counts.len(), 256);
    assert_eq!(counts[3], 3);
    assert_eq!(counts[0], 1);
    assert_eq!(counts[255], 1);
    assert_eq!(counts.iter().sum::<u64>(), 5);
}

#[test]
fn chi_square_of_uniform_chunk_is_zero() {
    assert_eq!(byte_frequency_chi_square(&uniform_chunk()), 0);
}

#[test]
fn chi_square_of_constant_chunk_is_largest() {
    let n = CHI_SQUARE_CHUNK_SIZE as u128;
    assert_eq!(byte_frequency_chi_square(&constant_chunk(9)), 255 * n * n);
}

#[test]
fn chi_square_matches_pearson_formula() {
    let bytes: Vec<u8> = (0..1000u32).map(|i| ((i * 7 + i / 3) % 256) as u8).collect();
    let n = bytes.len() as f64;
    let expected = n / 256.0;
    let counts = byte_histogram(&bytes);
    let pearson: f64 = counts.iter().map(|c| {
        let d = *c as f64 - expected;
        d * d / expected
    }).sum();
    let scaled = byte_frequency_chi_square(&bytes) as f64;
    assert!((scaled / n - pearson).abs() < 1e-6);
}

#[test]
fn chi_square_of_empty_sample_is_zero() {
    assert_eq!(byte_frequency_chi_square(&[]), 0);
}

#[test]
fn tracker_buffers_partial_chunks() {
    let mut t = ChiSquareTracker::new();
    t.push_bytes(&[1, 2, 3]);
    assert_eq!(t.pending_len(), 3);
    assert_eq!(t.sample_count(), 0);
    assert_eq!(t.latest_statistic(), None);
    assert_eq!(t.statistic_range(), None);
}

#[test]
fn tracker_records_each_full_chunk() {
    let mut t = ChiSquareTracker::new();
    let mut stream = uniform_chunk();
    stream.extend(constant_chunk(0));
    stream.extend([5, 6, 7]);
    t.push_bytes(&stream);
    let n = CHI_SQUARE_CHUNK_SIZE as u128;
    assert_eq!(t.sample_count(), 2);
    assert_eq!(t.pending_len(), 3);
    assert_eq!(t.history.iter().copied().collect::<Vec<_>>(), vec![0, 255 * n * n]);
    assert_eq!(t.latest_statistic(), Some(255 * n * n));
    assert_eq!(t.statistic_range(), Some((0, 255 * n * n)));
    assert_eq!(t.pending, vec![5, 6, 7]);
}

#[test]
fn tracker_split_pushes_match_one_push() {
    let stream: Vec<u8> = (0..(3 * CHI_SQUARE_CHUNK_SIZE + 100)).map(|i| ((i * i) % 251) as u8).collect();
    let mut whole = ChiSquareTracker::new();
    whole.push_bytes(&stream);
    for split in [1, 100, CHI_SQUARE_CHUNK_SIZE - 1, CHI_SQUARE_CHUNK_SIZE, 2 * CHI_SQUARE_CHUNK_SIZE + 17] {
        let mut parts = ChiSquareTracker::new();
        parts.push_bytes(&stream[..split]);
        parts.push_bytes(&stream[split..]);
        assert_eq!(parts.pending, whole.pending);
        assert_eq!(parts.history, whole.history);
    }
}

#[test]
fn tracker_keeps_only_the_newest_statistics() {
    let mut t = ChiSquareTracker::new();
    t.push_bytes(&constant_chunk(1));
    for _ in 0..CHI_SQUARE_HISTORY_LIMIT {
        t.push_bytes(&uniform_chunk());
    }
    assert_eq!(t.sample_count(), CHI_SQUARE_HISTORY_LIMIT);
    assert!(t.history.iter().all(|s| *s == 0));
    assert_eq!(t.statistic_range(), Some((0, 0)));
}

#[test]
fn tracker_clear_empties_it() {
    let mut t = ChiSquareTracker::new();
    t.push_bytes(&uniform_chunk());
    t.push_bytes(&[1]);
    t.clear();
    assert_eq!(t.pending_len(), 0);
    assert_eq!(t.sample_count(), 0);
}

#[test]
fn frame_difference_is_absolute_and_truncates() {
    assert_eq!(absolute_frame_difference(&[10, 0, 255, 7], &[3, 9, 0]), vec![7, 9, 255]);
    assert_eq!(absolute_frame_difference(&[3, 9, 0], &[10, 0, 255, 7]), vec![7, 9, 255]);
    assert_eq!(absolute_frame_difference(&[4, 5, 6], &[4, 5, 6]), vec![0, 0, 0]);
    assert_eq!(absolute_frame_difference(&[], &[1, 2]), Vec::<u8>::new());
}

#[test]
fn frame_difference_of_large_frames() {
    let a: Vec<u8> = (0..100_000u32).map(|i| (i % 256) as u8).collect();
    let b: Vec<u8> = (0..100_000u32).map(|i| ((i * 3) % 256) as u8).collect();
    let d = absolute_frame_difference(&a, &b);
    assert_eq!(d.len(), a.len());
    for i in 0..a.len() {
        assert_eq!(d[i], a[i].abs_diff(b[i]));
    }
}
