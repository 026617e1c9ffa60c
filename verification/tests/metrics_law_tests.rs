use std::collections::BTreeSet;

use fortress_rollback::metrics::{
    EventKind, HotJoinMetrics, MessageKind, MessageKindCounts, PeerMetrics,
    RollbackDepthHistogram, SessionMetrics,
};

#[test]
fn frames_advanced_is_visual_plus_resimulated() {
    let mut m = SessionMetrics::new();
    for (i, depth) in [0usize, 1, 7, 0, 30].iter().enumerate() {
        m.record_forward_advance(i as u64);
        m.record_rollback(*depth);
        assert_eq!(m.frames_advanced, m.visual_frames + m.resimulated_frames);
    }
    assert_eq!(m.visual_frames, 5);
    assert_eq!(m.resimulated_frames, 38);
    assert_eq!(m.rollback_count, 3);
    assert_eq!(m.max_rollback_depth, 30);
    assert_eq!(m.confirmation_lag_sum, 10);
    assert_eq!(m.confirmation_lag_max, 4);
}

#[test]
fn histogram_total_matches_rollback_count() {
    let mut m = SessionMetrics::new();
    for depth in [1usize, 2, 16, 17, 18, 500, 3, 3] {
        m.record_rollback(depth);
        assert_eq!(m.rollback_depth_histogram.total(), m.rollback_count);
    }
    assert_eq!(m.rollback_depth_histogram.bucket(2), 2);
    assert_eq!(m.rollback_depth_histogram.bucket(15), 1);
    assert_eq!(m.rollback_depth_histogram.bucket(16), 3);
}

#[test]
fn counters_saturate_at_max() {
    let mut m = SessionMetrics::new();
    m.frames_advanced = u64::MAX - 1;
    m.record_rollback(5);
    assert_eq!(m.frames_advanced, u64::MAX);
    m.confirmation_lag_sum = u64::MAX;
    m.record_forward_advance(3);
    assert_eq!(m.confirmation_lag_sum, u64::MAX);
    m.prediction_miss_count = u64::MAX - 2;
    m.record_prediction_misses(10);
    assert_eq!(m.prediction_miss_count, u64::MAX);

    let full = RollbackDepthHistogram::from_buckets([u64::MAX; 17]);
    assert_eq!(full.total(), u64::MAX);
    let mut hist = RollbackDepthHistogram::from_buckets([0; 17]);
    hist.record(3);
    assert_eq!(hist.bucket(2), 1);
    let mut hist = RollbackDepthHistogram::from_buckets([u64::MAX; 17]);
    hist.record(3);
    assert_eq!(hist.bucket(2), u64::MAX);
}

#[test]
fn rollback_depth_beyond_u32_is_clamped_in_max_depth() {
    let mut m = SessionMetrics::new();
    m.record_rollback(usize::MAX);
    assert_eq!(m.max_rollback_depth, u32::MAX);
    assert_eq!(m.rollback_depth_histogram.bucket(16), 1);
}

#[test]
fn checksum_comparisons_split_into_matches_and_mismatches() {
    let mut m = SessionMetrics::new();
    for matched in [true, true, false, true, false] {
        m.record_checksum_comparison(matched);
        assert_eq!(m.checksums_compared, m.checksums_matched + m.checksums_mismatched);
    }
    assert_eq!(m.checksums_matched, 3);
}

#[test]
fn high_water_marks_never_go_down() {
    let mut m = SessionMetrics::new();
    let mut highest = 0u64;
    for len in [4usize, 9, 2, 9, 11, 0] {
        m.observe_event_queue_len(len);
        highest = highest.max(len as u64);
        assert_eq!(m.event_queue_high_water, highest);
    }
}

#[test]
fn kind_labels_are_distinct_and_nonempty() {
    let mut seen = BTreeSet::new();
    for kind in EventKind::all() {
        assert!(!kind.as_str().is_empty());
        assert_eq!(kind.to_string(), kind.as_str());
        assert!(seen.insert(kind.as_str()));
    }
    assert_eq!(EventKind::PeerJoined.as_str(), "peer_joined");
    let mut seen = BTreeSet::new();
    for kind in MessageKind::all() {
        assert!(!kind.as_str().is_empty());
        assert!(seen.insert(kind.as_str()));
    }
    assert_eq!(MessageKind::JoinAborted.as_str(), "join_aborted");
    assert_eq!(MessageKind::JoinAborted.index(), 16);
}

#[test]
fn bucket_labels() {
    assert_eq!(RollbackDepthHistogram::bucket_label(0), "1");
    assert_eq!(RollbackDepthHistogram::bucket_label(9), "10");
    assert_eq!(RollbackDepthHistogram::bucket_label(16), "17_plus");
}

#[test]
fn message_counts_from_counts_and_total() {
    let mut raw = [0u64; 17];
    raw[MessageKind::Input.index()] = 5;
    raw[MessageKind::KeepAlive.index()] = 2;
    let counts = MessageKindCounts::from_counts(raw);
    assert_eq!(counts.get(MessageKind::Input), 5);
    assert_eq!(counts.total(), 7);
}

#[test]
fn hot_join_and_peer_defaults() {
    let h = HotJoinMetrics::default();
    assert!(!h.completed);
    assert_eq!(h.polls_to_running, 0);
    let p = PeerMetrics::default();
    assert_eq!(p.messages_received_by_kind.total(), 0);
}
