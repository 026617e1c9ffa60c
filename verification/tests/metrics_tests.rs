use fortress_rollback::metrics::{
    EventKind, EventKindCounts, MessageKind, MessageKindCounts, PeerMetrics,
    RollbackDepthHistogram, SessionMetrics,
};

#[test]
fn event_kind_all_len_matches_count() {
    assert_eq!(EventKind::all().len(), EventKind::COUNT);
}

#[test]
fn event_kind_index_is_bijective_over_all() {
    for (i, kind) in EventKind::all().into_iter().enumerate() {
        assert_eq!(kind.index(), i, "index of {kind:?}");
    }
}

#[test]
fn event_kind_as_str_labels_are_unique_and_nonempty() {
    let mut seen = std::collections::BTreeSet::new();
    for kind in EventKind::all() {
        assert!(!kind.as_str().is_empty());
        assert!(
            seen.insert(kind.as_str()),
            "duplicate label {}",
            kind.as_str()
        );
    }
    assert_eq!(seen.len(), EventKind::COUNT);
}

#[test]
fn event_kind_counts_default_is_zero_and_records_saturate() {
    let mut counts = EventKindCounts::default();
    for kind in EventKind::all() {
        assert_eq!(counts.get(kind), 0);
    }
    counts.record(EventKind::Disconnected);
    counts.record(EventKind::Disconnected);
    assert_eq!(counts.get(EventKind::Disconnected), 2);
    assert_eq!(counts.get(EventKind::Synchronized), 0);
}

#[test]
fn session_metrics_record_event_discard_bumps_total_and_kind() {
    let mut metrics = SessionMetrics::new();
    assert_eq!(metrics.events_discarded_total, 0);
    metrics.record_event_discard(EventKind::DesyncDetected);
    metrics.record_event_discard(EventKind::Disconnected);
    metrics.record_event_discard(EventKind::Disconnected);
    assert_eq!(metrics.events_discarded_total, 3);
    assert_eq!(
        metrics
            .events_discarded_by_kind
            .get(EventKind::DesyncDetected),
        1
    );
    assert_eq!(
        metrics
            .events_discarded_by_kind
            .get(EventKind::Disconnected),
        2
    );
    assert_eq!(
        metrics
            .events_discarded_by_kind
            .get(EventKind::Synchronized),
        0
    );
}

#[test]
fn session_metrics_unknown_source_counter_saturates() {
    let mut metrics = SessionMetrics::new();
    metrics.record_unknown_source_packet();
    assert_eq!(metrics.unknown_source_packets, 1);

    metrics.unknown_source_packets = u64::MAX;
    metrics.record_unknown_source_packet();
    assert_eq!(metrics.unknown_source_packets, u64::MAX);
}

#[test]
fn rollback_histogram_buckets_depths_and_saturates_overflow() {
    let mut hist = RollbackDepthHistogram::default();
    assert_eq!(hist.total(), 0);
    // depth 0 is not a real rollback and is ignored
    hist.record(0);
    assert_eq!(hist.total(), 0);
    // depth d (1..=16) lands in slot d-1
    for depth in 1..=16usize {
        hist.record(depth);
        assert_eq!(hist.bucket(depth - 1), 1, "depth {depth}");
    }
    // every depth > 16 saturates into the final "17_plus" bucket (index 16)
    hist.record(17);
    hist.record(100);
    hist.record(usize::MAX);
    assert_eq!(hist.bucket(16), 3);
    assert_eq!(hist.total(), 16 + 3);
    // out-of-range index reads as zero, never panics
    assert_eq!(hist.bucket(RollbackDepthHistogram::BUCKETS), 0);
    assert_eq!(hist.bucket(999), 0);
}

#[test]
fn record_rollback_keeps_frames_advanced_identity_and_max_depth() {
    let mut m = SessionMetrics::new();
    // Two forward advances and two rollbacks (depths 3 and 5).
    m.record_forward_advance(1);
    m.record_forward_advance(2);
    m.record_rollback(3);
    m.record_rollback(5);
    assert_eq!(m.visual_frames, 2);
    assert_eq!(m.resimulated_frames, 8);
    // The core invariant: total simulation work = visual + resimulated.
    assert_eq!(m.frames_advanced, m.visual_frames + m.resimulated_frames);
    assert_eq!(m.frames_advanced, 10);
    assert_eq!(m.rollback_count, 2);
    assert_eq!(m.rollback_depth_histogram.total(), m.rollback_count);
    assert_eq!(m.max_rollback_depth, 5);
    assert_eq!(m.rollback_depth_histogram.bucket(2), 1); // depth 3
    assert_eq!(m.rollback_depth_histogram.bucket(4), 1); // depth 5
}

#[test]
fn record_forward_advance_tracks_confirmation_lag_gauge_max_and_sum() {
    let mut m = SessionMetrics::new();
    m.record_forward_advance(5);
    m.record_forward_advance(2);
    m.record_forward_advance(9);
    assert_eq!(m.confirmation_lag_current, 9); // gauge: last sample
    assert_eq!(m.confirmation_lag_max, 9);
    assert_eq!(m.confirmation_lag_sum, 16);
    assert_eq!(m.visual_frames, 3);
}

#[test]
fn record_checksum_comparison_splits_matches_and_mismatches() {
    let mut m = SessionMetrics::new();
    m.record_checksum_comparison(true);
    m.record_checksum_comparison(false);
    m.record_checksum_comparison(true);
    assert_eq!(m.checksums_compared, 3);
    assert_eq!(m.checksums_matched, 2);
    assert_eq!(m.checksums_mismatched, 1);
    assert_eq!(
        m.checksums_compared,
        m.checksums_matched + m.checksums_mismatched
    );
}

#[test]
fn high_water_marks_track_the_maximum_observed_length() {
    let mut m = SessionMetrics::new();
    m.observe_event_queue_len(3);
    m.observe_event_queue_len(7);
    m.observe_event_queue_len(4); // shrinking does not lower the mark
    assert_eq!(m.event_queue_high_water, 7);
    m.observe_checksum_history_len(10);
    m.observe_checksum_history_len(2);
    assert_eq!(m.checksum_history_high_water, 10);
}

#[test]
fn stall_prediction_miss_and_wait_recommendation_counters_saturate_up() {
    let mut m = SessionMetrics::new();
    m.record_stall();
    m.record_stall();
    m.record_prediction_misses(4);
    m.record_prediction_misses(1);
    m.record_wait_recommendation();
    assert_eq!(m.stall_count, 2);
    assert_eq!(m.prediction_miss_count, 5);
    assert_eq!(m.wait_recommendations, 1);
}

#[test]
fn message_kind_all_len_matches_count() {
    assert_eq!(MessageKind::all().len(), MessageKind::COUNT);
}

#[test]
fn message_kind_index_is_bijective_over_all() {
    for (i, kind) in MessageKind::all().into_iter().enumerate() {
        assert_eq!(kind.index(), i, "index of {kind:?}");
    }
}

#[test]
fn message_kind_as_str_labels_are_unique_and_nonempty() {
    let mut seen = std::collections::BTreeSet::new();
    for kind in MessageKind::all() {
        assert!(!kind.as_str().is_empty());
        assert!(
            seen.insert(kind.as_str()),
            "duplicate label {}",
            kind.as_str()
        );
    }
    assert_eq!(seen.len(), MessageKind::COUNT);
}

#[test]
fn message_kind_counts_record_get_and_total_saturate() {
    let mut counts = MessageKindCounts::default();
    assert_eq!(counts.total(), 0);
    for kind in MessageKind::all() {
        assert_eq!(counts.get(kind), 0);
    }
    counts.record(MessageKind::Input);
    counts.record(MessageKind::Input);
    counts.record(MessageKind::KeepAlive);
    assert_eq!(counts.get(MessageKind::Input), 2);
    assert_eq!(counts.get(MessageKind::KeepAlive), 1);
    assert_eq!(counts.get(MessageKind::SyncRequest), 0);
    // The total is the sum across every category.
    assert_eq!(counts.total(), 3);
}

#[test]
fn peer_metrics_default_is_zero() {
    let m = PeerMetrics::default();
    assert_eq!(m.bytes_sent, 0);
    assert_eq!(m.bytes_received, 0);
    assert_eq!(m.packets_sent, 0);
    assert_eq!(m.packets_received, 0);
    assert_eq!(m.messages_sent_by_kind.total(), 0);
    assert_eq!(m.messages_received_by_kind.total(), 0);
    assert_eq!(m.input_bytes_pre_compression, 0);
    assert_eq!(m.input_bytes_post_compression, 0);
    assert_eq!(m.pending_output_len, 0);
    assert_eq!(m.pending_checksums_len, 0);
    assert_eq!(m.ping_ms, 0);
    assert_eq!(m.remote_frame_advantage, 0);
}
