//! Session and peer metrics: saturating counters, high-water marks, a
//! rollback-depth histogram and per-kind breakdowns of events and messages.
use vstd::prelude::*;
use vstd::string::StringExecFns;

verus! {

/// The kinds of session event, as counted when events are discarded.
#[derive(Debug, Clone, Copy, PartialEq, Eq, Structural, PartialOrd, Ord, Hash)]
pub enum EventKind {
    /// A peer is synchronizing.
    Synchronizing,
    /// A peer finished synchronizing.
    Synchronized,
    /// A peer disconnected.
    Disconnected,
    /// A peer stopped sending for a while.
    NetworkInterrupted,
    /// A peer resumed sending.
    NetworkResumed,
    /// The session recommends waiting some frames.
    WaitRecommendation,
    /// Checksums of a frame differed.
    DesyncDetected,
    /// Synchronizing took too long.
    SyncTimeout,
    /// A replay produced another checksum.
    ReplayDesync,
    /// Two hosts of a spectator disagreed.
    SpectatorDivergence,
    /// The session recommends another input delay.
    InputDelayRecommendation,
    /// A peer was dropped from the session.
    PeerDropped,
    /// A peer asked to join a running session.
    JoinRequested,
    /// A peer joined a running session.
    PeerJoined,
}

impl EventKind {
    /// The number of event kinds.
    pub const COUNT: usize = 14;

    /// The position of a kind in [`EventKind::all`].
    pub open spec fn position(self) -> int {
        match self {
            EventKind::Synchronizing => 0,
            EventKind::Synchronized => 1,
            EventKind::Disconnected => 2,
            EventKind::NetworkInterrupted => 3,
            EventKind::NetworkResumed => 4,
            EventKind::WaitRecommendation => 5,
            EventKind::DesyncDetected => 6,
            EventKind::SyncTimeout => 7,
            EventKind::ReplayDesync => 8,
            EventKind::SpectatorDivergence => 9,
            EventKind::InputDelayRecommendation => 10,
            EventKind::PeerDropped => 11,
            EventKind::JoinRequested => 12,
            EventKind::PeerJoined => 13,
        }
    }

    /// The snake_case label of a kind.
    pub open spec fn label(self) -> Seq<char> {
        match self {
            EventKind::Synchronizing => "synchronizing"@,
            EventKind::Synchronized => "synchronized"@,
            EventKind::Disconnected => "disconnected"@,
            EventKind::NetworkInterrupted => "network_interrupted"@,
            EventKind::NetworkResumed => "network_resumed"@,
            EventKind::WaitRecommendation => "wait_recommendation"@,
            EventKind::DesyncDetected => "desync_detected"@,
            EventKind::SyncTimeout => "sync_timeout"@,
            EventKind::ReplayDesync => "replay_desync"@,
            EventKind::SpectatorDivergence => "spectator_divergence"@,
            EventKind::InputDelayRecommendation => "input_delay_recommendation"@,
            EventKind::PeerDropped => "peer_dropped"@,
            EventKind::JoinRequested => "join_requested"@,
            EventKind::PeerJoined => "peer_joined"@,
        }
    }

    /// Every kind, in declaration order.
    pub fn all() -> (r: [EventKind; 14])
        ensures
            forall|i: int| 0 <= i < 14 ==> (#[trigger] r@[i]).position() == i,
    {
        [
            EventKind::Synchronizing,
            EventKind::Synchronized,
            EventKind::Disconnected,
            EventKind::NetworkInterrupted,
            EventKind::NetworkResumed,
            EventKind::WaitRecommendation,
            EventKind::DesyncDetected,
            EventKind::SyncTimeout,
            EventKind::ReplayDesync,
            EventKind::SpectatorDivergence,
            EventKind::InputDelayRecommendation,
            EventKind::PeerDropped,
            EventKind::JoinRequested,
            EventKind::PeerJoined,
        ]
    }

    /// The snake_case label, as used in serialized metrics.
    pub fn as_str(self) -> (r: &'static str)
        ensures
            r@ == self.label(),
    {
        match self {
            EventKind::Synchronizing => "synchronizing",
            EventKind::Synchronized => "synchronized",
            EventKind::Disconnected => "disconnected",
            EventKind::NetworkInterrupted => "network_interrupted",
            EventKind::NetworkResumed => "network_resumed",
            EventKind::WaitRecommendation => "wait_recommendation",
            EventKind::DesyncDetected => "desync_detected",
            EventKind::SyncTimeout => "sync_timeout",
            EventKind::ReplayDesync => "replay_desync",
            EventKind::SpectatorDivergence => "spectator_divergence",
            EventKind::InputDelayRecommendation => "input_delay_recommendation",
            EventKind::PeerDropped => "peer_dropped",
            EventKind::JoinRequested => "join_requested",
            EventKind::PeerJoined => "peer_joined",
        }
    }

    /// The position of this kind among all kinds.
    pub fn index(self) -> (r: usize)
        ensures
            r == self.position(),
            r < Self::COUNT,
    {
        match self {
            EventKind::Synchronizing => 0,
            EventKind::Synchronized => 1,
            EventKind::Disconnected => 2,
            EventKind::NetworkInterrupted => 3,
            EventKind::NetworkResumed => 4,
            EventKind::WaitRecommendation => 5,
            EventKind::DesyncDetected => 6,
            EventKind::SyncTimeout => 7,
            EventKind::ReplayDesync => 8,
            EventKind::SpectatorDivergence => 9,
            EventKind::InputDelayRecommendation => 10,
            EventKind::PeerDropped => 11,
            EventKind::JoinRequested => 12,
            EventKind::PeerJoined => 13,
        }
    }

    /// The label as a string.
    pub fn to_string(&self) -> (r: String)
        ensures
            r@ == self.label(),
    {
        self.as_str().to_string()
    }
}

/// One saturating counter per [`EventKind`].
#[derive(Debug, Clone, Copy, PartialEq, Eq)]
pub struct EventKindCounts([u64; 14]);

impl View for EventKindCounts {
    type V = Seq<u64>;

    /// The counters, by kind position.
    closed spec fn view(&self) -> Seq<u64> {
        self.0@
    }
}

impl Default for EventKindCounts {
    /// All counters at zero.
    fn default() -> (r: Self)
        ensures
            r@.len() == EventKind::COUNT,
            forall|i: int| 0 <= i < EventKind::COUNT ==> r@[i] == 0,
    {
        EventKindCounts([0u64; 14])
    }
}

impl EventKindCounts {
    /// The counters `counts`, by kind position.
    pub fn from_counts(counts: [u64; 14]) -> (r: Self)
        ensures
            r@ == counts@,
    {
        EventKindCounts(counts)
    }

    /// There is one counter per kind.
    pub proof fn lemma_len(&self)
        ensures
            self@.len() == EventKind::COUNT,
    {
    }

    /// The counter of `kind`.
    pub fn get(&self, kind: EventKind) -> (r: u64)
        ensures
            r == self@[kind.position()],
    {
        self.0[kind.index()]
    }

    /// Adds one to the counter of `kind`, saturating at `u64::MAX`.
    pub fn record(&mut self, kind: EventKind)
        ensures
            final(self)@ == old(self)@.update(
                kind.position(),
                saturating_inc(old(self)@[kind.position()]),
            ),
    {
        let i = kind.index();
        let next = self.0[i].saturating_add(1);
        self.0.set(i, next);
    }
}

/// `x + 1`, saturating at `u64::MAX`.
pub open spec fn saturating_inc(x: u64) -> u64 {
    if x == u64::MAX {
        x
    } else {
        (x + 1) as u64
    }
}

/// `a + b`, saturating at `u64::MAX`.
pub open spec fn saturating_sum2(a: u64, b: u64) -> u64 {
    if a + b > u64::MAX {
        u64::MAX
    } else {
        (a + b) as u64
    }
}

/// The larger of `a` and `b`.
pub open spec fn max_u64(a: u64, b: u64) -> u64 {
    if a >= b {
        a
    } else {
        b
    }
}

/// The sum of `s`, added up from the front and saturating at `u64::MAX`.
pub open spec fn saturating_total(s: Seq<u64>) -> u64
    decreases s.len(),
{
    if s.len() == 0 {
        0
    } else {
        saturating_sum2(saturating_total(s.drop_last()), s.last())
    }
}

/// The exact sum of `s`.
pub open spec fn seq_sum(s: Seq<u64>) -> int
    decreases s.len(),
{
    if s.len() == 0 {
        0
    } else {
        seq_sum(s.drop_last()) + s.last()
    }
}

/// A saturating total that does not reach `u64::MAX` is the exact sum.
pub proof fn lemma_saturating_total_exact(s: Seq<u64>)
    requires
        seq_sum(s) <= u64::MAX,
    ensures
        saturating_total(s) == seq_sum(s),
    decreases s.len(),
{
    if s.len() > 0 {
        lemma_seq_sum_nonneg(s.drop_last());
        lemma_saturating_total_exact(s.drop_last());
    }
}

/// Sums of `u64`s are not negative.
proof fn lemma_seq_sum_nonneg(s: Seq<u64>)
    ensures
        seq_sum(s) >= 0,
    decreases s.len(),
{
    if s.len() > 0 {
        lemma_seq_sum_nonneg(s.drop_last());
    }
}

/// Changing one entry of `s` by `d` changes its sum by `d`.
pub proof fn lemma_seq_sum_update(s: Seq<u64>, i: int, x: u64)
    requires
        0 <= i < s.len(),
    ensures
        seq_sum(s.update(i, x)) == seq_sum(s) - s[i] + x,
    decreases s.len(),
{
    let t = s.update(i, x);
    if i == s.len() - 1 {
        assert(t.drop_last() =~= s.drop_last());
    } else {
        assert(t.drop_last() =~= s.drop_last().update(i, x));
        lemma_seq_sum_update(s.drop_last(), i, x);
    }
}

/// The total of the first `n` entries of a sequence, saturating.
proof fn lemma_saturating_total_prefix(s: Seq<u64>, n: int)
    requires
        0 <= n < s.len(),
    ensures
        saturating_total(s.subrange(0, n + 1)) == saturating_sum2(
            saturating_total(s.subrange(0, n)),
            s[n],
        ),
{
    assert(s.subrange(0, n + 1).drop_last() =~= s.subrange(0, n));
}

/// The histogram of rollback depths: depths 1 to 16 each have a bucket,
/// deeper rollbacks share the last one.
#[derive(Debug, Clone, Copy, PartialEq, Eq)]
pub struct RollbackDepthHistogram([u64; 17]);

impl View for RollbackDepthHistogram {
    type V = Seq<u64>;

    /// The bucket counters.
    closed spec fn view(&self) -> Seq<u64> {
        self.0@
    }
}

impl Default for RollbackDepthHistogram {
    /// All buckets at zero.
    fn default() -> (r: Self)
        ensures
            r@.len() == RollbackDepthHistogram::BUCKETS,
            forall|i: int| 0 <= i < RollbackDepthHistogram::BUCKETS ==> r@[i] == 0,
    {
        RollbackDepthHistogram([0u64; 17])
    }
}

/// The bucket of a rollback of `depth` frames: `depth - 1` for depths 1 to
/// 16, the last bucket for deeper ones.
pub open spec fn depth_bucket(depth: int) -> int {
    if depth >= 17 {
        16
    } else {
        depth - 1
    }
}

/// The label of bucket `index`: its depth, or `17_plus` for the last one.
pub open spec fn bucket_label_text(index: int) -> Seq<char> {
    if index == 16 {
        "17_plus"@
    } else {
        crate::text::decimal((index + 1) as nat)
    }
}

impl RollbackDepthHistogram {
    /// The number of buckets.
    pub const BUCKETS: usize = 17;

    /// The histogram with bucket counters `buckets`.
    pub fn from_buckets(buckets: [u64; 17]) -> (r: Self)
        ensures
            r@ == buckets@,
    {
        RollbackDepthHistogram(buckets)
    }

    /// There is one counter per bucket.
    pub proof fn lemma_len(&self)
        ensures
            self@.len() == Self::BUCKETS,
    {
    }

    /// The label of bucket `index` in serialized metrics.
    pub fn bucket_label(index: usize) -> (r: String)
        requires
            index < Self::BUCKETS,
        ensures
            r@ == bucket_label_text(index as int),
    {
        if index == 16 {
            String::from_str("17_plus")
        } else {
            crate::text::decimal_string((index + 1) as u64)
        }
    }

    /// The bucket of a rollback of `depth` frames (depth 0 counts as 1).
    pub fn bucket_index(depth: usize) -> (r: usize)
        ensures
            r == depth_bucket(if depth == 0 {
                1
            } else {
                depth as int
            }),
            r < Self::BUCKETS,
    {
        if depth >= Self::BUCKETS {
            Self::BUCKETS - 1
        } else if depth == 0 {
            0
        } else {
            depth - 1
        }
    }

    /// Counts a rollback of `depth` frames in its bucket, saturating; a
    /// depth of 0 is not a rollback and is ignored.
    pub fn record(&mut self, depth: usize)
        ensures
            depth == 0 ==> final(self)@ == old(self)@,
            depth > 0 ==> final(self)@ == old(self)@.update(
                depth_bucket(depth as int),
                saturating_inc(old(self)@[depth_bucket(depth as int)]),
            ),
    {
        if depth == 0 {
            return ;
        }
        let i = Self::bucket_index(depth);
        let next = self.0[i].saturating_add(1);
        self.0.set(i, next);
    }

    /// The counter of bucket `index`; 0 for an index past the last bucket.
    pub fn bucket(&self, index: usize) -> (r: u64)
        ensures
            index < Self::BUCKETS ==> r == self@[index as int],
            index >= Self::BUCKETS ==> r == 0,
    {
        if index < Self::BUCKETS {
            self.0[index]
        } else {
            0
        }
    }

    /// The sum of all buckets, saturating at `u64::MAX`.
    pub fn total(&self) -> (r: u64)
        ensures
            r == saturating_total(self@),
    {
        let mut total: u64 = 0;
        let mut i: usize = 0;
        while i < Self::BUCKETS
            invariant
                0 <= i <= 17,
                self@.len() == 17,
                total == saturating_total(self@.subrange(0, i as int)),
            decreases 17 - i,
        {
            proof {
                lemma_saturating_total_prefix(self@, i as int);
            }
            total = total.saturating_add(self.0[i]);
            i = i + 1;
        }
        proof {
            assert(self@.subrange(0, 17) =~= self@);
        }
        total
    }
}

/// The kinds of protocol message, as counted per peer.
#[derive(Debug, Clone, Copy, PartialEq, Eq, Structural, PartialOrd, Ord, Hash)]
pub enum MessageKind {
    /// A request to synchronize.
    SyncRequest,
    /// A reply to a synchronization request.
    SyncReply,
    /// Inputs.
    Input,
    /// An acknowledgement of inputs.
    InputAck,
    /// A report on connection quality.
    QualityReport,
    /// A reply to a quality report.
    QualityReply,
    /// A checksum of a frame.
    ChecksumReport,
    /// A message that keeps the connection alive.
    KeepAlive,
    /// A request for the confirmed frame floor.
    FloorRequest,
    /// A reply with the confirmed frame floor.
    FloorReply,
    /// A request to join a running session.
    JoinRequest,
    /// A snapshot of the game state for a joining peer.
    StateSnapshot,
    /// An acknowledgement of a state snapshot.
    StateSnapshotAck,
    /// A request to reactivate a player slot.
    ReactivateSlot,
    /// An acknowledgement of a slot reactivation.
    ReactivateSlotAck,
    /// The join was committed.
    JoinCommitted,
    /// The join was aborted.
    JoinAborted,
}

impl MessageKind {
    /// The number of message kinds.
    pub const COUNT: usize = 17;

    /// The position of a kind in [`MessageKind::all`].
    pub open spec fn position(self) -> int {
        match self {
            MessageKind::SyncRequest => 0,
            MessageKind::SyncReply => 1,
            MessageKind::Input => 2,
            MessageKind::InputAck => 3,
            MessageKind::QualityReport => 4,
            MessageKind::QualityReply => 5,
            MessageKind::ChecksumReport => 6,
            MessageKind::KeepAlive => 7,
            MessageKind::FloorRequest => 8,
            MessageKind::FloorReply => 9,
            MessageKind::JoinRequest => 10,
            MessageKind::StateSnapshot => 11,
            MessageKind::StateSnapshotAck => 12,
            MessageKind::ReactivateSlot => 13,
            MessageKind::ReactivateSlotAck => 14,
            MessageKind::JoinCommitted => 15,
            MessageKind::JoinAborted => 16,
        }
    }

    /// The snake_case label of a kind.
    pub open spec fn label(self) -> Seq<char> {
        match self {
            MessageKind::SyncRequest => "sync_request"@,
            MessageKind::SyncReply => "sync_reply"@,
            MessageKind::Input => "input"@,
            MessageKind::InputAck => "input_ack"@,
            MessageKind::QualityReport => "quality_report"@,
            MessageKind::QualityReply => "quality_reply"@,
            MessageKind::ChecksumReport => "checksum_report"@,
            MessageKind::KeepAlive => "keep_alive"@,
            MessageKind::FloorRequest => "floor_request"@,
            MessageKind::FloorReply => "floor_reply"@,
            MessageKind::JoinRequest => "join_request"@,
            MessageKind::StateSnapshot => "state_snapshot"@,
            MessageKind::StateSnapshotAck => "state_snapshot_ack"@,
            MessageKind::ReactivateSlot => "reactivate_slot"@,
            MessageKind::ReactivateSlotAck => "reactivate_slot_ack"@,
            MessageKind::JoinCommitted => "join_committed"@,
            MessageKind::JoinAborted => "join_aborted"@,
        }
    }

    /// Every kind, in declaration order.
    pub fn all() -> (r: [MessageKind; 17])
        ensures
            forall|i: int| 0 <= i < 17 ==> (#[trigger] r@[i]).position() == i,
    {
        [
            MessageKind::SyncRequest,
            MessageKind::SyncReply,
            MessageKind::Input,
            MessageKind::InputAck,
            MessageKind::QualityReport,
            MessageKind::QualityReply,
            MessageKind::ChecksumReport,
            MessageKind::KeepAlive,
            MessageKind::FloorRequest,
            MessageKind::FloorReply,
            MessageKind::JoinRequest,
            MessageKind::StateSnapshot,
            MessageKind::StateSnapshotAck,
            MessageKind::ReactivateSlot,
            MessageKind::ReactivateSlotAck,
            MessageKind::JoinCommitted,
            MessageKind::JoinAborted,
        ]
    }

    /// The snake_case label, as used in serialized metrics.
    pub fn as_str(self) -> (r: &'static str)
        ensures
            r@ == self.label(),
    {
        match self {
            MessageKind::SyncRequest => "sync_request",
            MessageKind::SyncReply => "sync_reply",
            MessageKind::Input => "input",
            MessageKind::InputAck => "input_ack",
            MessageKind::QualityReport => "quality_report",
            MessageKind::QualityReply => "quality_reply",
            MessageKind::ChecksumReport => "checksum_report",
            MessageKind::KeepAlive => "keep_alive",
            MessageKind::FloorRequest => "floor_request",
            MessageKind::FloorReply => "floor_reply",
            MessageKind::JoinRequest => "join_request",
            MessageKind::StateSnapshot => "state_snapshot",
            MessageKind::StateSnapshotAck => "state_snapshot_ack",
            MessageKind::ReactivateSlot => "reactivate_slot",
            MessageKind::ReactivateSlotAck => "reactivate_slot_ack",
            MessageKind::JoinCommitted => "join_committed",
            MessageKind::JoinAborted => "join_aborted",
        }
    }

    /// The position of this kind among all kinds.
    pub fn index(self) -> (r: usize)
        ensures
            r == self.position(),
            r < Self::COUNT,
    {
        match self {
            MessageKind::SyncRequest => 0,
            MessageKind::SyncReply => 1,
            MessageKind::Input => 2,
            MessageKind::InputAck => 3,
            MessageKind::QualityReport => 4,
            MessageKind::QualityReply => 5,
            MessageKind::ChecksumReport => 6,
            MessageKind::KeepAlive => 7,
            MessageKind::FloorRequest => 8,
            MessageKind::FloorReply => 9,
            MessageKind::JoinRequest => 10,
            MessageKind::StateSnapshot => 11,
            MessageKind::StateSnapshotAck => 12,
            MessageKind::ReactivateSlot => 13,
            MessageKind::ReactivateSlotAck => 14,
            MessageKind::JoinCommitted => 15,
            MessageKind::JoinAborted => 16,
        }
    }

    /// The label as a string.
    pub fn to_string(&self) -> (r: String)
        ensures
            r@ == self.label(),
    {
        self.as_str().to_string()
    }
}

/// One saturating counter per [`MessageKind`].
#[derive(Debug, Clone, Copy, PartialEq, Eq)]
pub struct MessageKindCounts([u64; 17]);

impl View for MessageKindCounts {
    type V = Seq<u64>;

    /// The counters, by kind position.
    closed spec fn view(&self) -> Seq<u64> {
        self.0@
    }
}

impl Default for MessageKindCounts {
    /// All counters at zero.
    fn default() -> (r: Self)
        ensures
            r@.len() == MessageKind::COUNT,
            forall|i: int| 0 <= i < MessageKind::COUNT ==> r@[i] == 0,
    {
        MessageKindCounts([0u64; 17])
    }
}

impl MessageKindCounts {
    /// The counters `counts`, by kind position.
    pub fn from_counts(counts: [u64; 17]) -> (r: Self)
        ensures
            r@ == counts@,
    {
        MessageKindCounts(counts)
    }

    /// There is one counter per kind.
    pub proof fn lemma_len(&self)
        ensures
            self@.len() == MessageKind::COUNT,
    {
    }

    /// The counter of `kind`.
    pub fn get(&self, kind: MessageKind) -> (r: u64)
        ensures
            r == self@[kind.position()],
    {
        self.0[kind.index()]
    }

    /// The sum of all counters, saturating at `u64::MAX`.
    pub fn total(&self) -> (r: u64)
        ensures
            r == saturating_total(self@),
    {
        let mut total: u64 = 0;
        let mut i: usize = 0;
        while i < MessageKind::COUNT
            invariant
                0 <= i <= 17,
                self@.len() == 17,
                total == saturating_total(self@.subrange(0, i as int)),
            decreases 17 - i,
        {
            proof {
                lemma_saturating_total_prefix(self@, i as int);
            }
            total = total.saturating_add(self.0[i]);
            i = i + 1;
        }
        proof {
            assert(self@.subrange(0, 17) =~= self@);
        }
        total
    }

    /// Adds one to the counter of `kind`, saturating at `u64::MAX`.
    pub fn record(&mut self, kind: MessageKind)
        ensures
            final(self)@ == old(self)@.update(
                kind.position(),
                saturating_inc(old(self)@[kind.position()]),
            ),
    {
        let i = kind.index();
        let next = self.0[i].saturating_add(1);
        self.0.set(i, next);
    }
}

/// Counters and gauges of one session.
#[derive(Debug, Clone, Copy, PartialEq, Eq)]
pub struct SessionMetrics {
    /// Frames simulated, forward and resimulated.
    pub frames_advanced: u64,
    /// Frames advanced forward, once each.
    pub visual_frames: u64,
    /// Frames simulated again during rollbacks.
    pub resimulated_frames: u64,
    /// Rollbacks performed.
    pub rollback_count: u64,
    /// Rollbacks by depth.
    pub rollback_depth_histogram: RollbackDepthHistogram,
    /// The deepest rollback, in frames.
    pub max_rollback_depth: u32,
    /// Mispredicted inputs.
    pub prediction_miss_count: u64,
    /// Frames the session stalled.
    pub stall_count: u64,
    /// Wait recommendations issued.
    pub wait_recommendations: u64,
    /// The confirmation lag of the last forward frame.
    pub confirmation_lag_current: u64,
    /// The largest confirmation lag seen.
    pub confirmation_lag_max: u64,
    /// The sum of all confirmation lags seen.
    pub confirmation_lag_sum: u64,
    /// Checksums compared with a peer's.
    pub checksums_compared: u64,
    /// Compared checksums that matched.
    pub checksums_matched: u64,
    /// Compared checksums that differed.
    pub checksums_mismatched: u64,
    /// The longest event queue seen.
    pub event_queue_high_water: u64,
    /// The longest checksum history seen.
    pub checksum_history_high_water: u64,
    /// Events discarded.
    pub events_discarded_total: u64,
    /// Events discarded, by kind.
    pub events_discarded_by_kind: EventKindCounts,
    /// Packets from unknown sources.
    pub unknown_source_packets: u64,
}

/// Whether every counter and gauge of `m` is zero.
pub open spec fn session_metrics_zero(m: SessionMetrics) -> bool {
    &&& m.frames_advanced == 0
    &&& m.visual_frames == 0
    &&& m.resimulated_frames == 0
    &&& m.rollback_count == 0
    &&& m.rollback_depth_histogram@.len() == RollbackDepthHistogram::BUCKETS
    &&& forall|i: int|
        0 <= i < RollbackDepthHistogram::BUCKETS ==> #[trigger] m.rollback_depth_histogram@[i] == 0
    &&& m.max_rollback_depth == 0
    &&& m.prediction_miss_count == 0
    &&& m.stall_count == 0
    &&& m.wait_recommendations == 0
    &&& m.confirmation_lag_current == 0
    &&& m.confirmation_lag_max == 0
    &&& m.confirmation_lag_sum == 0
    &&& m.checksums_compared == 0
    &&& m.checksums_matched == 0
    &&& m.checksums_mismatched == 0
    &&& m.event_queue_high_water == 0
    &&& m.checksum_history_high_water == 0
    &&& m.events_discarded_total == 0
    &&& m.events_discarded_by_kind@.len() == EventKind::COUNT
    &&& forall|i: int| 0 <= i < EventKind::COUNT ==> #[trigger] m.events_discarded_by_kind@[i] == 0
    &&& m.unknown_source_packets == 0
}

/// `m` after a forward frame with confirmation lag `lag`.
pub open spec fn after_forward_advance(m: SessionMetrics, lag: u64) -> SessionMetrics {
    SessionMetrics {
        frames_advanced: saturating_inc(m.frames_advanced),
        visual_frames: saturating_inc(m.visual_frames),
        confirmation_lag_current: lag,
        confirmation_lag_max: max_u64(m.confirmation_lag_max, lag),
        confirmation_lag_sum: saturating_sum2(m.confirmation_lag_sum, lag),
        ..m
    }
}

/// `depth` as a `u32`, saturating at `u32::MAX`.
pub open spec fn depth_u32(depth: usize) -> u32 {
    if depth > u32::MAX {
        u32::MAX
    } else {
        depth as u32
    }
}

/// `m` after a rollback of `depth` frames (none for depth 0).
pub open spec fn after_rollback(m: SessionMetrics, depth: usize) -> SessionMetrics {
    if depth == 0 {
        m
    } else {
        SessionMetrics {
            rollback_count: saturating_inc(m.rollback_count),
            resimulated_frames: saturating_sum2(m.resimulated_frames, depth as u64),
            frames_advanced: saturating_sum2(m.frames_advanced, depth as u64),
            max_rollback_depth: if m.max_rollback_depth >= depth_u32(depth) {
                m.max_rollback_depth
            } else {
                depth_u32(depth)
            },
            ..m
        }
    }
}

/// `m` after a checksum comparison that matched or not.
pub open spec fn after_checksum_comparison(m: SessionMetrics, matched: bool) -> SessionMetrics {
    if matched {
        SessionMetrics {
            checksums_compared: saturating_inc(m.checksums_compared),
            checksums_matched: saturating_inc(m.checksums_matched),
            ..m
        }
    } else {
        SessionMetrics {
            checksums_compared: saturating_inc(m.checksums_compared),
            checksums_mismatched: saturating_inc(m.checksums_mismatched),
            ..m
        }
    }
}

impl Default for SessionMetrics {
    /// Every counter and gauge at zero.
    fn default() -> (r: Self)
        ensures
            session_metrics_zero(r),
    {
        SessionMetrics {
            frames_advanced: 0,
            visual_frames: 0,
            resimulated_frames: 0,
            rollback_count: 0,
            rollback_depth_histogram: RollbackDepthHistogram::default(),
            max_rollback_depth: 0,
            prediction_miss_count: 0,
            stall_count: 0,
            wait_recommendations: 0,
            confirmation_lag_current: 0,
            confirmation_lag_max: 0,
            confirmation_lag_sum: 0,
            checksums_compared: 0,
            checksums_matched: 0,
            checksums_mismatched: 0,
            event_queue_high_water: 0,
            checksum_history_high_water: 0,
            events_discarded_total: 0,
            events_discarded_by_kind: EventKindCounts::default(),
            unknown_source_packets: 0,
        }
    }
}

impl SessionMetrics {
    /// Every counter and gauge at zero.
    pub fn new() -> (r: Self)
        ensures
            session_metrics_zero(r),
    {
        Self::default()
    }

    /// Counts a discarded event of `kind`, in the total and by kind.
    pub fn record_event_discard(&mut self, kind: EventKind)
        ensures
            *final(self) == (SessionMetrics {
                events_discarded_total: saturating_inc(old(self).events_discarded_total),
                events_discarded_by_kind: final(self).events_discarded_by_kind,
                ..*old(self)
            }),
            final(self).events_discarded_by_kind@ == old(self).events_discarded_by_kind@.update(
                kind.position(),
                saturating_inc(old(self).events_discarded_by_kind@[kind.position()]),
            ),
    {
        self.events_discarded_total = self.events_discarded_total.saturating_add(1);
        self.events_discarded_by_kind.record(kind);
    }

    /// Counts a packet from an unknown source.
    pub fn record_unknown_source_packet(&mut self)
        ensures
            *final(self) == (SessionMetrics {
                unknown_source_packets: saturating_inc(old(self).unknown_source_packets),
                ..*old(self)
            }),
    {
        self.unknown_source_packets = self.unknown_source_packets.saturating_add(1);
    }

    /// Counts a forward frame and samples its confirmation lag.
    pub fn record_forward_advance(&mut self, confirmation_lag: u64)
        ensures
            *final(self) == after_forward_advance(*old(self), confirmation_lag),
            final(self).confirmation_lag_current == confirmation_lag,
            final(self).confirmation_lag_max >= old(self).confirmation_lag_max,
            final(self).confirmation_lag_max >= confirmation_lag,
            final(self).confirmation_lag_max == old(self).confirmation_lag_max
                || final(self).confirmation_lag_max == confirmation_lag,
    {
        self.frames_advanced = self.frames_advanced.saturating_add(1);
        self.visual_frames = self.visual_frames.saturating_add(1);
        self.confirmation_lag_current = confirmation_lag;
        if confirmation_lag > self.confirmation_lag_max {
            self.confirmation_lag_max = confirmation_lag;
        }
        self.confirmation_lag_sum = self.confirmation_lag_sum.saturating_add(confirmation_lag);
    }

    /// Counts a rollback of `depth` frames: the rollback, its resimulated
    /// frames (also counted as advanced), the deepest rollback and the
    /// histogram. A depth of 0 is not a rollback and is ignored.
    pub fn record_rollback(&mut self, depth: usize)
        ensures
            *final(self) == (SessionMetrics {
                rollback_depth_histogram: final(self).rollback_depth_histogram,
                ..after_rollback(*old(self), depth)
            }),
            depth == 0 ==> final(self).rollback_depth_histogram@
                == old(self).rollback_depth_histogram@,
            depth > 0 ==> final(self).rollback_depth_histogram@
                == old(self).rollback_depth_histogram@.update(
                depth_bucket(depth as int),
                saturating_inc(old(self).rollback_depth_histogram@[depth_bucket(depth as int)]),
            ),
            final(self).max_rollback_depth >= old(self).max_rollback_depth,
            depth > 0 && depth <= u32::MAX ==> final(self).max_rollback_depth >= depth,
            depth > u32::MAX ==> final(self).max_rollback_depth == u32::MAX,
            final(self).max_rollback_depth == old(self).max_rollback_depth || (depth > 0
                && final(self).max_rollback_depth == depth_u32(depth)),
    {
        if depth == 0 {
            return ;
        }
        let depth_u64 = depth as u64;
        self.rollback_count = self.rollback_count.saturating_add(1);
        self.resimulated_frames = self.resimulated_frames.saturating_add(depth_u64);
        self.frames_advanced = self.frames_advanced.saturating_add(depth_u64);
        let depth_32: u32 = if depth > u32::MAX as usize {
            u32::MAX
        } else {
            depth as u32
        };
        if depth_32 > self.max_rollback_depth {
            self.max_rollback_depth = depth_32;
        }
        self.rollback_depth_histogram.record(depth);
    }

    /// Counts `count` mispredicted inputs.
    pub fn record_prediction_misses(&mut self, count: u64)
        ensures
            *final(self) == (SessionMetrics {
                prediction_miss_count: saturating_sum2(old(self).prediction_miss_count, count),
                ..*old(self)
            }),
    {
        self.prediction_miss_count = self.prediction_miss_count.saturating_add(count);
    }

    /// Counts a stalled frame.
    pub fn record_stall(&mut self)
        ensures
            *final(self) == (SessionMetrics { stall_count: saturating_inc(old(self).stall_count), ..*old(self) }),
    {
        self.stall_count = self.stall_count.saturating_add(1);
    }

    /// Counts a wait recommendation.
    pub fn record_wait_recommendation(&mut self)
        ensures
            *final(self) == (SessionMetrics {
                wait_recommendations: saturating_inc(old(self).wait_recommendations),
                ..*old(self)
            }),
    {
        self.wait_recommendations = self.wait_recommendations.saturating_add(1);
    }

    /// Counts a checksum comparison as matched or mismatched.
    pub fn record_checksum_comparison(&mut self, matched: bool)
        ensures
            *final(self) == after_checksum_comparison(*old(self), matched),
    {
        self.checksums_compared = self.checksums_compared.saturating_add(1);
        if matched {
            self.checksums_matched = self.checksums_matched.saturating_add(1);
        } else {
            self.checksums_mismatched = self.checksums_mismatched.saturating_add(1);
        }
    }

    /// Raises the event queue high-water mark to `len` if it is larger.
    pub fn observe_event_queue_len(&mut self, len: usize)
        ensures
            *final(self) == (SessionMetrics {
                event_queue_high_water: max_u64(old(self).event_queue_high_water, len as u64),
                ..*old(self)
            }),
    {
        let len = len as u64;
        if len > self.event_queue_high_water {
            self.event_queue_high_water = len;
        }
    }

    /// Raises the checksum history high-water mark to `len` if it is larger.
    pub fn observe_checksum_history_len(&mut self, len: usize)
        ensures
            *final(self) == (SessionMetrics {
                checksum_history_high_water: max_u64(old(self).checksum_history_high_water, len as u64),
                ..*old(self)
            }),
    {
        let len = len as u64;
        if len > self.checksum_history_high_water {
            self.checksum_history_high_water = len;
        }
    }
}

/// How a hot join went, from the joining peer's side.
#[derive(Debug, Clone, Copy, PartialEq, Eq)]
pub struct HotJoinMetrics {
    /// Whether the join reached the running state.
    pub completed: bool,
    /// Polls until the session ran.
    pub polls_to_running: u64,
    /// Milliseconds until the session ran.
    pub millis_to_running: u64,
}

impl Default for HotJoinMetrics {
    /// Not completed, nothing counted.
    fn default() -> (r: Self)
        ensures
            r == (HotJoinMetrics { completed: false, polls_to_running: 0, millis_to_running: 0 }),
    {
        HotJoinMetrics { completed: false, polls_to_running: 0, millis_to_running: 0 }
    }
}

/// Counters and gauges of the connection to one peer.
#[derive(Debug, Clone, Copy, PartialEq, Eq)]
pub struct PeerMetrics {
    /// Bytes sent.
    pub bytes_sent: u64,
    /// Bytes received.
    pub bytes_received: u64,
    /// Packets sent.
    pub packets_sent: u64,
    /// Packets received.
    pub packets_received: u64,
    /// Messages sent, by kind.
    pub messages_sent_by_kind: MessageKindCounts,
    /// Messages received, by kind.
    pub messages_received_by_kind: MessageKindCounts,
    /// Input bytes before compression.
    pub input_bytes_pre_compression: u64,
    /// Input bytes after compression.
    pub input_bytes_post_compression: u64,
    /// Messages waiting to be sent.
    pub pending_output_len: u64,
    /// Checksums waiting to be compared.
    pub pending_checksums_len: u64,
    /// The round-trip time, in milliseconds.
    pub ping_ms: u128,
    /// How many frames the peer is ahead.
    pub remote_frame_advantage: i32,
}

impl Default for PeerMetrics {
    /// Every counter and gauge at zero.
    fn default() -> (r: Self)
        ensures
            r.bytes_sent == 0,
            r.bytes_received == 0,
            r.packets_sent == 0,
            r.packets_received == 0,
            r.messages_sent_by_kind@.len() == MessageKind::COUNT,
            forall|i: int| 0 <= i < MessageKind::COUNT ==> #[trigger] r.messages_sent_by_kind@[i] == 0,
            r.messages_received_by_kind@.len() == MessageKind::COUNT,
            forall|i: int|
                0 <= i < MessageKind::COUNT ==> #[trigger] r.messages_received_by_kind@[i] == 0,
            r.input_bytes_pre_compression == 0,
            r.input_bytes_post_compression == 0,
            r.pending_output_len == 0,
            r.pending_checksums_len == 0,
            r.ping_ms == 0,
            r.remote_frame_advantage == 0,
    {
        PeerMetrics {
            bytes_sent: 0,
            bytes_received: 0,
            packets_sent: 0,
            packets_received: 0,
            messages_sent_by_kind: MessageKindCounts::default(),
            messages_received_by_kind: MessageKindCounts::default(),
            input_bytes_pre_compression: 0,
            input_bytes_post_compression: 0,
            pending_output_len: 0,
            pending_checksums_len: 0,
            ping_ms: 0,
            remote_frame_advantage: 0,
        }
    }
}

/// Total simulation work is the forward frames plus the resimulated ones:
/// forward frames and rollbacks keep `frames_advanced == visual_frames +
/// resimulated_frames` as long as no counter saturates.
pub proof fn law_frames_advanced_identity(m: SessionMetrics, lag: u64, depth: usize)
    requires
        m.frames_advanced == m.visual_frames + m.resimulated_frames,
    ensures
        m.frames_advanced < u64::MAX ==> ({
            let n = after_forward_advance(m, lag);
            n.frames_advanced == n.visual_frames + n.resimulated_frames
        }),
        m.frames_advanced + depth <= u64::MAX ==> ({
            let n = after_rollback(m, depth);
            n.frames_advanced == n.visual_frames + n.resimulated_frames
        }),
{
}

/// The confirmation-lag maximum is the largest lag ever sampled: a forward
/// frame sets the gauge to its lag, and the maximum never goes down, is at
/// least the new lag, and is either the old maximum or the new lag. Over two
/// frames it is at least both lags.
pub proof fn law_confirmation_lag_max_is_largest_sample(m: SessionMetrics, a: u64, b: u64)
    ensures
        after_forward_advance(m, a).confirmation_lag_current == a,
        after_forward_advance(m, a).confirmation_lag_max >= m.confirmation_lag_max,
        after_forward_advance(m, a).confirmation_lag_max >= a,
        after_forward_advance(m, a).confirmation_lag_max == m.confirmation_lag_max
            || after_forward_advance(m, a).confirmation_lag_max == a,
        ({
            let n = after_forward_advance(after_forward_advance(m, a), b);
            &&& n.confirmation_lag_max >= a
            &&& n.confirmation_lag_max >= b
            &&& n.confirmation_lag_max >= m.confirmation_lag_max
            &&& n.confirmation_lag_current == b
        }),
{
}

/// The deepest rollback never goes down: a rollback of `depth > 0` frames
/// leaves a maximum depth that is at least the old one and at least the
/// depth (capped at `u32::MAX`), and is one of the two; a depth of 0 changes
/// nothing. Over two rollbacks it is at least both depths.
pub proof fn law_max_rollback_depth_is_deepest(m: SessionMetrics, a: usize, b: usize)
    ensures
        after_rollback(m, a).max_rollback_depth >= m.max_rollback_depth,
        a > 0 && a <= u32::MAX ==> after_rollback(m, a).max_rollback_depth >= a,
        a > u32::MAX ==> after_rollback(m, a).max_rollback_depth == u32::MAX,
        a == 0 ==> after_rollback(m, a).max_rollback_depth == m.max_rollback_depth,
        after_rollback(m, a).max_rollback_depth == m.max_rollback_depth
            || after_rollback(m, a).max_rollback_depth == depth_u32(a),
        ({
            let n = after_rollback(after_rollback(m, a), b);
            &&& n.max_rollback_depth >= m.max_rollback_depth
            &&& a <= u32::MAX ==> n.max_rollback_depth >= a
            &&& b <= u32::MAX ==> n.max_rollback_depth >= b
        }),
{
}

/// Every rollback lands in exactly one histogram bucket: when the buckets
/// add up to the rollback count, they still do after a rollback, as long as
/// the count does not saturate.
pub proof fn law_histogram_counts_rollbacks(m: SessionMetrics, depth: usize)
    requires
        m.rollback_depth_histogram@.len() == RollbackDepthHistogram::BUCKETS,
        seq_sum(m.rollback_depth_histogram@) == m.rollback_count,
        m.rollback_count < u64::MAX,
        depth > 0,
    ensures
        ({
            let h = m.rollback_depth_histogram@;
            let b = depth_bucket(depth as int);
            let h2 = h.update(b, saturating_inc(h[b]));
            &&& seq_sum(h2) == after_rollback(m, depth).rollback_count
            &&& saturating_total(h2) == after_rollback(m, depth).rollback_count
        }),
{
    let h = m.rollback_depth_histogram@;
    let b = depth_bucket(depth as int);
    lemma_entry_le_sum(h, b);
    lemma_seq_sum_update(h, b, saturating_inc(h[b]));
    lemma_saturating_total_exact(h.update(b, saturating_inc(h[b])));
}

/// An entry of a sequence of `u64`s is at most its sum.
proof fn lemma_entry_le_sum(s: Seq<u64>, i: int)
    requires
        0 <= i < s.len(),
    ensures
        s[i] <= seq_sum(s),
    decreases s.len(),
{
    lemma_seq_sum_nonneg(s.drop_last());
    if i < s.len() - 1 {
        lemma_entry_le_sum(s.drop_last(), i);
    }
}

/// Every compared checksum either matched or not: a comparison keeps
/// `checksums_compared == checksums_matched + checksums_mismatched` as long
/// as no counter saturates.
pub proof fn law_checksum_comparisons_split(m: SessionMetrics, matched: bool)
    requires
        m.checksums_compared == m.checksums_matched + m.checksums_mismatched,
        m.checksums_compared < u64::MAX,
    ensures
        ({
            let n = after_checksum_comparison(m, matched);
            n.checksums_compared == n.checksums_matched + n.checksums_mismatched
        }),
{
}

/// A high-water mark never goes down and is at least every length
/// observed.
pub proof fn law_high_water_mark(mark: u64, len: u64)
    ensures
        max_u64(mark, len) >= mark,
        max_u64(mark, len) >= len,
        max_u64(mark, len) == mark || max_u64(mark, len) == len,
{
}

/// Each event kind has its own label, and none is empty.
pub proof fn law_event_labels_distinct(a: EventKind, b: EventKind)
    ensures
        a.label().len() > 0,
        a != b ==> a.label() != b.label(),
{
    reveal_strlit("synchronizing");
    reveal_strlit("synchronized");
    reveal_strlit("disconnected");
    reveal_strlit("network_interrupted");
    reveal_strlit("network_resumed");
    reveal_strlit("wait_recommendation");
    reveal_strlit("desync_detected");
    reveal_strlit("sync_timeout");
    reveal_strlit("replay_desync");
    reveal_strlit("spectator_divergence");
    reveal_strlit("input_delay_recommendation");
    reveal_strlit("peer_dropped");
    reveal_strlit("join_requested");
    reveal_strlit("peer_joined");
    if a != b && a.label() == b.label() {
        assert(a.label()[0] == b.label()[0]);
        assert(a.label()[1] == b.label()[1]);
        assert(a.label()[5] == b.label()[5]);
        assert(a.label().len() > 10 ==> a.label()[10] == b.label()[10]);
    }
}

/// Each message kind has its own label, and none is empty.
pub proof fn law_message_labels_distinct(a: MessageKind, b: MessageKind)
    ensures
        a.label().len() > 0,
        a != b ==> a.label() != b.label(),
{
    reveal_strlit("sync_request");
    reveal_strlit("sync_reply");
    reveal_strlit("input");
    reveal_strlit("input_ack");
    reveal_strlit("quality_report");
    reveal_strlit("quality_reply");
    reveal_strlit("checksum_report");
    reveal_strlit("keep_alive");
    reveal_strlit("floor_request");
    reveal_strlit("floor_reply");
    reveal_strlit("join_request");
    reveal_strlit("state_snapshot");
    reveal_strlit("state_snapshot_ack");
    reveal_strlit("reactivate_slot");
    reveal_strlit("reactivate_slot_ack");
    reveal_strlit("join_committed");
    reveal_strlit("join_aborted");
    if a != b && a.label() == b.label() {
        assert(a.label()[0] == b.label()[0]);
        assert(a.label()[5] == b.label()[5]);
        assert(a.label().len() == b.label().len());
    }
}

/// Each event kind has its own position below [`EventKind::COUNT`], so the
/// positions index [`EventKind::all`] one to one.
pub proof fn law_event_positions_distinct(a: EventKind, b: EventKind)
    ensures
        0 <= a.position() < EventKind::COUNT,
        a != b ==> a.position() != b.position(),
{
}

/// Each message kind has its own position below [`MessageKind::COUNT`], so
/// the positions index [`MessageKind::all`] one to one.
pub proof fn law_message_positions_distinct(a: MessageKind, b: MessageKind)
    ensures
        0 <= a.position() < MessageKind::COUNT,
        a != b ==> a.position() != b.position(),
{
}

} // verus!
