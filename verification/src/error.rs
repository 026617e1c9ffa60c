//! Error types of the library, each with its message text stated exactly.
use vstd::prelude::*;
use vstd::string::StringExecFns;

use crate::frame::{frame_text, push_frame_text, Frame, PlayerHandle};
use crate::seconds::{hundredths_of_seconds, seconds_hundredths};
use crate::text::{
    decimal, digit_char, push_decimal, push_signed_decimal, push_wide_decimal, signed_decimal,
};

verus! {

/// An empty string.
pub fn empty_string() -> (r: String)
    ensures
        r@ == Seq::<char>::empty(),
{
    String::new()
}

/// Index out of bounds, with the collection's name, the index and the length.
#[derive(Debug, Clone, Copy, PartialEq, Eq, Hash)]
pub struct IndexOutOfBounds {
    /// The name of the collection that was accessed.
    pub name: &'static str,
    /// The index that was attempted.
    pub index: usize,
    /// The length of the collection.
    pub length: usize,
}

impl IndexOutOfBounds {
    /// The message: `{name} index {index} out of bounds (length: {length})`.
    pub open spec fn text(&self) -> Seq<char> {
        self.name@ + " index "@ + decimal(self.index as nat) + " out of bounds (length: "@
            + decimal(self.length as nat) + ")"@
    }

    /// Appends the message to `s`.
    pub fn push_text(&self, s: &mut String)
        ensures
            final(s)@ == old(s)@ + self.text(),
    {
        s.append(self.name);
        s.append(" index ");
        push_decimal(s, self.index as u64);
        s.append(" out of bounds (length: ");
        push_decimal(s, self.length as u64);
        s.append(")");
    }

    /// The message as a string.
    pub fn to_string(&self) -> (r: String)
        ensures
            r@ == self.text(),
    {
        let mut s = empty_string();
        self.push_text(&mut s);
        s
    }
}

/// Why a frame was invalid.
#[derive(Debug, Clone, Copy, PartialEq, Eq, Hash)]
#[non_exhaustive]
pub enum InvalidFrameReason {
    /// Frame is NULL_FRAME (-1).
    NullFrame,
    /// Frame is negative (other than NULL_FRAME).
    Negative,
    /// Frame must be non-negative.
    MustBeNonNegative,
    /// Frame is not in the past (must load a frame before current).
    NotInPast {
        /// The current frame.
        current_frame: Frame,
    },
    /// Frame is outside the prediction window.
    OutsidePredictionWindow {
        /// The current frame.
        current_frame: Frame,
        /// The maximum prediction depth.
        max_prediction: usize,
    },
    /// The saved state for this frame has the wrong frame number.
    WrongSavedFrame {
        /// The frame number in the saved state.
        saved_frame: Frame,
    },
    /// Frame is not confirmed yet.
    NotConfirmed {
        /// The highest confirmed frame.
        confirmed_frame: Frame,
    },
    /// Frame is NULL or negative (general validation).
    NullOrNegative,
    /// Custom reason.
    Custom(&'static str),
}

impl InvalidFrameReason {
    /// The message of each reason.
    pub open spec fn text(&self) -> Seq<char> {
        match *self {
            InvalidFrameReason::NullFrame => "cannot load NULL_FRAME"@,
            InvalidFrameReason::Negative => "frame is negative"@,
            InvalidFrameReason::MustBeNonNegative => "frame must be non-negative"@,
            InvalidFrameReason::NotInPast { current_frame } => "must load frame in the past (current: "@
                + frame_text(current_frame@) + ")"@,
            InvalidFrameReason::OutsidePredictionWindow { current_frame, max_prediction } =>
                "cannot load frame outside of prediction window (current: "@ + frame_text(
                current_frame@,
            ) + ", max_prediction: "@ + decimal(max_prediction as nat) + ")"@,
            InvalidFrameReason::WrongSavedFrame { saved_frame } => "saved state has wrong frame (found: "@
                + frame_text(saved_frame@) + ")"@,
            InvalidFrameReason::NotConfirmed { confirmed_frame } =>
                "frame is not confirmed yet (confirmed_frame: "@ + frame_text(confirmed_frame@)
                + ")"@,
            InvalidFrameReason::NullOrNegative => "frame is NULL or negative"@,
            InvalidFrameReason::Custom(msg) => msg@,
        }
    }

    /// Appends the message to `s`.
    pub fn push_text(&self, s: &mut String)
        ensures
            final(s)@ == old(s)@ + self.text(),
    {
        match *self {
            InvalidFrameReason::NullFrame => s.append("cannot load NULL_FRAME"),
            InvalidFrameReason::Negative => s.append("frame is negative"),
            InvalidFrameReason::MustBeNonNegative => s.append("frame must be non-negative"),
            InvalidFrameReason::NotInPast { current_frame } => {
                s.append("must load frame in the past (current: ");
                push_frame_text(s, current_frame);
                s.append(")");
            },
            InvalidFrameReason::OutsidePredictionWindow { current_frame, max_prediction } => {
                s.append("cannot load frame outside of prediction window (current: ");
                push_frame_text(s, current_frame);
                s.append(", max_prediction: ");
                push_decimal(s, max_prediction as u64);
                s.append(")");
            },
            InvalidFrameReason::WrongSavedFrame { saved_frame } => {
                s.append("saved state has wrong frame (found: ");
                push_frame_text(s, saved_frame);
                s.append(")");
            },
            InvalidFrameReason::NotConfirmed { confirmed_frame } => {
                s.append("frame is not confirmed yet (confirmed_frame: ");
                push_frame_text(s, confirmed_frame);
                s.append(")");
            },
            InvalidFrameReason::NullOrNegative => s.append("frame is NULL or negative"),
            InvalidFrameReason::Custom(msg) => s.append(msg),
        }
    }

    /// The message as a string.
    pub fn to_string(&self) -> (r: String)
        ensures
            r@ == self.text(),
    {
        let mut s = empty_string();
        self.push_text(&mut s);
        s
    }
}

/// Why an RLE decode operation failed.
#[derive(Debug, Clone, Copy, PartialEq, Eq, Hash)]
#[non_exhaustive]
pub enum RleDecodeReason {
    /// The bitfield index was out of bounds during decode.
    BitfieldIndexOutOfBounds,
    /// The destination slice was out of bounds during decode.
    DestinationSliceOutOfBounds,
    /// The source slice was out of bounds during decode.
    SourceSliceOutOfBounds,
    /// The encoded data was truncated (offset exceeded buffer length).
    TruncatedData {
        /// The offset that was reached.
        offset: usize,
        /// The buffer length.
        buffer_len: usize,
    },
}

impl RleDecodeReason {
    /// The message of each reason.
    pub open spec fn text(&self) -> Seq<char> {
        match *self {
            RleDecodeReason::BitfieldIndexOutOfBounds => "bitfield index out of bounds"@,
            RleDecodeReason::DestinationSliceOutOfBounds => "destination slice out of bounds"@,
            RleDecodeReason::SourceSliceOutOfBounds => "source slice out of bounds"@,
            RleDecodeReason::TruncatedData { offset, buffer_len } => "truncated data: offset "@
                + decimal(offset as nat) + " exceeds buffer length "@ + decimal(buffer_len as nat),
        }
    }

    /// Appends the message to `s`.
    pub fn push_text(&self, s: &mut String)
        ensures
            final(s)@ == old(s)@ + self.text(),
    {
        match *self {
            RleDecodeReason::BitfieldIndexOutOfBounds => s.append("bitfield index out of bounds"),
            RleDecodeReason::DestinationSliceOutOfBounds => s.append(
                "destination slice out of bounds",
            ),
            RleDecodeReason::SourceSliceOutOfBounds => s.append("source slice out of bounds"),
            RleDecodeReason::TruncatedData { offset, buffer_len } => {
                s.append("truncated data: offset ");
                push_decimal(s, offset as u64);
                s.append(" exceeds buffer length ");
                push_decimal(s, buffer_len as u64);
            },
        }
    }

    /// The message as a string.
    pub fn to_string(&self) -> (r: String)
        ensures
            r@ == self.text(),
    {
        let mut s = empty_string();
        self.push_text(&mut s);
        s
    }
}

/// Why a delta decode operation failed.
#[derive(Debug, Clone, Copy, PartialEq, Eq, Hash)]
#[non_exhaustive]
pub enum DeltaDecodeReason {
    /// The reference bytes were empty.
    EmptyReference,
    /// The data length is not a multiple of the reference length.
    DataLengthMismatch {
        /// The length of the data buffer.
        data_len: usize,
        /// The length of the reference buffer.
        reference_len: usize,
    },
    /// The reference bytes index was out of bounds.
    ReferenceIndexOutOfBounds {
        /// The index that was out of bounds.
        index: usize,
        /// The length of the reference buffer.
        length: usize,
    },
    /// The data index was out of bounds.
    DataIndexOutOfBounds {
        /// The index that was out of bounds.
        index: usize,
        /// The length of the data buffer.
        length: usize,
    },
}

impl DeltaDecodeReason {
    /// The message of each reason.
    pub open spec fn text(&self) -> Seq<char> {
        match *self {
            DeltaDecodeReason::EmptyReference => "reference bytes is empty"@,
            DeltaDecodeReason::DataLengthMismatch { data_len, reference_len } => "data length "@
                + decimal(data_len as nat) + " is not a multiple of reference length "@ + decimal(
                reference_len as nat,
            ),
            DeltaDecodeReason::ReferenceIndexOutOfBounds { index, length } =>
                "reference bytes index "@ + decimal(index as nat) + " out of bounds (length: "@
                + decimal(length as nat) + ")"@,
            DeltaDecodeReason::DataIndexOutOfBounds { index, length } => "data index "@ + decimal(
                index as nat,
            ) + " out of bounds (length: "@ + decimal(length as nat) + ")"@,
        }
    }

    /// Appends the message to `s`.
    pub fn push_text(&self, s: &mut String)
        ensures
            final(s)@ == old(s)@ + self.text(),
    {
        match *self {
            DeltaDecodeReason::EmptyReference => s.append("reference bytes is empty"),
            DeltaDecodeReason::DataLengthMismatch { data_len, reference_len } => {
                s.append("data length ");
                push_decimal(s, data_len as u64);
                s.append(" is not a multiple of reference length ");
                push_decimal(s, reference_len as u64);
            },
            DeltaDecodeReason::ReferenceIndexOutOfBounds { index, length } => {
                s.append("reference bytes index ");
                push_decimal(s, index as u64);
                s.append(" out of bounds (length: ");
                push_decimal(s, length as u64);
                s.append(")");
            },
            DeltaDecodeReason::DataIndexOutOfBounds { index, length } => {
                s.append("data index ");
                push_decimal(s, index as u64);
                s.append(" out of bounds (length: ");
                push_decimal(s, length as u64);
                s.append(")");
            },
        }
    }

    /// The message as a string.
    pub fn to_string(&self) -> (r: String)
        ensures
            r@ == self.text(),
    {
        let mut s = empty_string();
        self.push_text(&mut s);
        s
    }
}

/// Specific internal error kinds.
#[derive(Debug, Clone, Copy, PartialEq, Eq, Hash)]
#[non_exhaustive]
pub enum InternalErrorKind {
    /// An index was out of bounds.
    IndexOutOfBounds(IndexOutOfBounds),
    /// Failed to get synchronized inputs.
    SynchronizedInputsFailed {
        /// The frame at which inputs were requested.
        frame: Frame,
    },
    /// Player inputs vector is empty.
    EmptyPlayerInputs,
    /// Buffer index out of bounds (generic).
    BufferIndexOutOfBounds,
    /// Player handle not found when checking disconnect status.
    DisconnectStatusNotFound {
        /// The player handle that was not found.
        player_handle: PlayerHandle,
    },
    /// Endpoint not found for a registered remote player.
    EndpointNotFoundForRemote {
        /// The player handle for which the endpoint was not found.
        player_handle: PlayerHandle,
    },
    /// Endpoint not found for a registered spectator.
    EndpointNotFoundForSpectator {
        /// The player handle for which the endpoint was not found.
        player_handle: PlayerHandle,
    },
    /// Connection status index out of bounds when updating local connection status.
    ConnectionStatusIndexOutOfBounds {
        /// The player handle that was out of bounds.
        player_handle: PlayerHandle,
    },
    /// RLE decode operation failed.
    RleDecodeError {
        /// The specific reason for the RLE decode failure.
        reason: RleDecodeReason,
    },
    /// Delta decode operation failed.
    DeltaDecodeError {
        /// The specific reason for the delta decode failure.
        reason: DeltaDecodeReason,
    },
    /// Replicating the last input over a larger frame delay failed.
    InputQueueGapFillFailed {
        /// The frame at which the fill stopped.
        frame: Frame,
    },
    /// Custom error.
    Custom(&'static str),
}

impl InternalErrorKind {
    /// The message of each kind; player handles appear as bare numbers.
    pub open spec fn text(&self) -> Seq<char> {
        match *self {
            InternalErrorKind::IndexOutOfBounds(iob) => iob.text(),
            InternalErrorKind::SynchronizedInputsFailed { frame } =>
                "failed to get synchronized inputs for frame "@ + frame_text(frame@),
            InternalErrorKind::EmptyPlayerInputs => "player inputs vector is empty"@,
            InternalErrorKind::BufferIndexOutOfBounds => "buffer index out of bounds"@,
            InternalErrorKind::DisconnectStatusNotFound { player_handle } =>
                "disconnect status not found for player handle "@ + decimal(player_handle@),
            InternalErrorKind::EndpointNotFoundForRemote { player_handle } =>
                "endpoint not found for registered remote player "@ + decimal(player_handle@),
            InternalErrorKind::EndpointNotFoundForSpectator { player_handle } =>
                "endpoint not found for registered spectator "@ + decimal(player_handle@),
            InternalErrorKind::ConnectionStatusIndexOutOfBounds { player_handle } =>
                "connection status index out of bounds for player handle "@ + decimal(
                player_handle@,
            ),
            InternalErrorKind::RleDecodeError { reason } => "RLE decode failed: "@ + reason.text(),
            InternalErrorKind::DeltaDecodeError { reason } => "delta decode failed: "@
                + reason.text(),
            InternalErrorKind::InputQueueGapFillFailed { frame } =>
                "input queue gap fill failed at frame "@ + frame_text(frame@),
            InternalErrorKind::Custom(msg) => msg@,
        }
    }

    /// Appends the message to `s`.
    pub fn push_text(&self, s: &mut String)
        ensures
            final(s)@ == old(s)@ + self.text(),
    {
        match *self {
            InternalErrorKind::IndexOutOfBounds(iob) => iob.push_text(s),
            InternalErrorKind::SynchronizedInputsFailed { frame } => {
                s.append("failed to get synchronized inputs for frame ");
                push_frame_text(s, frame);
            },
            InternalErrorKind::EmptyPlayerInputs => s.append("player inputs vector is empty"),
            InternalErrorKind::BufferIndexOutOfBounds => s.append("buffer index out of bounds"),
            InternalErrorKind::DisconnectStatusNotFound { player_handle } => {
                s.append("disconnect status not found for player handle ");
                push_decimal(s, player_handle.as_usize() as u64);
            },
            InternalErrorKind::EndpointNotFoundForRemote { player_handle } => {
                s.append("endpoint not found for registered remote player ");
                push_decimal(s, player_handle.as_usize() as u64);
            },
            InternalErrorKind::EndpointNotFoundForSpectator { player_handle } => {
                s.append("endpoint not found for registered spectator ");
                push_decimal(s, player_handle.as_usize() as u64);
            },
            InternalErrorKind::ConnectionStatusIndexOutOfBounds { player_handle } => {
                s.append("connection status index out of bounds for player handle ");
                push_decimal(s, player_handle.as_usize() as u64);
            },
            InternalErrorKind::RleDecodeError { reason } => {
                s.append("RLE decode failed: ");
                reason.push_text(s);
            },
            InternalErrorKind::DeltaDecodeError { reason } => {
                s.append("delta decode failed: ");
                reason.push_text(s);
            },
            InternalErrorKind::InputQueueGapFillFailed { frame } => {
                s.append("input queue gap fill failed at frame ");
                push_frame_text(s, frame);
            },
            InternalErrorKind::Custom(msg) => s.append(msg),
        }
    }

    /// The message as a string.
    pub fn to_string(&self) -> (r: String)
        ensures
            r@ == self.text(),
    {
        let mut s = empty_string();
        self.push_text(&mut s);
        s
    }
}

/// The text of `n / d` as the `f64` quotient is printed with two decimals
/// (`inf` when `d` is zero).
pub open spec fn seconds_text(n: nat, d: nat) -> Seq<char> {
    if d == 0 {
        "inf"@
    } else {
        let h = seconds_hundredths(n, d);
        decimal(h / 100) + seq!['.', digit_char((h % 100) / 10), digit_char(h % 10)]
    }
}

/// Appends `n / d` with two decimals, or `inf` when `d` is zero.
fn push_seconds(s: &mut String, n: usize, d: usize)
    ensures
        final(s)@ == old(s)@ + seconds_text(n as nat, d as nat),
{
    if d == 0 {
        s.append("inf");
        return ;
    }
    let h = hundredths_of_seconds(n, d);
    push_wide_decimal(s, h / 100);
    s.append(".");
    proof {
        reveal_strlit(".");
    }
    let tens = crate::text::digit_string(((h % 100) / 10) as u64);
    s.append(tens);
    let ones = crate::text::digit_string((h % 10) as u64);
    s.append(ones);
    assert(s@ =~= old(s)@ + seconds_text(n as nat, d as nat));
}

/// Why a request was invalid.
#[derive(Debug, Clone, Copy, PartialEq, Eq, Hash)]
#[non_exhaustive]
pub enum InvalidRequestKind {
    /// The player handle is already in use.
    PlayerHandleInUse {
        /// The handle that is already in use.
        handle: PlayerHandle,
    },
    /// The player handle does not refer to a local player.
    NotLocalPlayer {
        /// The handle that is not a local player.
        handle: PlayerHandle,
    },
    /// The player handle does not refer to a remote player or spectator.
    NotRemotePlayerOrSpectator {
        /// The handle that is not a remote player or spectator.
        handle: PlayerHandle,
    },
    /// Invalid handle for a local player.
    InvalidLocalPlayerHandle {
        /// The invalid player handle.
        handle: PlayerHandle,
        /// The number of players in the session.
        num_players: usize,
    },
    /// Invalid handle for a remote player.
    InvalidRemotePlayerHandle {
        /// The invalid player handle.
        handle: PlayerHandle,
        /// The number of players in the session.
        num_players: usize,
    },
    /// Invalid handle for a spectator.
    InvalidSpectatorHandle {
        /// The invalid player handle.
        handle: PlayerHandle,
        /// The number of players in the session.
        num_players: usize,
    },
    /// Missing local input for one or more players.
    MissingLocalInput,
    /// No confirmed input available for the requested frame.
    NoConfirmedInput {
        /// The frame for which no confirmed input was available.
        frame: Frame,
    },
    /// A configuration value is outside the allowed range.
    ConfigValueOutOfRange {
        /// The name of the configuration field.
        field: &'static str,
        /// The minimum allowed value.
        min: u64,
        /// The maximum allowed value.
        max: u64,
        /// The actual value that was provided.
        actual: u64,
    },
    /// A Duration configuration value is outside the allowed range.
    DurationConfigOutOfRange {
        /// The name of the configuration field.
        field: &'static str,
        /// The minimum allowed value in milliseconds.
        min_ms: u64,
        /// The maximum allowed value in milliseconds.
        max_ms: u64,
        /// The actual value provided in milliseconds.
        actual_ms: u64,
    },
    /// Frame delay exceeds the maximum allowed for the queue length.
    FrameDelayTooLarge {
        /// The requested delay.
        delay: usize,
        /// The maximum allowed delay.
        max_delay: usize,
    },
    /// Lowering the frame delay after inputs were added is not supported.
    InputDelayDecreaseUnsupported {
        /// The delay in force.
        current: usize,
        /// The smaller delay that was requested.
        requested: usize,
    },
    /// Input delay exceeds the maximum allowed for the given FPS.
    InputDelayTooLarge {
        /// The requested input delay in frames.
        delay_frames: usize,
        /// The frames per second (for computing actual delay in seconds).
        fps: usize,
        /// The maximum allowed seconds.
        max_seconds_limit: usize,
    },
    /// A buffer could not be allocated.
    AllocationFailed {
        /// The buffer that was to be allocated.
        context: &'static str,
        /// How many elements were requested.
        requested_elements: u64,
    },
    /// Input queue length is too small (minimum is 2).
    QueueLengthTooSmall {
        /// The requested length.
        length: usize,
    },
    /// Event queue size is too small (minimum is 10).
    EventQueueSizeTooSmall {
        /// The requested size.
        size: usize,
    },
    /// A ring buffer of size zero was asked for an index.
    ZeroBufferSize,
    /// Number of players must be greater than 0.
    ZeroPlayers,
    /// FPS must be greater than 0.
    ZeroFps,
    /// Not enough players have been registered.
    NotEnoughPlayers {
        /// The expected number of players.
        expected: usize,
        /// The actual number of players registered.
        actual: usize,
    },
    /// Check distance is too large for the prediction window.
    CheckDistanceTooLarge {
        /// The requested check distance.
        check_dist: usize,
        /// The maximum prediction window.
        max_prediction: usize,
    },
    /// Max frames behind is invalid.
    MaxFramesBehindInvalid {
        /// The requested value.
        value: usize,
        /// The buffer size.
        buffer_size: usize,
    },
    /// Catchup speed is invalid.
    CatchupSpeedInvalid {
        /// The requested catchup speed.
        speed: usize,
        /// The maximum frames behind value.
        max_frames_behind: usize,
    },
    /// Cannot disconnect: player handle is invalid.
    DisconnectInvalidHandle {
        /// The invalid handle.
        handle: PlayerHandle,
    },
    /// Cannot disconnect a local player.
    DisconnectLocalPlayer {
        /// The local player handle.
        handle: PlayerHandle,
    },
    /// Player is already disconnected.
    AlreadyDisconnected {
        /// The already disconnected handle.
        handle: PlayerHandle,
    },
    /// Operation called in wrong protocol state.
    WrongProtocolState {
        /// The current state name.
        current_state: &'static str,
        /// The expected state name.
        expected_state: &'static str,
    },
    /// Custom error.
    Custom(&'static str),
}

impl InvalidRequestKind {
    /// The message of each kind; player handles appear as bare numbers.
    pub open spec fn text(&self) -> Seq<char> {
        match *self {
            InvalidRequestKind::PlayerHandleInUse { handle } => "player handle "@ + decimal(handle@)
                + " is already in use"@,
            InvalidRequestKind::NotLocalPlayer { handle } => "player handle "@ + decimal(handle@)
                + " does not refer to a local player"@,
            InvalidRequestKind::NotRemotePlayerOrSpectator { handle } => "player handle "@
                + decimal(handle@) + " does not refer to a remote player or spectator"@,
            InvalidRequestKind::InvalidLocalPlayerHandle { handle, num_players } =>
                "invalid local player handle "@ + decimal(handle@) + ": num_players is "@ + decimal(
                num_players as nat,
            ),
            InvalidRequestKind::InvalidRemotePlayerHandle { handle, num_players } =>
                "invalid remote player handle "@ + decimal(handle@) + ": num_players is "@
                + decimal(num_players as nat),
            InvalidRequestKind::InvalidSpectatorHandle { handle, num_players } =>
                "invalid spectator handle "@ + decimal(handle@) + ": num_players is "@ + decimal(
                num_players as nat,
            ),
            InvalidRequestKind::MissingLocalInput => "missing local input for one or more players"@,
            InvalidRequestKind::NoConfirmedInput { frame } => "no confirmed input available for frame "@
                + frame_text(frame@),
            InvalidRequestKind::ConfigValueOutOfRange { field, min, max, actual } =>
                "configuration value '"@ + field@ + "' is out of range: "@ + decimal(actual as nat)
                + " not in ["@ + decimal(min as nat) + ", "@ + decimal(max as nat) + "]"@,
            InvalidRequestKind::DurationConfigOutOfRange { field, min_ms, max_ms, actual_ms } =>
                "duration configuration '"@ + field@ + "' is out of range: "@ + decimal(
                actual_ms as nat,
            ) + "ms not in ["@ + decimal(min_ms as nat) + "ms, "@ + decimal(max_ms as nat)
                + "ms]"@,
            InvalidRequestKind::FrameDelayTooLarge { delay, max_delay } => "frame delay "@
                + decimal(delay as nat) + " exceeds maximum allowed delay "@ + decimal(
                max_delay as nat,
            ),
            InvalidRequestKind::InputDelayDecreaseUnsupported { current, requested } =>
                "cannot decrease frame delay from "@ + decimal(current as nat) + " to "@ + decimal(
                requested as nat,
            ) + " after inputs have been added"@,
            InvalidRequestKind::InputDelayTooLarge { delay_frames, fps, max_seconds_limit } =>
                "input delay "@ + decimal(delay_frames as nat) + " frames ("@ + seconds_text(
                delay_frames as nat,
                fps as nat,
            ) + "s) exceeds maximum allowed "@ + decimal(max_seconds_limit as nat) + "s"@,
            InvalidRequestKind::AllocationFailed { context, requested_elements } =>
                "failed to allocate "@ + decimal(requested_elements as nat) + " elements for "@
                + context@,
            InvalidRequestKind::QueueLengthTooSmall { length } => "input queue length "@ + decimal(
                length as nat,
            ) + " is too small (minimum is 2)"@,
            InvalidRequestKind::EventQueueSizeTooSmall { size } => "event queue size "@ + decimal(
                size as nat,
            ) + " is too small (minimum is 10)"@,
            InvalidRequestKind::ZeroBufferSize => "buffer size must be greater than 0"@,
            InvalidRequestKind::ZeroPlayers => "number of players must be greater than 0"@,
            InvalidRequestKind::ZeroFps => "FPS must be greater than 0"@,
            InvalidRequestKind::NotEnoughPlayers { expected, actual } =>
                "not enough players registered: expected "@ + decimal(expected as nat) + ", got "@
                + decimal(actual as nat),
            InvalidRequestKind::CheckDistanceTooLarge { check_dist, max_prediction } =>
                "check distance "@ + decimal(check_dist as nat) + " is too large for prediction window "@
                + decimal(max_prediction as nat),
            InvalidRequestKind::MaxFramesBehindInvalid { value, buffer_size } =>
                "max frames behind "@ + decimal(value as nat) + " is invalid for buffer size "@
                + decimal(buffer_size as nat),
            InvalidRequestKind::CatchupSpeedInvalid { speed, max_frames_behind } =>
                "catchup speed "@ + decimal(speed as nat) + " is invalid for max frames behind "@
                + decimal(max_frames_behind as nat),
            InvalidRequestKind::DisconnectInvalidHandle { handle } =>
                "cannot disconnect: player handle "@ + decimal(handle@) + " is invalid"@,
            InvalidRequestKind::DisconnectLocalPlayer { handle } => "cannot disconnect local player "@
                + decimal(handle@),
            InvalidRequestKind::AlreadyDisconnected { handle } => "player "@ + decimal(handle@)
                + " is already disconnected"@,
            InvalidRequestKind::WrongProtocolState { current_state, expected_state } =>
                "operation called in wrong protocol state: current '"@ + current_state@
                + "', expected '"@ + expected_state@ + "'"@,
            InvalidRequestKind::Custom(msg) => msg@,
        }
    }

    /// Appends the message to `s`.
    pub fn push_text(&self, s: &mut String)
        ensures
            final(s)@ == old(s)@ + self.text(),
    {
        match *self {
            InvalidRequestKind::PlayerHandleInUse { handle } => {
                s.append("player handle ");
                push_decimal(s, handle.as_usize() as u64);
                s.append(" is already in use");
            },
            InvalidRequestKind::NotLocalPlayer { handle } => {
                s.append("player handle ");
                push_decimal(s, handle.as_usize() as u64);
                s.append(" does not refer to a local player");
            },
            InvalidRequestKind::NotRemotePlayerOrSpectator { handle } => {
                s.append("player handle ");
                push_decimal(s, handle.as_usize() as u64);
                s.append(" does not refer to a remote player or spectator");
            },
            InvalidRequestKind::InvalidLocalPlayerHandle { handle, num_players } => {
                s.append("invalid local player handle ");
                push_decimal(s, handle.as_usize() as u64);
                s.append(": num_players is ");
                push_decimal(s, num_players as u64);
            },
            InvalidRequestKind::InvalidRemotePlayerHandle { handle, num_players } => {
                s.append("invalid remote player handle ");
                push_decimal(s, handle.as_usize() as u64);
                s.append(": num_players is ");
                push_decimal(s, num_players as u64);
            },
            InvalidRequestKind::InvalidSpectatorHandle { handle, num_players } => {
                s.append("invalid spectator handle ");
                push_decimal(s, handle.as_usize() as u64);
                s.append(": num_players is ");
                push_decimal(s, num_players as u64);
            },
            InvalidRequestKind::MissingLocalInput => s.append(
                "missing local input for one or more players",
            ),
            InvalidRequestKind::NoConfirmedInput { frame } => {
                s.append("no confirmed input available for frame ");
                push_frame_text(s, frame);
            },
            InvalidRequestKind::ConfigValueOutOfRange { field, min, max, actual } => {
                s.append("configuration value '");
                s.append(field);
                s.append("' is out of range: ");
                push_decimal(s, actual);
                s.append(" not in [");
                push_decimal(s, min);
                s.append(", ");
                push_decimal(s, max);
                s.append("]");
            },
            InvalidRequestKind::DurationConfigOutOfRange { field, min_ms, max_ms, actual_ms } => {
                s.append("duration configuration '");
                s.append(field);
                s.append("' is out of range: ");
                push_decimal(s, actual_ms);
                s.append("ms not in [");
                push_decimal(s, min_ms);
                s.append("ms, ");
                push_decimal(s, max_ms);
                s.append("ms]");
            },
            InvalidRequestKind::FrameDelayTooLarge { delay, max_delay } => {
                s.append("frame delay ");
                push_decimal(s, delay as u64);
                s.append(" exceeds maximum allowed delay ");
                push_decimal(s, max_delay as u64);
            },
            InvalidRequestKind::InputDelayDecreaseUnsupported { current, requested } => {
                s.append("cannot decrease frame delay from ");
                push_decimal(s, current as u64);
                s.append(" to ");
                push_decimal(s, requested as u64);
                s.append(" after inputs have been added");
            },
            InvalidRequestKind::InputDelayTooLarge { delay_frames, fps, max_seconds_limit } => {
                s.append("input delay ");
                push_decimal(s, delay_frames as u64);
                s.append(" frames (");
                push_seconds(s, delay_frames, fps);
                s.append("s) exceeds maximum allowed ");
                push_decimal(s, max_seconds_limit as u64);
                s.append("s");
            },
            InvalidRequestKind::AllocationFailed { context, requested_elements } => {
                s.append("failed to allocate ");
                push_decimal(s, requested_elements);
                s.append(" elements for ");
                s.append(context);
            },
            InvalidRequestKind::QueueLengthTooSmall { length } => {
                s.append("input queue length ");
                push_decimal(s, length as u64);
                s.append(" is too small (minimum is 2)");
            },
            InvalidRequestKind::EventQueueSizeTooSmall { size } => {
                s.append("event queue size ");
                push_decimal(s, size as u64);
                s.append(" is too small (minimum is 10)");
            },
            InvalidRequestKind::ZeroBufferSize => s.append("buffer size must be greater than 0"),
            InvalidRequestKind::ZeroPlayers => s.append("number of players must be greater than 0"),
            InvalidRequestKind::ZeroFps => s.append("FPS must be greater than 0"),
            InvalidRequestKind::NotEnoughPlayers { expected, actual } => {
                s.append("not enough players registered: expected ");
                push_decimal(s, expected as u64);
                s.append(", got ");
                push_decimal(s, actual as u64);
            },
            InvalidRequestKind::CheckDistanceTooLarge { check_dist, max_prediction } => {
                s.append("check distance ");
                push_decimal(s, check_dist as u64);
                s.append(" is too large for prediction window ");
                push_decimal(s, max_prediction as u64);
            },
            InvalidRequestKind::MaxFramesBehindInvalid { value, buffer_size } => {
                s.append("max frames behind ");
                push_decimal(s, value as u64);
                s.append(" is invalid for buffer size ");
                push_decimal(s, buffer_size as u64);
            },
            InvalidRequestKind::CatchupSpeedInvalid { speed, max_frames_behind } => {
                s.append("catchup speed ");
                push_decimal(s, speed as u64);
                s.append(" is invalid for max frames behind ");
                push_decimal(s, max_frames_behind as u64);
            },
            InvalidRequestKind::DisconnectInvalidHandle { handle } => {
                s.append("cannot disconnect: player handle ");
                push_decimal(s, handle.as_usize() as u64);
                s.append(" is invalid");
            },
            InvalidRequestKind::DisconnectLocalPlayer { handle } => {
                s.append("cannot disconnect local player ");
                push_decimal(s, handle.as_usize() as u64);
            },
            InvalidRequestKind::AlreadyDisconnected { handle } => {
                s.append("player ");
                push_decimal(s, handle.as_usize() as u64);
                s.append(" is already disconnected");
            },
            InvalidRequestKind::WrongProtocolState { current_state, expected_state } => {
                s.append("operation called in wrong protocol state: current '");
                s.append(current_state);
                s.append("', expected '");
                s.append(expected_state);
                s.append("'");
            },
            InvalidRequestKind::Custom(msg) => s.append(msg),
        }
    }

    /// The message as a string.
    pub fn to_string(&self) -> (r: String)
        ensures
            r@ == self.text(),
    {
        let mut s = empty_string();
        self.push_text(&mut s);
        s
    }
}

/// Why serialization failed.
#[derive(Debug, Clone, Copy, PartialEq, Eq, Hash)]
#[non_exhaustive]
pub enum SerializationErrorKind {
    /// Failed to create a protocol endpoint for remote players.
    EndpointCreationFailed,
    /// Failed to create a protocol endpoint for spectators.
    SpectatorEndpointCreationFailed,
    /// Custom error.
    Custom(&'static str),
}

impl SerializationErrorKind {
    /// The message of each kind.
    pub open spec fn text(&self) -> Seq<char> {
        match *self {
            SerializationErrorKind::EndpointCreationFailed =>
                "failed to create protocol endpoint for remote players"@,
            SerializationErrorKind::SpectatorEndpointCreationFailed =>
                "failed to create protocol endpoint for spectators"@,
            SerializationErrorKind::Custom(msg) => msg@,
        }
    }

    /// Appends the message to `s`.
    pub fn push_text(&self, s: &mut String)
        ensures
            final(s)@ == old(s)@ + self.text(),
    {
        match *self {
            SerializationErrorKind::EndpointCreationFailed => s.append(
                "failed to create protocol endpoint for remote players",
            ),
            SerializationErrorKind::SpectatorEndpointCreationFailed => s.append(
                "failed to create protocol endpoint for spectators",
            ),
            SerializationErrorKind::Custom(msg) => s.append(msg),
        }
    }

    /// The message as a string.
    pub fn to_string(&self) -> (r: String)
        ensures
            r@ == self.text(),
    {
        let mut s = empty_string();
        self.push_text(&mut s);
        s
    }
}

/// Why a socket operation failed.
#[derive(Debug, Clone, Copy, PartialEq, Eq, Hash)]
#[non_exhaustive]
pub enum SocketErrorKind {
    /// Failed to bind socket to the specified port.
    BindFailed {
        /// The port that failed to bind.
        port: u16,
    },
    /// Failed to bind after multiple retry attempts.
    BindFailedAfterRetries {
        /// The port that failed to bind.
        port: u16,
        /// The number of attempts made.
        attempts: u8,
    },
    /// Custom error.
    Custom(&'static str),
}

impl SocketErrorKind {
    /// The message of each kind.
    pub open spec fn text(&self) -> Seq<char> {
        match *self {
            SocketErrorKind::BindFailed { port } => "failed to bind socket to port "@ + decimal(
                port as nat,
            ),
            SocketErrorKind::BindFailedAfterRetries { port, attempts } =>
                "failed to bind socket to port "@ + decimal(port as nat) + " after "@ + decimal(
                attempts as nat,
            ) + " attempts"@,
            SocketErrorKind::Custom(msg) => msg@,
        }
    }

    /// Appends the message to `s`.
    pub fn push_text(&self, s: &mut String)
        ensures
            final(s)@ == old(s)@ + self.text(),
    {
        match *self {
            SocketErrorKind::BindFailed { port } => {
                s.append("failed to bind socket to port ");
                push_decimal(s, port as u64);
            },
            SocketErrorKind::BindFailedAfterRetries { port, attempts } => {
                s.append("failed to bind socket to port ");
                push_decimal(s, port as u64);
                s.append(" after ");
                push_decimal(s, attempts as u64);
                s.append(" attempts");
            },
            SocketErrorKind::Custom(msg) => s.append(msg),
        }
    }

    /// The message as a string.
    pub fn to_string(&self) -> (r: String)
        ensures
            r@ == self.text(),
    {
        let mut s = empty_string();
        self.push_text(&mut s);
        s
    }
}

/// All errors the library can return.
#[derive(Debug, Clone, PartialEq, Hash)]
#[non_exhaustive]
pub enum FortressError {
    /// The prediction threshold has been reached.
    PredictionThreshold,
    /// An invalid request, with a description.
    InvalidRequest {
        /// Further specifies why the request was invalid.
        info: String,
    },
    /// Checksums of resimulated frames did not match.
    MismatchedChecksum {
        /// The frame at which the mismatch occurred.
        current_frame: Frame,
        /// The frames with mismatched checksums.
        mismatched_frames: Vec<Frame>,
    },
    /// The session is not synchronized yet.
    NotSynchronized,
    /// The spectator got so far behind the host that catching up is impossible.
    SpectatorTooFarBehind,
    /// An invalid frame number, with a description.
    InvalidFrame {
        /// The frame that was invalid.
        frame: Frame,
        /// A description of why the frame was invalid.
        reason: String,
    },
    /// An invalid frame number, with a structured reason.
    InvalidFrameStructured {
        /// The frame that was invalid.
        frame: Frame,
        /// The structured reason why the frame was invalid.
        reason: InvalidFrameReason,
    },
    /// An invalid player handle.
    InvalidPlayerHandle {
        /// The player handle that was invalid.
        handle: PlayerHandle,
        /// The maximum valid player handle (num_players - 1).
        max_handle: PlayerHandle,
    },
    /// A required input was missing for the specified frame.
    MissingInput {
        /// The player handle whose input was missing.
        player_handle: PlayerHandle,
        /// The frame for which input was missing.
        frame: Frame,
    },
    /// Serialization or deserialization failed, with a description.
    SerializationError {
        /// A description of what failed to serialize/deserialize.
        context: String,
    },
    /// An internal error, with a description.
    InternalError {
        /// A description of the internal error.
        context: String,
    },
    /// An internal error with a structured kind.
    InternalErrorStructured {
        /// The structured kind of internal error.
        kind: InternalErrorKind,
    },
    /// A network socket operation failed, with a description.
    SocketError {
        /// A description of the socket error.
        context: String,
    },
    /// An invalid request with a structured kind.
    InvalidRequestStructured {
        /// The structured kind of invalid request.
        kind: InvalidRequestKind,
    },
    /// Serialization error with a structured kind.
    SerializationErrorStructured {
        /// The structured kind of serialization error.
        kind: SerializationErrorKind,
    },
    /// Socket error with a structured kind.
    SocketErrorStructured {
        /// The structured kind of socket error.
        kind: SocketErrorKind,
    },
    /// Frame arithmetic left the range of `i32`.
    FrameArithmeticOverflow {
        /// The frame operated on.
        frame: Frame,
        /// The other operand.
        operand: i32,
        /// The operation, `"add"` or `"sub"`.
        operation: &'static str,
    },
    /// A `usize` was too large to be a frame number.
    FrameValueTooLarge {
        /// The value that was given.
        value: usize,
    },
}

/// The debug text of one frame, `Frame(n)`.
pub open spec fn frame_debug_text(f: Frame) -> Seq<char> {
    "Frame("@ + signed_decimal(f@) + ")"@
}

/// The comma-separated debug texts of the frames.
pub open spec fn frames_debug_items(fs: Seq<Frame>) -> Seq<char>
    decreases fs.len(),
{
    if fs.len() == 0 {
        Seq::empty()
    } else if fs.len() == 1 {
        frame_debug_text(fs[0])
    } else {
        frames_debug_items(fs.drop_last()) + ", "@ + frame_debug_text(fs.last())
    }
}

/// The debug text of a list of frames, `[Frame(a), Frame(b)]`.
pub open spec fn frames_debug_text(fs: Seq<Frame>) -> Seq<char> {
    "["@ + frames_debug_items(fs) + "]"@
}

fn push_frames_debug(s: &mut String, frames: &Vec<Frame>)
    ensures
        final(s)@ == old(s)@ + frames_debug_text(frames@),
{
    s.append("[");
    let ghost start = s@;
    let mut i: usize = 0;
    while i < frames.len()
        invariant
            i <= frames.len(),
            s@ == start + frames_debug_items(frames@.subrange(0, i as int)),
        decreases frames.len() - i,
    {
        let ghost prefix = frames@.subrange(0, i as int);
        if i > 0 {
            s.append(", ");
        }
        s.append("Frame(");
        push_signed_decimal(s, frames[i].as_i32() as i64);
        s.append(")");
        proof {
            let next = frames@.subrange(0, i + 1);
            assert(next.drop_last() =~= prefix);
            assert(next.last() == frames@[i as int]);
        }
        i = i + 1;
    }
    assert(frames@.subrange(0, frames.len() as int) =~= frames@);
    s.append("]");
}

impl FortressError {
    /// The message of each error; player handles appear as bare numbers.
    pub open spec fn text(&self) -> Seq<char> {
        match *self {
            FortressError::PredictionThreshold =>
                "Prediction threshold is reached, cannot proceed without catching up."@,
            FortressError::InvalidRequest { info } => "Invalid Request: "@ + info@,
            FortressError::NotSynchronized =>
                "The session is not yet synchronized with all remote sessions."@,
            FortressError::MismatchedChecksum { current_frame, mismatched_frames } =>
                "Detected checksum mismatch during rollback on frame "@ + frame_text(
                current_frame@,
            ) + ", mismatched frames: "@ + frames_debug_text(mismatched_frames@),
            FortressError::SpectatorTooFarBehind =>
                "The spectator got so far behind the host that catching up is impossible."@,
            FortressError::InvalidFrame { frame, reason } => "Invalid frame "@ + frame_text(frame@)
                + ": "@ + reason@,
            FortressError::InvalidFrameStructured { frame, reason } => "Invalid frame "@
                + frame_text(frame@) + ": "@ + reason.text(),
            FortressError::InvalidPlayerHandle { handle, max_handle } => "Invalid player handle "@
                + decimal(handle@) + ": must be less than or equal to "@ + decimal(max_handle@),
            FortressError::MissingInput { player_handle, frame } => "Missing input for player "@
                + decimal(player_handle@) + " at frame "@ + frame_text(frame@),
            FortressError::SerializationError { context } => "Serialization error: "@ + context@,
            FortressError::InternalError { context } => "Internal error (please report as bug): "@
                + context@,
            FortressError::InternalErrorStructured { kind } =>
                "Internal error (please report as bug): "@ + kind.text(),
            FortressError::SocketError { context } => "Socket error: "@ + context@,
            FortressError::InvalidRequestStructured { kind } => "Invalid Request: "@ + kind.text(),
            FortressError::SerializationErrorStructured { kind } => "Serialization error: "@
                + kind.text(),
            FortressError::SocketErrorStructured { kind } => "Socket error: "@ + kind.text(),
            FortressError::FrameArithmeticOverflow { frame, operand, operation } =>
                "Frame arithmetic overflow: "@ + frame_text(frame@) + " "@ + operation@ + " "@
                + signed_decimal(operand as int),
            FortressError::FrameValueTooLarge { value } => "Frame value "@ + decimal(value as nat)
                + " exceeds i32::MAX"@,
        }
    }

    /// Appends the message to `s`.
    pub fn push_text(&self, s: &mut String)
        ensures
            final(s)@ == old(s)@ + self.text(),
    {
        match self {
            FortressError::PredictionThreshold => s.append(
                "Prediction threshold is reached, cannot proceed without catching up.",
            ),
            FortressError::InvalidRequest { info } => {
                s.append("Invalid Request: ");
                s.append(info.as_str());
            },
            FortressError::NotSynchronized => s.append(
                "The session is not yet synchronized with all remote sessions.",
            ),
            FortressError::MismatchedChecksum { current_frame, mismatched_frames } => {
                s.append("Detected checksum mismatch during rollback on frame ");
                push_frame_text(s, *current_frame);
                s.append(", mismatched frames: ");
                push_frames_debug(s, mismatched_frames);
            },
            FortressError::SpectatorTooFarBehind => s.append(
                "The spectator got so far behind the host that catching up is impossible.",
            ),
            FortressError::InvalidFrame { frame, reason } => {
                s.append("Invalid frame ");
                push_frame_text(s, *frame);
                s.append(": ");
                s.append(reason.as_str());
            },
            FortressError::InvalidFrameStructured { frame, reason } => {
                s.append("Invalid frame ");
                push_frame_text(s, *frame);
                s.append(": ");
                reason.push_text(s);
            },
            FortressError::InvalidPlayerHandle { handle, max_handle } => {
                s.append("Invalid player handle ");
                push_decimal(s, handle.as_usize() as u64);
                s.append(": must be less than or equal to ");
                push_decimal(s, max_handle.as_usize() as u64);
            },
            FortressError::MissingInput { player_handle, frame } => {
                s.append("Missing input for player ");
                push_decimal(s, player_handle.as_usize() as u64);
                s.append(" at frame ");
                push_frame_text(s, *frame);
            },
            FortressError::SerializationError { context } => {
                s.append("Serialization error: ");
                s.append(context.as_str());
            },
            FortressError::InternalError { context } => {
                s.append("Internal error (please report as bug): ");
                s.append(context.as_str());
            },
            FortressError::InternalErrorStructured { kind } => {
                s.append("Internal error (please report as bug): ");
                kind.push_text(s);
            },
            FortressError::SocketError { context } => {
                s.append("Socket error: ");
                s.append(context.as_str());
            },
            FortressError::InvalidRequestStructured { kind } => {
                s.append("Invalid Request: ");
                kind.push_text(s);
            },
            FortressError::SerializationErrorStructured { kind } => {
                s.append("Serialization error: ");
                kind.push_text(s);
            },
            FortressError::SocketErrorStructured { kind } => {
                s.append("Socket error: ");
                kind.push_text(s);
            },
            FortressError::FrameArithmeticOverflow { frame, operand, operation } => {
                s.append("Frame arithmetic overflow: ");
                push_frame_text(s, *frame);
                s.append(" ");
                s.append(operation);
                s.append(" ");
                push_signed_decimal(s, *operand as i64);
            },
            FortressError::FrameValueTooLarge { value } => {
                s.append("Frame value ");
                push_decimal(s, *value as u64);
                s.append(" exceeds i32::MAX");
            },
        }
    }

    /// The message as a string.
    pub fn to_string(&self) -> (r: String)
        ensures
            r@ == self.text(),
    {
        let mut s = empty_string();
        self.push_text(&mut s);
        s
    }
}

impl From<InvalidRequestKind> for FortressError {
    fn from(kind: InvalidRequestKind) -> (r: FortressError) {
        FortressError::InvalidRequestStructured { kind }
    }
}

impl vstd::std_specs::convert::FromSpecImpl<InvalidRequestKind> for FortressError {
    open spec fn obeys_from_spec() -> bool {
        true
    }

    open spec fn from_spec(v: InvalidRequestKind) -> FortressError {
        FortressError::InvalidRequestStructured { kind: v }
    }
}

impl From<SerializationErrorKind> for FortressError {
    fn from(kind: SerializationErrorKind) -> (r: FortressError) {
        FortressError::SerializationErrorStructured { kind }
    }
}

impl vstd::std_specs::convert::FromSpecImpl<SerializationErrorKind> for FortressError {
    open spec fn obeys_from_spec() -> bool {
        true
    }

    open spec fn from_spec(v: SerializationErrorKind) -> FortressError {
        FortressError::SerializationErrorStructured { kind: v }
    }
}

impl From<SocketErrorKind> for FortressError {
    fn from(kind: SocketErrorKind) -> (r: FortressError) {
        FortressError::SocketErrorStructured { kind }
    }
}

impl vstd::std_specs::convert::FromSpecImpl<SocketErrorKind> for FortressError {
    open spec fn obeys_from_spec() -> bool {
        true
    }

    open spec fn from_spec(v: SocketErrorKind) -> FortressError {
        FortressError::SocketErrorStructured { kind: v }
    }
}

/// `Result` with [`FortressError`] as its default error type.
pub type FortressResult<T, E = FortressError> = Result<T, E>;

} // verus!
