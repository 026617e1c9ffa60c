//! Rollback networking core: frames, player handles, input queues with
//! prediction, checksums and session metrics.
pub mod checksum;
pub mod error;
pub mod frame;
pub mod frame_info;
pub mod frame_order;
pub mod hash;
pub mod input_queue;
pub mod metrics;
pub mod seconds;
pub mod text;
pub mod types;

pub use error::{
    DeltaDecodeReason, FortressError, FortressResult, IndexOutOfBounds, InternalErrorKind,
    InvalidFrameReason, InvalidRequestKind, RleDecodeReason, SerializationErrorKind,
    SocketErrorKind,
};
pub use checksum::{fletcher16, hash_bytes_fnv1a};
pub use input_queue::{BlankPrediction, PredictionStrategy, RepeatLastConfirmed};
pub use frame_info::{GameState, PlayerInput};
pub use types::{DesyncDetection, InputStatus, PlayerType, SessionState};
pub use frame::{safe_frame_add, safe_frame_sub, Frame, PlayerHandle, NULL_FRAME};
