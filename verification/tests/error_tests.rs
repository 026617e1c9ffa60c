use fortress_rollback::{
    DeltaDecodeReason, FortressError, Frame, IndexOutOfBounds, InternalErrorKind,
    InvalidFrameReason, InvalidRequestKind, PlayerHandle, RleDecodeReason,
    SerializationErrorKind, SocketErrorKind,
};

#[test]
fn test_prediction_threshold_display() {
    let err = FortressError::PredictionThreshold;
    let display = err.to_string();
    assert!(display.contains("Prediction threshold"));
    assert!(display.contains("cannot proceed"));
}

#[test]
fn test_invalid_request_display() {
    let err = FortressError::InvalidRequest {
        info: "test error info".to_string(),
    };
    let display = err.to_string();
    assert!(display.contains("Invalid Request"));
    assert!(display.contains("test error info"));
}

#[test]
fn test_not_synchronized_display() {
    let err = FortressError::NotSynchronized;
    let display = err.to_string();
    assert!(display.contains("not yet synchronized"));
}

#[test]
fn test_mismatched_checksum_display() {
    let err = FortressError::MismatchedChecksum {
        current_frame: Frame::new(100),
        mismatched_frames: vec![Frame::new(95), Frame::new(96)],
    };
    let display = err.to_string();
    assert!(display.contains("checksum mismatch"));
    assert!(display.contains("100"));
}

#[test]
fn test_spectator_too_far_behind_display() {
    let err = FortressError::SpectatorTooFarBehind;
    let display = err.to_string();
    assert!(display.contains("spectator"));
    assert!(display.contains("behind"));
}

#[test]
fn test_invalid_frame_display() {
    let err = FortressError::InvalidFrame {
        frame: Frame::new(42),
        reason: "frame is in the past".to_string(),
    };
    let display = err.to_string();
    assert!(display.contains("Invalid frame"));
    assert!(display.contains("42"));
    assert!(display.contains("frame is in the past"));
}

#[test]
fn test_invalid_player_handle_display() {
    let err = FortressError::InvalidPlayerHandle {
        handle: PlayerHandle::new(5),
        max_handle: PlayerHandle::new(3),
    };
    let display = err.to_string();
    assert!(display.contains("Invalid player handle"));
    assert!(display.contains('5'));
    assert!(display.contains('3'));
}

#[test]
fn test_missing_input_display() {
    let err = FortressError::MissingInput {
        player_handle: PlayerHandle::new(1),
        frame: Frame::new(50),
    };
    let display = err.to_string();
    assert!(display.contains("Missing input"));
    assert!(display.contains("player 1"));
    assert!(display.contains("frame 50"));
}

#[test]
fn test_serialization_error_display() {
    let err = FortressError::SerializationError {
        context: "failed to serialize game state".to_string(),
    };
    let display = err.to_string();
    assert!(display.contains("Serialization error"));
    assert!(display.contains("failed to serialize game state"));
}

#[test]
fn test_internal_error_display() {
    let err = FortressError::InternalError {
        context: "unexpected state transition".to_string(),
    };
    let display = err.to_string();
    assert!(display.contains("Internal error"));
    assert!(display.contains("please report as bug"));
    assert!(display.contains("unexpected state transition"));
}

#[test]
fn test_socket_error_display() {
    let err = FortressError::SocketError {
        context: "connection refused".to_string(),
    };
    let display = err.to_string();
    assert!(display.contains("Socket error"));
    assert!(display.contains("connection refused"));
}

#[test]
fn test_error_debug() {
    let err = FortressError::PredictionThreshold;
    let debug = format!("{:?}", err);
    assert!(debug.contains("PredictionThreshold"));
}

#[test]
#[allow(clippy::redundant_clone)] // Testing Clone trait implementation
fn test_error_clone() {
    let err = FortressError::InvalidRequest {
        info: "test".to_string(),
    };
    let cloned = err.clone();
    assert_eq!(err, cloned);
}

#[test]
fn test_error_partial_eq() {
    let err1 = FortressError::NotSynchronized;
    let err2 = FortressError::NotSynchronized;
    let err3 = FortressError::PredictionThreshold;
    assert_eq!(err1, err2);
    assert_ne!(err1, err3);
}

#[test]
fn test_index_out_of_bounds_display() {
    let err = IndexOutOfBounds {
        name: "input_queues",
        index: 5,
        length: 3,
    };
    let display = err.to_string();
    assert!(display.contains("input_queues"));
    assert!(display.contains('5'));
    assert!(display.contains('3'));
    assert!(display.contains("out of bounds"));
}

#[test]
fn test_invalid_frame_reason_null_frame() {
    let reason = InvalidFrameReason::NullFrame;
    let display = reason.to_string();
    assert!(display.contains("NULL_FRAME"));
}

#[test]
fn test_invalid_frame_reason_not_in_past() {
    let reason = InvalidFrameReason::NotInPast {
        current_frame: Frame::new(10),
    };
    let display = reason.to_string();
    assert!(display.contains("past"));
    assert!(display.contains("10"));
}

#[test]
fn test_invalid_frame_reason_outside_prediction_window() {
    let reason = InvalidFrameReason::OutsidePredictionWindow {
        current_frame: Frame::new(100),
        max_prediction: 8,
    };
    let display = reason.to_string();
    assert!(display.contains("prediction window"));
    assert!(display.contains("100"));
    assert!(display.contains('8'));
}

#[test]
fn test_invalid_frame_reason_wrong_saved_frame() {
    let reason = InvalidFrameReason::WrongSavedFrame {
        saved_frame: Frame::new(42),
    };
    let display = reason.to_string();
    assert!(display.contains("wrong frame"));
    assert!(display.contains("42"));
}

#[test]
fn test_invalid_frame_reason_not_confirmed() {
    let reason = InvalidFrameReason::NotConfirmed {
        confirmed_frame: Frame::new(50),
    };
    let display = reason.to_string();
    assert!(display.contains("not confirmed"));
    assert!(display.contains("50"));
}

#[test]
fn test_internal_error_kind_index_out_of_bounds() {
    let kind = InternalErrorKind::IndexOutOfBounds(IndexOutOfBounds {
        name: "states",
        index: 10,
        length: 5,
    });
    let display = kind.to_string();
    assert!(display.contains("states"));
    assert!(display.contains("10"));
    assert!(display.contains('5'));
}

#[test]
fn test_internal_error_kind_synchronized_inputs_failed() {
    let kind = InternalErrorKind::SynchronizedInputsFailed {
        frame: Frame::new(25),
    };
    let display = kind.to_string();
    assert!(display.contains("synchronized inputs"));
    assert!(display.contains("25"));
}

#[test]
fn test_internal_error_kind_empty_player_inputs() {
    let kind = InternalErrorKind::EmptyPlayerInputs;
    let display = kind.to_string();
    assert!(display.contains("empty"));
}

#[test]
fn test_invalid_frame_structured_display() {
    let err = FortressError::InvalidFrameStructured {
        frame: Frame::new(42),
        reason: InvalidFrameReason::NullFrame,
    };
    let display = err.to_string();
    assert!(display.contains("Invalid frame"));
    assert!(display.contains("42"));
    assert!(display.contains("NULL_FRAME"));
}

#[test]
fn test_internal_error_structured_display() {
    let err = FortressError::InternalErrorStructured {
        kind: InternalErrorKind::BufferIndexOutOfBounds,
    };
    let display = err.to_string();
    assert!(display.contains("Internal error"));
    assert!(display.contains("buffer index out of bounds"));
}

#[test]
fn test_internal_error_kind_disconnect_status_not_found() {
    let kind = InternalErrorKind::DisconnectStatusNotFound {
        player_handle: PlayerHandle::new(3),
    };
    let display = kind.to_string();
    assert!(display.contains("disconnect status"));
    assert!(display.contains("player handle 3"));
}

#[test]
fn test_internal_error_kind_endpoint_not_found_for_remote() {
    let kind = InternalErrorKind::EndpointNotFoundForRemote {
        player_handle: PlayerHandle::new(5),
    };
    let display = kind.to_string();
    assert!(display.contains("endpoint not found"));
    assert!(display.contains("remote player 5"));
}

#[test]
fn test_internal_error_kind_endpoint_not_found_for_spectator() {
    let kind = InternalErrorKind::EndpointNotFoundForSpectator {
        player_handle: PlayerHandle::new(7),
    };
    let display = kind.to_string();
    assert!(display.contains("endpoint not found"));
    assert!(display.contains("spectator 7"));
}

#[test]
fn test_structured_errors_are_copy() {
    // Verify that structured error types are Copy (important for hot path)
    let iob = IndexOutOfBounds {
        name: "test",
        index: 1,
        length: 2,
    };
    let iob2 = iob; // Copy
    assert_eq!(iob, iob2);

    let reason = InvalidFrameReason::NullFrame;
    let reason2 = reason; // Copy
    assert_eq!(reason, reason2);

    let kind = InternalErrorKind::EmptyPlayerInputs;
    let kind2 = kind; // Copy
    assert_eq!(kind, kind2);
}

#[test]
fn test_rle_decode_reason_bitfield_index_out_of_bounds() {
    let reason = RleDecodeReason::BitfieldIndexOutOfBounds;
    let display = reason.to_string();
    assert!(display.contains("bitfield index out of bounds"));
}

#[test]
fn test_rle_decode_reason_destination_slice_out_of_bounds() {
    let reason = RleDecodeReason::DestinationSliceOutOfBounds;
    let display = reason.to_string();
    assert!(display.contains("destination slice out of bounds"));
}

#[test]
fn test_rle_decode_reason_source_slice_out_of_bounds() {
    let reason = RleDecodeReason::SourceSliceOutOfBounds;
    let display = reason.to_string();
    assert!(display.contains("source slice out of bounds"));
}

#[test]
fn test_rle_decode_reason_truncated_data() {
    let reason = RleDecodeReason::TruncatedData {
        offset: 100,
        buffer_len: 50,
    };
    let display = reason.to_string();
    assert!(display.contains("truncated data"));
    assert!(display.contains("100"));
    assert!(display.contains("50"));
}

#[test]
fn test_internal_error_kind_rle_decode_error() {
    let kind = InternalErrorKind::RleDecodeError {
        reason: RleDecodeReason::BitfieldIndexOutOfBounds,
    };
    let display = kind.to_string();
    assert!(display.contains("RLE decode failed"));
    assert!(display.contains("bitfield index out of bounds"));
}

#[test]
fn test_rle_decode_reason_is_copy() {
    // Verify RleDecodeReason is Copy (important for hot path)
    let reason = RleDecodeReason::BitfieldIndexOutOfBounds;
    let reason2 = reason; // Copy
    assert_eq!(reason, reason2);

    let reason_with_data = RleDecodeReason::TruncatedData {
        offset: 10,
        buffer_len: 5,
    };
    let reason_with_data2 = reason_with_data; // Copy
    assert_eq!(reason_with_data, reason_with_data2);
}

#[test]
fn test_invalid_request_kind_player_handle_in_use() {
    let kind = InvalidRequestKind::PlayerHandleInUse {
        handle: PlayerHandle::new(3),
    };
    let display = kind.to_string();
    assert!(display.contains("player handle 3"));
    assert!(display.contains("already in use"));
}

#[test]
fn test_invalid_request_kind_not_local_player() {
    let kind = InvalidRequestKind::NotLocalPlayer {
        handle: PlayerHandle::new(2),
    };
    let display = kind.to_string();
    assert!(display.contains("player handle 2"));
    assert!(display.contains("local player"));
}

#[test]
fn test_invalid_request_kind_not_remote_player_or_spectator() {
    let kind = InvalidRequestKind::NotRemotePlayerOrSpectator {
        handle: PlayerHandle::new(1),
    };
    let display = kind.to_string();
    assert!(display.contains("player handle 1"));
    assert!(display.contains("remote player or spectator"));
}

#[test]
fn test_invalid_request_kind_missing_local_input() {
    let kind = InvalidRequestKind::MissingLocalInput;
    let display = kind.to_string();
    assert!(display.contains("missing local input"));
}

#[test]
fn test_invalid_request_kind_no_confirmed_input() {
    let kind = InvalidRequestKind::NoConfirmedInput {
        frame: Frame::new(42),
    };
    let display = kind.to_string();
    assert!(display.contains("no confirmed input"));
    assert!(display.contains("42"));
}

#[test]
fn test_invalid_request_kind_config_value_out_of_range() {
    let kind = InvalidRequestKind::ConfigValueOutOfRange {
        field: "fps",
        min: 1,
        max: 120,
        actual: 0,
    };
    let display = kind.to_string();
    assert!(display.contains("fps"));
    assert!(display.contains("out of range"));
    assert!(display.contains('0'));
    assert!(display.contains('1'));
    assert!(display.contains("120"));
}

#[test]
fn test_invalid_request_kind_frame_delay_too_large() {
    let kind = InvalidRequestKind::FrameDelayTooLarge {
        delay: 10,
        max_delay: 5,
    };
    let display = kind.to_string();
    assert!(display.contains("frame delay"));
    assert!(display.contains("10"));
    assert!(display.contains('5'));
}

#[test]
fn test_invalid_request_kind_queue_length_too_small() {
    let kind = InvalidRequestKind::QueueLengthTooSmall { length: 1 };
    let display = kind.to_string();
    assert!(display.contains("queue length"));
    assert!(display.contains('1'));
    assert!(display.contains("minimum is 2"));
}

#[test]
fn test_invalid_request_kind_event_queue_size_too_small() {
    let kind = InvalidRequestKind::EventQueueSizeTooSmall { size: 5 };
    let display = kind.to_string();
    assert!(display.contains("event queue size"));
    assert!(display.contains('5'));
    assert!(display.contains("minimum is 10"));
}

#[test]
fn test_invalid_request_kind_zero_players() {
    let kind = InvalidRequestKind::ZeroPlayers;
    let display = kind.to_string();
    assert!(display.contains("players"));
    assert!(display.contains("greater than 0"));
}

#[test]
fn test_invalid_request_kind_zero_fps() {
    let kind = InvalidRequestKind::ZeroFps;
    let display = kind.to_string();
    assert!(display.contains("FPS"));
    assert!(display.contains("greater than 0"));
}

#[test]
fn test_invalid_request_kind_not_enough_players() {
    let kind = InvalidRequestKind::NotEnoughPlayers {
        expected: 4,
        actual: 2,
    };
    let display = kind.to_string();
    assert!(display.contains("not enough players"));
    assert!(display.contains('4'));
    assert!(display.contains('2'));
}

#[test]
fn test_invalid_request_kind_check_distance_too_large() {
    let kind = InvalidRequestKind::CheckDistanceTooLarge {
        check_dist: 20,
        max_prediction: 10,
    };
    let display = kind.to_string();
    assert!(display.contains("check distance"));
    assert!(display.contains("20"));
    assert!(display.contains("10"));
}

#[test]
fn test_invalid_request_kind_max_frames_behind_invalid() {
    let kind = InvalidRequestKind::MaxFramesBehindInvalid {
        value: 100,
        buffer_size: 50,
    };
    let display = kind.to_string();
    assert!(display.contains("max frames behind"));
    assert!(display.contains("100"));
    assert!(display.contains("50"));
}

#[test]
fn test_invalid_request_kind_catchup_speed_invalid() {
    let kind = InvalidRequestKind::CatchupSpeedInvalid {
        speed: 5,
        max_frames_behind: 2,
    };
    let display = kind.to_string();
    assert!(display.contains("catchup speed"));
    assert!(display.contains('5'));
    assert!(display.contains('2'));
}

#[test]
fn test_invalid_request_kind_disconnect_invalid_handle() {
    let kind = InvalidRequestKind::DisconnectInvalidHandle {
        handle: PlayerHandle::new(99),
    };
    let display = kind.to_string();
    assert!(display.contains("disconnect"));
    assert!(display.contains("99"));
    assert!(display.contains("invalid"));
}

#[test]
fn test_invalid_request_kind_disconnect_local_player() {
    let kind = InvalidRequestKind::DisconnectLocalPlayer {
        handle: PlayerHandle::new(0),
    };
    let display = kind.to_string();
    assert!(display.contains("disconnect"));
    assert!(display.contains("local player"));
    assert!(display.contains('0'));
}

#[test]
fn test_invalid_request_kind_already_disconnected() {
    let kind = InvalidRequestKind::AlreadyDisconnected {
        handle: PlayerHandle::new(2),
    };
    let display = kind.to_string();
    assert!(display.contains("already disconnected"));
    assert!(display.contains('2'));
}

#[test]
fn test_invalid_request_kind_wrong_protocol_state() {
    let kind = InvalidRequestKind::WrongProtocolState {
        current_state: "Running",
        expected_state: "Synchronizing",
    };
    let display = kind.to_string();
    assert!(display.contains("wrong protocol state"));
    assert!(display.contains("Running"));
    assert!(display.contains("Synchronizing"));
}

#[test]
fn test_invalid_request_kind_custom() {
    let kind = InvalidRequestKind::Custom("custom error message");
    let display = kind.to_string();
    assert!(display.contains("custom error message"));
}

#[test]
fn test_invalid_request_kind_is_copy() {
    // Verify InvalidRequestKind is Copy (important for hot path)
    let kind = InvalidRequestKind::ZeroPlayers;
    let kind2 = kind; // Copy
    assert_eq!(kind, kind2);

    let kind_with_data = InvalidRequestKind::PlayerHandleInUse {
        handle: PlayerHandle::new(1),
    };
    let kind_with_data2 = kind_with_data; // Copy
    assert_eq!(kind_with_data, kind_with_data2);
}

#[test]
fn test_serialization_error_kind_endpoint_creation_failed() {
    let kind = SerializationErrorKind::EndpointCreationFailed;
    let display = kind.to_string();
    assert!(display.contains("failed to create"));
    assert!(display.contains("endpoint"));
    assert!(display.contains("remote players"));
}

#[test]
fn test_serialization_error_kind_spectator_endpoint_creation_failed() {
    let kind = SerializationErrorKind::SpectatorEndpointCreationFailed;
    let display = kind.to_string();
    assert!(display.contains("failed to create"));
    assert!(display.contains("endpoint"));
    assert!(display.contains("spectators"));
}

#[test]
fn test_serialization_error_kind_custom() {
    let kind = SerializationErrorKind::Custom("custom serialization error");
    let display = kind.to_string();
    assert!(display.contains("custom serialization error"));
}

#[test]
fn test_serialization_error_kind_is_copy() {
    // Verify SerializationErrorKind is Copy (important for hot path)
    let kind = SerializationErrorKind::EndpointCreationFailed;
    let kind2 = kind; // Copy
    assert_eq!(kind, kind2);
}

#[test]
fn test_socket_error_kind_bind_failed() {
    let kind = SocketErrorKind::BindFailed { port: 8080 };
    let display = kind.to_string();
    assert!(display.contains("failed to bind"));
    assert!(display.contains("8080"));
}

#[test]
fn test_socket_error_kind_bind_failed_after_retries() {
    let kind = SocketErrorKind::BindFailedAfterRetries {
        port: 9000,
        attempts: 5,
    };
    let display = kind.to_string();
    assert!(display.contains("failed to bind"));
    assert!(display.contains("9000"));
    assert!(display.contains('5'));
    assert!(display.contains("attempts"));
}

#[test]
fn test_socket_error_kind_custom() {
    let kind = SocketErrorKind::Custom("custom socket error");
    let display = kind.to_string();
    assert!(display.contains("custom socket error"));
}

#[test]
fn test_socket_error_kind_is_copy() {
    // Verify SocketErrorKind is Copy (important for hot path)
    let kind = SocketErrorKind::BindFailed { port: 8080 };
    let kind2 = kind; // Copy
    assert_eq!(kind, kind2);
}

#[test]
fn test_invalid_request_structured_display() {
    let err = FortressError::InvalidRequestStructured {
        kind: InvalidRequestKind::ZeroPlayers,
    };
    let display = err.to_string();
    assert!(display.contains("Invalid Request"));
    assert!(display.contains("players"));
}

#[test]
fn test_serialization_error_structured_display() {
    let err = FortressError::SerializationErrorStructured {
        kind: SerializationErrorKind::EndpointCreationFailed,
    };
    let display = err.to_string();
    assert!(display.contains("Serialization error"));
    assert!(display.contains("endpoint"));
}

#[test]
fn test_socket_error_structured_display() {
    let err = FortressError::SocketErrorStructured {
        kind: SocketErrorKind::BindFailed { port: 8080 },
    };
    let display = err.to_string();
    assert!(display.contains("Socket error"));
    assert!(display.contains("8080"));
}

#[test]
fn test_from_invalid_request_kind() {
    let kind = InvalidRequestKind::ZeroPlayers;
    let err: FortressError = kind.into();
    assert_eq!(
        err,
        FortressError::InvalidRequestStructured {
            kind: InvalidRequestKind::ZeroPlayers
        }
    );
}

#[test]
fn test_from_serialization_error_kind() {
    let kind = SerializationErrorKind::EndpointCreationFailed;
    let err: FortressError = kind.into();
    assert_eq!(
        err,
        FortressError::SerializationErrorStructured {
            kind: SerializationErrorKind::EndpointCreationFailed
        }
    );
}

#[test]
fn test_from_socket_error_kind() {
    let kind = SocketErrorKind::BindFailed { port: 8080 };
    let err: FortressError = kind.into();
    assert_eq!(
        err,
        FortressError::SocketErrorStructured {
            kind: SocketErrorKind::BindFailed { port: 8080 }
        }
    );
}

#[test]
fn test_invalid_request_kind_duration_config_out_of_range() {
    let kind = InvalidRequestKind::DurationConfigOutOfRange {
        field: "disconnect_timeout",
        min_ms: 100,
        max_ms: 60000,
        actual_ms: 50,
    };
    let display = kind.to_string();
    assert!(display.contains("duration configuration"));
    assert!(display.contains("disconnect_timeout"));
    assert!(display.contains("50ms"));
    assert!(display.contains("100ms"));
    assert!(display.contains("60000ms"));
}

#[test]
fn test_invalid_request_kind_invalid_local_player_handle() {
    let kind = InvalidRequestKind::InvalidLocalPlayerHandle {
        handle: PlayerHandle::new(5),
        num_players: 4,
    };
    let display = kind.to_string();
    assert!(display.contains("invalid local player handle"));
    assert!(display.contains('5'));
    assert!(display.contains("num_players is 4"));
}

#[test]
fn test_invalid_request_kind_invalid_remote_player_handle() {
    let kind = InvalidRequestKind::InvalidRemotePlayerHandle {
        handle: PlayerHandle::new(10),
        num_players: 2,
    };
    let display = kind.to_string();
    assert!(display.contains("invalid remote player handle"));
    assert!(display.contains("10"));
    assert!(display.contains("num_players is 2"));
}

#[test]
fn test_invalid_request_kind_invalid_spectator_handle() {
    let kind = InvalidRequestKind::InvalidSpectatorHandle {
        handle: PlayerHandle::new(3),
        num_players: 2,
    };
    let display = kind.to_string();
    assert!(display.contains("invalid spectator handle"));
    assert!(display.contains('3'));
    assert!(display.contains("num_players is 2"));
}

#[test]
fn test_invalid_request_kind_input_delay_too_large() {
    let kind = InvalidRequestKind::InputDelayTooLarge {
        delay_frames: 660,
        fps: 60,
        max_seconds_limit: 10,
    };
    let display = kind.to_string();
    assert!(display.contains("input delay"));
    assert!(display.contains("660"));
    assert!(display.contains("11.00s")); // 660 / 60 = 11.00
    assert!(display.contains("10s")); // max_seconds_limit
}

#[test]
fn test_invalid_request_kind_input_delay_too_large_with_zero_fps() {
    // Test the defensive branch that handles fps=0 without panicking
    let kind = InvalidRequestKind::InputDelayTooLarge {
        delay_frames: 100,
        fps: 0,
        max_seconds_limit: 10,
    };
    let display = kind.to_string();
    assert!(display.contains("input delay"));
    assert!(display.contains("100"));
    assert!(
        display.contains("inf"),
        "Should display infinity for zero fps: {display}"
    );
}

#[test]
fn test_new_variants_are_copy() {
    // Verify new variants remain Copy (important for hot path)
    let kind1 = InvalidRequestKind::DurationConfigOutOfRange {
        field: "test",
        min_ms: 0,
        max_ms: 100,
        actual_ms: 50,
    };
    let kind1_copy = kind1; // Copy
    assert_eq!(kind1, kind1_copy);

    let kind2 = InvalidRequestKind::InvalidLocalPlayerHandle {
        handle: PlayerHandle::new(1),
        num_players: 2,
    };
    let kind2_copy = kind2; // Copy
    assert_eq!(kind2, kind2_copy);

    let kind3 = InvalidRequestKind::InputDelayTooLarge {
        delay_frames: 10,
        fps: 60,
        max_seconds_limit: 1,
    };
    let kind3_copy = kind3; // Copy
    assert_eq!(kind3, kind3_copy);
}
