use fortress_rollback::input_queue::{InputQueue, InvariantViolation};
use fortress_rollback::{
    FortressError, Frame, InputStatus, InternalErrorKind, InvalidRequestKind, PlayerInput,
};

#[derive(Copy, Clone, PartialEq, Eq, Default, Debug)]
struct Pad {
    buttons: u8,
}

fn pad(buttons: u8) -> Pad {
    Pad { buttons }
}

fn queue_of(len: usize) -> InputQueue<Pad> {
    InputQueue::<Pad>::with_queue_length(0, len).expect("queue")
}

#[test]
fn added_inputs_are_read_back_as_confirmed() {
    let mut q = queue_of(16);
    for f in 0..10 {
        let r = q.add_input(PlayerInput::new(Frame::new(f), pad(f as u8 + 1)));
        assert_eq!(r, Frame::new(f));
        let stored = q.confirmed_input(r).expect("stored input");
        assert_eq!(stored.frame, r);
        assert_eq!(stored.input, pad(f as u8 + 1));
    }
    for f in 0..10 {
        assert_eq!(q.confirmed_input(Frame::new(f)).unwrap().input, pad(f as u8 + 1));
        assert_eq!(
            q.input(Frame::new(f)),
            Some((pad(f as u8 + 1), InputStatus::Confirmed))
        );
    }
}

#[test]
fn first_input_with_delay_fills_the_gap_from_the_newest_slot() {
    let mut q = queue_of(16);
    q.set_frame_delay(3).unwrap();
    let r = q.add_input(PlayerInput::new(Frame::new(0), pad(7)));
    assert_eq!(r, Frame::new(3));
    assert_eq!(q.length(), 4);
    // the gap frames hold the (blank) newest slot's input
    for f in 0..3 {
        assert_eq!(q.confirmed_input(Frame::new(f)).unwrap().input, Pad::default());
    }
    assert_eq!(q.confirmed_input(Frame::new(3)).unwrap().input, pad(7));
}

#[test]
fn delay_increase_fills_gap_with_newest_input_and_keeps_sequence() {
    let mut q = queue_of(16);
    assert_eq!(q.add_input(PlayerInput::new(Frame::new(0), pad(4))), Frame::new(0));
    assert_eq!(q.add_input(PlayerInput::new(Frame::new(1), pad(9))), Frame::new(1));
    assert_eq!(q.set_frame_delay(3), Ok(()));
    assert_eq!(q.frame_delay(), 3);
    assert_eq!(q.last_added_frame(), Frame::new(4));
    for f in 2..=4 {
        assert_eq!(q.confirmed_input(Frame::new(f)).unwrap().input, pad(9));
    }
    // the next game frame (2) lands right after the gap
    assert_eq!(q.add_input(PlayerInput::new(Frame::new(2), pad(1))), Frame::new(5));
}

#[test]
fn delay_increase_that_does_not_fit_is_refused_without_change() {
    let mut q = queue_of(4);
    for f in 0..4 {
        assert_eq!(q.add_input(PlayerInput::new(Frame::new(f), pad(f as u8))), Frame::new(f));
    }
    let before = q.clone();
    let err = q.set_frame_delay(2).unwrap_err();
    assert_eq!(
        err,
        FortressError::InternalErrorStructured {
            kind: InternalErrorKind::InputQueueGapFillFailed { frame: Frame::new(4) }
        }
    );
    assert_eq!(q, before);
    assert_eq!(
        err.to_string(),
        "Internal error (please report as bug): input queue gap fill failed at frame 4"
    );
}

#[test]
fn delay_errors_and_frozen_queue() {
    let mut q = queue_of(8);
    assert_eq!(
        q.set_frame_delay(8),
        Err(FortressError::InvalidRequestStructured {
            kind: InvalidRequestKind::FrameDelayTooLarge { delay: 8, max_delay: 7 }
        })
    );
    q.set_frame_delay(2).unwrap();
    q.add_input(PlayerInput::new(Frame::new(0), pad(1)));
    assert_eq!(
        q.set_frame_delay(1),
        Err(FortressError::InvalidRequestStructured {
            kind: InvalidRequestKind::InputDelayDecreaseUnsupported { current: 2, requested: 1 }
        })
    );
    q.freeze();
    let before = q.clone();
    // a frozen queue ignores delay changes, even out-of-range ones
    assert_eq!(q.set_frame_delay(100), Ok(()));
    assert_eq!(q, before);
}

#[test]
fn full_queue_refuses_input_without_change() {
    let mut q = queue_of(4);
    for f in 0..4 {
        q.add_input(PlayerInput::new(Frame::new(f), pad(1)));
    }
    let before = q.clone();
    assert_eq!(q.add_input(PlayerInput::new(Frame::new(4), pad(2))), Frame::null());
    assert_eq!(q, before);
    // after discarding, the same input is taken
    q.discard_confirmed_frames(Frame::new(2));
    assert_eq!(q.add_input(PlayerInput::new(Frame::new(4), pad(2))), Frame::new(4));
    assert_eq!(q.confirmed_input(Frame::new(4)).unwrap().input, pad(2));
}

#[test]
fn reset_then_add_is_confirmed_at_the_delayed_frame() {
    let mut q = queue_of(128);
    q.set_frame_delay(2).unwrap();
    q.reset_to_frame(Frame::new(50));
    assert!(!q.is_frozen());
    assert_eq!(q.length(), 0);
    assert_eq!(q.last_added_frame(), Frame::new(51));
    let r = q.add_input(PlayerInput::new(Frame::new(50), pad(3)));
    assert_eq!(r, Frame::new(52));
    assert_eq!(q.confirmed_input(Frame::new(52)).unwrap().input, pad(3));
}

#[test]
fn reset_to_negative_or_overflowing_frame_changes_nothing() {
    let mut q = queue_of(8);
    q.set_frame_delay(3).unwrap();
    let before = q.clone();
    q.reset_to_frame(Frame::new(-4));
    assert_eq!(q, before);
    q.reset_to_frame(Frame::new(i32::MAX - 1));
    assert_eq!(q, before);
}

#[test]
fn misprediction_is_flagged_and_correct_prediction_is_not() {
    // a differing arrival marks its frame
    let mut q = queue_of(16);
    for f in 0..3 {
        q.add_input(PlayerInput::new(Frame::new(f), pad(5)));
    }
    assert_eq!(q.input(Frame::new(6)), Some((pad(5), InputStatus::Predicted)));
    assert_eq!(q.prediction_frame(), Frame::new(3));
    assert_eq!(q.add_input(PlayerInput::new(Frame::new(3), pad(6))), Frame::new(3));
    assert_eq!(q.first_incorrect_frame(), Frame::new(3));
    // while a misprediction is pending, nothing is handed out
    assert_eq!(q.input(Frame::new(3)), None);

    // an equal arrival does not
    let mut q = queue_of(16);
    for f in 0..3 {
        q.add_input(PlayerInput::new(Frame::new(f), pad(5)));
    }
    q.input(Frame::new(6));
    q.add_input(PlayerInput::new(Frame::new(3), pad(5)));
    assert_eq!(q.first_incorrect_frame(), Frame::null());
    assert_eq!(q.prediction_frame(), Frame::new(4));
}

#[test]
fn check_invariants_reports_delay_and_request_bounds() {
    let mut q = queue_of(512);
    assert_eq!(q.check_invariants(), Ok(()));
    q.set_frame_delay(300).unwrap();
    assert_eq!(q.check_invariants(), Err(InvariantViolation::FrameDelayOutOfBounds));

    let mut q = queue_of(8);
    assert_eq!(q.input(Frame::new(-5)), None);
    assert_eq!(q.last_requested_frame(), Frame::new(-5));
    assert_eq!(q.check_invariants(), Err(InvariantViolation::LastRequestedFrameInvalid));
}

#[test]
fn freeze_at_rolls_to_agreed_frame_and_ignores_later_inputs() {
    let mut a = queue_of(16);
    let mut b = queue_of(16);
    for f in 0..6 {
        a.add_input(PlayerInput::new(Frame::new(f), pad(f as u8)));
    }
    for f in 0..4 {
        b.add_input(PlayerInput::new(Frame::new(f), pad(f as u8)));
    }
    // two survivors that received different amounts agree on frame 2
    a.freeze_at(Frame::new(2));
    b.freeze_at(Frame::new(2));
    assert_eq!(a.last_confirmed_input(), Some(pad(2)));
    assert_eq!(b.last_confirmed_input(), Some(pad(2)));
    let before = a.clone();
    assert_eq!(a.add_input(PlayerInput::new(Frame::new(6), pad(9))), Frame::new(5));
    assert_eq!(a, before);
}

#[test]
fn queue_length_below_two_and_impossible_length() {
    assert!(InputQueue::<Pad>::with_queue_length(0, 1).is_none());
    assert_eq!(
        InputQueue::<Pad>::try_with_queue_length(0, 0).unwrap_err(),
        FortressError::InvalidRequestStructured {
            kind: InvalidRequestKind::QueueLengthTooSmall { length: 0 }
        }
    );
    let err = InputQueue::<Pad>::try_with_queue_length(0, usize::MAX).unwrap_err();
    assert_eq!(
        err.to_string(),
        format!(
            "Invalid Request: failed to allocate {} elements for input_queue.inputs",
            u64::MAX
        )
    );
}

#[test]
fn reset_predicts_the_preserved_input_from_the_activation_frame() {
    let mut q = queue_of(16);
    for f in 0..5 {
        q.add_input(PlayerInput::new(Frame::new(f), pad(8)));
    }
    q.freeze();
    q.reset_to_frame(Frame::new(20));
    assert_eq!(q.input(Frame::new(25)), Some((pad(8), InputStatus::Predicted)));
    assert_eq!(q.prediction_frame(), Frame::new(20));
    // the joiner's real input for the activation frame is compared with it
    assert_eq!(q.add_input(PlayerInput::new(Frame::new(20), pad(1))), Frame::new(20));
    assert_eq!(q.first_incorrect_frame(), Frame::new(20));
}

#[test]
fn reserved_ring_outcomes() {
    let q = InputQueue::<Pad>::with_reserved_ring(3, 8, vec![PlayerInput::new(Frame::new(9), pad(1))], true)
        .expect("reserved ring");
    assert_eq!(q.queue_length(), 8);
    assert_eq!(q.length(), 0);
    assert_eq!(q.last_added_frame(), Frame::null());
    assert_eq!(q.check_invariants(), Ok(()));
    assert_eq!(
        InputQueue::<Pad>::with_reserved_ring(0, 8, Vec::new(), false).unwrap_err(),
        FortressError::InvalidRequestStructured {
            kind: InvalidRequestKind::AllocationFailed {
                context: "input_queue.inputs",
                requested_elements: 8,
            }
        }
    );
    assert_eq!(
        InputQueue::<Pad>::with_reserved_ring(0, 1, Vec::new(), true).unwrap_err(),
        FortressError::InvalidRequestStructured {
            kind: InvalidRequestKind::QueueLengthTooSmall { length: 1 }
        }
    );
}

#[test]
fn null_frame_is_never_confirmed() {
    let q = queue_of(8);
    assert_eq!(
        q.confirmed_input(Frame::null()),
        Err(FortressError::InvalidRequestStructured {
            kind: InvalidRequestKind::NoConfirmedInput { frame: Frame::null() }
        })
    );
}

#[test]
fn accepted_input_stays_confirmed_across_later_operations() {
    let mut q = queue_of(8);
    let r = q.add_input(PlayerInput::new(Frame::new(0), pad(3)));
    assert_eq!(r, Frame::new(0));
    q.add_input(PlayerInput::new(Frame::new(1), pad(4)));
    q.set_frame_delay(2).unwrap();
    q.add_input(PlayerInput::new(Frame::new(2), pad(5)));
    // discarding moves the tail but leaves the slots as they are
    q.discard_confirmed_frames(Frame::new(3));
    assert_eq!(q.confirmed_input(r).unwrap().input, pad(3));
    assert_eq!(q.confirmed_input(Frame::new(2)).unwrap().input, pad(4));
    assert_eq!(q.confirmed_input(Frame::new(4)).unwrap().input, pad(5));
}

#[test]
fn added_input_stays_retrievable_until_a_ring_of_frames_follows() {
    let mut q = queue_of(8);
    let r = q.add_input(PlayerInput::new(Frame::new(0), pad(42)));
    assert_eq!(r, Frame::new(0));
    // seven further frames: the input is still found, whatever runs between
    for f in 1..8 {
        q.add_input(PlayerInput::new(Frame::new(f), pad(f as u8)));
        let _ = q.input(Frame::new(f));
        q.discard_confirmed_frames(Frame::new(f - 1));
        assert_eq!(
            q.confirmed_input(r),
            Ok(PlayerInput::new(Frame::new(0), pad(42)))
        );
    }
    // the eighth further frame reuses its slot
    q.add_input(PlayerInput::new(Frame::new(8), pad(8)));
    assert!(q.confirmed_input(r).is_err());
}
