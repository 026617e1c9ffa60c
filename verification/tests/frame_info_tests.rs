use fortress_rollback::{Frame, GameState, PlayerInput};

#[derive(Copy, Clone, PartialEq, Default, Debug)]
struct TestInput {
    inp: u8,
}

#[derive(Copy, Clone, PartialEq, Default, Debug)]
struct ComplexInput {
    x: i16,
    y: i16,
    buttons: u32,
}

#[test]
fn default_state_has_null_frame() {
    let state: GameState<u32> = GameState::default();
    assert_eq!(state.frame, Frame::null());
    assert!(state.data.is_none());
    assert!(state.checksum.is_none());
}

#[test]
fn game_state_stores_frame() {
    let state = GameState {
        frame: Frame::new(42),
        data: Some(123u32),
        checksum: None,
    };
    assert_eq!(state.frame, Frame::new(42));
}

#[test]
fn game_state_stores_data() {
    let state = GameState {
        frame: Frame::new(0),
        data: Some("test state".to_string()),
        checksum: None,
    };
    assert_eq!(state.data, Some("test state".to_string()));
}

#[test]
fn game_state_stores_checksum() {
    let state = GameState {
        frame: Frame::new(0),
        data: Some(0u8),
        checksum: Some(0xDEAD_BEEF),
    };
    assert_eq!(state.checksum, Some(0xDEAD_BEEF));
}

#[test]
#[allow(clippy::redundant_clone)]
fn game_state_clone_preserves_all_fields() {
    let state = GameState {
        frame: Frame::new(100),
        data: Some(vec![1, 2, 3]),
        checksum: Some(12345),
    };
    let cloned = state.clone();
    assert_eq!(cloned.frame, Frame::new(100));
    assert_eq!(cloned.data, Some(vec![1, 2, 3]));
    assert_eq!(cloned.checksum, Some(12345));
}

#[test]
fn game_state_debug_format() {
    let state = GameState {
        frame: Frame::new(5),
        data: Some(42u32),
        checksum: Some(100),
    };
    let debug_str = format!("{:?}", state);
    assert!(debug_str.contains("frame"));
    assert!(debug_str.contains("data"));
    assert!(debug_str.contains("checksum"));
}

#[test]
fn game_state_with_none_data() {
    let state: GameState<String> = GameState {
        frame: Frame::new(10),
        data: None,
        checksum: Some(999),
    };
    assert!(state.data.is_none());
    assert_eq!(state.checksum, Some(999));
}

#[test]
fn game_state_max_frame_value() {
    let state = GameState {
        frame: Frame::new(i32::MAX),
        data: Some(0u8),
        checksum: None,
    };
    assert_eq!(state.frame, Frame::new(i32::MAX));
}

#[test]
fn game_state_max_checksum_value() {
    let state = GameState {
        frame: Frame::new(0),
        data: Some(0u8),
        checksum: Some(u128::MAX),
    };
    assert_eq!(state.checksum, Some(u128::MAX));
}

#[test]
fn game_state_complex_data_type() {
    #[derive(Clone, Debug, PartialEq)]
    struct ComplexState {
        position: (f32, f32),
        velocity: (f32, f32),
        health: i32,
    }

    let state = GameState {
        frame: Frame::new(50),
        data: Some(ComplexState {
            position: (1.5, 2.5),
            velocity: (-0.5, 0.0),
            health: 100,
        }),
        checksum: Some(0xCAFEBABE),
    };

    assert_eq!(state.frame, Frame::new(50));
    assert_eq!(state.data.as_ref().unwrap().health, 100);
    assert_eq!(state.checksum, Some(0xCAFEBABE));
}

#[test]
fn new_creates_player_input() {
    let input = PlayerInput::new(Frame::new(5), TestInput { inp: 42 });
    assert_eq!(input.frame, Frame::new(5));
    assert_eq!(input.input.inp, 42);
}

#[test]
fn blank_input_uses_default() {
    let input = PlayerInput::<TestInput>::blank_input(Frame::new(10));
    assert_eq!(input.frame, Frame::new(10));
    assert_eq!(input.input, TestInput::default());
}

#[test]
fn blank_input_with_null_frame() {
    let input = PlayerInput::<TestInput>::blank_input(Frame::null());
    assert_eq!(input.frame, Frame::null());
    assert_eq!(input.input, TestInput::default());
}

#[test]
fn test_input_equality() {
    let input1 = PlayerInput::new(Frame::new(0), TestInput { inp: 5 });
    let input2 = PlayerInput::new(Frame::new(0), TestInput { inp: 5 });
    assert!(input1.equal(&input2, false));
}

#[test]
fn test_input_equality_input_only() {
    let input1 = PlayerInput::new(Frame::new(0), TestInput { inp: 5 });
    let input2 = PlayerInput::new(Frame::new(5), TestInput { inp: 5 });
    assert!(input1.equal(&input2, true)); // different frames, but does not matter
}

#[test]
fn test_input_equality_fail() {
    let input1 = PlayerInput::new(Frame::new(0), TestInput { inp: 5 });
    let input2 = PlayerInput::new(Frame::new(0), TestInput { inp: 7 });
    assert!(!input1.equal(&input2, false)); // different bits
}

#[test]
fn equal_different_frames_input_only_true() {
    let input1 = PlayerInput::new(Frame::new(100), TestInput { inp: 50 });
    let input2 = PlayerInput::new(Frame::new(200), TestInput { inp: 50 });
    // With input_only=true, frames are ignored
    assert!(input1.equal(&input2, true));
}

#[test]
fn equal_different_frames_input_only_false() {
    let input1 = PlayerInput::new(Frame::new(100), TestInput { inp: 50 });
    let input2 = PlayerInput::new(Frame::new(200), TestInput { inp: 50 });
    // With input_only=false, frames matter
    assert!(!input1.equal(&input2, false));
}

#[test]
fn equal_null_frames() {
    let input1 = PlayerInput::new(Frame::null(), TestInput { inp: 10 });
    let input2 = PlayerInput::new(Frame::null(), TestInput { inp: 10 });
    assert!(input1.equal(&input2, false));
}

#[test]
fn partial_eq_same_inputs() {
    let input1 = PlayerInput::new(Frame::new(0), TestInput { inp: 5 });
    let input2 = PlayerInput::new(Frame::new(0), TestInput { inp: 5 });
    assert_eq!(input1, input2);
}

#[test]
fn partial_eq_different_inputs() {
    let input1 = PlayerInput::new(Frame::new(0), TestInput { inp: 5 });
    let input2 = PlayerInput::new(Frame::new(0), TestInput { inp: 6 });
    assert_ne!(input1, input2);
}

#[test]
fn partial_eq_different_frames() {
    let input1 = PlayerInput::new(Frame::new(0), TestInput { inp: 5 });
    let input2 = PlayerInput::new(Frame::new(1), TestInput { inp: 5 });
    assert_ne!(input1, input2);
}

#[test]
#[allow(clippy::clone_on_copy)]
fn clone_preserves_data() {
    let input = PlayerInput::new(Frame::new(42), TestInput { inp: 99 });
    let cloned = input.clone();
    assert_eq!(input, cloned);
}

#[test]
fn copy_semantics() {
    let input = PlayerInput::new(Frame::new(1), TestInput { inp: 2 });
    let copied = input; // Should copy, not move
    assert_eq!(input.frame, copied.frame);
    assert_eq!(input.input, copied.input);
}

#[test]
fn debug_format_contains_fields() {
    let input = PlayerInput::new(Frame::new(10), TestInput { inp: 20 });
    let debug_str = format!("{:?}", input);
    assert!(debug_str.contains("frame"));
    assert!(debug_str.contains("input"));
}

#[test]
fn max_frame_value() {
    let input = PlayerInput::new(Frame::new(i32::MAX), TestInput { inp: 0 });
    assert_eq!(input.frame, Frame::new(i32::MAX));
}

#[test]
fn max_input_value() {
    let input = PlayerInput::new(Frame::new(0), TestInput { inp: u8::MAX });
    assert_eq!(input.input.inp, u8::MAX);
}

#[test]
fn frame_zero() {
    let input = PlayerInput::new(Frame::new(0), TestInput { inp: 1 });
    assert_eq!(input.frame, Frame::new(0));
}

#[test]
fn complex_input_new() {
    let input = PlayerInput::new(
        Frame::new(55),
        ComplexInput {
            x: -100,
            y: 200,
            buttons: 0b1111,
        },
    );
    assert_eq!(input.frame, Frame::new(55));
    assert_eq!(input.input.x, -100);
    assert_eq!(input.input.y, 200);
    assert_eq!(input.input.buttons, 0b1111);
}

#[test]
fn complex_input_blank() {
    let input = PlayerInput::<ComplexInput>::blank_input(Frame::new(99));
    assert_eq!(input.frame, Frame::new(99));
    assert_eq!(input.input, ComplexInput::default());
}

#[test]
fn complex_input_equal() {
    let input1 = PlayerInput::new(
        Frame::new(1),
        ComplexInput {
            x: 10,
            y: 20,
            buttons: 30,
        },
    );
    let input2 = PlayerInput::new(
        Frame::new(1),
        ComplexInput {
            x: 10,
            y: 20,
            buttons: 30,
        },
    );
    assert!(input1.equal(&input2, false));
    assert!(input1.equal(&input2, true));
}
