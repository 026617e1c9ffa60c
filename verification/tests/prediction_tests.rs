use fortress_rollback::{BlankPrediction, Frame, PredictionStrategy, RepeatLastConfirmed};

#[derive(Copy, Clone, PartialEq, Default, Debug)]
struct TestInput {
    inp: u8,
}

#[test]
fn test_blank_prediction_strategy() {
    let strategy = BlankPrediction;

    // Should always return default regardless of last confirmed
    let result: TestInput = strategy.predict(Frame::new(0), Some(TestInput { inp: 42 }), 0);
    assert_eq!(result, TestInput::default());

    let result: TestInput = strategy.predict(Frame::new(10), None, 1);
    assert_eq!(result, TestInput::default());
}

#[test]
fn test_repeat_last_confirmed_strategy() {
    let strategy = RepeatLastConfirmed;

    // Should return last confirmed input when available
    let result: TestInput = strategy.predict(Frame::new(5), Some(TestInput { inp: 99 }), 0);
    assert_eq!(result.inp, 99);

    // Should return default when no last confirmed
    let result: TestInput = strategy.predict(Frame::new(0), None, 0);
    assert_eq!(result, TestInput::default());
}

#[test]
fn test_prediction_strategy_player_index_ignored_by_default() {
    // Both default strategies ignore player_index
    let repeat = RepeatLastConfirmed;
    let blank = BlankPrediction;

    let last_input = Some(TestInput { inp: 42 });

    // Same result regardless of player_index
    for player_idx in 0..10 {
        let repeat_result: TestInput = repeat.predict(Frame::new(5), last_input, player_idx);
        assert_eq!(repeat_result.inp, 42);

        let blank_result: TestInput = blank.predict(Frame::new(5), last_input, player_idx);
        assert_eq!(blank_result, TestInput::default());
    }
}

#[test]
fn test_repeat_last_confirmed_debug() {
    let strategy = RepeatLastConfirmed;
    let debug_str = format!("{:?}", strategy);
    assert!(debug_str.contains("RepeatLastConfirmed"));
}

#[test]
fn test_blank_prediction_debug() {
    let strategy = BlankPrediction;
    let debug_str = format!("{:?}", strategy);
    assert!(debug_str.contains("BlankPrediction"));
}

#[test]
fn test_repeat_last_confirmed_copy() {
    let a = RepeatLastConfirmed;
    let b = a; // Copy
    let debug_a = format!("{:?}", a);
    let debug_b = format!("{:?}", b);
    assert_eq!(debug_a, debug_b);
}

#[test]
fn test_blank_prediction_copy() {
    let a = BlankPrediction;
    let b = a; // Copy
    let debug_a = format!("{:?}", a);
    let debug_b = format!("{:?}", b);
    assert_eq!(debug_a, debug_b);
}
