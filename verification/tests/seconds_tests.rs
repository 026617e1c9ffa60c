use fortress_rollback::seconds::hundredths_of_seconds;
use fortress_rollback::InvalidRequestKind;

fn printed(frames: usize, fps: usize) -> String {
    format!("{:.2}", frames as f64 / fps as f64)
}

fn from_hundredths(h: u128) -> String {
    format!("{}.{:02}", h / 100, h % 100)
}

#[test]
fn one_frame_at_two_hundred_fps_rounds_up_like_the_f64_quotient() {
    // 1 / 200 is stored just above 0.005, so it prints as 0.01
    assert_eq!(hundredths_of_seconds(1, 200), 1);
    let kind = InvalidRequestKind::InputDelayTooLarge {
        delay_frames: 1,
        fps: 200,
        max_seconds_limit: 0,
    };
    assert_eq!(
        kind.to_string(),
        "input delay 1 frames (0.01s) exceeds maximum allowed 0s"
    );
}

#[test]
fn exact_binary_ties_round_to_the_even_hundredth() {
    assert_eq!(hundredths_of_seconds(1, 8), 12); // 0.125
    assert_eq!(hundredths_of_seconds(3, 8), 38); // 0.375
    assert_eq!(hundredths_of_seconds(5, 8), 62); // 0.625
    assert_eq!(hundredths_of_seconds(0, 7), 0);
}

#[test]
fn seconds_match_the_printed_f64_quotient() {
    let rates = [1usize, 2, 3, 7, 24, 25, 30, 50, 60, 90, 120, 144, 200, 240, 1000];
    for fps in rates {
        for frames in 0..2000usize {
            assert_eq!(
                from_hundredths(hundredths_of_seconds(frames, fps)),
                printed(frames, fps),
                "{frames} frames at {fps} fps"
            );
        }
    }
}

#[test]
fn seconds_of_huge_counts_match_the_printed_f64_quotient() {
    let counts = [
        usize::MAX,
        usize::MAX - 1,
        (1usize << 53) + 1,
        (1usize << 53) - 1,
        123_456_789_012_345,
    ];
    for frames in counts {
        for fps in [1usize, 3, 60, 7919, usize::MAX] {
            assert_eq!(
                from_hundredths(hundredths_of_seconds(frames, fps)),
                printed(frames, fps),
                "{frames} frames at {fps} fps"
            );
        }
    }
}
