use fortress_rollback::{Frame, PlayerHandle};

#[test]
fn option_round_trip_for_valid_and_null_frames() {
    for f in [Frame::null(), Frame::new(0), Frame::new(17), Frame::new(i32::MAX)] {
        assert_eq!(Frame::from_option(f.to_option()), f);
    }
    // other negative frames come back as the null frame
    assert_eq!(Frame::from_option(Frame::new(-5).to_option()), Frame::null());
}

#[test]
fn assign_operators_agree_with_operators() {
    for (start, n) in [(0, 5), (100, -40), (-3, 3)] {
        let mut a = Frame::new(start);
        a += n;
        assert_eq!(a, Frame::new(start) + n);
        let mut s = Frame::new(start);
        s -= n;
        assert_eq!(s, Frame::new(start) - n);
    }
}

#[test]
fn remainder_follows_the_sign_of_the_frame() {
    assert_eq!(Frame::new(135) % 128, 7);
    assert_eq!(Frame::new(-7) % 3, -1);
    assert_eq!(Frame::new(7) % -3, 1);
    assert_eq!(Frame::new(i32::MIN) % i32::MIN, 0);
}

#[test]
fn frames_order_as_numbers() {
    assert!(Frame::null() < Frame::new(0));
    assert!(Frame::new(3) > Frame::new(-2));
    assert!(Frame::new(3) < 4);
    assert!(Frame::new(3) >= 3);
    assert_eq!(Frame::new(3), 3);
    assert_eq!(Frame::new(3).partial_cmp(&Frame::new(3)), Some(std::cmp::Ordering::Equal));
}

#[test]
fn conversions() {
    let f: Frame = 12i32.into();
    assert_eq!(i32::from(f), 12);
    let g: Frame = 9usize.into();
    assert_eq!(g, Frame::new(9));
    let h: PlayerHandle = 4usize.into();
    assert_eq!(usize::from(h), 4);
}

#[test]
fn handle_is_player_or_spectator() {
    for n in [0usize, 1, 4] {
        for h in 0..6usize {
            let handle = PlayerHandle::new(h);
            assert_ne!(handle.is_valid_player_for(n), handle.is_spectator_for(n));
        }
    }
}
