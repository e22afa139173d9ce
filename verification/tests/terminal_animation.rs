use batpet::terminal::animation::{AnimationFrame, WingAnimation, WING_FRAME_MILLIS, WING_FRAME_NANOS};
use batpet::terminal::bat::{Bat, WingFrame};

#[test]
fn preserves_the_four_logical_frame_sequence() {
    assert_eq!(AnimationFrame::from_index(0), AnimationFrame::Flight00);
    assert_eq!(AnimationFrame::from_index(1), AnimationFrame::Flight01);
    assert_eq!(AnimationFrame::from_index(2), AnimationFrame::Flight02);
    assert_eq!(AnimationFrame::from_index(3), AnimationFrame::Flight03);
    assert_eq!(AnimationFrame::from_index(4), AnimationFrame::Flight00);
}

#[test]
fn maps_the_duplicate_mid_wing_states() {
    assert_eq!(AnimationFrame::Flight01.wing_frame(), WingFrame::Mid);
    assert_eq!(AnimationFrame::Flight03.wing_frame(), WingFrame::Mid);
}

#[test]
fn advances_through_the_four_wing_frames() {
    // Instants are nanoseconds since the animation was created.
    let mut animation = WingAnimation::new();
    let mut bat = Bat::new(0, 0);

    assert_eq!(animation.current_frame(), WingFrame::Open);

    animation.update_at(WING_FRAME_NANOS, &mut bat);
    assert_eq!(bat.wing_frame, WingFrame::Mid);

    animation.update_at(WING_FRAME_NANOS * 2, &mut bat);
    assert_eq!(bat.wing_frame, WingFrame::Closed);

    animation.update_at(WING_FRAME_NANOS * 3, &mut bat);
    assert_eq!(bat.wing_frame, WingFrame::Mid);

    animation.update_at(WING_FRAME_NANOS * 4, &mut bat);
    assert_eq!(bat.wing_frame, WingFrame::Open);
}

#[test]
fn catches_up_when_the_main_loop_is_slow() {
    let mut animation = WingAnimation::new();
    let mut bat = Bat::new(0, 0);

    animation.update_at(WING_FRAME_NANOS * 3, &mut bat);

    assert_eq!(bat.wing_frame, WingFrame::Mid);
}

#[test]
fn frame_durations_follow_eight_frames_per_second() {
    assert_eq!(WING_FRAME_MILLIS, 125);
    assert_eq!(WING_FRAME_NANOS, 125_000_000);
}

#[test]
fn frame_indices_round_trip_and_wrap() {
    for frame in [
        AnimationFrame::Flight00,
        AnimationFrame::Flight01,
        AnimationFrame::Flight02,
        AnimationFrame::Flight03,
    ] {
        assert_eq!(AnimationFrame::from_index(frame.index()), frame);
    }
    assert_eq!(AnimationFrame::from_index(7).index(), 3);
    assert_eq!(AnimationFrame::from_index(usize::MAX).index(), 3);
}

#[test]
fn frame_labels_name_the_wing_position() {
    assert_eq!(AnimationFrame::Flight00.label(), "open");
    assert_eq!(AnimationFrame::Flight01.label(), "mid");
    assert_eq!(AnimationFrame::Flight02.label(), "closed");
    assert_eq!(AnimationFrame::Flight03.label(), "mid");
    assert_eq!(AnimationFrame::Flight02.wing_frame(), WingFrame::Closed);
    assert_eq!(AnimationFrame::Flight00.wing_frame(), WingFrame::Open);
}

#[test]
fn no_whole_frame_means_no_change() {
    let mut animation = WingAnimation::new();
    let mut bat = Bat::new(3, 4);
    bat.wing_frame = WingFrame::Closed;
    assert!(!animation.update_at(WING_FRAME_NANOS - 1, &mut bat));
    assert_eq!(bat.wing_frame, WingFrame::Closed);
    assert_eq!(animation.current_animation_frame(), AnimationFrame::Flight00);
}

#[test]
fn a_remainder_is_kept_for_the_next_update() {
    let mut animation = WingAnimation::new();
    let mut bat = Bat::new(0, 0);
    assert!(animation.update_at(WING_FRAME_NANOS + WING_FRAME_NANOS / 2, &mut bat));
    assert_eq!(animation.current_animation_frame(), AnimationFrame::Flight01);
    // Half a frame was left over: half a frame more completes the second one.
    assert!(animation.update_at(WING_FRAME_NANOS * 2, &mut bat));
    assert_eq!(animation.current_animation_frame(), AnimationFrame::Flight02);
    assert_eq!(bat.wing_frame, WingFrame::Closed);
}

#[test]
fn polling_often_or_rarely_ends_on_the_same_frame() {
    let mut often = WingAnimation::new();
    let mut rarely = WingAnimation::new();
    let mut bat_often = Bat::new(0, 0);
    let mut bat_rarely = Bat::new(0, 0);
    let mut step: u128 = 1;
    while step <= 37 {
        often.update_at(step * WING_FRAME_NANOS / 3, &mut bat_often);
        step += 1;
    }
    rarely.update_at(37 * WING_FRAME_NANOS / 3, &mut bat_rarely);
    assert_eq!(often.current_animation_frame(), rarely.current_animation_frame());
    assert_eq!(bat_often.wing_frame, bat_rarely.wing_frame);
}

#[test]
fn an_earlier_instant_changes_nothing() {
    let mut animation = WingAnimation::new();
    let mut bat = Bat::new(0, 0);
    animation.update_at(WING_FRAME_NANOS * 2, &mut bat);
    assert!(!animation.update_at(WING_FRAME_NANOS, &mut bat));
    assert_eq!(animation.current_frame(), WingFrame::Closed);
}

#[test]
fn the_real_clock_keeps_a_valid_frame() {
    let mut animation = WingAnimation::new();
    let mut bat = Bat::new(0, 0);
    animation.update(&mut bat);
    assert!(animation.current_animation_frame().index() < 4);
}

#[test]
fn flight_lists_the_frames_in_cycle_order() {
    assert_eq!(
        AnimationFrame::FLIGHT,
        [AnimationFrame::Flight00, AnimationFrame::Flight01, AnimationFrame::Flight02, AnimationFrame::Flight03]
    );
    let mut index: usize = 0;
    while index < 8 {
        assert_eq!(AnimationFrame::from_index(index), AnimationFrame::FLIGHT[index % 4]);
        index += 1;
    }
}

#[test]
fn default_wing_animation_starts_open() {
    let animation = WingAnimation::default();
    assert_eq!(animation.current_animation_frame(), AnimationFrame::Flight00);
    assert_eq!(animation.current_frame(), WingFrame::Open);
}
