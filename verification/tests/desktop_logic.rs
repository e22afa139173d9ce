use batpet::desktop::acting::{IdleGazePhase, ReactionPhase};
use batpet::desktop::components::{Bat, EyeLid};
use batpet::desktop::debug::DebugOptions;
use batpet::desktop::eyes::EyeDirection;
use batpet::desktop::flight::{FlightStep, FlightVisualFrame};
use batpet::desktop::idle::{BlinkEvent, BlinkPhase, IdleRng};
use batpet::desktop::rendering::{
    pixel_top_left_to_local, BAT_SPRITE_PATH, DISPLAY_HEIGHT, DISPLAY_SCALE, DISPLAY_WIDTH,
    LEFT_PUPIL_TOP_LEFT, PUPIL_DISPLAY_SIZE, RIGHT_PUPIL_TOP_LEFT, SPRITE_HEIGHT, SPRITE_WIDTH,
};
use batpet::desktop::state::{next_state, BatState, StateEvent};
use batpet::desktop::visual::{
    effective_body, AttentionBodyFrame, AttentionReaction, BaseBodyFrame, BodyAction, BodyFrame,
    FaceFrame,
};
use batpet::desktop::window::{
    top_right_position, ScreenPoint, ScreenSize, WindowPlacement, WINDOW_HEIGHT, WINDOW_WIDTH,
};

#[test]
fn visual_frames_map_to_the_four_authored_wing_phases() {
    assert_eq!(FlightVisualFrame::Lift.sheet_index(), 0);
    assert_eq!(FlightVisualFrame::Spread.sheet_index(), 1);
    assert_eq!(FlightVisualFrame::Power.sheet_index(), 2);
    assert_eq!(FlightVisualFrame::Recover.sheet_index(), 3);
    assert!(FlightVisualFrame::Power.sheet_index() < 4);
}

#[test]
fn starts_in_hanging_idle() {
    assert_eq!(BatState::default(), BatState::HangingIdle);
    assert_eq!(BatState::HangingIdle.label(), "HangingIdle");
    assert_eq!(BatState::Reacting.label(), "Reacting");
    assert_eq!(BatState::Takeoff.label(), "Takeoff");
    assert_eq!(BatState::Flying.label(), "Flying");
    assert_eq!(BatState::Returning.label(), "Return");
    assert_eq!(BatState::Landing.label(), "Landing");
}

#[test]
fn uses_the_expected_idle_sprite_asset() {
    assert_eq!(BAT_SPRITE_PATH, "bat/idle/bat_idle.png");
    assert_eq!(SPRITE_WIDTH, 32);
    assert_eq!(SPRITE_HEIGHT, 32);
}

#[test]
fn display_scale_is_an_integer_multiple_of_the_logical_art() {
    assert_eq!(DISPLAY_WIDTH as u32 % SPRITE_WIDTH, 0);
    assert_eq!(DISPLAY_HEIGHT as u32 % SPRITE_HEIGHT, 0);
}

#[test]
fn pupil_base_positions_are_symmetric() {
    let left = pixel_top_left_to_local(LEFT_PUPIL_TOP_LEFT);
    let right = pixel_top_left_to_local(RIGHT_PUPIL_TOP_LEFT);

    assert_eq!(left.1, right.1);
    assert_eq!(left.0, -right.0);
}

#[test]
fn pupil_centres_are_in_screen_pixels() {
    assert_eq!(pixel_top_left_to_local(LEFT_PUPIL_TOP_LEFT), (-36, -172));
    assert_eq!(pixel_top_left_to_local(RIGHT_PUPIL_TOP_LEFT), (36, -172));
    assert_eq!(DISPLAY_SCALE, 8);
    assert_eq!(PUPIL_DISPLAY_SIZE, 24);
}

#[test]
fn transient_body_action_has_priority_over_breathing() {
    let frame = effective_body(
        BaseBodyFrame::BreatheIn,
        Some(BodyAction::EarTwitchRight),
        AttentionBodyFrame::Relaxed,
        AttentionReaction::Calm,
    );

    assert_eq!(frame, BodyFrame::EarTwitchRight);
}

#[test]
fn attention_has_priority_over_background_actions() {
    let frame = effective_body(
        BaseBodyFrame::BreatheIn,
        Some(BodyAction::WingAdjust),
        AttentionBodyFrame::Right,
        AttentionReaction::Calm,
    );

    assert_eq!(frame, BodyFrame::AttentionRight);
}

#[test]
fn very_near_reaction_has_highest_body_priority() {
    let frame = effective_body(
        BaseBodyFrame::Neutral,
        Some(BodyAction::EarTwitchLeft),
        AttentionBodyFrame::Right,
        AttentionReaction::VeryNear,
    );

    assert_eq!(frame, BodyFrame::VeryNear);
}

#[test]
fn breathing_shows_when_nothing_else_does() {
    assert_eq!(
        effective_body(BaseBodyFrame::BreatheOut, None, AttentionBodyFrame::Relaxed, AttentionReaction::Calm),
        BodyFrame::BreatheOut
    );
    assert_eq!(BaseBodyFrame::Neutral.body_frame(), BodyFrame::Neutral);
    assert_eq!(BaseBodyFrame::BreatheIn.body_frame(), BodyFrame::BreatheIn);
    assert_eq!(AttentionBodyFrame::Relaxed.body_frame(), None);
    assert_eq!(AttentionBodyFrame::Attentive.body_frame(), Some(BodyFrame::Attentive));
    assert_eq!(AttentionBodyFrame::Left.body_frame(), Some(BodyFrame::AttentionLeft));
    assert_eq!(BodyAction::WingAdjust.body_frame(), BodyFrame::WingAdjust);
    assert_eq!(BodyAction::EarTwitchLeft.body_frame(), BodyFrame::EarTwitchLeft);
    assert_eq!(BodyAction::WingAdjust.label(), "wing-adjust");
    assert_eq!(BodyAction::EarTwitchLeft.label(), "left");
    assert_eq!(BodyAction::EarTwitchRight.label(), "right");
    assert_eq!(FaceFrame::default(), FaceFrame::Open);
}

#[test]
fn calculates_the_top_right_position_inside_a_monitor() {
    assert_eq!(
        top_right_position(
            ScreenPoint { x: 0, y: 0 },
            ScreenSize { x: 1920, y: 1080 },
            ScreenSize { x: 320, y: 320 },
            ScreenSize { x: 24, y: 8 },
        ),
        ScreenPoint { x: 1576, y: 8 }
    );
}

#[test]
fn preserves_monitor_origin_for_multi_monitor_layouts() {
    assert_eq!(
        top_right_position(
            ScreenPoint { x: -1920, y: 0 },
            ScreenSize { x: 1920, y: 1080 },
            ScreenSize { x: 320, y: 320 },
            ScreenSize { x: 24, y: 8 },
        ),
        ScreenPoint { x: -344, y: 8 }
    );
}

#[test]
fn a_window_wider_than_the_monitor_is_left_aligned() {
    assert_eq!(
        top_right_position(
            ScreenPoint { x: 100, y: 50 },
            ScreenSize { x: 300, y: 200 },
            ScreenSize { x: WINDOW_WIDTH, y: WINDOW_HEIGHT },
            ScreenSize { x: 24, y: 8 },
        ),
        ScreenPoint { x: 100, y: 58 }
    );
    assert!(!WindowPlacement::default().positioned);
}

#[test]
fn the_flight_cycle_returns_to_rest() {
    let mut state = BatState::HangingIdle;
    state = next_state(state, StateEvent::FlightRequested);
    assert_eq!(state, BatState::Takeoff);
    let mut seen = Vec::new();
    let mut i: u32 = 0;
    while i < 4 {
        state = next_state(state, StateEvent::StageCompleted);
        seen.push(state);
        i += 1;
    }
    assert_eq!(
        seen,
        vec![BatState::Flying, BatState::Returning, BatState::Landing, BatState::HangingIdle]
    );
}

#[test]
fn a_click_starts_the_reaction_which_returns_to_rest() {
    let reacting = next_state(BatState::HangingIdle, StateEvent::BatClicked);
    assert_eq!(reacting, BatState::Reacting);
    assert_eq!(next_state(reacting, StateEvent::BatClicked), BatState::Reacting);
    assert_eq!(next_state(reacting, StateEvent::FlightRequested), BatState::Reacting);
    assert_eq!(next_state(reacting, StateEvent::StageCompleted), BatState::Reacting);
    assert_eq!(next_state(reacting, StateEvent::ReactionFinished), BatState::HangingIdle);
}

#[test]
fn a_flying_bat_ignores_clicks_and_requests() {
    for state in [BatState::Takeoff, BatState::Flying, BatState::Returning, BatState::Landing] {
        assert_eq!(next_state(state, StateEvent::BatClicked), state);
        assert_eq!(next_state(state, StateEvent::FlightRequested), state);
        assert_eq!(next_state(state, StateEvent::ReactionFinished), state);
    }
    assert_eq!(next_state(BatState::HangingIdle, StateEvent::StageCompleted), BatState::HangingIdle);
}

#[test]
fn zero_seed_is_replaced_and_sequences_repeat() {
    let mut a = IdleRng::new(0);
    let mut b = IdleRng::new(0x9E37_79B9);
    assert_eq!(a, b);
    assert_eq!(a.next_u32(), b.next_u32());
    let mut c = IdleRng::new(7);
    let mut d = IdleRng::new(7);
    let mut i: u32 = 0;
    while i < 100 {
        let value = c.next_u32();
        assert_ne!(value, 0);
        assert_eq!(value, d.next_u32());
        i += 1;
    }
}

#[test]
fn xorshift_step_matches_the_reference_values() {
    let mut rng = IdleRng::new(1);
    // 1 ^ (1 << 13) = 8193; 8193 ^ (8193 >> 17) = 8193; 8193 ^ (8193 << 5) = 270369.
    assert_eq!(rng.next_u32(), 270_369);
    let mut rng = IdleRng::new(1);
    assert_eq!(rng.next_ear_twitch_action(), BodyAction::EarTwitchRight);
}

#[test]
fn reaction_phases_run_in_order_and_show_the_recoil() {
    assert_eq!(ReactionPhase::default(), ReactionPhase::Idle);
    assert_eq!(ReactionPhase::Anticipating.following(), ReactionPhase::Recoiling);
    assert_eq!(ReactionPhase::Recoiling.following(), ReactionPhase::Recovering);
    assert_eq!(ReactionPhase::Recovering.following(), ReactionPhase::Idle);
    assert_eq!(ReactionPhase::Idle.following(), ReactionPhase::Idle);
    assert_eq!(ReactionPhase::Anticipating.reaction(), AttentionReaction::Calm);
    assert_eq!(ReactionPhase::Recoiling.reaction(), AttentionReaction::VeryNear);
    assert_eq!(ReactionPhase::Recovering.reaction(), AttentionReaction::VeryNear);
    assert_eq!(IdleGazePhase::default(), IdleGazePhase::Resting);
}

#[test]
fn desktop_direction_labels_are_lowercase() {
    assert_eq!(EyeDirection::Center.label(), "center");
    assert_eq!(EyeDirection::UpRight.label(), "up-right");
    assert_eq!(EyeDirection::DownLeft.label(), "down-left");
    assert_eq!(EyeDirection::default(), EyeDirection::Center);
}

#[test]
fn plain_markers_and_options() {
    assert_eq!(Bat, Bat::default());
    assert_eq!(EyeLid, EyeLid::default());
    assert!(DebugOptions { enabled: true }.enabled);
    assert_ne!(FlightStep::Moving, FlightStep::Arrived);
    assert_ne!(BlinkPhase::Waiting, BlinkPhase::Closed);
    assert_eq!(BlinkEvent::Started { double: false }, BlinkEvent::Started { double: false });
    assert_eq!(FlightVisualFrame::default().sheet_index(), 3);
    assert_eq!(FlightVisualFrame::Coil.sheet_index(), 1);
    assert_eq!(FlightVisualFrame::Reach.sheet_index(), 1);
}
