use batpet::terminal::bat::{Bat, BatState, EyeDirection, Position, WingFrame};

#[test]
fn a_new_bat_hangs_idle_looking_ahead() {
    let bat = Bat::new(7, 9);
    assert_eq!(bat.position, Position { x: 7, y: 9 });
    assert_eq!(bat.mouse_position, None);
    assert_eq!(bat.eye_direction, EyeDirection::Center);
    assert_eq!(bat.state, BatState::HangingIdle);
    assert_eq!(bat.wing_frame, WingFrame::Open);
    assert_eq!(BatState::default(), BatState::HangingIdle);
    assert_eq!(EyeDirection::default(), EyeDirection::Center);
    assert_eq!(WingFrame::default(), WingFrame::Open);
}

#[test]
fn setters_change_only_their_field() {
    let mut bat = Bat::new(1, 2);
    bat.set_mouse_position(Position { x: 5, y: 6 });
    assert_eq!(bat.mouse_position, Some(Position { x: 5, y: 6 }));
    assert_eq!(bat.position, Position { x: 1, y: 2 });
    bat.set_position(Position { x: 3, y: 4 });
    assert_eq!(bat.position, Position { x: 3, y: 4 });
    assert_eq!(bat.mouse_position, Some(Position { x: 5, y: 6 }));
}

#[test]
fn labels_name_states_and_directions() {
    assert_eq!(BatState::HangingIdle.label(), "HangingIdle");
    assert_eq!(BatState::HangingAlert.label(), "HangingAlert");
    assert_eq!(BatState::TakeOff.label(), "TakeOff");
    assert_eq!(BatState::Flying.label(), "Flying");
    assert_eq!(BatState::Landing.label(), "Landing");
    assert_eq!(EyeDirection::Center.label(), "Center");
    assert_eq!(EyeDirection::UpRight.label(), "UpRight");
    assert_eq!(EyeDirection::DownLeft.label(), "DownLeft");
    assert_eq!(EyeDirection::UpLeft.label(), "UpLeft");
}
