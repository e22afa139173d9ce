use batpet::terminal::bat::{Bat, EyeDirection, Position};
use batpet::terminal::eyes::{offset_for_direction, Eyes, MAX_PUPIL_OFFSET_X, MAX_PUPIL_OFFSET_Y};

const BAT_POSITION: Position = Position { x: 10, y: 10 };

fn direction(x: u16, y: u16) -> EyeDirection {
    Eyes::new().direction_for(BAT_POSITION, Some(Position { x, y }))
}

#[test]
fn detects_the_eight_directions() {
    assert_eq!(direction(10, 0), EyeDirection::Up);
    assert_eq!(direction(20, 10), EyeDirection::Right);
    assert_eq!(direction(10, 20), EyeDirection::Down);
    assert_eq!(direction(0, 10), EyeDirection::Left);
    assert_eq!(direction(0, 0), EyeDirection::UpLeft);
    assert_eq!(direction(20, 0), EyeDirection::UpRight);
    assert_eq!(direction(0, 20), EyeDirection::DownLeft);
    assert_eq!(direction(20, 20), EyeDirection::DownRight);
}

#[test]
fn keeps_the_eyes_centered_when_the_mouse_is_near() {
    assert_eq!(direction(10, 10), EyeDirection::Center);
    assert_eq!(direction(11, 11), EyeDirection::Center);
    assert_eq!(direction(9, 10), EyeDirection::Center);
}

#[test]
fn uses_the_nearest_cardinal_or_diagonal_direction() {
    assert_eq!(direction(16, 12), EyeDirection::Right);
    assert_eq!(direction(18, 11), EyeDirection::Right);
    assert_eq!(direction(11, 18), EyeDirection::Down);
}

#[test]
fn smooths_the_pupil_toward_the_direction_target() {
    // Only the pupil target is checked here: the fractional slide towards
    // it is floating-point and lives in the program around the library, so
    // the assertions on the smoothed offset are not part of this test.
    let mut eyes = Eyes::new();
    let mut bat = Bat::new(BAT_POSITION.x, BAT_POSITION.y);
    bat.set_mouse_position(Position { x: 20, y: 10 });

    eyes.update(&mut bat);

    assert_eq!(eyes.target_offset(), (MAX_PUPIL_OFFSET_X, 0));
    assert_eq!(bat.eye_direction, EyeDirection::Right);
}

#[test]
fn centers_the_pupil_target_when_the_mouse_is_near() {
    // As above, the target is checked; the smoothed offset is not.
    let mut eyes = Eyes::new();
    let mut bat = Bat::new(BAT_POSITION.x, BAT_POSITION.y);
    bat.set_mouse_position(Position { x: 20, y: 10 });
    eyes.update(&mut bat);

    bat.set_mouse_position(BAT_POSITION);
    eyes.update(&mut bat);

    assert_eq!(eyes.target_offset(), (0, 0));
}

#[test]
fn no_pointer_means_looking_ahead() {
    assert_eq!(Eyes::new().direction_for(BAT_POSITION, None), EyeDirection::Center);
}

#[test]
fn a_wider_center_radius_keeps_the_gaze_ahead_longer() {
    let eyes = Eyes::with_center_radius(5);
    assert_eq!(eyes.direction_for(BAT_POSITION, Some(Position { x: 15, y: 5 })), EyeDirection::Center);
    assert_eq!(eyes.direction_for(BAT_POSITION, Some(Position { x: 16, y: 10 })), EyeDirection::Right);
}

#[test]
fn boundary_of_twice_the_distance_is_diagonal() {
    // 4 columns right and 2 rows up: exactly twice, so diagonal.
    assert_eq!(direction(14, 8), EyeDirection::UpRight);
    // 5 columns left and 2 rows down: more than twice, so horizontal.
    assert_eq!(direction(5, 12), EyeDirection::Left);
}

#[test]
fn mirrored_pointer_mirrors_the_direction() {
    assert_eq!(direction(13, 7), EyeDirection::UpRight);
    assert_eq!(direction(7, 7), EyeDirection::UpLeft);
    assert_eq!(direction(13, 13), EyeDirection::DownRight);
    assert_eq!(direction(7, 13), EyeDirection::DownLeft);
}

#[test]
fn update_reports_a_change_only_when_the_aim_moves() {
    let mut eyes = Eyes::new();
    let mut bat = Bat::new(BAT_POSITION.x, BAT_POSITION.y);
    assert!(!eyes.update(&mut bat));
    bat.set_mouse_position(Position { x: 0, y: 10 });
    assert!(eyes.update(&mut bat));
    assert_eq!(bat.eye_direction, EyeDirection::Left);
    assert!(!eyes.update(&mut bat));
    assert_eq!(eyes.target_offset(), (-MAX_PUPIL_OFFSET_X, 0));
}

#[test]
fn pupil_targets_are_one_cell_towards_the_direction() {
    assert_eq!(offset_for_direction(EyeDirection::Center), (0, 0));
    assert_eq!(offset_for_direction(EyeDirection::Up), (0, -MAX_PUPIL_OFFSET_Y));
    assert_eq!(offset_for_direction(EyeDirection::UpRight), (1, -1));
    assert_eq!(offset_for_direction(EyeDirection::Right), (1, 0));
    assert_eq!(offset_for_direction(EyeDirection::DownRight), (1, 1));
    assert_eq!(offset_for_direction(EyeDirection::Down), (0, 1));
    assert_eq!(offset_for_direction(EyeDirection::DownLeft), (-1, 1));
    assert_eq!(offset_for_direction(EyeDirection::Left), (-1, 0));
    assert_eq!(offset_for_direction(EyeDirection::UpLeft), (-1, -1));
}

#[test]
fn default_eyes_are_new_eyes() {
    let eyes = Eyes::default();
    assert_eq!(eyes.target_offset(), (0, 0));
    assert_eq!(eyes.direction_for(BAT_POSITION, Some(Position { x: 20, y: 10 })), EyeDirection::Right);
}
