use vstd::prelude::*;

use crate::terminal::bat::{Bat, EyeDirection, Position};

verus! {

/// How far, in cells on both axes, the pointer may be from the bat while the
/// eyes still look straight ahead.
pub const DEFAULT_CENTER_RADIUS: u16 = 1;

// Coordinates in the logical pixel grid of the terminal sprite.
/// Top-left pixel of the left eye.
pub const LEFT_EYE_BASE: (usize, usize) = (5, 8);

/// Top-left pixel of the right eye.
pub const RIGHT_EYE_BASE: (usize, usize) = (12, 8);

/// Each eye is a square of this many pixels.
pub const EYE_BASE_SIZE: usize = 3;

/// How far the pupil moves from the eye's centre, horizontally.
pub const MAX_PUPIL_OFFSET_X: i32 = 1;

/// How far the pupil moves from the eye's centre, vertically.
pub const MAX_PUPIL_OFFSET_Y: i32 = 1;

/// The absolute value of an integer.
pub open spec fn abs(value: int) -> int {
    if value < 0 {
        -value
    } else {
        value
    }
}

/// Left, right or neither, by the sign of the horizontal distance.
pub open spec fn horizontal_of(dx: int) -> EyeDirection {
    if dx < 0 {
        EyeDirection::Left
    } else if dx > 0 {
        EyeDirection::Right
    } else {
        EyeDirection::Center
    }
}

/// Up or down (rows grow downwards), or neither, by the sign of the vertical
/// distance.
pub open spec fn vertical_of(dy: int) -> EyeDirection {
    if dy < 0 {
        EyeDirection::Up
    } else if dy > 0 {
        EyeDirection::Down
    } else {
        EyeDirection::Center
    }
}

/// The diagonal between a horizontal and a vertical direction; a centred
/// component leaves the other one.
pub open spec fn combine(horizontal: EyeDirection, vertical: EyeDirection) -> EyeDirection {
    match (horizontal, vertical) {
        (EyeDirection::Left, EyeDirection::Up) => EyeDirection::UpLeft,
        (EyeDirection::Right, EyeDirection::Up) => EyeDirection::UpRight,
        (EyeDirection::Left, EyeDirection::Down) => EyeDirection::DownLeft,
        (EyeDirection::Right, EyeDirection::Down) => EyeDirection::DownRight,
        (EyeDirection::Center, direction) => direction,
        (direction, EyeDirection::Center) => direction,
        _ => EyeDirection::Center,
    }
}

/// Where the eyes of a bat at `bat` look when the pointer is at `mouse`.
/// With no pointer, or a pointer within `center_radius` cells on both axes,
/// they look ahead. Otherwise they take the nearest of the eight directions:
/// purely horizontal when the horizontal distance is more than twice the
/// vertical one, purely vertical in the opposite case, diagonal in between.
pub open spec fn spec_direction_for(
    center_radius: u16,
    bat: Position,
    mouse: Option<Position>,
) -> EyeDirection {
    match mouse {
        None => EyeDirection::Center,
        Some(m) => {
            let dx = m.x - bat.x;
            let dy = m.y - bat.y;
            if abs(dx) <= center_radius && abs(dy) <= center_radius {
                EyeDirection::Center
            } else if abs(dx) > 2 * abs(dy) {
                horizontal_of(dx)
            } else if abs(dy) > 2 * abs(dx) {
                vertical_of(dy)
            } else {
                combine(horizontal_of(dx), vertical_of(dy))
            }
        },
    }
}

/// The comparisons of `direction_for` double cell distances in 16 bits; the
/// inputs are those on which the doubling it reaches does not overflow.
pub open spec fn direction_defined(center_radius: u16, bat: Position, mouse: Option<Position>) -> bool {
    match mouse {
        None => true,
        Some(m) => {
            let ax = abs(m.x - bat.x);
            let ay = abs(m.y - bat.y);
            (ax <= center_radius && ay <= center_radius) || (2 * ay <= u16::MAX && (ax > 2 * ay
                || 2 * ax <= u16::MAX))
        },
    }
}

/// The direction seen in a mirror held vertically: left and right swap.
pub open spec fn mirrored(direction: EyeDirection) -> EyeDirection {
    match direction {
        EyeDirection::Left => EyeDirection::Right,
        EyeDirection::Right => EyeDirection::Left,
        EyeDirection::UpLeft => EyeDirection::UpRight,
        EyeDirection::UpRight => EyeDirection::UpLeft,
        EyeDirection::DownLeft => EyeDirection::DownRight,
        EyeDirection::DownRight => EyeDirection::DownLeft,
        other => other,
    }
}

/// The gaze is left-right symmetric: a pointer mirrored across the bat's
/// column is looked at in the mirrored direction.
pub proof fn lemma_gaze_is_mirror_symmetric(
    center_radius: u16,
    bat: Position,
    mouse: Position,
    mirror: Position,
)
    requires
        mirror.x - bat.x == bat.x - mouse.x,
        mirror.y == mouse.y,
    ensures
        spec_direction_for(center_radius, bat, Some(mirror)) == mirrored(
            spec_direction_for(center_radius, bat, Some(mouse)),
        ),
{
}

/// The direction seen with rows and columns swapped: left and up trade
/// places, as do right and down, and up-right and down-left.
pub open spec fn transposed(direction: EyeDirection) -> EyeDirection {
    match direction {
        EyeDirection::Left => EyeDirection::Up,
        EyeDirection::Up => EyeDirection::Left,
        EyeDirection::Right => EyeDirection::Down,
        EyeDirection::Down => EyeDirection::Right,
        EyeDirection::UpRight => EyeDirection::DownLeft,
        EyeDirection::DownLeft => EyeDirection::UpRight,
        other => other,
    }
}

/// The gaze treats rows and columns alike: swapping the two coordinates of
/// the bat and of the pointer swaps the direction the same way.
pub proof fn lemma_gaze_is_transpose_symmetric(center_radius: u16, bat: Position, mouse: Position)
    ensures
        spec_direction_for(
            center_radius,
            Position { x: bat.y, y: bat.x },
            Some(Position { x: mouse.y, y: mouse.x }),
        ) == transposed(spec_direction_for(center_radius, bat, Some(mouse))),
{
}

/// The eight-way rule, in terms of the pointer's offset `(dx, dy)` from the
/// bat (rows grow downwards): within the centre radius on both axes the eyes
/// look ahead; otherwise, when one distance is more than twice the other
/// the eyes look straight along that axis towards the pointer, and in every
/// other case they look diagonally towards it.
pub proof fn lemma_gaze_follows_the_eight_way_rule(
    center_radius: u16,
    bat: Position,
    mouse: Position,
)
    ensures
        ({
            let dx = mouse.x - bat.x;
            let dy = mouse.y - bat.y;
            let ax = if dx < 0 { -dx } else { dx };
            let ay = if dy < 0 { -dy } else { dy };
            let d = spec_direction_for(center_radius, bat, Some(mouse));
            &&& (ax <= center_radius && ay <= center_radius) ==> d == EyeDirection::Center
            &&& !(ax <= center_radius && ay <= center_radius) ==> {
                &&& ax > 2 * ay ==> d == (if dx < 0 { EyeDirection::Left } else { EyeDirection::Right })
                &&& ay > 2 * ax ==> d == (if dy < 0 { EyeDirection::Up } else { EyeDirection::Down })
                &&& (ax <= 2 * ay && ay <= 2 * ax) ==> d == (if dx < 0 && dy < 0 {
                    EyeDirection::UpLeft
                } else if dx < 0 {
                    EyeDirection::DownLeft
                } else if dy < 0 {
                    EyeDirection::UpRight
                } else {
                    EyeDirection::DownRight
                })
            }
        }),
        spec_direction_for(center_radius, bat, None) == EyeDirection::Center,
{
}

/// The pupil target (column, row offset) for a direction: one cell towards
/// each component of the direction.
pub open spec fn spec_offset_for_direction(direction: EyeDirection) -> (int, int) {
    match direction {
        EyeDirection::Center => (0, 0),
        EyeDirection::Up => (0, -MAX_PUPIL_OFFSET_Y),
        EyeDirection::UpRight => (MAX_PUPIL_OFFSET_X as int, -MAX_PUPIL_OFFSET_Y),
        EyeDirection::Right => (MAX_PUPIL_OFFSET_X as int, 0),
        EyeDirection::DownRight => (MAX_PUPIL_OFFSET_X as int, MAX_PUPIL_OFFSET_Y as int),
        EyeDirection::Down => (0, MAX_PUPIL_OFFSET_Y as int),
        EyeDirection::DownLeft => (-MAX_PUPIL_OFFSET_X, MAX_PUPIL_OFFSET_Y as int),
        EyeDirection::Left => (-MAX_PUPIL_OFFSET_X, 0),
        EyeDirection::UpLeft => (-MAX_PUPIL_OFFSET_X, -MAX_PUPIL_OFFSET_Y),
    }
}

/// The pupil target for a direction; see `spec_offset_for_direction`.
pub fn offset_for_direction(direction: EyeDirection) -> (offset: (i32, i32))
    ensures
        (offset.0 as int, offset.1 as int) == spec_offset_for_direction(direction),
{
    let horizontal = MAX_PUPIL_OFFSET_X;
    let vertical = MAX_PUPIL_OFFSET_Y;
    match direction {
        EyeDirection::Center => (0, 0),
        EyeDirection::Up => (0, -vertical),
        EyeDirection::UpRight => (horizontal, -vertical),
        EyeDirection::Right => (horizontal, 0),
        EyeDirection::DownRight => (horizontal, vertical),
        EyeDirection::Down => (0, vertical),
        EyeDirection::DownLeft => (-horizontal, vertical),
        EyeDirection::Left => (-horizontal, 0),
        EyeDirection::UpLeft => (-horizontal, -vertical),
    }
}

/// The pupils of the terminal bat: the direction they aim at. The smoothed,
/// fractional position that slides towards the target is kept by the
/// program around the library.
pub struct Eyes {
    center_radius: u16,
    target_direction: EyeDirection,
}

impl Eyes {
    pub closed spec fn spec_center_radius(&self) -> u16 {
        self.center_radius
    }

    /// The direction whose pupil offset is the current target.
    pub closed spec fn spec_target_direction(&self) -> EyeDirection {
        self.target_direction
    }

    /// Eyes with the default centre radius, aiming straight ahead.
    pub fn new() -> (eyes: Self)
        ensures
            eyes.spec_center_radius() == DEFAULT_CENTER_RADIUS,
            eyes.spec_target_direction() == EyeDirection::Center,
    {
        Self::with_center_radius(DEFAULT_CENTER_RADIUS)
    }

    /// Eyes that look ahead while the pointer is within `center_radius`.
    pub fn with_center_radius(center_radius: u16) -> (eyes: Self)
        ensures
            eyes.spec_center_radius() == center_radius,
            eyes.spec_target_direction() == EyeDirection::Center,
    {
        Eyes { center_radius, target_direction: EyeDirection::Center }
    }

    /// Aims at the pointer: the bat records the new direction and the pupil
    /// target follows it. The result says whether the bat's direction or the
    /// target changed.
    pub fn update(&mut self, bat: &mut Bat) -> (changed: bool)
        requires
            direction_defined(old(self).spec_center_radius(), old(bat).position, old(bat).mouse_position),
        ensures
            ({
                let next = spec_direction_for(
                    old(self).spec_center_radius(),
                    old(bat).position,
                    old(bat).mouse_position,
                );
                &&& final(self).spec_center_radius() == old(self).spec_center_radius()
                &&& final(self).spec_target_direction() == next
                &&& *final(bat) == (Bat { eye_direction: next, ..*old(bat) })
                &&& changed == (old(bat).eye_direction != next || old(self).spec_target_direction()
                    != next)
            }),
    {
        let next_direction = self.direction_for(bat.position, bat.mouse_position);
        let direction_changed = bat.eye_direction != next_direction;
        let target_changed = self.target_direction != next_direction;
        bat.eye_direction = next_direction;
        self.target_direction = next_direction;
        direction_changed || target_changed
    }

    /// The pupil target, one cell towards the aimed direction.
    pub fn target_offset(&self) -> (offset: (i32, i32))
        ensures
            (offset.0 as int, offset.1 as int) == spec_offset_for_direction(
                self.spec_target_direction(),
            ),
    {
        offset_for_direction(self.target_direction)
    }

    /// The direction in which a bat at `bat_position` looks at the pointer;
    /// see `spec_direction_for`.
    pub fn direction_for(&self, bat_position: Position, mouse_position: Option<Position>) -> (direction: EyeDirection)
        requires
            direction_defined(self.spec_center_radius(), bat_position, mouse_position),
        ensures
            direction == spec_direction_for(self.spec_center_radius(), bat_position, mouse_position),
    {
        let mouse = match mouse_position {
            None => {
                return EyeDirection::Center;
            },
            Some(mouse) => mouse,
        };
        let dx: i32 = mouse.x as i32 - bat_position.x as i32;
        let dy: i32 = mouse.y as i32 - bat_position.y as i32;
        let distance_x: u16 = if dx < 0 {
            (-dx) as u16
        } else {
            dx as u16
        };
        let distance_y: u16 = if dy < 0 {
            (-dy) as u16
        } else {
            dy as u16
        };
        if distance_x <= self.center_radius && distance_y <= self.center_radius {
            return EyeDirection::Center;
        }
        let horizontal = if dx < 0 {
            EyeDirection::Left
        } else if dx > 0 {
            EyeDirection::Right
        } else {
            EyeDirection::Center
        };
        let vertical = if dy < 0 {
            EyeDirection::Up
        } else if dy > 0 {
            EyeDirection::Down
        } else {
            EyeDirection::Center
        };
        if distance_x > distance_y * 2 {
            return horizontal;
        }
        if distance_y > distance_x * 2 {
            return vertical;
        }
        match (horizontal, vertical) {
            (EyeDirection::Left, EyeDirection::Up) => EyeDirection::UpLeft,
            (EyeDirection::Right, EyeDirection::Up) => EyeDirection::UpRight,
            (EyeDirection::Left, EyeDirection::Down) => EyeDirection::DownLeft,
            (EyeDirection::Right, EyeDirection::Down) => EyeDirection::DownRight,
            (EyeDirection::Center, direction) | (direction, EyeDirection::Center) => direction,
            _ => EyeDirection::Center,
        }
    }
}

impl Default for Eyes {
    /// The same as `new`: the default centre radius, aiming straight ahead.
    fn default() -> (eyes: Self)
        ensures
            eyes.spec_center_radius() == DEFAULT_CENTER_RADIUS,
            eyes.spec_target_direction() == EyeDirection::Center,
    {
        Self::new()
    }
}

} // verus!
