use vstd::prelude::*;

verus! {

/// The hanging sprite, relative to the assets directory.
pub const BAT_SPRITE_PATH: &'static str = "bat/idle/bat_idle.png";

/// Width of the sprite in logical pixels.
pub const SPRITE_WIDTH: u32 = 32;

/// Height of the sprite in logical pixels.
pub const SPRITE_HEIGHT: u32 = 32;

/// Screen pixels per logical pixel.
pub const DISPLAY_SCALE: u32 = 8;

pub const DISPLAY_WIDTH: u32 = SPRITE_WIDTH * DISPLAY_SCALE;

pub const DISPLAY_HEIGHT: u32 = SPRITE_HEIGHT * DISPLAY_SCALE;

/// Gap between the top of the window and the support, in screen pixels.
pub const TOP_MARGIN: u32 = 8;

/// Side of a pupil in logical pixels.
pub const PUPIL_PIXEL_SIZE: u32 = 3;

pub const PUPIL_DISPLAY_SIZE: u32 = PUPIL_PIXEL_SIZE * DISPLAY_SCALE;

/// Top-left logical pixel of the left pupil. The idle sprite places the eye
/// sockets low on its hanging face.
pub const LEFT_PUPIL_TOP_LEFT: (i32, i32) = (10, 20);

/// Top-left logical pixel of the right pupil.
pub const RIGHT_PUPIL_TOP_LEFT: (i32, i32) = (19, 20);

/// The centre of the eyes relative to the support, in screen pixels: on the
/// middle column, 21.5 logical pixels down.
pub const EYE_CENTER_LOCAL: (i32, i32) = (0, -172);

/// The centre of a pupil whose top-left logical pixel is `top_left`, in
/// screen pixels relative to the support: the sprite's middle column is
/// x = 0 and y grows upwards.
pub open spec fn spec_pixel_top_left_to_local(top_left: (i32, i32)) -> (int, int) {
    (
        (2 * top_left.0 + PUPIL_PIXEL_SIZE - SPRITE_WIDTH) * DISPLAY_SCALE / 2,
        -((2 * top_left.1 + PUPIL_PIXEL_SIZE) * DISPLAY_SCALE / 2),
    )
}

/// The pupil centre for a top-left pixel; see
/// `spec_pixel_top_left_to_local`. The result must fit the screen
/// coordinates.
pub fn pixel_top_left_to_local(top_left: (i32, i32)) -> (local: (i32, i32))
    requires
        i32::MIN <= spec_pixel_top_left_to_local(top_left).0 <= i32::MAX,
        i32::MIN <= spec_pixel_top_left_to_local(top_left).1 <= i32::MAX,
    ensures
        (local.0 as int, local.1 as int) == spec_pixel_top_left_to_local(top_left),
{
    let half_scale: i64 = (DISPLAY_SCALE / 2) as i64;
    assert(half_scale == 4);
    let x: i64 = (2 * top_left.0 as i64 + PUPIL_PIXEL_SIZE as i64 - SPRITE_WIDTH as i64)
        * half_scale;
    let y: i64 = -((2 * top_left.1 as i64 + PUPIL_PIXEL_SIZE as i64) * half_scale);
    (x as i32, y as i32)
}

/// Pupils placed symmetrically on the sprite get mirrored centres: the
/// pixel mirrored around the middle column lands at the opposite x, at the
/// same height.
pub proof fn lemma_mirrored_pupils_are_symmetric(left: (i32, i32), right: (i32, i32))
    requires
        left.0 + right.0 + PUPIL_PIXEL_SIZE == SPRITE_WIDTH,
        left.1 == right.1,
    ensures
        spec_pixel_top_left_to_local(right).0 == -spec_pixel_top_left_to_local(left).0,
        spec_pixel_top_left_to_local(right).1 == spec_pixel_top_left_to_local(left).1,
{
}

} // verus!
