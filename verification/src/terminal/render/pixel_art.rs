use vstd::prelude::*;

use crate::terminal::bat::BatState;
use self::BatPixel::{Body as B, Claw as C, Eye as E, Fang as F, InnerEar as I, Transparent as T, Wing as W};

verus! {

/// What one logical pixel of the sprite shows.
#[derive(Debug, Clone, Copy, PartialEq, Eq, Structural)]
pub enum BatPixel {
    Transparent,
    Body,
    Wing,
    InnerEar,
    Eye,
    Pupil,
    Fang,
    Claw,
}

impl BatPixel {
    pub fn is_transparent(self) -> (transparent: bool)
        ensures
            transparent == (self == BatPixel::Transparent),
    {
        match self {
            BatPixel::Transparent => true,
            _ => false,
        }
    }
}

/// A `WIDTH`×`HEIGHT` sprite, row by row. Two logical rows share one
/// terminal cell (upper and lower half blocks).
#[derive(Debug, Clone, Copy, PartialEq, Eq)]
pub struct PixelArt<const WIDTH: usize, const HEIGHT: usize> {
    pixels: [[BatPixel; WIDTH]; HEIGHT],
}

impl<const WIDTH: usize, const HEIGHT: usize> PixelArt<WIDTH, HEIGHT> {
    /// The pixel in column `x` of row `y`, for coordinates inside the art.
    pub closed spec fn at(&self, x: int, y: int) -> BatPixel {
        self.pixels[y][x]
    }

    /// Mirroring every row leaves the art unchanged.
    pub open spec fn spec_is_symmetric(&self) -> bool {
        forall|x: int, y: int|
            0 <= y < HEIGHT && 0 <= x < WIDTH ==> #[trigger] self.at(x, y) == self.at(
                WIDTH - 1 - x,
                y,
            )
    }

    pub fn new(pixels: [[BatPixel; WIDTH]; HEIGHT]) -> (art: Self)
        ensures
            forall|x: int, y: int|
                0 <= y < HEIGHT && 0 <= x < WIDTH ==> #[trigger] art.at(x, y) == pixels[y][x],
    {
        PixelArt { pixels }
    }

    pub fn width(&self) -> (width: usize)
        ensures
            width == WIDTH,
    {
        WIDTH
    }

    pub fn height(&self) -> (height: usize)
        ensures
            height == HEIGHT,
    {
        HEIGHT
    }

    /// Terminal rows needed to show the art: two logical rows per cell,
    /// rounded up.
    pub fn terminal_height(&self) -> (rows: usize)
        ensures
            rows == (HEIGHT + 1) / 2,
    {
        HEIGHT / 2 + HEIGHT % 2
    }

    /// The pixel at `(x, y)`, or `None` outside the art.
    pub fn pixel(&self, x: usize, y: usize) -> (pixel: Option<BatPixel>)
        ensures
            pixel == (if y < HEIGHT && x < WIDTH {
                Some(self.at(x as int, y as int))
            } else {
                None
            }),
    {
        if y < HEIGHT && x < WIDTH {
            Some(self.pixels[y][x])
        } else {
            None
        }
    }

    /// Whether every row reads the same from both ends.
    pub fn is_symmetric(&self) -> (symmetric: bool)
        ensures
            symmetric == self.spec_is_symmetric(),
    {
        let mut y: usize = 0;
        while y < HEIGHT
            invariant
                y <= HEIGHT,
                forall|xx: int, yy: int|
                    0 <= yy < y && 0 <= xx < WIDTH ==> #[trigger] self.at(xx, yy) == self.at(
                        WIDTH - 1 - xx,
                        yy,
                    ),
            decreases HEIGHT - y,
        {
            let row = self.pixels[y];
            let mut x: usize = 0;
            while x < WIDTH
                invariant
                    y < HEIGHT,
                    x <= WIDTH,
                    row == self.pixels[y as int],
                    forall|xx: int, yy: int|
                        0 <= yy < y && 0 <= xx < WIDTH ==> #[trigger] self.at(xx, yy) == self.at(
                            WIDTH - 1 - xx,
                            yy,
                        ),
                    forall|xx: int|
                        0 <= xx < x ==> #[trigger] self.at(xx, y as int) == self.at(
                            WIDTH - 1 - xx,
                            y as int,
                        ),
                decreases WIDTH - x,
            {
                if row[x] != row[WIDTH - 1 - x] {
                    assert(self.at(x as int, y as int) != self.at(WIDTH - 1 - x, y as int));
                    return false;
                }
                x = x + 1;
            }
            y = y + 1;
        }
        true
    }
}

pub const BAT_WIDTH: usize = 20;

pub const BAT_HEIGHT: usize = 14;

/// The eye centre of the hanging sprite (column, row). It is also the anchor
/// that the pointer-direction logic measures from.
pub const HANGING_IDLE_EYE_CENTER: (usize, usize) = (10, 9);

pub type BatPixelArt = PixelArt<BAT_WIDTH, BAT_HEIGHT>;

/// The pixels of the bat hanging from the ceiling with folded wings: claws
/// on the first two rows, then wings and body, eyes on rows 8 to 10, fangs on
/// row 11 and the inner ears at the bottom.
pub const HANGING_IDLE_PIXELS: [[BatPixel; BAT_WIDTH]; BAT_HEIGHT] = [
    [T, T, T, T, T, T, T, C, T, T, T, T, C, T, T, T, T, T, T, T],
    [T, T, T, T, T, T, C, C, T, T, T, T, C, C, T, T, T, T, T, T],
    [T, T, T, T, T, W, W, B, B, B, B, B, B, W, W, T, T, T, T, T],
    [T, T, T, T, W, W, W, B, B, B, B, B, B, W, W, W, T, T, T, T],
    [T, T, T, W, W, W, B, B, B, B, B, B, B, B, W, W, W, T, T, T],
    [T, T, W, W, W, W, B, B, B, B, B, B, B, B, W, W, W, W, T, T],
    [T, W, W, W, W, B, B, B, B, B, B, B, B, B, B, W, W, W, W, T],
    [T, W, W, W, B, B, B, B, B, B, B, B, B, B, B, B, W, W, W, T],
    [T, T, W, B, B, E, E, E, B, B, B, B, E, E, E, B, B, W, T, T],
    [T, T, W, B, B, E, E, E, B, B, B, B, E, E, E, B, B, W, T, T],
    [T, T, T, W, B, E, E, E, B, B, B, B, E, E, E, B, W, T, T, T],
    [T, T, T, T, W, B, B, B, F, B, B, F, B, B, B, W, T, T, T, T],
    [T, T, T, T, I, I, W, B, B, B, B, B, B, W, I, I, T, T, T, T],
    [T, T, T, T, T, I, I, T, B, B, B, B, T, I, I, T, T, T, T, T],
];

/// The hanging sprite as an art value.
pub closed spec fn spec_hanging_idle() -> BatPixelArt {
    PixelArt { pixels: HANGING_IDLE_PIXELS }
}

/// The hanging sprite: the bat hanging from the ceiling with folded wings.
/// Its pixels are those of `HANGING_IDLE_PIXELS`, and it is symmetric.
pub fn hanging_idle() -> (art: &'static BatPixelArt)
    ensures
        *art == spec_hanging_idle(),
        forall|x: int, y: int|
            0 <= y < BAT_HEIGHT && 0 <= x < BAT_WIDTH ==> #[trigger] art.at(x, y)
                == HANGING_IDLE_PIXELS[y][x],
        art.spec_is_symmetric(),
{
    proof {
        lemma_hanging_idle_pixels();
        lemma_hanging_idle_is_symmetric();
    }
    &PixelArt { pixels: HANGING_IDLE_PIXELS }
}

/// The hanging sprite shows, at column `x` of row `y`, the pixel of
/// `HANGING_IDLE_PIXELS` there.
pub proof fn lemma_hanging_idle_pixels()
    ensures
        forall|x: int, y: int|
            0 <= y < BAT_HEIGHT && 0 <= x < BAT_WIDTH ==> #[trigger] spec_hanging_idle().at(x, y)
                == HANGING_IDLE_PIXELS[y][x],
{
}

/// The hanging sprite reads the same from both ends of every row.
pub proof fn lemma_hanging_idle_is_symmetric()
    ensures
        spec_hanging_idle().spec_is_symmetric(),
{
    assert forall|x: int, y: int| 0 <= y < BAT_HEIGHT && 0 <= x < BAT_WIDTH implies
        #[trigger] spec_hanging_idle().at(x, y) == spec_hanging_idle().at(BAT_WIDTH - 1 - x, y) by {
        assert(HANGING_IDLE_PIXELS[y][x] == HANGING_IDLE_PIXELS[y][BAT_WIDTH - 1 - x]);
    }
}

/// The sprite drawn for a state: only `HangingIdle` has one for now.
pub fn pixel_art_for_state(state: BatState) -> (art: Option<&'static BatPixelArt>)
    ensures
        art is Some <==> state == BatState::HangingIdle,
        art matches Some(a) ==> *a == spec_hanging_idle(),
{
    match state {
        BatState::HangingIdle => Some(hanging_idle()),
        _ => None,
    }
}

} // verus!
