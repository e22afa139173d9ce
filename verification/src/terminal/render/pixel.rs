use vstd::prelude::*;

use crate::terminal::bat::{Bat, BatState, Position};
use crate::terminal::eyes::{
    EYE_BASE_SIZE, LEFT_EYE_BASE, MAX_PUPIL_OFFSET_X, MAX_PUPIL_OFFSET_Y, RIGHT_EYE_BASE,
};
use crate::terminal::render::pixel_art::{
    hanging_idle, pixel_art_for_state, spec_hanging_idle, BatPixel, BatPixelArt, BAT_HEIGHT,
    BAT_WIDTH,
};

verus! {

/// A colour of the terminal palette.
#[derive(Debug, Clone, Copy, PartialEq, Eq, Structural)]
pub struct Rgb {
    pub r: u8,
    pub g: u8,
    pub b: u8,
}

/// One terminal drawing command. The program around the library performs
/// them in order on the terminal.
#[derive(Debug, Clone, Copy, PartialEq, Eq, Structural)]
pub enum DrawOp {
    /// Moves the cursor to column `x`, row `y`.
    MoveTo { x: u16, y: u16 },
    /// Returns to the terminal's default colours.
    ResetColor,
    Foreground(Rgb),
    Background(Rgb),
    /// The terminal's default background.
    BackgroundReset,
    Print(char),
    /// Prints this many spaces.
    Blank(u16),
}

/// Upper half block: the foreground colours the upper half of the cell.
pub const UPPER_HALF: char = '\u{2580}';

/// Lower half block: the foreground colours the lower half of the cell.
pub const LOWER_HALF: char = '\u{2584}';

/// The palette: transparent pixels have no colour.
pub open spec fn spec_color_for(pixel: BatPixel) -> Option<Rgb> {
    match pixel {
        BatPixel::Transparent => None,
        BatPixel::Body => Some(Rgb { r: 61, g: 35, b: 94 }),
        BatPixel::Wing => Some(Rgb { r: 108, g: 57, b: 151 }),
        BatPixel::InnerEar => Some(Rgb { r: 193, g: 126, b: 221 }),
        BatPixel::Eye => Some(Rgb { r: 255, g: 218, b: 83 }),
        BatPixel::Pupil => Some(Rgb { r: 25, g: 16, b: 34 }),
        BatPixel::Fang => Some(Rgb { r: 248, g: 239, b: 255 }),
        BatPixel::Claw => Some(Rgb { r: 224, g: 185, b: 240 }),
    }
}

/// The colour of a pixel; see `spec_color_for`.
pub fn color_for(pixel: BatPixel) -> (color: Option<Rgb>)
    ensures
        color == spec_color_for(pixel),
{
    match pixel {
        BatPixel::Transparent => None,
        BatPixel::Body => Some(Rgb { r: 61, g: 35, b: 94 }),
        BatPixel::Wing => Some(Rgb { r: 108, g: 57, b: 151 }),
        BatPixel::InnerEar => Some(Rgb { r: 193, g: 126, b: 221 }),
        BatPixel::Eye => Some(Rgb { r: 255, g: 218, b: 83 }),
        BatPixel::Pupil => Some(Rgb { r: 25, g: 16, b: 34 }),
        BatPixel::Fang => Some(Rgb { r: 248, g: 239, b: 255 }),
        BatPixel::Claw => Some(Rgb { r: 224, g: 185, b: 240 }),
    }
}

/// The commands that paint one cell at `(x, y)` from its upper and lower
/// pixels: a space in the default colours when both are transparent, a half
/// block otherwise, with the foreground on the coloured half and the default
/// background under a single coloured half.
pub open spec fn cell_ops(x: u16, y: u16, top: BatPixel, bottom: BatPixel) -> Seq<DrawOp> {
    let move_to = DrawOp::MoveTo { x, y };
    match (spec_color_for(top), spec_color_for(bottom)) {
        (None, None) => seq![move_to, DrawOp::ResetColor, DrawOp::Print(' ')],
        (Some(t), None) => seq![
            move_to,
            DrawOp::Foreground(t),
            DrawOp::BackgroundReset,
            DrawOp::Print(UPPER_HALF),
        ],
        (None, Some(b)) => seq![
            move_to,
            DrawOp::Foreground(b),
            DrawOp::BackgroundReset,
            DrawOp::Print(LOWER_HALF),
        ],
        (Some(t), Some(b)) => seq![
            move_to,
            DrawOp::Foreground(t),
            DrawOp::Background(b),
            DrawOp::Print(UPPER_HALF),
        ],
    }
}

/// What a cell painted by `ops` (a cursor move, colours, then one printed
/// character) shows in its upper and lower halves, `None` for the default
/// background. An upper half block shows the foreground on top and the
/// background below; a lower half block the other way round; any other
/// character shows the background in both halves.
pub open spec fn cell_halves(ops: Seq<DrawOp>) -> (Option<Rgb>, Option<Rgb>) {
    let foreground = match ops[1] {
        DrawOp::Foreground(c) => Some(c),
        _ => None,
    };
    let background = if ops.len() == 4 {
        match ops[2] {
            DrawOp::Background(c) => Some(c),
            _ => None,
        }
    } else {
        None
    };
    let glyph = ops[ops.len() - 1];
    (
        if glyph == DrawOp::Print(UPPER_HALF) {
            foreground
        } else if glyph == DrawOp::Print(LOWER_HALF) {
            background
        } else {
            background
        },
        if glyph == DrawOp::Print(LOWER_HALF) {
            foreground
        } else {
            background
        },
    )
}

/// A painted cell shows its upper pixel's colour on top and its lower
/// pixel's colour below (the default background for a transparent pixel),
/// after moving the cursor to the cell.
pub proof fn lemma_cells_show_upper_pixel_on_top(x: u16, y: u16, top: BatPixel, bottom: BatPixel)
    ensures
        cell_ops(x, y, top, bottom).len() >= 3,
        cell_ops(x, y, top, bottom)[0] == (DrawOp::MoveTo { x, y }),
        cell_halves(cell_ops(x, y, top, bottom)) == (spec_color_for(top), spec_color_for(bottom)),
{
}

/// `value` limited to `[low, high]`.
pub open spec fn clamp(value: int, low: int, high: int) -> int {
    if value < low {
        low
    } else if value > high {
        high
    } else {
        value
    }
}

/// The pupil pixel of an eye whose top-left pixel is `eye_base`: the centre
/// of the eye square moved by `offset`, kept inside the square.
pub open spec fn spec_pupil_position(eye_base: (usize, usize), offset: (i32, i32)) -> (int, int) {
    let max_offset = EYE_BASE_SIZE - 1;
    let center = EYE_BASE_SIZE / 2;
    (
        eye_base.0 + clamp(center + offset.0, 0, max_offset),
        eye_base.1 + clamp(center + offset.1, 0, max_offset),
    )
}

/// The pupil position is computable without overflow.
pub open spec fn pupil_position_defined(eye_base: (usize, usize), offset: (i32, i32)) -> bool {
    let p = spec_pupil_position(eye_base, offset);
    &&& offset.0 < i32::MAX
    &&& offset.1 < i32::MAX
    &&& p.0 <= usize::MAX
    &&& p.1 <= usize::MAX
}

/// The pupil pixel of an eye; see `spec_pupil_position`.
pub fn pupil_position(eye_base: (usize, usize), offset: (i32, i32)) -> (position: (usize, usize))
    requires
        pupil_position_defined(eye_base, offset),
    ensures
        (position.0 as int, position.1 as int) == spec_pupil_position(eye_base, offset),
{
    let max_offset: i32 = (EYE_BASE_SIZE - 1) as i32;
    let center: i32 = (EYE_BASE_SIZE / 2) as i32;
    let raw_x: i32 = center + offset.0;
    let raw_y: i32 = center + offset.1;
    let x: i32 = if raw_x < 0 {
        0
    } else if raw_x > max_offset {
        max_offset
    } else {
        raw_x
    };
    let y: i32 = if raw_y < 0 {
        0
    } else if raw_y > max_offset {
        max_offset
    } else {
        raw_y
    };
    (eye_base.0 + x as usize, eye_base.1 + y as usize)
}

/// What the art shows at `(x, y)` with the pupils moved by `pupil_offset`:
/// eye pixels at either pupil position become pupils; pixels outside the art
/// are transparent.
pub open spec fn spec_composed_pixel(
    art: BatPixelArt,
    x: int,
    y: int,
    pupil_offset: (i32, i32),
) -> BatPixel {
    let base = if 0 <= y < BAT_HEIGHT && 0 <= x < BAT_WIDTH {
        art.at(x, y)
    } else {
        BatPixel::Transparent
    };
    if base == BatPixel::Eye && ((x, y) == spec_pupil_position(LEFT_EYE_BASE, pupil_offset) || (
    x, y) == spec_pupil_position(RIGHT_EYE_BASE, pupil_offset)) {
        BatPixel::Pupil
    } else {
        base
    }
}

/// The pixel shown at `(x, y)`; see `spec_composed_pixel`.
pub fn composed_pixel(art: &BatPixelArt, x: usize, y: usize, pupil_offset: (i32, i32)) -> (pixel:
    BatPixel)
    requires
        pupil_position_defined(LEFT_EYE_BASE, pupil_offset),
        pupil_position_defined(RIGHT_EYE_BASE, pupil_offset),
    ensures
        pixel == spec_composed_pixel(*art, x as int, y as int, pupil_offset),
{
    let base = match art.pixel(x, y) {
        Some(pixel) => pixel,
        None => BatPixel::Transparent,
    };
    if base != BatPixel::Eye {
        return base;
    }
    let left_pupil = pupil_position(LEFT_EYE_BASE, pupil_offset);
    let right_pupil = pupil_position(RIGHT_EYE_BASE, pupil_offset);
    if (x == left_pupil.0 && y == left_pupil.1) || (x == right_pupil.0 && y == right_pupil.1) {
        BatPixel::Pupil
    } else {
        base
    }
}

/// Whatever the offset, the pupil stays inside its eye square.
pub proof fn lemma_pupil_stays_inside_the_eye(eye_base: (usize, usize), offset: (i32, i32))
    ensures
        eye_base.0 <= spec_pupil_position(eye_base, offset).0 < eye_base.0 + EYE_BASE_SIZE,
        eye_base.1 <= spec_pupil_position(eye_base, offset).1 < eye_base.1 + EYE_BASE_SIZE,
{
}

/// Pupils are drawn only over eye pixels: a pupil shows where the art has
/// an eye (or an authored pupil), and every other pixel of the art shows as
/// authored, whatever the pupil offset.
pub proof fn lemma_pupils_only_cover_eyes(
    art: BatPixelArt,
    x: int,
    y: int,
    pupil_offset: (i32, i32),
)
    requires
        0 <= y < BAT_HEIGHT,
        0 <= x < BAT_WIDTH,
    ensures
        spec_composed_pixel(art, x, y, pupil_offset) == BatPixel::Pupil ==> (art.at(x, y)
            == BatPixel::Eye || art.at(x, y) == BatPixel::Pupil),
        art.at(x, y) != BatPixel::Eye ==> spec_composed_pixel(art, x, y, pupil_offset) == art.at(
            x,
            y,
        ),
{
}

/// The pupils stay within one cell of the eye's centre, on each axis.
pub open spec fn spec_quantized_eye_offset(rounded: (i32, i32)) -> (i32, i32) {
    (
        clamp(rounded.0 as int, -MAX_PUPIL_OFFSET_X, MAX_PUPIL_OFFSET_X as int) as i32,
        clamp(rounded.1 as int, -MAX_PUPIL_OFFSET_Y, MAX_PUPIL_OFFSET_Y as int) as i32,
    )
}

/// The pupil offset drawn for an offset already rounded to whole cells.
pub fn quantized_eye_offset(rounded: (i32, i32)) -> (offset: (i32, i32))
    ensures
        offset == spec_quantized_eye_offset(rounded),
{
    let x = if rounded.0 < -MAX_PUPIL_OFFSET_X {
        -MAX_PUPIL_OFFSET_X
    } else if rounded.0 > MAX_PUPIL_OFFSET_X {
        MAX_PUPIL_OFFSET_X
    } else {
        rounded.0
    };
    let y = if rounded.1 < -MAX_PUPIL_OFFSET_Y {
        -MAX_PUPIL_OFFSET_Y
    } else if rounded.1 > MAX_PUPIL_OFFSET_Y {
        MAX_PUPIL_OFFSET_Y
    } else {
        rounded.1
    };
    (x, y)
}

/// What was drawn last: where, for which state, with the pupils where.
#[derive(Debug, Clone, Copy, PartialEq, Eq)]
pub struct DrawState {
    pub position: Position,
    pub state: BatState,
    pub pupil_offset: (i32, i32),
}

fn same_draw_state(a: Option<DrawState>, b: DrawState) -> (same: bool)
    ensures
        same == (a == Some(b)),
{
    match a {
        None => false,
        Some(a) => a.position == b.position && a.state == b.state && a.pupil_offset.0
            == b.pupil_offset.0 && a.pupil_offset.1 == b.pupil_offset.1,
    }
}

/// The rows of the terminal the sprite may use: all but the last, which the
/// debug status line takes.
pub open spec fn spec_drawable_height(size: (u16, u16)) -> u16 {
    size.1.saturating_sub(1)
}

/// The sprite at the top of the terminal, horizontally centred.
pub open spec fn spec_centered_position(size: (u16, u16)) -> Position {
    Position { x: (size.0.saturating_sub(BAT_WIDTH as u16) / 2) as u16, y: 0 }
}

/// The commands for the cells `0..columns` of cell row `cell_y` of the art
/// drawn at `position`: cells beyond the right edge are skipped.
pub open spec fn row_ops(
    art: BatPixelArt,
    size: (u16, u16),
    position: Position,
    pupil_offset: (i32, i32),
    cell_y: nat,
    columns: nat,
) -> Seq<DrawOp>
    decreases columns,
{
    if columns == 0 {
        seq![]
    } else {
        let cell_x = (columns - 1) as nat;
        let terminal_x = position.x.saturating_add(cell_x as u16);
        let terminal_y = position.y.saturating_add(cell_y as u16);
        let cell = if terminal_x < size.0 {
            cell_ops(
                terminal_x,
                terminal_y,
                spec_composed_pixel(art, cell_x as int, (2 * cell_y) as int, pupil_offset),
                spec_composed_pixel(art, cell_x as int, (2 * cell_y + 1) as int, pupil_offset),
            )
        } else {
            seq![]
        };
        row_ops(art, size, position, pupil_offset, cell_y, cell_x) + cell
    }
}

/// Whether cell row `cell_y` of a sprite at `position` lies above the
/// status line.
pub open spec fn row_visible(size: (u16, u16), position: Position, cell_y: nat) -> bool {
    position.y.saturating_add(cell_y as u16) < spec_drawable_height(size)
}

/// The commands for the cell rows `0..rows` of the art; rows from the status
/// line down are not drawn.
pub open spec fn rows_ops(
    art: BatPixelArt,
    size: (u16, u16),
    position: Position,
    pupil_offset: (i32, i32),
    rows: nat,
) -> Seq<DrawOp>
    decreases rows,
{
    if rows == 0 {
        seq![]
    } else {
        let cell_y = (rows - 1) as nat;
        rows_ops(art, size, position, pupil_offset, cell_y) + if row_visible(size, position, cell_y) {
            row_ops(art, size, position, pupil_offset, cell_y, BAT_WIDTH as nat)
        } else {
            seq![]
        }
    }
}

/// The commands that draw the whole art at `position`, then return to the
/// default colours.
pub open spec fn art_ops(
    art: BatPixelArt,
    size: (u16, u16),
    position: Position,
    pupil_offset: (i32, i32),
) -> Seq<DrawOp> {
    rows_ops(art, size, position, pupil_offset, ((BAT_HEIGHT + 1) / 2) as nat) + seq![
        DrawOp::ResetColor,
    ]
}

/// The commands that blank cell rows `0..rows` of the sprite drawn at
/// `position`, as far as the terminal is wide.
pub open spec fn clear_rows_ops(size: (u16, u16), position: Position, rows: nat) -> Seq<DrawOp>
    decreases rows,
{
    if rows == 0 {
        seq![]
    } else {
        let cell_y = (rows - 1) as nat;
        let terminal_y = position.y.saturating_add(cell_y as u16);
        let blank = if row_visible(size, position, cell_y) && position.x < size.0 {
            let width = if size.0 - position.x < BAT_WIDTH {
                (size.0 - position.x) as u16
            } else {
                BAT_WIDTH as u16
            };
            seq![DrawOp::MoveTo { x: position.x, y: terminal_y }, DrawOp::ResetColor, DrawOp::Blank(width)]
        } else {
            seq![]
        };
        clear_rows_ops(size, position, cell_y) + blank
    }
}

/// The commands that erase what was drawn last, if anything.
pub open spec fn clear_ops(size: (u16, u16), previous: Option<DrawState>) -> Seq<DrawOp> {
    match previous {
        None => seq![],
        Some(previous) => clear_rows_ops(size, previous.position, ((BAT_HEIGHT + 1) / 2) as nat),
    }
}

/// Once a cell row reaches the status line, so do all rows below it.
proof fn lemma_rows_below_hidden(size: (u16, u16), position: Position, from: nat, to: nat)
    requires
        !row_visible(size, position, from),
        from <= to,
        to <= BAT_HEIGHT,
    ensures
        !row_visible(size, position, to),
{
}

/// Rows from a hidden row on add nothing to the drawing.
proof fn lemma_hidden_rows_add_nothing(
    art: BatPixelArt,
    size: (u16, u16),
    position: Position,
    pupil_offset: (i32, i32),
    from: nat,
    to: nat,
)
    requires
        !row_visible(size, position, from),
        from <= to,
        to <= BAT_HEIGHT,
    ensures
        rows_ops(art, size, position, pupil_offset, to) == rows_ops(
            art,
            size,
            position,
            pupil_offset,
            from,
        ),
        clear_rows_ops(size, position, to) == clear_rows_ops(size, position, from),
    decreases to - from,
{
    if to > from {
        lemma_hidden_rows_add_nothing(art, size, position, pupil_offset, from, (to - 1) as nat);
        lemma_rows_below_hidden(size, position, from, (to - 1) as nat);
        assert(rows_ops(art, size, position, pupil_offset, to) =~= rows_ops(
            art,
            size,
            position,
            pupil_offset,
            (to - 1) as nat,
        ));
        assert(clear_rows_ops(size, position, to) =~= clear_rows_ops(
            size,
            position,
            (to - 1) as nat,
        ));
    }
}

/// Paints one cell; see `cell_ops`.
fn draw_cell(x: u16, y: u16, top: BatPixel, bottom: BatPixel) -> (ops: Vec<DrawOp>)
    ensures
        ops@ == cell_ops(x, y, top, bottom),
{
    let mut ops: Vec<DrawOp> = Vec::new();
    ops.push(DrawOp::MoveTo { x, y });
    match (color_for(top), color_for(bottom)) {
        (None, None) => {
            ops.push(DrawOp::ResetColor);
            ops.push(DrawOp::Print(' '));
        },
        (Some(top), None) => {
            ops.push(DrawOp::Foreground(top));
            ops.push(DrawOp::BackgroundReset);
            ops.push(DrawOp::Print(UPPER_HALF));
        },
        (None, Some(bottom)) => {
            ops.push(DrawOp::Foreground(bottom));
            ops.push(DrawOp::BackgroundReset);
            ops.push(DrawOp::Print(LOWER_HALF));
        },
        (Some(top), Some(bottom)) => {
            ops.push(DrawOp::Foreground(top));
            ops.push(DrawOp::Background(bottom));
            ops.push(DrawOp::Print(UPPER_HALF));
        },
    }
    assert(ops@ =~= cell_ops(x, y, top, bottom));
    ops
}

/// What a render does in a `size` terminal after drawing `previous`, for a
/// bat in `state` with the pupils at `rounded_eye_offset`: the commands and
/// what is on screen afterwards. When the position, the state and the
/// quantized pupils are what was drawn last, nothing is written. Otherwise
/// the last drawing is blanked and the sprite of the state, if it has one,
/// is drawn at the centred position.
pub open spec fn spec_render(
    size: (u16, u16),
    previous: Option<DrawState>,
    state: BatState,
    rounded_eye_offset: (i32, i32),
) -> (Seq<DrawOp>, Option<DrawState>) {
    let next = DrawState {
        position: spec_centered_position(size),
        state,
        pupil_offset: spec_quantized_eye_offset(rounded_eye_offset),
    };
    if previous == Some(next) {
        (Seq::empty(), previous)
    } else {
        (
            clear_ops(size, previous) + if state == BatState::HangingIdle {
                art_ops(spec_hanging_idle(), size, next.position, next.pupil_offset)
            } else {
                Seq::empty()
            },
            Some(next),
        )
    }
}

/// No command moves the cursor outside the sprite's area: every cursor
/// move lands inside the terminal width and above the status line.
pub open spec fn on_canvas(ops: Seq<DrawOp>, size: (u16, u16)) -> bool {
    forall|i: int|
        0 <= i < ops.len() ==> (#[trigger] ops[i] matches DrawOp::MoveTo { x, y } ==> x < size.0
            && y < spec_drawable_height(size))
}

proof fn lemma_on_canvas_concat(a: Seq<DrawOp>, b: Seq<DrawOp>, size: (u16, u16))
    requires
        on_canvas(a, size),
        on_canvas(b, size),
    ensures
        on_canvas(a + b, size),
{
    assert forall|i: int| 0 <= i < (a + b).len() implies (#[trigger] (a + b)[i] matches DrawOp::MoveTo {
        x,
        y,
    } ==> x < size.0 && y < spec_drawable_height(size)) by {
        if i < a.len() {
            assert((a + b)[i] == a[i]);
        } else {
            assert((a + b)[i] == b[i - a.len()]);
        }
    }
}

proof fn lemma_row_on_canvas(
    art: BatPixelArt,
    size: (u16, u16),
    position: Position,
    pupil_offset: (i32, i32),
    cell_y: nat,
    columns: nat,
)
    requires
        row_visible(size, position, cell_y),
    ensures
        on_canvas(row_ops(art, size, position, pupil_offset, cell_y, columns), size),
    decreases columns,
{
    if columns > 0 {
        let cell_x = (columns - 1) as nat;
        lemma_row_on_canvas(art, size, position, pupil_offset, cell_y, cell_x);
        let terminal_x = position.x.saturating_add(cell_x as u16);
        let terminal_y = position.y.saturating_add(cell_y as u16);
        let cell = if terminal_x < size.0 {
            cell_ops(
                terminal_x,
                terminal_y,
                spec_composed_pixel(art, cell_x as int, (2 * cell_y) as int, pupil_offset),
                spec_composed_pixel(art, cell_x as int, (2 * cell_y + 1) as int, pupil_offset),
            )
        } else {
            seq![]
        };
        assert(on_canvas(cell, size));
        lemma_on_canvas_concat(
            row_ops(art, size, position, pupil_offset, cell_y, cell_x),
            cell,
            size,
        );
    }
}

proof fn lemma_rows_on_canvas(
    art: BatPixelArt,
    size: (u16, u16),
    position: Position,
    pupil_offset: (i32, i32),
    rows: nat,
)
    ensures
        on_canvas(rows_ops(art, size, position, pupil_offset, rows), size),
        on_canvas(clear_rows_ops(size, position, rows), size),
    decreases rows,
{
    if rows > 0 {
        let cell_y = (rows - 1) as nat;
        lemma_rows_on_canvas(art, size, position, pupil_offset, cell_y);
        let row = if row_visible(size, position, cell_y) {
            row_ops(art, size, position, pupil_offset, cell_y, BAT_WIDTH as nat)
        } else {
            seq![]
        };
        if row_visible(size, position, cell_y) {
            lemma_row_on_canvas(art, size, position, pupil_offset, cell_y, BAT_WIDTH as nat);
        }
        assert(on_canvas(row, size));
        lemma_on_canvas_concat(rows_ops(art, size, position, pupil_offset, cell_y), row, size);
        let terminal_y = position.y.saturating_add(cell_y as u16);
        let blank = if row_visible(size, position, cell_y) && position.x < size.0 {
            let width = if size.0 - position.x < BAT_WIDTH {
                (size.0 - position.x) as u16
            } else {
                BAT_WIDTH as u16
            };
            seq![DrawOp::MoveTo { x: position.x, y: terminal_y }, DrawOp::ResetColor, DrawOp::Blank(width)]
        } else {
            seq![]
        };
        assert(on_canvas(blank, size));
        lemma_on_canvas_concat(clear_rows_ops(size, position, cell_y), blank, size);
    }
}

/// Rendering never moves the cursor outside the sprite's area: every cursor
/// move lies inside the terminal width and above the last row, which stays
/// free for the debug status line.
pub proof fn lemma_render_stays_on_canvas(
    size: (u16, u16),
    previous: Option<DrawState>,
    state: BatState,
    rounded_eye_offset: (i32, i32),
)
    ensures
        on_canvas(spec_render(size, previous, state, rounded_eye_offset).0, size),
        on_canvas(clear_ops(size, previous), size),
{
    let rows = ((BAT_HEIGHT + 1) / 2) as nat;
    let offset = spec_quantized_eye_offset(rounded_eye_offset);
    let position = spec_centered_position(size);
    lemma_rows_on_canvas(spec_hanging_idle(), size, position, offset, rows);
    let clear = clear_ops(size, previous);
    if let Some(p) = previous {
        lemma_rows_on_canvas(spec_hanging_idle(), size, p.position, offset, rows);
    }
    assert(on_canvas(clear, size));
    let art = art_ops(spec_hanging_idle(), size, position, offset);
    lemma_on_canvas_concat(
        rows_ops(spec_hanging_idle(), size, position, offset, rows),
        seq![DrawOp::ResetColor],
        size,
    );
    assert(on_canvas(art, size));
    assert(on_canvas(Seq::<DrawOp>::empty(), size));
    lemma_on_canvas_concat(clear, art, size);
    lemma_on_canvas_concat(clear, Seq::<DrawOp>::empty(), size);
}

/// Rendering an unchanged scene a second time writes nothing: the wing
/// animation and anything else the sprite does not show cause no terminal
/// writes.
pub proof fn lemma_second_render_writes_nothing(
    size: (u16, u16),
    previous: Option<DrawState>,
    state: BatState,
    rounded_eye_offset: (i32, i32),
)
    ensures
        ({
            let (_, drawn) = spec_render(size, previous, state, rounded_eye_offset);
            spec_render(size, drawn, state, rounded_eye_offset).0 == Seq::<DrawOp>::empty()
        }),
{
}

/// The terminal renderer of the sprite. It remembers what it drew last so
/// that it only redraws when something visible changed.
pub struct PixelRenderer {
    size: (u16, u16),
    previous: Option<DrawState>,
}

impl PixelRenderer {
    pub closed spec fn spec_size(&self) -> (u16, u16) {
        self.size
    }

    /// What was drawn last and is still on the screen, if anything.
    pub closed spec fn spec_previous(&self) -> Option<DrawState> {
        self.previous
    }

    /// A renderer for a `size` terminal that has drawn nothing yet.
    pub fn new(size: (u16, u16)) -> (renderer: Self)
        ensures
            renderer.spec_size() == size,
            renderer.spec_previous() == None::<DrawState>,
    {
        PixelRenderer { size, previous: None }
    }

    /// Where the sprite goes in a `size` terminal; see
    /// `spec_centered_position`.
    pub fn centered_position(size: (u16, u16)) -> (position: Position)
        ensures
            position == spec_centered_position(size),
    {
        let sprite_width = hanging_idle().width() as u16;
        Position { x: size.0.saturating_sub(sprite_width) / 2, y: 0 }
    }

    /// Where the sprite goes in the current terminal.
    pub fn position(&self) -> (position: Position)
        ensures
            position == spec_centered_position(self.spec_size()),
    {
        Self::centered_position(self.size)
    }

    /// Rows available to the sprite; see `spec_drawable_height`.
    pub fn drawable_height(&self) -> (height: u16)
        ensures
            height == spec_drawable_height(self.spec_size()),
    {
        self.size.1.saturating_sub(1)
    }

    /// What was drawn last, if anything.
    pub fn previous(&self) -> (previous: Option<DrawState>)
        ensures
            previous == self.spec_previous(),
    {
        self.previous
    }

    fn draw_row(
        &self,
        art: &BatPixelArt,
        position: Position,
        pupil_offset: (i32, i32),
        cell_y: usize,
    ) -> (ops: Vec<DrawOp>)
        requires
            cell_y < (BAT_HEIGHT + 1) / 2,
            pupil_position_defined(LEFT_EYE_BASE, pupil_offset),
            pupil_position_defined(RIGHT_EYE_BASE, pupil_offset),
        ensures
            ops@ == row_ops(
                *art,
                self.spec_size(),
                position,
                pupil_offset,
                cell_y as nat,
                BAT_WIDTH as nat,
            ),
    {
        let terminal_y = position.y.saturating_add(cell_y as u16);
        let mut ops: Vec<DrawOp> = Vec::new();
        let width = art.width();
        let mut cell_x: usize = 0;
        while cell_x < width
            invariant
                width == BAT_WIDTH,
                cell_x <= width,
                cell_y < (BAT_HEIGHT + 1) / 2,
                terminal_y == position.y.saturating_add(cell_y as u16),
                pupil_position_defined(LEFT_EYE_BASE, pupil_offset),
                pupil_position_defined(RIGHT_EYE_BASE, pupil_offset),
                ops@ == row_ops(
                    *art,
                    self.spec_size(),
                    position,
                    pupil_offset,
                    cell_y as nat,
                    cell_x as nat,
                ),
            decreases width - cell_x,
        {
            let terminal_x = position.x.saturating_add(cell_x as u16);
            if terminal_x < self.size.0 {
                let top = composed_pixel(art, cell_x, cell_y * 2, pupil_offset);
                let bottom = composed_pixel(art, cell_x, cell_y * 2 + 1, pupil_offset);
                let mut cell = draw_cell(terminal_x, terminal_y, top, bottom);
                ops.append(&mut cell);
            }
            assert(ops@ =~= row_ops(
                *art,
                self.spec_size(),
                position,
                pupil_offset,
                cell_y as nat,
                (cell_x + 1) as nat,
            ));
            cell_x = cell_x + 1;
        }
        ops
    }

    /// The commands that draw `art` at `position`; see `art_ops`.
    fn draw_art(&self, art: &BatPixelArt, position: Position, pupil_offset: (i32, i32)) -> (ops:
        Vec<DrawOp>)
        requires
            pupil_position_defined(LEFT_EYE_BASE, pupil_offset),
            pupil_position_defined(RIGHT_EYE_BASE, pupil_offset),
        ensures
            ops@ == art_ops(*art, self.spec_size(), position, pupil_offset),
    {
        let drawable_height = self.drawable_height();
        let rows = art.terminal_height();
        let mut ops: Vec<DrawOp> = Vec::new();
        let mut cell_y: usize = 0;
        while cell_y < rows
            invariant
                rows == (BAT_HEIGHT + 1) / 2,
                cell_y <= rows,
                drawable_height == spec_drawable_height(self.spec_size()),
                pupil_position_defined(LEFT_EYE_BASE, pupil_offset),
                pupil_position_defined(RIGHT_EYE_BASE, pupil_offset),
                ops@ == rows_ops(*art, self.spec_size(), position, pupil_offset, cell_y as nat),
            ensures
                ops@ == rows_ops(*art, self.spec_size(), position, pupil_offset, rows as nat),
            decreases rows - cell_y,
        {
            let terminal_y = position.y.saturating_add(cell_y as u16);
            if terminal_y >= drawable_height {
                proof {
                    lemma_hidden_rows_add_nothing(
                        *art,
                        self.spec_size(),
                        position,
                        pupil_offset,
                        cell_y as nat,
                        rows as nat,
                    );
                }
                break;
            }
            let mut row = self.draw_row(art, position, pupil_offset, cell_y);
            ops.append(&mut row);
            assert(ops@ =~= rows_ops(
                *art,
                self.spec_size(),
                position,
                pupil_offset,
                (cell_y + 1) as nat,
            ));
            cell_y = cell_y + 1;
        }
        ops.push(DrawOp::ResetColor);
        ops
    }

    /// The commands that blank what was drawn last; see `clear_ops`.
    fn clear_previous(&self) -> (ops: Vec<DrawOp>)
        ensures
            ops@ == clear_ops(self.spec_size(), self.spec_previous()),
    {
        let previous = match self.previous {
            None => {
                return Vec::new();
            },
            Some(previous) => previous,
        };
        let drawable_height = self.drawable_height();
        let rows = hanging_idle().terminal_height();
        let sprite_width = hanging_idle().width() as u16;
        let mut ops: Vec<DrawOp> = Vec::new();
        let mut cell_y: usize = 0;
        while cell_y < rows
            invariant
                rows == (BAT_HEIGHT + 1) / 2,
                sprite_width == BAT_WIDTH,
                cell_y <= rows,
                drawable_height == spec_drawable_height(self.spec_size()),
                self.spec_previous() == Some(previous),
                ops@ == clear_rows_ops(self.spec_size(), previous.position, cell_y as nat),
            ensures
                ops@ == clear_rows_ops(self.spec_size(), previous.position, rows as nat),
            decreases rows - cell_y,
        {
            let terminal_y = previous.position.y.saturating_add(cell_y as u16);
            if terminal_y >= drawable_height {
                proof {
                    lemma_hidden_rows_add_nothing(
                        spec_hanging_idle(),
                        self.spec_size(),
                        previous.position,
                        (0, 0),
                        cell_y as nat,
                        rows as nat,
                    );
                }
                break;
            }
            if previous.position.x < self.size.0 {
                let available = self.size.0 - previous.position.x;
                let width = if available < sprite_width {
                    available
                } else {
                    sprite_width
                };
                ops.push(DrawOp::MoveTo { x: previous.position.x, y: terminal_y });
                ops.push(DrawOp::ResetColor);
                ops.push(DrawOp::Blank(width));
            }
            assert(ops@ =~= clear_rows_ops(
                self.spec_size(),
                previous.position,
                (cell_y + 1) as nat,
            ));
            cell_y = cell_y + 1;
        }
        ops
    }

    /// Draws the bat with the pupils at `rounded_eye_offset` (already
    /// rounded to whole cells; each axis is then limited to one cell). When
    /// the position, the state and the pupils are what was drawn last,
    /// nothing is written. Otherwise the last drawing is blanked and the
    /// sprite of the bat's state, if it has one, is drawn at the centred
    /// position.
    pub fn render(&mut self, bat: &Bat, rounded_eye_offset: (i32, i32)) -> (ops: Vec<DrawOp>)
        ensures
            (ops@, final(self).spec_previous()) == spec_render(
                old(self).spec_size(),
                old(self).spec_previous(),
                bat.state,
                rounded_eye_offset,
            ),
            final(self).spec_size() == old(self).spec_size(),
    {
        let next = DrawState {
            position: self.position(),
            state: bat.state,
            pupil_offset: quantized_eye_offset(rounded_eye_offset),
        };
        if same_draw_state(self.previous, next) {
            return Vec::new();
        }
        let mut ops = self.clear_previous();
        match pixel_art_for_state(next.state) {
            Some(art) => {
                let mut drawn = self.draw_art(art, next.position, next.pupil_offset);
                ops.append(&mut drawn);
            },
            None => {
                assert(ops@ =~= ops@ + Seq::<DrawOp>::empty());
            },
        }
        self.previous = Some(next);
        ops
    }

    /// Redraws after the pupils moved; the same as `render`.
    pub fn update_eyes(&mut self, bat: &Bat, rounded_eye_offset: (i32, i32)) -> (ops: Vec<DrawOp>)
        ensures
            (ops@, final(self).spec_previous()) == spec_render(
                old(self).spec_size(),
                old(self).spec_previous(),
                bat.state,
                rounded_eye_offset,
            ),
            final(self).spec_size() == old(self).spec_size(),
    {
        self.render(bat, rounded_eye_offset)
    }

    /// A new terminal size: the last drawing is blanked (measured against the
    /// old size) and forgotten, so the next render draws afresh.
    pub fn resize(&mut self, size: (u16, u16)) -> (ops: Vec<DrawOp>)
        ensures
            ops@ == clear_ops(old(self).spec_size(), old(self).spec_previous()),
            final(self).spec_size() == size,
            final(self).spec_previous() == None::<DrawState>,
    {
        let ops = self.clear_previous();
        self.size = size;
        self.previous = None;
        ops
    }

    /// Blanks the last drawing, forgets it and returns to the default
    /// colours.
    pub fn clear(&mut self) -> (ops: Vec<DrawOp>)
        ensures
            ops@ == clear_ops(old(self).spec_size(), old(self).spec_previous()) + seq![
                DrawOp::ResetColor,
            ],
            final(self).spec_size() == old(self).spec_size(),
            final(self).spec_previous() == None::<DrawState>,
    {
        let mut ops = self.clear_previous();
        self.previous = None;
        ops.push(DrawOp::ResetColor);
        ops
    }
}

} // verus!
