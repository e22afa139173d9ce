use vstd::prelude::*;

use crate::desktop::visual::{BodyFrame, FaceFrame};

verus! {

/// The role of a piece of the cut-paper rig.
#[derive(Debug, Clone, Copy, PartialEq, Eq, Structural)]
pub enum PieceKind {
    /// The support and the upper body: never moves.
    Fixed,
    /// One authored scanline of the chest (its texture row).
    ChestRow(u8),
    /// The extra scanline shown while inhaling.
    BreathFill,
    /// The face and the lower body.
    Head,
    /// An ear tip; `left` tells which one.
    Ear { left: bool },
    /// Eye socket shapes.
    Eye,
    /// The eyelid, shown while blinking.
    Lid,
    /// The crease of a closed eye.
    Crease,
}

/// A rectangle of the texture (in logical pixels) and its role.
#[derive(Debug, Clone, Copy, PartialEq, Eq, Structural)]
pub struct Cut {
    pub x: u32,
    pub y: u32,
    pub w: u32,
    pub h: u32,
    pub kind: PieceKind,
}

/// The colours of the eye shapes.
#[derive(Debug, Clone, Copy, PartialEq, Eq, Structural)]
pub enum EyePaint {
    /// The purple fur around the eye (also the eyelid).
    Fur,
    /// The cream of the eye.
    Cream,
    /// The dark line of a closed eye.
    Ink,
}

/// A flat-coloured eye shape: a rectangle in logical pixels relative to the
/// top-left of the eye, its paint, its drawing layer (in tenths, higher on
/// top) and its role.
#[derive(Debug, Clone, Copy, PartialEq, Eq, Structural)]
pub struct EyeShape {
    pub dx: u32,
    pub dy: u32,
    pub w: u32,
    pub h: u32,
    pub paint: EyePaint,
    pub layer_tenths: u32,
    pub kind: PieceKind,
}

/// Where a piece goes this frame: its offset from its rest position in
/// logical pixels (x right, y up), whether it is shown, and for the eyelid
/// its height in logical pixels.
#[derive(Debug, Clone, Copy, PartialEq, Eq, Structural)]
pub struct Placement {
    pub dx: i32,
    pub dy: i32,
    pub visible: bool,
    pub lid_rows: Option<u32>,
}

/// Texture rows of the rig: the fixed support and upper body, the chest
/// scanlines, the head and the ears.
pub const FIXED_ROWS: u32 = 12;

pub const CHEST_FIRST_ROW: u32 = 12;

pub const HEAD_FIRST_ROW: u32 = 19;

/// The chest scanline that disappears while the bat tucks in.
pub const TUCKED_ROW: u8 = 15;

/// Chest scanlines from this one down follow the head.
pub const FIRST_MOVING_CHEST_ROW: u8 = 16;

/// The texture cuts of the rig: the support, the head and chin, the two ear
/// tips, the breathing scanline, then one cut per chest row from 12 to 18.
/// Each ear's root overlaps the head by one row so that a tip can settle
/// without a seam.
pub open spec fn spec_rig_cuts() -> Seq<Cut> {
    seq![
        Cut { x: 0, y: 0, w: 32, h: 12, kind: PieceKind::Fixed },
        Cut { x: 0, y: 19, w: 32, h: 8, kind: PieceKind::Head },
        Cut { x: 11, y: 27, w: 10, h: 5, kind: PieceKind::Head },
        Cut { x: 0, y: 26, w: 11, h: 6, kind: PieceKind::Ear { left: true } },
        Cut { x: 21, y: 26, w: 11, h: 6, kind: PieceKind::Ear { left: false } },
        Cut { x: 0, y: 16, w: 32, h: 1, kind: PieceKind::BreathFill },
        Cut { x: 0, y: 12, w: 32, h: 1, kind: PieceKind::ChestRow(12) },
        Cut { x: 0, y: 13, w: 32, h: 1, kind: PieceKind::ChestRow(13) },
        Cut { x: 0, y: 14, w: 32, h: 1, kind: PieceKind::ChestRow(14) },
        Cut { x: 0, y: 15, w: 32, h: 1, kind: PieceKind::ChestRow(15) },
        Cut { x: 0, y: 16, w: 32, h: 1, kind: PieceKind::ChestRow(16) },
        Cut { x: 0, y: 17, w: 32, h: 1, kind: PieceKind::ChestRow(17) },
        Cut { x: 0, y: 18, w: 32, h: 1, kind: PieceKind::ChestRow(18) },
    ]
}

/// The texture cuts of the rig; see `spec_rig_cuts`. Every cut lies inside
/// the 32×32 texture.
pub fn rig_cuts() -> (cuts: Vec<Cut>)
    ensures
        cuts@ == spec_rig_cuts(),
        forall|i: int|
            0 <= i < cuts@.len() ==> #[trigger] cuts@[i].x + cuts@[i].w <= 32 && cuts@[i].y
                + cuts@[i].h <= 32,
{
    let mut cuts: Vec<Cut> = Vec::new();
    cuts.push(Cut { x: 0, y: 0, w: 32, h: 12, kind: PieceKind::Fixed });
    cuts.push(Cut { x: 0, y: 19, w: 32, h: 8, kind: PieceKind::Head });
    cuts.push(Cut { x: 11, y: 27, w: 10, h: 5, kind: PieceKind::Head });
    cuts.push(Cut { x: 0, y: 26, w: 11, h: 6, kind: PieceKind::Ear { left: true } });
    cuts.push(Cut { x: 21, y: 26, w: 11, h: 6, kind: PieceKind::Ear { left: false } });
    cuts.push(Cut { x: 0, y: 16, w: 32, h: 1, kind: PieceKind::BreathFill });
    let mut row: u8 = 12;
    while row < 19
        invariant
            12 <= row <= 19,
            cuts@ =~= spec_rig_cuts().take(6 + row - 12),
        decreases 19 - row,
    {
        cuts.push(Cut { x: 0, y: row as u32, w: 32, h: 1, kind: PieceKind::ChestRow(row) });
        row = row + 1;
    }
    assert(cuts@ =~= spec_rig_cuts());
    cuts
}

/// The shapes that draw one eye: the fur socket, a cream cross that rounds
/// it, the eyelid and the crease.
pub open spec fn spec_eye_shapes() -> Seq<EyeShape> {
    seq![
        EyeShape { dx: 0, dy: 0, w: 5, h: 5, paint: EyePaint::Fur, layer_tenths: 2, kind: PieceKind::Eye },
        EyeShape { dx: 1, dy: 0, w: 3, h: 5, paint: EyePaint::Cream, layer_tenths: 3, kind: PieceKind::Eye },
        EyeShape { dx: 0, dy: 1, w: 5, h: 3, paint: EyePaint::Cream, layer_tenths: 3, kind: PieceKind::Eye },
        EyeShape { dx: 0, dy: 0, w: 5, h: 5, paint: EyePaint::Fur, layer_tenths: 20, kind: PieceKind::Lid },
        EyeShape { dx: 1, dy: 3, w: 3, h: 1, paint: EyePaint::Ink, layer_tenths: 21, kind: PieceKind::Crease },
    ]
}

/// The shapes of one eye; see `spec_eye_shapes`. Each stays within the
/// 5×5 eye, and the eyelid and crease lie above the eye.
pub fn eye_shapes() -> (shapes: Vec<EyeShape>)
    ensures
        shapes@ == spec_eye_shapes(),
        forall|i: int|
            0 <= i < shapes@.len() ==> #[trigger] shapes@[i].dx + shapes@[i].w <= 5
                && shapes@[i].dy + shapes@[i].h <= 5,
{
    let shapes = vec![
        EyeShape { dx: 0, dy: 0, w: 5, h: 5, paint: EyePaint::Fur, layer_tenths: 2, kind: PieceKind::Eye },
        EyeShape { dx: 1, dy: 0, w: 3, h: 5, paint: EyePaint::Cream, layer_tenths: 3, kind: PieceKind::Eye },
        EyeShape { dx: 0, dy: 1, w: 5, h: 3, paint: EyePaint::Cream, layer_tenths: 3, kind: PieceKind::Eye },
        EyeShape { dx: 0, dy: 0, w: 5, h: 5, paint: EyePaint::Fur, layer_tenths: 20, kind: PieceKind::Lid },
        EyeShape { dx: 1, dy: 3, w: 3, h: 1, paint: EyePaint::Ink, layer_tenths: 21, kind: PieceKind::Crease },
    ];
    assert(shapes@ =~= spec_eye_shapes());
    shapes
}

/// Texture columns of the left edge of each eye.
pub const EYE_COLUMNS: (u32, u32) = (9, 18);

/// Texture row of the top of the eyes.
pub const EYE_TOP_ROW: u32 = 19;

/// `value` limited to one logical pixel either way.
pub open spec fn unit_clamp(value: int) -> int {
    if value < -1 {
        -1
    } else if value > 1 {
        1
    } else {
        value
    }
}

/// How far the head moves, in logical pixels. A wing adjustment pulls it one
/// pixel left; otherwise it follows the attention offset (already rounded to
/// whole pixels), at most one pixel either way. Vertically it drops one
/// pixel during the inhale part of the breath and rises one pixel while the
/// bat tucks in shyly.
pub open spec fn spec_head_step(
    body: BodyFrame,
    attention_x: i32,
    inhaling: bool,
    tucked: bool,
) -> (int, int) {
    (
        if body == BodyFrame::WingAdjust {
            -1
        } else {
            unit_clamp(attention_x as int)
        },
        (if inhaling {
            -1int
        } else {
            0
        }) + (if tucked {
            1int
        } else {
            0
        }),
    )
}

/// The head movement of a frame; see `spec_head_step`.
pub fn head_step(body: BodyFrame, attention_x: i32, inhaling: bool, tucked: bool) -> (step: (
    i32,
    i32,
))
    ensures
        (step.0 as int, step.1 as int) == spec_head_step(body, attention_x, inhaling, tucked),
{
    let x: i32 = if let BodyFrame::WingAdjust = body {
        -1
    } else if attention_x < -1 {
        -1
    } else if attention_x > 1 {
        1
    } else {
        attention_x
    };
    let breath: i32 = if inhaling {
        -1
    } else {
        0
    };
    let shy: i32 = if tucked {
        1
    } else {
        0
    };
    (x, breath + shy)
}

/// Where a piece of kind `kind` goes for the body and face poses, the head
/// movement `head` (in logical pixels) and, for an ear, whether it is
/// listening (`ear_alert`):
/// - the support never moves;
/// - chest rows 16 and below follow the head vertically; row 15 disappears
///   while the head is raised (one scanline removed), and the breathing
///   scanline shows while the head is lowered (one scanline inserted);
/// - an ear follows the head; during its twitch it moves one pixel towards
///   the middle and one pixel down, and while listening one pixel down;
/// - the eyelid shows while blinking, two pixels tall when half closed and
///   five when closed; the crease shows only when closed;
/// - everything else follows the head.
pub open spec fn spec_place_piece(
    kind: PieceKind,
    body: BodyFrame,
    face: FaceFrame,
    head: (i32, i32),
    ear_alert: bool,
) -> Placement {
    match kind {
        PieceKind::Fixed => Placement { dx: 0, dy: 0, visible: true, lid_rows: None },
        PieceKind::ChestRow(row) => Placement {
            dx: 0,
            dy: if row >= FIRST_MOVING_CHEST_ROW {
                head.1
            } else {
                0
            },
            visible: !(row == TUCKED_ROW && head.1 > 0),
            lid_rows: None,
        },
        PieceKind::BreathFill => Placement { dx: 0, dy: 0, visible: head.1 < 0, lid_rows: None },
        PieceKind::Ear { left } => {
            let twitch = (left && body == BodyFrame::EarTwitchLeft) || (!left && body
                == BodyFrame::EarTwitchRight);
            Placement {
                dx: (head.0 + if twitch {
                    if left {
                        1int
                    } else {
                        -1int
                    }
                } else {
                    0int
                }) as i32,
                dy: (head.1 + if twitch || ear_alert {
                    -1int
                } else {
                    0int
                }) as i32,
                visible: true,
                lid_rows: None,
            }
        },
        PieceKind::Lid => Placement {
            dx: head.0,
            dy: head.1,
            visible: face != FaceFrame::Open,
            lid_rows: Some(
                if face == FaceFrame::BlinkHalf {
                    2
                } else {
                    5
                },
            ),
        },
        PieceKind::Crease => Placement {
            dx: head.0,
            dy: head.1,
            visible: face == FaceFrame::BlinkClosed,
            lid_rows: None,
        },
        _ => Placement { dx: head.0, dy: head.1, visible: true, lid_rows: None },
    }
}

/// The placement of a piece this frame; see `spec_place_piece`. The head
/// movement is at most one pixel either way on each axis.
pub fn place_piece(
    kind: PieceKind,
    body: BodyFrame,
    face: FaceFrame,
    head: (i32, i32),
    ear_alert: bool,
) -> (placement: Placement)
    requires
        -1 <= head.0 <= 1,
        -1 <= head.1 <= 1,
    ensures
        placement == spec_place_piece(kind, body, face, head, ear_alert),
{
    match kind {
        PieceKind::Fixed => Placement { dx: 0, dy: 0, visible: true, lid_rows: None },
        PieceKind::ChestRow(row) => Placement {
            dx: 0,
            dy: if row >= FIRST_MOVING_CHEST_ROW {
                head.1
            } else {
                0
            },
            visible: !(row == TUCKED_ROW && head.1 > 0),
            lid_rows: None,
        },
        PieceKind::BreathFill => Placement { dx: 0, dy: 0, visible: head.1 < 0, lid_rows: None },
        PieceKind::Ear { left } => {
            let twitch = (left && body == BodyFrame::EarTwitchLeft) || (!left && body
                == BodyFrame::EarTwitchRight);
            let tip_x: i32 = if twitch {
                if left {
                    1
                } else {
                    -1
                }
            } else {
                0
            };
            let tip_y: i32 = if twitch || ear_alert {
                -1
            } else {
                0
            };
            Placement { dx: head.0 + tip_x, dy: head.1 + tip_y, visible: true, lid_rows: None }
        },
        PieceKind::Lid => Placement {
            dx: head.0,
            dy: head.1,
            visible: face != FaceFrame::Open,
            lid_rows: Some(
                if let FaceFrame::BlinkHalf = face {
                    2
                } else {
                    5
                },
            ),
        },
        PieceKind::Crease => Placement {
            dx: head.0,
            dy: head.1,
            visible: face == FaceFrame::BlinkClosed,
            lid_rows: None,
        },
        _ => Placement { dx: head.0, dy: head.1, visible: true, lid_rows: None },
    }
}

/// The support stays put: whatever the poses, the fixed pieces and the
/// upper chest rows never move and are always shown.
pub proof fn lemma_support_never_moves(
    body: BodyFrame,
    face: FaceFrame,
    head: (i32, i32),
    ear_alert: bool,
    row: u8,
)
    requires
        row < FIRST_MOVING_CHEST_ROW,
        row != TUCKED_ROW,
    ensures
        spec_place_piece(PieceKind::Fixed, body, face, head, ear_alert) == (Placement {
            dx: 0,
            dy: 0,
            visible: true,
            lid_rows: None,
        }),
        spec_place_piece(PieceKind::ChestRow(row), body, face, head, ear_alert) == (Placement {
            dx: 0,
            dy: 0,
            visible: true,
            lid_rows: None,
        }),
{
}

/// Breathing inserts or removes whole scanlines instead of stretching
/// pixels: with the head lowered the extra scanline shows and the lower
/// chest moves down one row; with the head raised row 15 is hidden and the
/// lower chest moves up one row; at rest neither happens.
pub proof fn lemma_breathing_moves_whole_scanlines(
    body: BodyFrame,
    face: FaceFrame,
    head: (i32, i32),
    ear_alert: bool,
)
    requires
        -1 <= head.1 <= 1,
    ensures
        spec_place_piece(PieceKind::BreathFill, body, face, head, ear_alert).visible
            <==> head.1 == -1,
        spec_place_piece(PieceKind::ChestRow(TUCKED_ROW), body, face, head, ear_alert).visible
            <==> head.1 != 1,
        spec_place_piece(PieceKind::ChestRow(FIRST_MOVING_CHEST_ROW), body, face, head, ear_alert).dy
            == head.1,
        spec_place_piece(PieceKind::BreathFill, body, face, head, ear_alert).dy == 0,
{
}

/// The lower chest moves as one block with the head: every chest row from
/// `FIRST_MOVING_CHEST_ROW` down shifts vertically by exactly the head's
/// vertical step and never sideways, while the rows above it stay put.
pub proof fn lemma_lower_chest_moves_with_the_head(
    body: BodyFrame,
    face: FaceFrame,
    head: (i32, i32),
    ear_alert: bool,
)
    ensures
        forall|row: u8|
            row >= FIRST_MOVING_CHEST_ROW ==> {
                &&& #[trigger] spec_place_piece(PieceKind::ChestRow(row), body, face, head, ear_alert).dy
                    == head.1
                &&& spec_place_piece(PieceKind::ChestRow(row), body, face, head, ear_alert).dx == 0
                &&& spec_place_piece(PieceKind::ChestRow(row), body, face, head, ear_alert).visible
            },
        forall|row: u8|
            row < FIRST_MOVING_CHEST_ROW ==> {
                &&& #[trigger] spec_place_piece(PieceKind::ChestRow(row), body, face, head, ear_alert).dy
                    == 0
                &&& spec_place_piece(PieceKind::ChestRow(row), body, face, head, ear_alert).dx == 0
            },
{
}

/// Every piece stays within two logical pixels of its rest position, so the
/// pose never tears the silhouette apart.
pub proof fn lemma_pieces_move_at_most_two_pixels(
    kind: PieceKind,
    body: BodyFrame,
    face: FaceFrame,
    head: (i32, i32),
    ear_alert: bool,
)
    requires
        -1 <= head.0 <= 1,
        -1 <= head.1 <= 1,
    ensures
        -2 <= spec_place_piece(kind, body, face, head, ear_alert).dx <= 2,
        -2 <= spec_place_piece(kind, body, face, head, ear_alert).dy <= 2,
{
}

} // verus!
