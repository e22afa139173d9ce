use batpet::terminal::bat::{Bat, BatState, Position, WingFrame};
use batpet::terminal::eyes::{LEFT_EYE_BASE, RIGHT_EYE_BASE};
use batpet::terminal::render::pixel::{
    color_for, composed_pixel, pupil_position, quantized_eye_offset, DrawOp, PixelRenderer, Rgb,
    LOWER_HALF, UPPER_HALF,
};
use batpet::terminal::render::pixel_art::{
    hanging_idle, pixel_art_for_state, BatPixel, PixelArt, BAT_HEIGHT, BAT_WIDTH,
    HANGING_IDLE_EYE_CENTER,
};
use batpet::terminal::render::status::fit_status_line;

#[test]
fn centers_the_sprite_at_the_top_of_the_terminal() {
    assert_eq!(PixelRenderer::centered_position((80, 24)), Position { x: 30, y: 0 });
    assert_eq!(PixelRenderer::centered_position((19, 24)), Position { x: 0, y: 0 });
}

#[test]
fn resize_recalculates_the_centered_position() {
    let mut renderer = PixelRenderer::new((80, 24));
    let bat = Bat::new(40, 9);

    renderer.render(&bat, (0, 0));
    assert_eq!(renderer.previous().unwrap().position, Position { x: 30, y: 0 });

    renderer.resize((100, 30));
    renderer.render(&bat, (0, 0));
    assert_eq!(renderer.previous().unwrap().position, Position { x: 40, y: 0 });
}

#[test]
fn skips_writes_when_only_the_background_animation_tick_changes() {
    let mut renderer = PixelRenderer::new((80, 24));
    let mut bat = Bat::new(40, 9);

    let first = renderer.render(&bat, (0, 0));
    assert!(!first.is_empty());

    bat.wing_frame = WingFrame::Closed;
    let output = renderer.render(&bat, (0, 0));

    assert!(output.is_empty());
}

#[test]
fn pupil_offset_is_clamped_inside_each_eye() {
    assert_eq!(pupil_position(LEFT_EYE_BASE, (-9, 9)), (5, 10));
    assert_eq!(pupil_position(RIGHT_EYE_BASE, (9, -9)), (14, 8));
}

#[test]
fn hanging_idle_has_consistent_dimensions() {
    assert_eq!(hanging_idle().width(), 20);
    assert_eq!(hanging_idle().height(), 14);
    assert_eq!(hanging_idle().terminal_height(), 7);
}

#[test]
fn pixel_lookup_rejects_coordinates_outside_the_art() {
    assert_eq!(hanging_idle().pixel(BAT_WIDTH, 0), None);
    assert_eq!(hanging_idle().pixel(0, BAT_HEIGHT), None);
    assert_eq!(hanging_idle().pixel(BAT_WIDTH + 1, BAT_HEIGHT + 1), None);
}

#[test]
fn hanging_idle_is_symmetric() {
    assert!(hanging_idle().is_symmetric());
}

#[test]
fn only_hanging_idle_has_a_pixel_art_definition_for_now() {
    assert_eq!(pixel_art_for_state(BatState::HangingIdle), Some(hanging_idle()));
    assert_eq!(pixel_art_for_state(BatState::Flying), None);
}

#[test]
fn pixel_lookup_reads_the_sprite() {
    let art = hanging_idle();
    assert_eq!(art.pixel(7, 0), Some(BatPixel::Claw));
    assert_eq!(art.pixel(0, 0), Some(BatPixel::Transparent));
    assert_eq!(art.pixel(5, 8), Some(BatPixel::Eye));
    assert_eq!(art.pixel(8, 11), Some(BatPixel::Fang));
    assert_eq!(art.pixel(4, 12), Some(BatPixel::InnerEar));
    assert!(BatPixel::Transparent.is_transparent());
    assert!(!BatPixel::Body.is_transparent());
    assert_eq!(HANGING_IDLE_EYE_CENTER, (10, 9));
}

#[test]
fn an_asymmetric_art_is_detected() {
    let t = BatPixel::Transparent;
    let b = BatPixel::Body;
    let symmetric = PixelArt::new([[b, t, b], [t, t, t]]);
    let lopsided = PixelArt::new([[b, t, t], [t, t, t]]);
    assert!(symmetric.is_symmetric());
    assert!(!lopsided.is_symmetric());
    assert_eq!(symmetric.terminal_height(), 1);
    let odd = PixelArt::new([[b], [t], [b]]);
    assert_eq!(odd.terminal_height(), 2);
}

#[test]
fn pupils_replace_only_the_eye_pixel_they_land_on() {
    let art = hanging_idle();
    // Centred pupils sit in the middle of each eye square.
    assert_eq!(composed_pixel(art, 6, 9, (0, 0)), BatPixel::Pupil);
    assert_eq!(composed_pixel(art, 13, 9, (0, 0)), BatPixel::Pupil);
    assert_eq!(composed_pixel(art, 5, 8, (0, 0)), BatPixel::Eye);
    // Looking up-left moves both pupils to the corner of the eye.
    assert_eq!(composed_pixel(art, 5, 8, (-1, -1)), BatPixel::Pupil);
    assert_eq!(composed_pixel(art, 12, 8, (-1, -1)), BatPixel::Pupil);
    // Body pixels are never pupils, and outside the art is transparent.
    assert_eq!(composed_pixel(art, 8, 9, (0, 0)), BatPixel::Body);
    assert_eq!(composed_pixel(art, 3, 14, (0, 0)), BatPixel::Transparent);
}

#[test]
fn pupil_offsets_are_limited_to_one_cell() {
    assert_eq!(quantized_eye_offset((0, 0)), (0, 0));
    assert_eq!(quantized_eye_offset((5, -7)), (1, -1));
    assert_eq!(quantized_eye_offset((-1, 1)), (-1, 1));
}

#[test]
fn palette_colours_every_visible_pixel() {
    assert_eq!(color_for(BatPixel::Transparent), None);
    assert_eq!(color_for(BatPixel::Body), Some(Rgb { r: 61, g: 35, b: 94 }));
    assert_eq!(color_for(BatPixel::Wing), Some(Rgb { r: 108, g: 57, b: 151 }));
    assert_eq!(color_for(BatPixel::InnerEar), Some(Rgb { r: 193, g: 126, b: 221 }));
    assert_eq!(color_for(BatPixel::Eye), Some(Rgb { r: 255, g: 218, b: 83 }));
    assert_eq!(color_for(BatPixel::Pupil), Some(Rgb { r: 25, g: 16, b: 34 }));
    assert_eq!(color_for(BatPixel::Fang), Some(Rgb { r: 248, g: 239, b: 255 }));
    assert_eq!(color_for(BatPixel::Claw), Some(Rgb { r: 224, g: 185, b: 240 }));
}

#[test]
fn first_render_draws_every_cell_of_the_sprite() {
    let mut renderer = PixelRenderer::new((80, 24));
    let bat = Bat::new(40, 9);
    let ops = renderer.render(&bat, (0, 0));
    // Nothing was drawn before: 7 rows of 20 cells, 4 commands per cell
    // except blank cells (3), then a colour reset.
    let moves = ops.iter().filter(|op| matches!(op, DrawOp::MoveTo { .. })).count();
    assert_eq!(moves, 7 * 20);
    assert_eq!(ops.last(), Some(&DrawOp::ResetColor));
    assert_eq!(ops[0], DrawOp::MoveTo { x: 30, y: 0 });
    assert_eq!(ops[1], DrawOp::ResetColor);
    assert_eq!(ops[2], DrawOp::Print(' '));
    // The first claw: top half is a claw pixel, bottom half a claw pixel too.
    let claw = ops
        .iter()
        .position(|op| *op == DrawOp::MoveTo { x: 37, y: 0 })
        .unwrap();
    assert_eq!(ops[claw + 1], DrawOp::Foreground(Rgb { r: 224, g: 185, b: 240 }));
    assert_eq!(ops[claw + 2], DrawOp::Background(Rgb { r: 224, g: 185, b: 240 }));
    assert_eq!(ops[claw + 3], DrawOp::Print(UPPER_HALF));
    // Column 6 has a claw only in its lower half.
    let lower = ops
        .iter()
        .position(|op| *op == DrawOp::MoveTo { x: 36, y: 0 })
        .unwrap();
    assert_eq!(ops[lower + 2], DrawOp::BackgroundReset);
    assert_eq!(ops[lower + 3], DrawOp::Print(LOWER_HALF));
}

#[test]
fn the_status_line_row_is_never_drawn_on() {
    let mut renderer = PixelRenderer::new((30, 4));
    let bat = Bat::new(15, 9);
    let ops = renderer.render(&bat, (0, 0));
    for op in &ops {
        if let DrawOp::MoveTo { x, y } = op {
            assert!(*y < 3);
            assert!(*x < 30);
        }
    }
    let rows: Vec<u16> = ops
        .iter()
        .filter_map(|op| match op {
            DrawOp::MoveTo { y, .. } => Some(*y),
            _ => None,
        })
        .collect();
    assert_eq!(rows.iter().max(), Some(&2));
}

#[test]
fn narrow_terminals_clip_the_sprite_on_the_right() {
    let mut renderer = PixelRenderer::new((12, 24));
    let bat = Bat::new(6, 9);
    let ops = renderer.render(&bat, (0, 0));
    let moves = ops.iter().filter(|op| matches!(op, DrawOp::MoveTo { .. })).count();
    assert_eq!(moves, 7 * 12);
}

#[test]
fn moving_the_pupils_redraws_after_blanking() {
    let mut renderer = PixelRenderer::new((80, 24));
    let bat = Bat::new(40, 9);
    renderer.render(&bat, (0, 0));
    let ops = renderer.update_eyes(&bat, (1, 0));
    assert_eq!(ops[0], DrawOp::MoveTo { x: 30, y: 0 });
    assert_eq!(ops[1], DrawOp::ResetColor);
    assert_eq!(ops[2], DrawOp::Blank(20));
    assert_eq!(renderer.previous().unwrap().pupil_offset, (1, 0));
    // A larger offset in the same direction looks the same: nothing to do.
    assert!(renderer.update_eyes(&bat, (4, 0)).is_empty());
}

#[test]
fn states_without_art_only_blank_the_old_drawing() {
    let mut renderer = PixelRenderer::new((80, 24));
    let mut bat = Bat::new(40, 9);
    renderer.render(&bat, (0, 0));
    bat.state = BatState::Flying;
    let ops = renderer.render(&bat, (0, 0));
    assert_eq!(ops.len(), 7 * 3);
    assert!(ops.iter().all(|op| matches!(
        op,
        DrawOp::MoveTo { .. } | DrawOp::ResetColor | DrawOp::Blank(20)
    )));
}

#[test]
fn clearing_blanks_and_forgets() {
    let mut renderer = PixelRenderer::new((25, 24));
    let bat = Bat::new(12, 9);
    renderer.render(&bat, (0, 0));
    let ops = renderer.clear();
    assert_eq!(ops.len(), 7 * 3 + 1);
    assert_eq!(ops[2], DrawOp::Blank(20));
    assert_eq!(ops.last(), Some(&DrawOp::ResetColor));
    assert_eq!(renderer.previous(), None);
    assert_eq!(PixelRenderer::new((25, 24)).clear(), vec![DrawOp::ResetColor]);
    assert_eq!(renderer.drawable_height(), 23);
    assert_eq!(renderer.position(), Position { x: 2, y: 0 });
}

#[test]
fn status_line_fits_the_terminal_width() {
    assert_eq!(fit_status_line("full line", "short", 0), "");
    assert_eq!(fit_status_line("full line", "short", 9), "full line");
    assert_eq!(fit_status_line("full line", "short", 8), "short");
    assert_eq!(fit_status_line("full line", "short", 3), "sho");
    assert_eq!(fit_status_line("ação completa", "olá", 2), "ol");
}
