use vstd::prelude::*;

verus! {

pub const WINDOW_WIDTH: u32 = 320;

pub const WINDOW_HEIGHT: u32 = 320;

/// Gap between the window and the right edge of the monitor.
pub const WINDOW_RIGHT_MARGIN: u32 = 24;

/// Gap between the window and the top edge of the monitor.
pub const WINDOW_TOP_MARGIN: u32 = 8;

/// Whether the window has been moved to its corner.
#[derive(Debug, Clone, Copy, PartialEq, Eq, Structural, Default)]
pub struct WindowPlacement {
    pub positioned: bool,
}

/// A point on the desktop, in physical pixels.
#[derive(Debug, Clone, Copy, PartialEq, Eq, Structural)]
pub struct ScreenPoint {
    pub x: i32,
    pub y: i32,
}

/// A size (or a pair of margins) in physical pixels.
#[derive(Debug, Clone, Copy, PartialEq, Eq, Structural)]
pub struct ScreenSize {
    pub x: u32,
    pub y: u32,
}

/// The room left of the window and its right margin on the monitor; none
/// when they do not fit.
pub open spec fn spec_available_width(monitor_size: ScreenSize, window_size: ScreenSize, margin: ScreenSize) -> u32 {
    monitor_size.x.saturating_sub(window_size.x.saturating_add(margin.x))
}

/// The window's top-left corner in the top-right corner of the monitor,
/// `margin` away from its right and top edges (left-aligned when the window
/// does not fit). The available width is read as a signed 32-bit value.
pub open spec fn spec_top_right_position(
    monitor_position: ScreenPoint,
    monitor_size: ScreenSize,
    window_size: ScreenSize,
    margin: ScreenSize,
) -> (int, int) {
    (
        monitor_position.x + (spec_available_width(monitor_size, window_size, margin) as i32),
        monitor_position.y + (margin.y as i32),
    )
}

/// The window corner for the top-right placement; see
/// `spec_top_right_position`. The result must lie on the 32-bit desktop.
pub fn top_right_position(
    monitor_position: ScreenPoint,
    monitor_size: ScreenSize,
    window_size: ScreenSize,
    margin: ScreenSize,
) -> (position: ScreenPoint)
    requires
        i32::MIN <= spec_top_right_position(monitor_position, monitor_size, window_size, margin).0
            <= i32::MAX,
        i32::MIN <= spec_top_right_position(monitor_position, monitor_size, window_size, margin).1
            <= i32::MAX,
    ensures
        (position.x as int, position.y as int) == spec_top_right_position(
            monitor_position,
            monitor_size,
            window_size,
            margin,
        ),
{
    let available_width = monitor_size.x.saturating_sub(window_size.x.saturating_add(margin.x));
    ScreenPoint {
        x: monitor_position.x + available_width as i32,
        y: monitor_position.y + margin.y as i32,
    }
}

/// When the window and its margin fit on the monitor, the window's right
/// edge ends exactly `margin.x` before the monitor's right edge, and its top
/// is `margin.y` below the monitor's top.
pub proof fn lemma_window_hugs_the_top_right_corner(
    monitor_position: ScreenPoint,
    monitor_size: ScreenSize,
    window_size: ScreenSize,
    margin: ScreenSize,
)
    requires
        window_size.x + margin.x <= monitor_size.x,
        monitor_size.x <= i32::MAX,
        margin.y <= i32::MAX,
    ensures
        ({
            let p = spec_top_right_position(monitor_position, monitor_size, window_size, margin);
            &&& p.0 + window_size.x + margin.x == monitor_position.x + monitor_size.x
            &&& p.1 == monitor_position.y + margin.y
        }),
{
}

} // verus!
