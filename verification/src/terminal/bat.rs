use vstd::prelude::*;

verus! {

/// A cell of the terminal grid (column, row).
#[derive(Debug, Clone, Copy, PartialEq, Eq, Structural, Default)]
pub struct Position {
    pub x: u16,
    pub y: u16,
}

/// Where the pupils look, in eight directions around a centred gaze.
#[derive(Debug, Clone, Copy, PartialEq, Eq, Structural, Default)]
pub enum EyeDirection {
    #[default]
    Center,
    Up,
    UpRight,
    Right,
    DownRight,
    Down,
    DownLeft,
    Left,
    UpLeft,
}

/// The behaviour the bat is in. Only `HangingIdle` is active for now; the
/// other states are reserved for future behaviour.
#[derive(Debug, Clone, Copy, PartialEq, Eq, Structural, Default)]
pub enum BatState {
    #[default]
    HangingIdle,
    HangingAlert,
    TakeOff,
    Flying,
    Landing,
}

impl BatState {
    pub open spec fn spec_label(self) -> &'static str {
        match self {
            BatState::HangingIdle => "HangingIdle",
            BatState::HangingAlert => "HangingAlert",
            BatState::TakeOff => "TakeOff",
            BatState::Flying => "Flying",
            BatState::Landing => "Landing",
        }
    }

    /// The state's name as shown on the debug line.
    pub fn label(self) -> (label: &'static str)
        ensures
            label == self.spec_label(),
    {
        match self {
            BatState::HangingIdle => "HangingIdle",
            BatState::HangingAlert => "HangingAlert",
            BatState::TakeOff => "TakeOff",
            BatState::Flying => "Flying",
            BatState::Landing => "Landing",
        }
    }
}


impl EyeDirection {
    pub open spec fn spec_label(self) -> &'static str {
        match self {
            EyeDirection::Center => "Center",
            EyeDirection::Up => "Up",
            EyeDirection::UpRight => "UpRight",
            EyeDirection::Right => "Right",
            EyeDirection::DownRight => "DownRight",
            EyeDirection::Down => "Down",
            EyeDirection::DownLeft => "DownLeft",
            EyeDirection::Left => "Left",
            EyeDirection::UpLeft => "UpLeft",
        }
    }

    /// The direction's name as shown on the debug line.
    pub fn label(self) -> (label: &'static str)
        ensures
            label == self.spec_label(),
    {
        match self {
            EyeDirection::Center => "Center",
            EyeDirection::Up => "Up",
            EyeDirection::UpRight => "UpRight",
            EyeDirection::Right => "Right",
            EyeDirection::DownRight => "DownRight",
            EyeDirection::Down => "Down",
            EyeDirection::DownLeft => "DownLeft",
            EyeDirection::Left => "Left",
            EyeDirection::UpLeft => "UpLeft",
        }
    }
}

/// The three drawn positions of the wings.
#[derive(Debug, Clone, Copy, PartialEq, Eq, Structural, Default)]
pub enum WingFrame {
    #[default]
    Open,
    Mid,
    Closed,
}

/// The bat as the terminal companion sees it: where it hangs, where the
/// pointer was last seen, where it looks, what it does and how its wings are.
#[derive(Debug, Clone, Copy, PartialEq, Eq, Structural)]
pub struct Bat {
    pub position: Position,
    pub mouse_position: Option<Position>,
    pub eye_direction: EyeDirection,
    pub state: BatState,
    pub wing_frame: WingFrame,
}

impl Bat {
    /// A bat hanging idle at `position`, looking straight ahead with open
    /// wings, that has not seen the pointer yet.
    pub open spec fn spec_new(position: Position) -> Bat {
        Bat {
            position,
            mouse_position: None,
            eye_direction: EyeDirection::Center,
            state: BatState::HangingIdle,
            wing_frame: WingFrame::Open,
        }
    }

    /// A bat hanging idle at `(x, y)`, looking straight ahead with open
    /// wings, that has not seen the pointer yet.
    pub fn new(x: u16, y: u16) -> (bat: Self)
        ensures
            bat == Bat::spec_new(Position { x, y }),
    {
        Bat {
            position: Position { x, y },
            mouse_position: None,
            eye_direction: EyeDirection::Center,
            state: BatState::HangingIdle,
            wing_frame: WingFrame::Open,
        }
    }

    /// Moves the hanging point; nothing else changes.
    pub fn set_position(&mut self, position: Position)
        ensures
            *final(self) == (Bat { position, ..*old(self) }),
    {
        self.position = position;
    }

    /// Records where the pointer was seen; nothing else changes.
    pub fn set_mouse_position(&mut self, position: Position)
        ensures
            *final(self) == (Bat { mouse_position: Some(position), ..*old(self) }),
    {
        self.mouse_position = Some(position);
    }
}

} // verus!
