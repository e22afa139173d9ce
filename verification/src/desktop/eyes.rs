use vstd::prelude::*;

verus! {

/// Where the pupils of the desktop bat look.
#[derive(Debug, Clone, Copy, PartialEq, Eq, Structural, Default)]
pub enum EyeDirection {
    #[default]
    Center,
    Up,
    UpRight,
    Right,
    DownRight,
    Down,
    DownLeft,
    Left,
    UpLeft,
}

impl EyeDirection {
    pub open spec fn spec_label(self) -> &'static str {
        match self {
            EyeDirection::Center => "center",
            EyeDirection::Up => "up",
            EyeDirection::UpRight => "up-right",
            EyeDirection::Right => "right",
            EyeDirection::DownRight => "down-right",
            EyeDirection::Down => "down",
            EyeDirection::DownLeft => "down-left",
            EyeDirection::Left => "left",
            EyeDirection::UpLeft => "up-left",
        }
    }

    /// The direction's name in the log.
    pub fn label(self) -> (label: &'static str)
        ensures
            label == self.spec_label(),
    {
        match self {
            EyeDirection::Center => "center",
            EyeDirection::Up => "up",
            EyeDirection::UpRight => "up-right",
            EyeDirection::Right => "right",
            EyeDirection::DownRight => "down-right",
            EyeDirection::Down => "down",
            EyeDirection::DownLeft => "down-left",
            EyeDirection::Left => "left",
            EyeDirection::UpLeft => "up-left",
        }
    }
}

} // verus!
