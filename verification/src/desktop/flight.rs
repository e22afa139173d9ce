use vstd::prelude::*;

use crate::desktop::state::BatState;

verus! {

/// The frame of the flight presentation.
#[derive(Debug, Clone, Copy, PartialEq, Eq, Structural, Default)]
pub enum FlightVisualFrame {
    /// Hanging or reacting: no flight pose.
    #[default]
    Rest,
    /// Gathering weight before takeoff, claws still holding.
    Coil,
    /// Wings up, the start of a stroke.
    Lift,
    /// Wings open.
    Spread,
    /// Wings down, the power stroke.
    Power,
    /// The short return before the next stroke.
    Recover,
    /// Reaching for the perch on landing.
    Reach,
}

impl FlightVisualFrame {
    /// The sheet's four authored wing phases: lift, spread (also used for
    /// coil and reach), power, and recover (also used at rest).
    pub open spec fn spec_sheet_index(self) -> u32 {
        match self {
            FlightVisualFrame::Lift => 0,
            FlightVisualFrame::Spread | FlightVisualFrame::Coil | FlightVisualFrame::Reach => 1,
            FlightVisualFrame::Power => 2,
            FlightVisualFrame::Recover | FlightVisualFrame::Rest => 3,
        }
    }

    /// The index of this frame in the four-frame flight sheet.
    pub fn sheet_index(self) -> (index: u32)
        ensures
            index == self.spec_sheet_index(),
            index < 4,
    {
        match self {
            FlightVisualFrame::Lift => 0,
            FlightVisualFrame::Spread | FlightVisualFrame::Coil | FlightVisualFrame::Reach => 1,
            FlightVisualFrame::Power => 2,
            FlightVisualFrame::Recover | FlightVisualFrame::Rest => 3,
        }
    }
}

/// Whether a step of the flight integration is still under way or has
/// reached its target.
#[derive(Debug, Clone, Copy, PartialEq, Eq, Structural)]
pub enum FlightStep {
    Moving,
    Arrived,
}

/// The flight pose for a state: no flight pose while hanging or reacting;
/// the coil while the takeoff still holds the support; the reach once the
/// landing has made contact, and open wings on the final approach to the
/// perch; otherwise the current frame of the wing beat.
pub open spec fn spec_flight_frame(
    state: BatState,
    holding_support: bool,
    contact: bool,
    near_perch: bool,
    wingbeat: FlightVisualFrame,
) -> FlightVisualFrame {
    if state == BatState::HangingIdle || state == BatState::Reacting {
        FlightVisualFrame::Rest
    } else if state == BatState::Takeoff && holding_support {
        FlightVisualFrame::Coil
    } else if state == BatState::Landing && contact {
        FlightVisualFrame::Reach
    } else if state == BatState::Landing && near_perch {
        FlightVisualFrame::Spread
    } else {
        wingbeat
    }
}

/// The flight pose of a frame; see `spec_flight_frame`.
pub fn flight_frame(
    state: BatState,
    holding_support: bool,
    contact: bool,
    near_perch: bool,
    wingbeat: FlightVisualFrame,
) -> (frame: FlightVisualFrame)
    ensures
        frame == spec_flight_frame(state, holding_support, contact, near_perch, wingbeat),
{
    match state {
        BatState::HangingIdle | BatState::Reacting => FlightVisualFrame::Rest,
        BatState::Takeoff if holding_support => FlightVisualFrame::Coil,
        BatState::Landing if contact => FlightVisualFrame::Reach,
        BatState::Landing if near_perch => FlightVisualFrame::Spread,
        _ => wingbeat,
    }
}

} // verus!
