use vstd::prelude::*;

verus! {

/// What the desktop bat is doing.
#[derive(Debug, Clone, Copy, PartialEq, Eq, Structural, Default, Hash)]
pub enum BatState {
    /// Hanging from its perch, breathing, blinking and watching the pointer.
    #[default]
    HangingIdle,
    /// The short tuck-and-peek after a click.
    Reacting,
    /// Leaving the perch.
    Takeoff,
    /// Out in the window, to the flight target and a pause there.
    Flying,
    /// Back towards the point in front of the perch.
    Returning,
    /// The last approach and the contact with the perch.
    Landing,
}

impl BatState {
    pub open spec fn spec_label(self) -> &'static str {
        match self {
            BatState::HangingIdle => "HangingIdle",
            BatState::Reacting => "Reacting",
            BatState::Takeoff => "Takeoff",
            BatState::Flying => "Flying",
            BatState::Returning => "Return",
            BatState::Landing => "Landing",
        }
    }

    /// The state's name in the log.
    pub fn label(self) -> (label: &'static str)
        ensures
            label == self.spec_label(),
    {
        match self {
            BatState::HangingIdle => "HangingIdle",
            BatState::Reacting => "Reacting",
            BatState::Takeoff => "Takeoff",
            BatState::Flying => "Flying",
            BatState::Returning => "Return",
            BatState::Landing => "Landing",
        }
    }
}

/// What happened during a frame that can move the bat to another state.
#[derive(Debug, Clone, Copy, PartialEq, Eq, Structural)]
pub enum StateEvent {
    /// The F key, or the scheduled debug flight, asked for a flight.
    FlightRequested,
    /// The left button was pressed over the bat.
    BatClicked,
    /// The click reaction played to its end.
    ReactionFinished,
    /// The current flight stage is done: the target was reached (and, when
    /// flying, the pause there is over; when landing, the contact settled).
    StageCompleted,
}

/// The state after `event` in `state`. A resting bat takes off on request
/// and reacts to a click; the reaction returns to rest; each completed
/// flight stage leads to the next one: takeoff, flying, return, landing and
/// back to rest. Any other event leaves the state as it is.
pub open spec fn spec_next_state(state: BatState, event: StateEvent) -> BatState {
    match (state, event) {
        (BatState::HangingIdle, StateEvent::FlightRequested) => BatState::Takeoff,
        (BatState::HangingIdle, StateEvent::BatClicked) => BatState::Reacting,
        (BatState::Reacting, StateEvent::ReactionFinished) => BatState::HangingIdle,
        (BatState::Takeoff, StateEvent::StageCompleted) => BatState::Flying,
        (BatState::Flying, StateEvent::StageCompleted) => BatState::Returning,
        (BatState::Returning, StateEvent::StageCompleted) => BatState::Landing,
        (BatState::Landing, StateEvent::StageCompleted) => BatState::HangingIdle,
        _ => state,
    }
}

/// The state after an event; see `spec_next_state`.
pub fn next_state(state: BatState, event: StateEvent) -> (next: BatState)
    ensures
        next == spec_next_state(state, event),
{
    match (state, event) {
        (BatState::HangingIdle, StateEvent::FlightRequested) => BatState::Takeoff,
        (BatState::HangingIdle, StateEvent::BatClicked) => BatState::Reacting,
        (BatState::Reacting, StateEvent::ReactionFinished) => BatState::HangingIdle,
        (BatState::Takeoff, StateEvent::StageCompleted) => BatState::Flying,
        (BatState::Flying, StateEvent::StageCompleted) => BatState::Returning,
        (BatState::Returning, StateEvent::StageCompleted) => BatState::Landing,
        (BatState::Landing, StateEvent::StageCompleted) => BatState::HangingIdle,
        _ => state,
    }
}

/// Whether the bat is in one of the four flight stages.
pub open spec fn spec_is_flight(state: BatState) -> bool {
    state == BatState::Takeoff || state == BatState::Flying || state == BatState::Returning
        || state == BatState::Landing
}

/// The event that ends what the bat is doing in `state`.
pub open spec fn completion_of(state: BatState) -> StateEvent {
    if state == BatState::Reacting {
        StateEvent::ReactionFinished
    } else {
        StateEvent::StageCompleted
    }
}

/// The state after what the bat does has ended `count` times in a row.
pub open spec fn settle(state: BatState, count: nat) -> BatState
    decreases count,
{
    if count == 0 {
        state
    } else {
        settle(spec_next_state(state, completion_of(state)), (count - 1) as nat)
    }
}

/// How many completed stages separate a state from rest.
pub open spec fn stages_to_rest(state: BatState) -> nat {
    match state {
        BatState::HangingIdle => 0,
        BatState::Reacting => 1,
        BatState::Takeoff => 4,
        BatState::Flying => 3,
        BatState::Returning => 2,
        BatState::Landing => 1,
    }
}

/// The flight cycle: a request at rest starts a takeoff, and completed
/// stages go through flying, return and landing back to rest; from any
/// state, letting each stage (or the reaction) end brings the bat back to
/// rest after `stages_to_rest` of them.
pub proof fn lemma_flight_cycle_returns_to_rest(state: BatState)
    ensures
        spec_next_state(BatState::HangingIdle, StateEvent::FlightRequested) == BatState::Takeoff,
        spec_next_state(BatState::Takeoff, StateEvent::StageCompleted) == BatState::Flying,
        spec_next_state(BatState::Flying, StateEvent::StageCompleted) == BatState::Returning,
        spec_next_state(BatState::Returning, StateEvent::StageCompleted) == BatState::Landing,
        spec_next_state(BatState::Landing, StateEvent::StageCompleted) == BatState::HangingIdle,
        settle(state, stages_to_rest(state)) == BatState::HangingIdle,
{
    reveal_with_fuel(settle, 5);
}

/// Only a resting bat takes off or reacts: during a reaction or a flight,
/// requests and clicks are ignored, and nothing but the end of the current
/// stage or reaction moves the bat on.
pub proof fn lemma_busy_bat_ignores_requests_and_clicks(state: BatState, event: StateEvent)
    requires
        state != BatState::HangingIdle,
        event == StateEvent::FlightRequested || event == StateEvent::BatClicked,
    ensures
        spec_next_state(state, event) == state,
{
}

/// Every event either leaves the state alone or brings the bat one stage
/// nearer to rest, except leaving rest itself; so from any state, the ends
/// of its stages bring the bat back to rest.
pub proof fn lemma_each_completion_nears_rest(state: BatState, event: StateEvent)
    requires
        state != BatState::HangingIdle,
        spec_next_state(state, event) != state,
    ensures
        stages_to_rest(spec_next_state(state, event)) + 1 == stages_to_rest(state),
{
}

/// A flight never leads to the click reaction and a reaction never leads
/// into a flight: the next state of a flight stage is a flight stage or rest,
/// and a reaction ends at rest.
pub proof fn lemma_flight_and_reaction_stay_apart(state: BatState, event: StateEvent)
    ensures
        spec_is_flight(state) ==> (spec_is_flight(spec_next_state(state, event))
            || spec_next_state(state, event) == BatState::HangingIdle),
        state == BatState::Reacting ==> (spec_next_state(state, event) == BatState::Reacting
            || spec_next_state(state, event) == BatState::HangingIdle),
{
}

} // verus!
