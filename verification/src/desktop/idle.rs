use vstd::prelude::*;

use crate::desktop::visual::BodyAction;

verus! {

/// The seed used in place of zero, which the generator cannot leave.
pub const ZERO_SEED_REPLACEMENT: u32 = 0x9E37_79B9;

/// One step of the 32-bit xorshift generator (shifts 13, 17, 5).
pub open spec fn spec_xorshift(value: u32) -> u32 {
    let a = value ^ (value << 13u32);
    let b = a ^ (a >> 17u32);
    b ^ (b << 5u32)
}

/// The small deterministic generator behind the idle timings: a 32-bit
/// xorshift whose state is never zero.
#[derive(Debug, Clone, Copy, PartialEq, Eq, Structural)]
pub struct IdleRng {
    state: u32,
}

impl IdleRng {
    pub closed spec fn spec_state(&self) -> u32 {
        self.state
    }

    /// A generator seeded with `seed`; zero, which would repeat forever, is
    /// replaced by a fixed non-zero seed.
    pub fn new(seed: u32) -> (rng: Self)
        ensures
            rng.spec_state() == (if seed == 0 {
                ZERO_SEED_REPLACEMENT
            } else {
                seed
            }),
            rng.spec_state() != 0,
    {
        IdleRng { state: if seed == 0 { ZERO_SEED_REPLACEMENT } else { seed } }
    }

    /// Advances the generator and returns its new state.
    pub fn next_u32(&mut self) -> (value: u32)
        ensures
            value == spec_xorshift(old(self).spec_state()),
            final(self).spec_state() == value,
            old(self).spec_state() != 0 ==> value != 0,
    {
        let mut value = self.state;
        value ^= value << 13u32;
        value ^= value >> 17u32;
        value ^= value << 5u32;
        self.state = value;
        proof {
            lemma_xorshift_keeps_nonzero(old(self).state);
        }
        value
    }

    /// The ear that twitches next: the left one when the next value is even.
    pub fn next_ear_twitch_action(&mut self) -> (action: BodyAction)
        ensures
            final(self).spec_state() == spec_xorshift(old(self).spec_state()),
            action == (if spec_xorshift(old(self).spec_state()) & 1u32 == 0 {
                BodyAction::EarTwitchLeft
            } else {
                BodyAction::EarTwitchRight
            }),
    {
        if self.next_u32() & 1 == 0 {
            BodyAction::EarTwitchLeft
        } else {
            BodyAction::EarTwitchRight
        }
    }
}

/// A xorshift step never maps a non-zero state to zero, so a generator
/// started from any seed keeps producing values.
pub proof fn lemma_xorshift_keeps_nonzero(value: u32)
    ensures
        value != 0 ==> spec_xorshift(value) != 0,
{
    let a = value ^ (value << 13u32);
    let b = a ^ (a >> 17u32);
    assert(value != 0 ==> a != 0) by (bit_vector)
        requires
            a == value ^ (value << 13u32),
    ;
    assert(a != 0 ==> b != 0) by (bit_vector)
        requires
            b == a ^ (a >> 17u32),
    ;
    assert(b != 0 ==> b ^ (b << 5u32) != 0) by (bit_vector);
}

/// The phases of a blink: waiting for the next one, eyes closed, or the
/// open gap of a double blink.
#[derive(Debug, Clone, Copy, PartialEq, Eq, Structural)]
pub enum BlinkPhase {
    Waiting,
    Closed,
    DoubleBlinkGap,
}

/// What a blink tick reports: a blink started (and whether a second one
/// will follow), or the second blink of a double blink started.
#[derive(Debug, Clone, Copy, PartialEq, Eq, Structural)]
pub enum BlinkEvent {
    Started { double: bool },
    DoubleBlinkStarted,
}

/// A blink step when the current phase's timer runs out: the next phase,
/// whether a second blink is still pending, and what to report. Waiting
/// closes the eyes and starts a blink (a double one when `double_roll`);
/// closing ends either in the open gap of a pending double blink or in
/// waiting for the next blink; the gap closes the eyes again for the second
/// blink, after which nothing is pending.
pub open spec fn spec_blink_transition(
    phase: BlinkPhase,
    double_pending: bool,
    double_roll: bool,
) -> (BlinkPhase, bool, Option<BlinkEvent>) {
    match phase {
        BlinkPhase::Waiting => (
            BlinkPhase::Closed,
            double_roll,
            Some(BlinkEvent::Started { double: double_roll }),
        ),
        BlinkPhase::Closed => if double_pending {
            (BlinkPhase::DoubleBlinkGap, double_pending, None)
        } else {
            (BlinkPhase::Waiting, double_pending, None)
        },
        BlinkPhase::DoubleBlinkGap => (
            BlinkPhase::Closed,
            false,
            Some(BlinkEvent::DoubleBlinkStarted),
        ),
    }
}

/// The blink step at the end of a phase; see `spec_blink_transition`.
pub fn blink_transition(phase: BlinkPhase, double_pending: bool, double_roll: bool) -> (step: (
    BlinkPhase,
    bool,
    Option<BlinkEvent>,
))
    ensures
        step == spec_blink_transition(phase, double_pending, double_roll),
{
    match phase {
        BlinkPhase::Waiting => (
            BlinkPhase::Closed,
            double_roll,
            Some(BlinkEvent::Started { double: double_roll }),
        ),
        BlinkPhase::Closed => if double_pending {
            (BlinkPhase::DoubleBlinkGap, double_pending, None)
        } else {
            (BlinkPhase::Waiting, double_pending, None)
        },
        BlinkPhase::DoubleBlinkGap => (
            BlinkPhase::Closed,
            false,
            Some(BlinkEvent::DoubleBlinkStarted),
        ),
    }
}

/// A double blink has an open gap between two closed phases and then goes
/// back to waiting; a single blink goes straight back to waiting. Either
/// way a blink never chains into a third closing.
pub proof fn lemma_blinks_end_in_waiting(double_roll: bool, roll_after: bool)
    ensures
        ({
            let (p1, d1, e1) = spec_blink_transition(BlinkPhase::Waiting, false, double_roll);
            let (p2, d2, _) = spec_blink_transition(p1, d1, roll_after);
            &&& p1 == BlinkPhase::Closed
            &&& e1 == Some(BlinkEvent::Started { double: double_roll })
            &&& !double_roll ==> p2 == BlinkPhase::Waiting
            &&& double_roll ==> {
                let (p3, d3, e3) = spec_blink_transition(p2, d2, roll_after);
                let (p4, _, _) = spec_blink_transition(p3, d3, roll_after);
                &&& p2 == BlinkPhase::DoubleBlinkGap
                &&& p3 == BlinkPhase::Closed
                &&& e3 == Some(BlinkEvent::DoubleBlinkStarted)
                &&& p4 == BlinkPhase::Waiting
            }
        }),
{
}

} // verus!
