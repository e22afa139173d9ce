use vstd::prelude::*;

use crate::desktop::eyes::EyeDirection;
use crate::desktop::visual::{AttentionBodyFrame, AttentionReaction};

verus! {

/// The phases of the shy reaction to a pointer that comes very near.
#[derive(Debug, Clone, Copy, PartialEq, Eq, Structural, Default)]
pub enum ReactionPhase {
    #[default]
    Idle,
    Anticipating,
    Recoiling,
    Recovering,
}

impl ReactionPhase {
    /// The phase that follows when this one has run its course:
    /// anticipation, recoil, recovery, then back to idle; idle stays idle.
    pub open spec fn spec_following(self) -> ReactionPhase {
        match self {
            ReactionPhase::Idle => ReactionPhase::Idle,
            ReactionPhase::Anticipating => ReactionPhase::Recoiling,
            ReactionPhase::Recoiling => ReactionPhase::Recovering,
            ReactionPhase::Recovering => ReactionPhase::Idle,
        }
    }

    /// The phase after this one; see `spec_following`.
    pub fn following(self) -> (next: ReactionPhase)
        ensures
            next == self.spec_following(),
    {
        match self {
            ReactionPhase::Idle => ReactionPhase::Idle,
            ReactionPhase::Anticipating => ReactionPhase::Recoiling,
            ReactionPhase::Recoiling => ReactionPhase::Recovering,
            ReactionPhase::Recovering => ReactionPhase::Idle,
        }
    }

    /// The body shows the very near reaction while recoiling and
    /// recovering, not while anticipating.
    pub open spec fn spec_reaction(self) -> AttentionReaction {
        match self {
            ReactionPhase::Recoiling | ReactionPhase::Recovering => AttentionReaction::VeryNear,
            _ => AttentionReaction::Calm,
        }
    }

    /// The reaction the body shows in this phase; see `spec_reaction`.
    pub fn reaction(self) -> (reaction: AttentionReaction)
        ensures
            reaction == self.spec_reaction(),
    {
        match self {
            ReactionPhase::Recoiling | ReactionPhase::Recovering => AttentionReaction::VeryNear,
            _ => AttentionReaction::Calm,
        }
    }
}

/// A started reaction ends: three phase ends after the start the bat is
/// idle again, having shown the reaction in between.
pub proof fn lemma_reaction_runs_its_course()
    ensures
        ReactionPhase::Anticipating.spec_following().spec_following().spec_following()
            == ReactionPhase::Idle,
        ReactionPhase::Anticipating.spec_following().spec_reaction()
            == AttentionReaction::VeryNear,
        ReactionPhase::Idle.spec_following() == ReactionPhase::Idle,
        ReactionPhase::Idle.spec_reaction() == AttentionReaction::Calm,
{
}

/// The body pose of close attention towards `direction`: turned left for
/// the three leftward directions, right for the three rightward ones, and
/// attentive straight ahead otherwise.
pub open spec fn spec_attention_side(direction: EyeDirection) -> AttentionBodyFrame {
    match direction {
        EyeDirection::Left | EyeDirection::UpLeft | EyeDirection::DownLeft => AttentionBodyFrame::Left,
        EyeDirection::Right | EyeDirection::UpRight | EyeDirection::DownRight => AttentionBodyFrame::Right,
        EyeDirection::Center | EyeDirection::Up | EyeDirection::Down => AttentionBodyFrame::Attentive,
    }
}

/// The body pose of close attention; see `spec_attention_side`.
pub fn attention_side(direction: EyeDirection) -> (frame: AttentionBodyFrame)
    ensures
        frame == spec_attention_side(direction),
{
    match direction {
        EyeDirection::Left | EyeDirection::UpLeft | EyeDirection::DownLeft => AttentionBodyFrame::Left,
        EyeDirection::Right | EyeDirection::UpRight | EyeDirection::DownRight => AttentionBodyFrame::Right,
        EyeDirection::Center | EyeDirection::Up | EyeDirection::Down => AttentionBodyFrame::Attentive,
    }
}

/// The phases of a spontaneous idle glance.
#[derive(Debug, Clone, Copy, PartialEq, Eq, Structural, Default)]
pub enum IdleGazePhase {
    #[default]
    Resting,
    Looking,
    Returning,
}

/// What an idle glance does on a tick: nothing, start looking away, start
/// returning to the centre, or end back at rest.
#[derive(Debug, Clone, Copy, PartialEq, Eq, Structural)]
pub enum IdleGazeStep {
    Stay,
    Start,
    BeginReturn,
    Finish,
}

/// The phase after a step: a start looks away, a return returns, a finish
/// rests, and staying keeps the phase.
pub open spec fn spec_idle_gaze_after(phase: IdleGazePhase, step: IdleGazeStep) -> IdleGazePhase {
    match step {
        IdleGazeStep::Stay => phase,
        IdleGazeStep::Start => IdleGazePhase::Looking,
        IdleGazeStep::BeginReturn => IdleGazePhase::Returning,
        IdleGazeStep::Finish => IdleGazePhase::Resting,
    }
}

/// The phase after a step; see `spec_idle_gaze_after`.
pub fn idle_gaze_after(phase: IdleGazePhase, step: IdleGazeStep) -> (next: IdleGazePhase)
    ensures
        next == spec_idle_gaze_after(phase, step),
{
    match step {
        IdleGazeStep::Stay => phase,
        IdleGazeStep::Start => IdleGazePhase::Looking,
        IdleGazeStep::BeginReturn => IdleGazePhase::Returning,
        IdleGazeStep::Finish => IdleGazePhase::Resting,
    }
}

/// First part of a tick: when the pointer draws attention (`distracted`),
/// a glance that is looking away starts returning at once.
pub open spec fn spec_idle_gaze_interruption(phase: IdleGazePhase, distracted: bool) -> IdleGazeStep {
    if distracted && phase == IdleGazePhase::Looking {
        IdleGazeStep::BeginReturn
    } else {
        IdleGazeStep::Stay
    }
}

/// The interruption of a glance; see `spec_idle_gaze_interruption`.
pub fn idle_gaze_interruption(phase: IdleGazePhase, distracted: bool) -> (step: IdleGazeStep)
    ensures
        step == spec_idle_gaze_interruption(phase, distracted),
{
    if distracted && phase == IdleGazePhase::Looking {
        IdleGazeStep::BeginReturn
    } else {
        IdleGazeStep::Stay
    }
}

/// Second part of a tick, on the phase after the interruption: at rest a
/// glance starts when the bat is not distracted and the scheduler allowed
/// it (`allowed`); looking away turns into returning when its time is up
/// (`time_up`); returning ends at rest when its time is up.
pub open spec fn spec_idle_gaze_advance(
    phase: IdleGazePhase,
    distracted: bool,
    allowed: bool,
    time_up: bool,
) -> IdleGazeStep {
    match phase {
        IdleGazePhase::Resting => if !distracted && allowed {
            IdleGazeStep::Start
        } else {
            IdleGazeStep::Stay
        },
        IdleGazePhase::Looking => if time_up {
            IdleGazeStep::BeginReturn
        } else {
            IdleGazeStep::Stay
        },
        IdleGazePhase::Returning => if time_up {
            IdleGazeStep::Finish
        } else {
            IdleGazeStep::Stay
        },
    }
}

/// The advance of a glance; see `spec_idle_gaze_advance`.
pub fn idle_gaze_advance(phase: IdleGazePhase, distracted: bool, allowed: bool, time_up: bool) -> (step:
    IdleGazeStep)
    ensures
        step == spec_idle_gaze_advance(phase, distracted, allowed, time_up),
{
    match phase {
        IdleGazePhase::Resting => if !distracted && allowed {
            IdleGazeStep::Start
        } else {
            IdleGazeStep::Stay
        },
        IdleGazePhase::Looking => if time_up {
            IdleGazeStep::BeginReturn
        } else {
            IdleGazeStep::Stay
        },
        IdleGazePhase::Returning => if time_up {
            IdleGazeStep::Finish
        } else {
            IdleGazeStep::Stay
        },
    }
}

/// Only attention interrupts a glance: when the bat is not distracted the
/// interruption keeps every phase as it is, and when it is distracted only a
/// glance that is looking away is sent back.
pub proof fn lemma_only_attention_interrupts_a_glance(phase: IdleGazePhase, distracted: bool)
    ensures
        !distracted ==> spec_idle_gaze_interruption(phase, distracted) == IdleGazeStep::Stay,
        distracted ==> (spec_idle_gaze_interruption(phase, distracted) == IdleGazeStep::BeginReturn
            <==> phase == IdleGazePhase::Looking),
        spec_idle_gaze_interruption(phase, distracted) == IdleGazeStep::Stay
            || spec_idle_gaze_interruption(phase, distracted) == IdleGazeStep::BeginReturn,
{
}

/// The phase that follows in the cycle of a glance: rest, looking away,
/// returning, rest.
pub open spec fn spec_next_gaze_phase(phase: IdleGazePhase) -> IdleGazePhase {
    match phase {
        IdleGazePhase::Resting => IdleGazePhase::Looking,
        IdleGazePhase::Looking => IdleGazePhase::Returning,
        IdleGazePhase::Returning => IdleGazePhase::Resting,
    }
}

/// A glance keeps to its cycle: each part of a tick either keeps the phase
/// or moves it one place along rest, looking, returning, rest, so a glance
/// that looked away always returns before it rests; an interruption only
/// ever turns looking into returning; and a distracted bat never starts a
/// glance.
pub proof fn lemma_glances_keep_to_their_cycle(
    phase: IdleGazePhase,
    distracted: bool,
    allowed: bool,
    time_up: bool,
)
    ensures
        ({
            let after = spec_idle_gaze_after(phase, spec_idle_gaze_interruption(phase, distracted));
            after == phase || (phase == IdleGazePhase::Looking && after
                == IdleGazePhase::Returning)
        }),
        ({
            let after = spec_idle_gaze_after(
                phase,
                spec_idle_gaze_advance(phase, distracted, allowed, time_up),
            );
            after == phase || after == spec_next_gaze_phase(phase)
        }),
        distracted ==> spec_idle_gaze_advance(phase, distracted, allowed, time_up)
            != IdleGazeStep::Start,
{
}

} // verus!
