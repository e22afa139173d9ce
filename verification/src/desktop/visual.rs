use vstd::prelude::*;

verus! {

/// The breathing layer of the body.
#[derive(Debug, Clone, Copy, PartialEq, Eq, Structural, Default)]
pub enum BaseBodyFrame {
    #[default]
    Neutral,
    BreatheIn,
    BreatheOut,
}

/// A short gesture of the body: a wing adjustment or an ear twitch.
#[derive(Debug, Clone, Copy, PartialEq, Eq, Structural)]
pub enum BodyAction {
    WingAdjust,
    EarTwitchLeft,
    EarTwitchRight,
}

impl BodyAction {
    pub open spec fn spec_label(self) -> &'static str {
        match self {
            BodyAction::WingAdjust => "wing-adjust",
            BodyAction::EarTwitchLeft => "left",
            BodyAction::EarTwitchRight => "right",
        }
    }

    /// The gesture's name in the log.
    pub fn label(self) -> (label: &'static str)
        ensures
            label == self.spec_label(),
    {
        match self {
            BodyAction::WingAdjust => "wing-adjust",
            BodyAction::EarTwitchLeft => "left",
            BodyAction::EarTwitchRight => "right",
        }
    }

    pub open spec fn spec_body_frame(self) -> BodyFrame {
        match self {
            BodyAction::WingAdjust => BodyFrame::WingAdjust,
            BodyAction::EarTwitchLeft => BodyFrame::EarTwitchLeft,
            BodyAction::EarTwitchRight => BodyFrame::EarTwitchRight,
        }
    }

    /// The body pose of the gesture.
    pub fn body_frame(self) -> (frame: BodyFrame)
        ensures
            frame == self.spec_body_frame(),
    {
        match self {
            BodyAction::WingAdjust => BodyFrame::WingAdjust,
            BodyAction::EarTwitchLeft => BodyFrame::EarTwitchLeft,
            BodyAction::EarTwitchRight => BodyFrame::EarTwitchRight,
        }
    }
}

/// The eyelids: open, half closed or closed.
#[derive(Debug, Clone, Copy, PartialEq, Eq, Structural, Default)]
pub enum FaceFrame {
    #[default]
    Open,
    BlinkHalf,
    BlinkClosed,
}

/// The body pose that attention asks for, if any.
#[derive(Debug, Clone, Copy, PartialEq, Eq, Structural, Default)]
pub enum AttentionBodyFrame {
    #[default]
    Relaxed,
    Attentive,
    Left,
    Right,
}

impl AttentionBodyFrame {
    pub open spec fn spec_body_frame(self) -> Option<BodyFrame> {
        match self {
            AttentionBodyFrame::Relaxed => None,
            AttentionBodyFrame::Attentive => Some(BodyFrame::Attentive),
            AttentionBodyFrame::Left => Some(BodyFrame::AttentionLeft),
            AttentionBodyFrame::Right => Some(BodyFrame::AttentionRight),
        }
    }

    /// The body pose of this attention, none when relaxed.
    pub fn body_frame(self) -> (frame: Option<BodyFrame>)
        ensures
            frame == self.spec_body_frame(),
    {
        match self {
            AttentionBodyFrame::Relaxed => None,
            AttentionBodyFrame::Attentive => Some(BodyFrame::Attentive),
            AttentionBodyFrame::Left => Some(BodyFrame::AttentionLeft),
            AttentionBodyFrame::Right => Some(BodyFrame::AttentionRight),
        }
    }
}

/// The reaction that attention triggered, if any (`Calm` when none).
#[derive(Debug, Clone, Copy, PartialEq, Eq, Structural, Default)]
pub enum AttentionReaction {
    #[default]
    Calm,
    VeryNear,
}

/// The body pose the rig draws.
#[derive(Debug, Clone, Copy, PartialEq, Eq, Structural, Default)]
pub enum BodyFrame {
    #[default]
    Neutral,
    BreatheIn,
    BreatheOut,
    WingAdjust,
    EarTwitchLeft,
    EarTwitchRight,
    AttentionLeft,
    AttentionRight,
    Attentive,
    VeryNear,
}

impl BaseBodyFrame {
    pub open spec fn spec_body_frame(self) -> BodyFrame {
        match self {
            BaseBodyFrame::Neutral => BodyFrame::Neutral,
            BaseBodyFrame::BreatheIn => BodyFrame::BreatheIn,
            BaseBodyFrame::BreatheOut => BodyFrame::BreatheOut,
        }
    }

    /// The body pose of this breathing phase.
    pub fn body_frame(self) -> (frame: BodyFrame)
        ensures
            frame == self.spec_body_frame(),
    {
        match self {
            BaseBodyFrame::Neutral => BodyFrame::Neutral,
            BaseBodyFrame::BreatheIn => BodyFrame::BreatheIn,
            BaseBodyFrame::BreatheOut => BodyFrame::BreatheOut,
        }
    }
}

/// The body pose drawn for the layered intents of an animation: the very
/// near reaction first, then any attention pose, then a gesture, and the
/// breathing phase underneath.
pub open spec fn spec_effective_body(
    base_body: BaseBodyFrame,
    body_action: Option<BodyAction>,
    attention_frame: AttentionBodyFrame,
    reaction: AttentionReaction,
) -> BodyFrame {
    if reaction == AttentionReaction::VeryNear {
        BodyFrame::VeryNear
    } else if let Some(frame) = attention_frame.spec_body_frame() {
        frame
    } else if let Some(action) = body_action {
        action.spec_body_frame()
    } else {
        base_body.spec_body_frame()
    }
}

/// The body pose of an animation intent (its breathing phase, gesture,
/// attention pose and reaction); see `spec_effective_body`.
pub fn effective_body(
    base_body: BaseBodyFrame,
    body_action: Option<BodyAction>,
    attention_frame: AttentionBodyFrame,
    reaction: AttentionReaction,
) -> (frame: BodyFrame)
    ensures
        frame == spec_effective_body(base_body, body_action, attention_frame, reaction),
{
    if let AttentionReaction::VeryNear = reaction {
        return BodyFrame::VeryNear;
    }
    if let Some(attention_frame) = attention_frame.body_frame() {
        return attention_frame;
    }
    match body_action {
        Some(action) => action.body_frame(),
        None => base_body.body_frame(),
    }
}

/// The layers are ordered: a very near reaction hides everything else, an
/// attention pose hides gestures and breathing, and a gesture hides the
/// breathing; a relaxed bat without gesture shows its breathing.
pub proof fn lemma_body_layers_are_ordered(
    base_body: BaseBodyFrame,
    body_action: Option<BodyAction>,
    attention_frame: AttentionBodyFrame,
    reaction: AttentionReaction,
)
    ensures
        reaction == AttentionReaction::VeryNear ==> spec_effective_body(
            base_body,
            body_action,
            attention_frame,
            reaction,
        ) == BodyFrame::VeryNear,
        reaction == AttentionReaction::Calm && attention_frame != AttentionBodyFrame::Relaxed
            ==> spec_effective_body(base_body, body_action, attention_frame, reaction) == attention_frame.spec_body_frame().unwrap(),
        reaction == AttentionReaction::Calm && attention_frame == AttentionBodyFrame::Relaxed
            && body_action is Some ==> spec_effective_body(
            base_body,
            body_action,
            attention_frame,
            reaction,
        ) == body_action.unwrap().spec_body_frame(),
        reaction == AttentionReaction::Calm && attention_frame == AttentionBodyFrame::Relaxed
            && body_action is None ==> spec_effective_body(
            base_body,
            body_action,
            attention_frame,
            reaction,
        ) == base_body.spec_body_frame(),
{
}

} // verus!
