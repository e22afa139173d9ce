use vstd::prelude::*;

use crate::terminal::bat::{Bat, WingFrame};

verus! {

/// The four logical frames of the wing cycle.
#[derive(Debug, Clone, Copy, PartialEq, Eq, Structural, Default)]
pub enum AnimationFrame {
    #[default]
    Flight00,
    Flight01,
    Flight02,
    Flight03,
}

impl AnimationFrame {
    /// The four frames in cycle order.
    pub const FLIGHT: [AnimationFrame; 4] = [
        AnimationFrame::Flight00,
        AnimationFrame::Flight01,
        AnimationFrame::Flight02,
        AnimationFrame::Flight03,
    ];

    /// Position of the frame in the cycle.
    pub open spec fn spec_index(self) -> nat {
        match self {
            AnimationFrame::Flight00 => 0,
            AnimationFrame::Flight01 => 1,
            AnimationFrame::Flight02 => 2,
            AnimationFrame::Flight03 => 3,
        }
    }

    /// The frame at position `index` of the cycle, which repeats every four.
    pub open spec fn spec_from_index(index: nat) -> AnimationFrame {
        if index % 4 == 0 {
            AnimationFrame::Flight00
        } else if index % 4 == 1 {
            AnimationFrame::Flight01
        } else if index % 4 == 2 {
            AnimationFrame::Flight02
        } else {
            AnimationFrame::Flight03
        }
    }

    /// Open, mid, closed, then mid again.
    pub open spec fn spec_wing_frame(self) -> WingFrame {
        match self {
            AnimationFrame::Flight00 => WingFrame::Open,
            AnimationFrame::Flight01 => WingFrame::Mid,
            AnimationFrame::Flight02 => WingFrame::Closed,
            AnimationFrame::Flight03 => WingFrame::Mid,
        }
    }

    pub open spec fn spec_label(self) -> &'static str {
        match self {
            AnimationFrame::Flight00 => "open",
            AnimationFrame::Flight01 => "mid",
            AnimationFrame::Flight02 => "closed",
            AnimationFrame::Flight03 => "mid",
        }
    }

    /// The frame at `index`, wrapping around the four-frame cycle.
    pub fn from_index(index: usize) -> (frame: Self)
        ensures
            frame == Self::spec_from_index(index as nat),
            frame.spec_index() == index % 4,
    {
        Self::FLIGHT[index % 4]
    }

    pub fn index(self) -> (index: usize)
        ensures
            index == self.spec_index(),
    {
        match self {
            AnimationFrame::Flight00 => 0,
            AnimationFrame::Flight01 => 1,
            AnimationFrame::Flight02 => 2,
            AnimationFrame::Flight03 => 3,
        }
    }

    /// The drawn wing position of this frame.
    pub fn wing_frame(self) -> (wing: WingFrame)
        ensures
            wing == self.spec_wing_frame(),
    {
        match self {
            AnimationFrame::Flight00 => WingFrame::Open,
            AnimationFrame::Flight01 | AnimationFrame::Flight03 => WingFrame::Mid,
            AnimationFrame::Flight02 => WingFrame::Closed,
        }
    }

    /// The frame's name as shown on the debug line.
    pub fn label(self) -> (label: &'static str)
        ensures
            label == self.spec_label(),
    {
        match self {
            AnimationFrame::Flight00 => "open",
            AnimationFrame::Flight01 | AnimationFrame::Flight03 => "mid",
            AnimationFrame::Flight02 => "closed",
        }
    }
}

/// The wing position at step `index` of the cycle.
pub open spec fn wing_frame_at(index: nat) -> WingFrame {
    AnimationFrame::spec_from_index(index).spec_wing_frame()
}

/// Wing frames per second.
pub const WING_FPS: u64 = 8;

/// How long each wing frame stays on screen, in milliseconds.
pub const WING_FRAME_MILLIS: u64 = 1000 / WING_FPS;

/// How long each wing frame stays on screen, in nanoseconds.
pub const WING_FRAME_NANOS: u128 = WING_FRAME_MILLIS as u128 * 1_000_000;

/// The wing position at step `index` (taken modulo four) of the cycle.
fn wing_frame_for_step(index: usize) -> (wing: WingFrame)
    ensures
        wing == wing_frame_at(index as nat),
{
    AnimationFrame::from_index(index).wing_frame()
}

#[verifier::external_type_specification]
#[verifier::external_body]
pub struct ExInstant(std::time::Instant);

/// Reads the monotonic clock: `std::time::Instant::now`. Nothing is promised
/// of the instant that comes back.
#[verifier::external_body]
fn clock_now() -> (now: std::time::Instant) {
    std::time::Instant::now()
}

/// The time since `origin` on the monotonic clock:
/// `std::time::Instant::elapsed`. What comes back depends on the time of the
/// call, so nothing is promised of it.
#[verifier::external_body]
fn time_since(origin: &std::time::Instant) -> (elapsed: std::time::Duration) {
    origin.elapsed()
}

/// A duration in whole nanoseconds: `std::time::Duration::as_nanos`. The
/// duration is opaque here, so nothing is promised of the count.
#[verifier::external_body]
fn whole_nanos(duration: std::time::Duration) -> (nanos: u128) {
    duration.as_nanos()
}

/// The wing cycle of the terminal companion. Time is counted in nanoseconds
/// since the animation was created; `last_update` is the instant up to which
/// whole frames have been consumed.
pub struct WingAnimation {
    frame_index: usize,
    last_update: u128,
    origin: std::time::Instant,
}

/// Whole frames between `last` and `now`; none when `now` lies before `last`.
pub open spec fn elapsed_frames(last: int, now: int) -> int {
    if now >= last {
        (now - last) / (WING_FRAME_NANOS as int)
    } else {
        0
    }
}

/// One catch-up of the cycle to `now`: the cycle moves by the whole frames
/// elapsed since the last consumed instant, which advances by as many frame
/// durations; when at least one frame passed the bat shows the wing position
/// of the new step, otherwise its wings stay as they were.
pub open spec fn advanced_to(
    before: WingAnimation,
    after: WingAnimation,
    wing_before: WingFrame,
    wing_after: WingFrame,
    now: u128,
) -> bool {
    let k = elapsed_frames(before.consumed_until(), now as int);
    &&& (after.frame_step(), after.consumed_until()) == caught_up(
        before.frame_step(),
        before.consumed_until(),
        now as int,
    )
    &&& wing_after == (if k == 0 {
        wing_before
    } else {
        wing_frame_at(after.frame_step())
    })
}

impl WingAnimation {
    pub closed spec fn frame_step(&self) -> nat {
        self.frame_index as nat
    }

    pub closed spec fn consumed_until(&self) -> int {
        self.last_update as int
    }

    /// The instant the cycle's clock was started; time is measured from it.
    pub closed spec fn spec_origin(&self) -> std::time::Instant {
        self.origin
    }

    /// The step of the cycle is always one of the four frames.
    pub open spec fn well_formed(&self) -> bool {
        self.frame_step() < 4
    }

    /// A new cycle, on the open-wing frame, whose clock starts now.
    pub fn new() -> (animation: Self)
        ensures
            animation.well_formed(),
            animation.frame_step() == 0,
            animation.consumed_until() == 0,
    {
        WingAnimation { frame_index: 0, last_update: 0, origin: clock_now() }
    }

    /// The wing position currently shown.
    pub fn current_frame(&self) -> (wing: WingFrame)
        requires
            self.well_formed(),
        ensures
            wing == wing_frame_at(self.frame_step()),
    {
        wing_frame_for_step(self.frame_index)
    }

    /// The logical frame currently shown.
    pub fn current_animation_frame(&self) -> (frame: AnimationFrame)
        requires
            self.well_formed(),
        ensures
            frame == AnimationFrame::spec_from_index(self.frame_step()),
            frame.spec_index() == self.frame_step(),
    {
        AnimationFrame::from_index(self.frame_index)
    }

    /// Advances the cycle to the present moment and shows the new wing
    /// position on `bat`; see `update_at`.
    pub fn update(&mut self, bat: &mut Bat) -> (changed: bool)
        requires
            old(self).well_formed(),
        ensures
            final(self).well_formed(),
            final(self).spec_origin() == old(self).spec_origin(),
            exists|now: u128|
                {
                    &&& advanced_to(
                        *old(self),
                        *final(self),
                        old(bat).wing_frame,
                        final(bat).wing_frame,
                        now,
                    )
                    &&& changed == (elapsed_frames(old(self).consumed_until(), now as int) > 0
                        && old(bat).wing_frame != final(bat).wing_frame)
                },
            *final(bat) == (Bat { wing_frame: final(bat).wing_frame, ..*old(bat) }),
    {
        let now = whole_nanos(time_since(&self.origin));
        self.update_at(now, bat)
    }

    /// Advances the cycle to `now` (nanoseconds since the animation was
    /// created). Every whole frame duration since the last consumed instant
    /// moves the cycle one step, so a slow caller catches up; the remainder
    /// is kept for the next call. When no whole frame has passed nothing
    /// changes. Otherwise the bat shows the new wing position, and the result
    /// says whether that differs from what it showed before.
    pub fn update_at(&mut self, now: u128, bat: &mut Bat) -> (changed: bool)
        requires
            old(self).well_formed(),
        ensures
            final(self).well_formed(),
            final(self).spec_origin() == old(self).spec_origin(),
            advanced_to(*old(self), *final(self), old(bat).wing_frame, final(bat).wing_frame, now),
            *final(bat) == (Bat { wing_frame: final(bat).wing_frame, ..*old(bat) }),
            changed == (elapsed_frames(old(self).consumed_until(), now as int) > 0
                && old(bat).wing_frame != final(bat).wing_frame),
    {
        let elapsed: u128 = if now >= self.last_update {
            now - self.last_update
        } else {
            0
        };
        let frames: u128 = elapsed / WING_FRAME_NANOS;
        if frames == 0 {
            proof {
                vstd::arithmetic::div_mod::lemma_small_mod(self.frame_index as nat, 4);
            }
            return false;
        }
        assert(frames * WING_FRAME_NANOS <= elapsed) by (nonlinear_arith)
            requires
                frames == elapsed / WING_FRAME_NANOS,
        ;
        let step: usize = (frames % 4) as usize;
        self.frame_index = (self.frame_index + step) % 4;
        proof {
            vstd::arithmetic::div_mod::lemma_add_mod_noop_right(
                old(self).frame_index as int,
                frames as int,
                4,
            );
            vstd::arithmetic::div_mod::lemma_small_mod(old(self).frame_index as nat, 4);
        }
        self.last_update = self.last_update + frames * WING_FRAME_NANOS;
        let next_frame = wing_frame_for_step(self.frame_index);
        let changed = bat.wing_frame != next_frame;
        bat.wing_frame = next_frame;
        changed
    }
}

impl Default for WingAnimation {
    /// The same as `new`: a cycle on the open-wing frame whose clock starts
    /// now.
    fn default() -> (animation: Self)
        ensures
            animation.well_formed(),
            animation.frame_step() == 0,
            animation.consumed_until() == 0,
    {
        Self::new()
    }
}

/// Where the cycle stands after catching up to `now` from frame step `step`
/// with frames consumed until `consumed`: the pair (step, consumed instant).
pub open spec fn caught_up(step: nat, consumed: int, now: int) -> (nat, int) {
    let k = elapsed_frames(consumed, now);
    (((step + k) % 4) as nat, consumed + k * WING_FRAME_NANOS)
}

/// Reading a frame's position in the cycle and turning it back into a frame
/// gives the same frame; turning any index into a frame and reading its
/// position gives the index modulo four.
pub proof fn lemma_frame_index_round_trip(frame: AnimationFrame, index: nat)
    ensures
        AnimationFrame::spec_from_index(frame.spec_index()) == frame,
        AnimationFrame::spec_from_index(index).spec_index() == index % 4,
{
}

/// The wing position of the animation is the wing position of its logical
/// frame, and the two mid frames show the same wings.
pub proof fn lemma_wing_frame_follows_animation_frame(step: nat)
    ensures
        wing_frame_at(step) == AnimationFrame::spec_from_index(step).spec_wing_frame(),
        AnimationFrame::Flight01.spec_wing_frame() == AnimationFrame::Flight03.spec_wing_frame(),
{
}

/// Catching up is independent of how often the main loop asks: updating at
/// `t1` and then at a later `t2` leaves the cycle exactly where a single
/// update at `t2` would.
pub proof fn lemma_catch_up_is_independent_of_polling(
    step: nat,
    consumed: int,
    t1: int,
    t2: int,
)
    requires
        step < 4,
        t1 <= t2,
    ensures
        ({
            let (s1, c1) = caught_up(step, consumed, t1);
            caught_up(s1, c1, t2)
        }) == caught_up(step, consumed, t2),
{
    let f = WING_FRAME_NANOS as int;
    let k1 = elapsed_frames(consumed, t1);
    let c1 = consumed + k1 * f;
    let s1 = ((step + k1) % 4) as nat;
    if t1 < consumed {
        assert(k1 == 0);
        assert(s1 == step) by {
            vstd::arithmetic::div_mod::lemma_small_mod(step, 4);
        }
    } else {
        let k = elapsed_frames(consumed, t2);
        assert(k1 >= 0);
        assert(k1 * f <= t1 - consumed) by (nonlinear_arith)
            requires
                k1 == (t1 - consumed) / f,
                f > 0,
                t1 - consumed >= 0,
        ;
        assert(t2 >= c1);
        let k2 = elapsed_frames(c1, t2);
        assert(k2 + k1 == k) by {
            vstd::arithmetic::div_mod::lemma_hoist_over_denominator(
                t2 - c1,
                k1,
                WING_FRAME_NANOS as nat,
            );
        }
        assert(((step + k1) % 4 + k2) % 4 == (step + k1 + k2) % 4) by {
            vstd::arithmetic::div_mod::lemma_add_mod_noop(step + k1, k2, 4);
            vstd::arithmetic::div_mod::lemma_mod_twice(step + k1, 4);
            vstd::arithmetic::div_mod::lemma_small_mod((k2 % 4) as nat, 4);
        }
        assert(k2 >= 0);
        assert(c1 + k2 * f == consumed + k * f) by (nonlinear_arith)
            requires
                c1 == consumed + k1 * f,
                k == k1 + k2,
        ;
    }
}

} // verus!
