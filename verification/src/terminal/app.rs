use vstd::prelude::*;

use crate::terminal::animation::{advanced_to, AnimationFrame, WingAnimation};
use crate::terminal::bat::{Bat, Position};
use crate::terminal::eyes::{direction_defined, spec_direction_for, Eyes};
use crate::terminal::render::pixel_art::HANGING_IDLE_EYE_CENTER;

verus! {

/// The key of a key event, as far as the companion cares.
#[derive(Debug, Clone, Copy, PartialEq, Eq, Structural)]
pub enum KeyInput {
    Char(char),
    Other,
}

/// What the terminal reports: a key, the pointer, a new size, or anything
/// else.
#[derive(Debug, Clone, Copy, PartialEq, Eq, Structural)]
pub enum InputEvent {
    /// `pressed` is false for key releases and repeats; `control` tells
    /// whether the Control modifier was held.
    Key { key: KeyInput, pressed: bool, control: bool },
    Mouse(Position),
    Resize(u16, u16),
    Other,
}

/// A key event quits when it is a press of `q` or `Q`, or of `c` or `C`
/// with Control held.
pub open spec fn spec_is_quit(event: InputEvent) -> bool {
    match event {
        InputEvent::Key { key, pressed, control } => pressed && match key {
            KeyInput::Char(c) => c == 'q' || c == 'Q' || (control && (c == 'c' || c == 'C')),
            KeyInput::Other => false,
        },
        _ => false,
    }
}

/// Where the bat hangs in a terminal `width` cells wide: horizontally
/// centred, at the row of the sprite's eye centre.
pub open spec fn spec_home_position(width: u16) -> Position {
    Position { x: (width / 2) as u16, y: HANGING_IDLE_EYE_CENTER.1 as u16 }
}

fn home_position(width: u16) -> (position: Position)
    ensures
        position == spec_home_position(width),
{
    Position { x: width / 2, y: HANGING_IDLE_EYE_CENTER.1 as u16 }
}

fn is_quit(event: InputEvent) -> (quit: bool)
    ensures
        quit == spec_is_quit(event),
{
    match event {
        InputEvent::Key { key, pressed, control } => {
            if !pressed {
                return false;
            }
            match key {
                KeyInput::Char(c) => c == 'q' || c == 'Q' || (control && (c == 'c' || c == 'C')),
                KeyInput::Other => false,
            }
        },
        _ => false,
    }
}

/// The terminal companion's state: the terminal size, whether the user asked
/// to quit, the bat, its wing cycle and where its eyes aim.
pub struct App {
    width: u16,
    height: u16,
    should_quit: bool,
    bat: Bat,
    wing_animation: WingAnimation,
    eyes: Eyes,
}

impl App {
    pub closed spec fn spec_size(&self) -> (u16, u16) {
        (self.width, self.height)
    }

    pub closed spec fn spec_should_quit(&self) -> bool {
        self.should_quit
    }

    pub closed spec fn spec_bat(&self) -> Bat {
        self.bat
    }

    pub closed spec fn spec_wing_animation(&self) -> WingAnimation {
        self.wing_animation
    }

    pub closed spec fn spec_eyes(&self) -> Eyes {
        self.eyes
    }

    /// The wing cycle is well formed and the bat's eyes can aim at any
    /// pointer the terminal can report.
    pub open spec fn well_formed(&self) -> bool {
        &&& self.spec_wing_animation().well_formed()
        &&& self.spec_eyes().spec_center_radius() == crate::terminal::eyes::DEFAULT_CENTER_RADIUS
    }

    /// A companion for a `width`×`height` terminal: the bat hangs at its home
    /// position, idle, with open wings and eyes ahead.
    pub fn new(width: u16, height: u16) -> (app: Self)
        ensures
            app.well_formed(),
            app.spec_size() == (width, height),
            !app.spec_should_quit(),
            app.spec_bat() == Bat::spec_new(spec_home_position(width)),
            app.spec_wing_animation().frame_step() == 0,
            app.spec_eyes().spec_target_direction() == crate::terminal::bat::EyeDirection::Center,
    {
        let home = home_position(width);
        App {
            width,
            height,
            should_quit: false,
            bat: Bat::new(home.x, home.y),
            wing_animation: WingAnimation::new(),
            eyes: Eyes::new(),
        }
    }

    pub fn should_quit(&self) -> (quit: bool)
        ensures
            quit == self.spec_should_quit(),
    {
        self.should_quit
    }

    pub fn bat(&self) -> (bat: &Bat)
        ensures
            *bat == self.spec_bat(),
    {
        &self.bat
    }

    pub fn terminal_size(&self) -> (size: (u16, u16))
        ensures
            size == self.spec_size(),
    {
        (self.width, self.height)
    }

    /// The logical wing frame currently shown.
    pub fn animation_frame(&self) -> (frame: AnimationFrame)
        requires
            self.well_formed(),
        ensures
            frame == AnimationFrame::spec_from_index(self.spec_wing_animation().frame_step()),
    {
        self.wing_animation.current_animation_frame()
    }

    /// The cell offset the pupils slide towards.
    pub fn eye_target(&self) -> (offset: (i32, i32))
        ensures
            (offset.0 as int, offset.1 as int)
                == crate::terminal::eyes::spec_offset_for_direction(
                self.spec_eyes().spec_target_direction(),
            ),
    {
        self.eyes.target_offset()
    }

    /// One tick of the main loop: the eyes aim at the last pointer position
    /// and the wings catch up with the clock. The result says whether the
    /// eye direction, the eye target, the wing position or the logical frame
    /// changed.
    pub fn update(&mut self) -> (changed: bool)
        requires
            old(self).well_formed(),
            direction_defined(
                old(self).spec_eyes().spec_center_radius(),
                old(self).spec_bat().position,
                old(self).spec_bat().mouse_position,
            ),
        ensures
            final(self).well_formed(),
            final(self).spec_size() == old(self).spec_size(),
            final(self).spec_should_quit() == old(self).spec_should_quit(),
            final(self).spec_bat().position == old(self).spec_bat().position,
            final(self).spec_bat().mouse_position == old(self).spec_bat().mouse_position,
            final(self).spec_bat().state == old(self).spec_bat().state,
            final(self).spec_bat().eye_direction == spec_direction_for(
                old(self).spec_eyes().spec_center_radius(),
                old(self).spec_bat().position,
                old(self).spec_bat().mouse_position,
            ),
            final(self).spec_eyes().spec_target_direction() == final(self).spec_bat().eye_direction,
            ({
                let (b0, b1) = (old(self).spec_bat(), final(self).spec_bat());
                let (e0, e1) = (old(self).spec_eyes(), final(self).spec_eyes());
                let (w0, w1) = (old(self).spec_wing_animation(), final(self).spec_wing_animation());
                changed == (b0.eye_direction != b1.eye_direction || e0.spec_target_direction()
                    != e1.spec_target_direction() || w0.frame_step() != w1.frame_step()
                    || b0.wing_frame != b1.wing_frame)
            }),
            exists|now: u128|
                advanced_to(
                    old(self).spec_wing_animation(),
                    final(self).spec_wing_animation(),
                    old(self).spec_bat().wing_frame,
                    final(self).spec_bat().wing_frame,
                    now,
                ),
    {
        let eyes_changed = self.eyes.update(&mut self.bat);
        let previous_frame = self.wing_animation.current_animation_frame();
        let wings_changed = self.wing_animation.update(&mut self.bat);
        let current_frame = self.wing_animation.current_animation_frame();
        let frame_changed = previous_frame != current_frame;
        eyes_changed || wings_changed || frame_changed
    }

    /// Reacts to one terminal event: a quit key asks to quit, the pointer
    /// moves the bat's gaze, a resize moves the bat to its new home
    /// position; anything else is ignored.
    pub fn handle_event(&mut self, event: InputEvent)
        requires
            old(self).well_formed(),
            event matches InputEvent::Mouse(p) ==> direction_defined(
                old(self).spec_eyes().spec_center_radius(),
                old(self).spec_bat().position,
                Some(p),
            ),
        ensures
            final(self).well_formed(),
            final(self).spec_wing_animation() == old(self).spec_wing_animation(),
            spec_is_quit(event) ==> {
                &&& final(self).spec_should_quit()
                &&& final(self).spec_size() == old(self).spec_size()
                &&& final(self).spec_bat() == old(self).spec_bat()
                &&& final(self).spec_eyes() == old(self).spec_eyes()
            },
            (event matches InputEvent::Mouse(p) ==> {
                let next = spec_direction_for(
                    old(self).spec_eyes().spec_center_radius(),
                    old(self).spec_bat().position,
                    Some(p),
                );
                &&& final(self).spec_should_quit() == old(self).spec_should_quit()
                &&& final(self).spec_size() == old(self).spec_size()
                &&& final(self).spec_bat() == (Bat {
                    mouse_position: Some(p),
                    eye_direction: next,
                    ..old(self).spec_bat()
                })
                &&& final(self).spec_eyes().spec_center_radius() == old(self).spec_eyes().spec_center_radius()
                &&& final(self).spec_eyes().spec_target_direction() == next
            }),
            (event matches InputEvent::Resize(width, height) ==> {
                &&& final(self).spec_should_quit() == old(self).spec_should_quit()
                &&& final(self).spec_size() == (width, height)
                &&& final(self).spec_bat() == (Bat {
                    position: spec_home_position(width),
                    ..old(self).spec_bat()
                })
                &&& final(self).spec_eyes() == old(self).spec_eyes()
            }),
            (!spec_is_quit(event) && !(event is Mouse) && !(event is Resize)) ==> {
                &&& final(self).spec_should_quit() == old(self).spec_should_quit()
                &&& final(self).spec_size() == old(self).spec_size()
                &&& final(self).spec_bat() == old(self).spec_bat()
                &&& final(self).spec_eyes() == old(self).spec_eyes()
            },
    {
        if is_quit(event) {
            self.should_quit = true;
            return ;
        }
        match event {
            InputEvent::Mouse(position) => {
                self.bat.set_mouse_position(position);
                let _ = self.eyes.update(&mut self.bat);
            },
            InputEvent::Resize(width, height) => {
                self.width = width;
                self.height = height;
                self.bat.set_position(home_position(width));
            },
            _ => {},
        }
    }
}

} // verus!
