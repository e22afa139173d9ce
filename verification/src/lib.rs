//! BatPet: a small pixel-art bat that hangs at the top of a terminal or of a
//! desktop window, follows the pointer with its eyes and beats its wings.
//!
//! `terminal` holds the logic of the terminal companion (sprite, eye
//! direction, wing cycle and the drawing plan); `desktop` holds the discrete
//! part of the windowed companion (states, poses, the idle generator and the
//! window placement).
pub mod desktop;
pub mod terminal;
