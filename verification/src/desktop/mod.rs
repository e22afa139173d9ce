//! The windowed companion: its states and their transitions, the poses that
//! the rig draws, the idle generator and the window placement. The
//! continuous motion (steering, smoothing, timers) works on floating-point
//! values and is kept by the program around the library.
pub mod acting;
pub mod components;
pub mod debug;
pub mod eyes;
pub mod flight;
pub mod idle;
pub mod rendering;
pub mod rig;
pub mod state;
pub mod visual;
pub mod window;
