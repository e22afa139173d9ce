//! The terminal companion.
pub mod animation;
pub mod app;
pub mod bat;
pub mod eyes;
pub mod render;
