//! Drawing the terminal sprite.
pub mod pixel;
pub mod pixel_art;
pub mod status;
