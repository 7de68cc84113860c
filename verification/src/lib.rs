//! Chooses a desktop wallpaper by the position of the sun.
//!
//! The sun's altitude is classified into one of eight light states, from
//! astronomical dawn through day to night. Each configured wallpaper
//! carries a condition: a set of light states, ranges of altitude for the
//! morning and for the evening, both, or "any" as a fallback. The first
//! wallpaper whose condition is met is chosen, and the fallback where none
//! is.
//!
//! All angles are whole numbers of microdegrees.

pub mod angle;
pub mod config;
pub mod during;
pub mod error;
pub mod light;
pub mod position;
pub mod text;
