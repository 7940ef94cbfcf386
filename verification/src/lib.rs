//! A punchcard of commit activity: a 7x24 grid of saturating counters, one
//! per weekday and hour, and its rendering as a bordered, shaded text box.

pub mod clock;
pub mod grid;
pub mod laws;
pub mod paint;
pub mod render;
pub mod shade;
pub mod source;
