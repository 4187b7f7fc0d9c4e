//! A verified calendar tile layout: a fixed-size tile grid holding a weekday
//! header row, a month-body fill and a background fill, each tile carrying a
//! texture atlas index and a tint.

pub mod grid;
pub mod input;
pub mod layout;
pub mod weekday;
