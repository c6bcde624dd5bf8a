//! Sun-tracking wallpaper scheduling: which image of a day-cycle sequence is
//! due at a given instant, and the per-pixel blend between two neighbouring
//! images of that sequence.

pub mod clock;
pub mod failure;
pub mod images;
pub mod ratio;
pub mod scheduler;
pub mod sequence;
pub mod sink;
