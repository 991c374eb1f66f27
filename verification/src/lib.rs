//! Decision logic of a free-flying camera demo: which control systems the
//! game registers and in what order, what one run of the rotation system does
//! with the input it sees, and the loading and playing game states.

pub mod controls;
pub mod states;
