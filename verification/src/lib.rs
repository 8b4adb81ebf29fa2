//! Board model and move rules of the sliding puzzle "Invasion of the Cow
//! Snatchers": a UFO crosses a 7x7 farm, pushes over walls of graded height,
//! beams up the cows, then the red bull, and leaves over the edge of the farm.
//!
//! The library holds the board, its text format, and the transition function
//! of a puzzle state. A search over the states is the caller's business: it
//! needs only [`IotCS::is_goal`] and [`IotCS::next`].

pub mod object;
pub mod direction;
pub mod pos;
pub mod farm;
pub mod parse;
pub mod state;

pub use crate::direction::Direction;
pub use crate::farm::Farm;
pub use crate::object::Object;
pub use crate::parse::FarmParseError;
pub use crate::pos::Pos;
pub use crate::state::IotCS;
