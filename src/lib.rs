//! A whale swims through a sea of krill while fishing boats drop harpoons on it.
//!
//! The library holds the simulation itself: the entities, their movement, the
//! timers that spawn and move them, and the collision rules applied once per
//! tick. Time is a count of milliseconds on a clock owned by the caller, and
//! every random choice is drawn through [`chance`].
pub mod chance;
pub mod entity;
pub mod game;
pub mod pacing;
pub mod score;
