//! A verified model of a trolley-problem game's scenario/animation sequencer.
//!
//! The game walks an ordered list of scenarios.  For each one it runs a
//! countdown during which the player may toggle a lever; at timeout it selects
//! the animation matching the lever state, plays it through its timed nodes,
//! accumulates the outcome into a running summary, waits briefly, and advances
//! to the next scenario.  After the last scenario it shows a summary screen.
//!
//! All times are integer milliseconds, screen coordinates are integer
//! thousandths of a pixel, angles are integer thousandths of a degree and
//! scale factors are integer thousandths, so every computation here is exact
//! integer arithmetic and is verified.

pub mod animation;
pub mod assets;
pub mod catalog;
pub mod constants;
pub mod effects;
pub mod fixed;
pub mod hooks;
pub mod scenario;
pub mod sequencer;
pub mod states;
pub mod summary;
pub mod text;
pub mod timer;
pub mod transform;
pub mod util;
