//! Driver logic for a single WS2812-style RGB LED: pulse encoding of colors
//! in GRB order, and a steady / crossfade animation state machine.
use vstd::prelude::*;

pub mod animation;
pub mod color;
pub mod pulse;

pub use animation::Cmd;
pub use color::Color;
pub use pulse::write_byte;
