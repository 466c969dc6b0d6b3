//! Fixed-step time accounting for a networked simulation.
//!
//! A [`NetworkTime`] banks irregular wall-clock time and drains it in
//! fixed-size frames, remembers how many frames the caller still owes to the
//! simulation, and decides on which frame numbers a network message is due.

pub mod duration;
pub mod time;

pub use duration::NetDuration;
pub use time::FrameRange;
pub use time::NetworkTime;
