//! Verified core of a sound visualiser: how captured audio is cut into
//! analysis frames and frequency bands, how the surface and window react to
//! events, and the decisions taken at start-up.

pub mod framing;
pub mod spectrum;
pub mod special_dirs;
pub mod surface;
pub mod startup;
pub mod window_events;
