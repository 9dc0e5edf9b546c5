//! The audio-reactive side: the monitor's configuration as the manager keeps
//! it, and the read-only form that leaves the system.

pub mod monitor;
pub mod serializer;
