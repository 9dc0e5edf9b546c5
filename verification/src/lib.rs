//! The state manager of a single Bluetooth LED fixture.
//!
//! The manager owns the record of at most one device session and at most one
//! audio monitor. It decides which commands a request needs, takes what became
//! of them, and keeps the record and the answer consistent. The transport
//! itself lives outside: it performs the commands and reports back.

pub mod audio_visualisation;
pub mod device;
pub mod scale;
