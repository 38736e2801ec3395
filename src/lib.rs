//! Clock-tick synchronisation: decoding of tick messages and the shared
//! last-value-wins clock store that they update.

pub mod json;
pub mod tick;
pub mod clock;
pub mod codec;
pub mod listener;
