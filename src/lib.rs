//! Groups near-simultaneous key presses into clusters (candidate chords)
//! while keeping standalone presses and clusters in the order they happened.

pub mod timestamp;
pub mod device;
pub mod driver;
pub mod event_collector;
pub mod laws;
pub mod test_utilities;

pub use timestamp::Timestamp;
