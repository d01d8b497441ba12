//! Buffering and relay logic for a live audio window and a virtual camera output.
//!
//! The audio side turns the irregular stream of samples that a capture
//! callback produces into a sliding window of the most recent samples. The
//! video side copies completed frames into buffers of an output device.
//! Device and host work stays with the caller; what is decided here is
//! stated in contracts and proved.

pub mod capture;
pub mod channel;
pub mod error;
pub mod frame;
pub mod stream;
pub mod window;

pub use crate::error::MediaError;
pub use crate::window::AudioBuffer;
