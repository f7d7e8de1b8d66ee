//! A media-streaming layer: timestamped units of decoded content are read
//! from a cursor, buffered a bounded way ahead, and released on the schedule
//! that their presentation timestamps set.
//!
//! - [`timestamp`]: time as a signed count of microseconds.
//! - [`content`]: one decoded unit with its timestamps.
//! - [`service`]: the protocol between a stream's backend and its player.
//! - [`lookahead`]: what a decoding cursor keeps between two reads.
//! - [`pacing`]: the playback session, which decides what is emitted when.
//! - [`tracks`]: clips placed on a timeline and read as one stream.
//! - [`context`]: one handle for a backend's stream or a track.
//! - [`audio`], [`image`], [`size`], [`source`], [`result`]: the data that
//!   goes with them.

pub mod audio;
pub mod content;
pub mod context;
pub mod image;
pub mod lookahead;
pub mod pacing;
pub mod result;
pub mod service;
pub mod size;
pub mod source;
pub mod timestamp;
pub mod tracks;

pub use content::{Content, InnerContent};
pub use result::{Error, Result};
pub use size::Size;
pub use source::InputSource;
pub use timestamp::Timestamp;
