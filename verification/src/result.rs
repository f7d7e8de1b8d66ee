//! The faults that a stream can report, tagged by subsystem.

use vstd::prelude::*;

verus! {

/// A fault reported by a stream, tagged with the subsystem it arose in. The
/// text says what went wrong, in the backend's words.
#[derive(Clone, Debug, PartialEq, Eq)]
pub enum Error {
    /// A video frame could not be decoded or converted.
    Image(String),
    /// An audio block could not be decoded.
    Audio(String),
    /// The source could not be opened, demultiplexed or repositioned.
    Input(String),
    /// No more data. Cursors report the end of a stream as `Ok(None)`; this
    /// variant is for backends that need to pass the condition along
    /// internally.
    Eof,
}

/// What a stream operation returns.
pub type Result<T> = core::result::Result<T, Error>;

impl Error {
    /// A fault in decoding or converting a video frame.
    pub fn new_image(message: String) -> (r: Error)
        ensures
            r == Error::Image(message),
    {
        Error::Image(message)
    }

    /// A fault in decoding an audio block.
    pub fn new_audio(message: String) -> (r: Error)
        ensures
            r == Error::Audio(message),
    {
        Error::Audio(message)
    }

    /// A fault in opening, demultiplexing or repositioning a source.
    pub fn new_input(message: String) -> (r: Error)
        ensures
            r == Error::Input(message),
    {
        Error::Input(message)
    }

    /// The end of the data.
    pub fn new_eof() -> (r: Error)
        ensures
            r == Error::Eof,
    {
        Error::Eof
    }
}

} // verus!
