//! Where the bytes of a stream come from.

use std::path::PathBuf;
use vstd::prelude::*;

verus! {

/// A path in the file system, carried through unread.
#[verifier::external_type_specification]
#[verifier::external_body]
pub struct ExPathBuf(PathBuf);

/// `PathBuf::clone`: the copy is the same path.
pub assume_specification[ <PathBuf as Clone>::clone ](path: &PathBuf) -> (r: PathBuf)
    ensures
        r == *path,
;

/// The origin of a stream: a file, or bytes already in memory.
#[derive(Clone, Debug)]
pub enum InputSource {
    /// A file in the file system.
    Path(PathBuf),
    /// The bytes of a media file, held in memory.
    Buffer(Vec<u8>),
}

impl InputSource {
    /// The file at `path`.
    pub fn new_path(path: PathBuf) -> (r: InputSource)
        ensures
            r == InputSource::Path(path),
    {
        InputSource::Path(path)
    }

    /// The bytes of `bytes`, read from memory.
    pub fn new_buffer(bytes: Vec<u8>) -> (r: InputSource)
        ensures
            r == InputSource::Buffer(bytes),
    {
        InputSource::Buffer(bytes)
    }
}

} // verus!
