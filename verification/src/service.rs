//! The protocol between a stream's backend and whoever plays it: a service
//! that can be reopened, and the cursor it hands out.

use crate::content::{Content, InnerContent};
use crate::image::Image;
use crate::result::Result;
use crate::timestamp::Timestamp;
use vstd::prelude::*;

verus! {

/// How a cursor may miss the timestamp it is asked to seek to.
#[derive(Clone, Copy, Debug, PartialEq, Eq, Structural)]
pub enum ContentSeekFlag {
    /// Where the exact position cannot be had, settle on the nearest earlier
    /// point the backend can start decoding from.
    Backward,
}

/// Marks a handle that stands for a stream.
pub trait ServiceTrait {

}

/// Marks a handle that takes content in.
pub trait OutputService {

}

/// The arguments of a seek: the timestamp, and the flag where one was given.
pub type Seek = (Timestamp, Option<ContentSeekFlag>);

/// A timestamp that the next unit will not precede: the target of the last
/// seek, where that seek was given no flag.
pub open spec fn seek_floor(last_seek: Option<Seek>) -> Option<Timestamp> {
    match last_seek {
        Some((timestamp, None)) => Some(timestamp),
        _ => None,
    }
}

/// A stateful reader over one stream. It yields the stream's units in
/// order and can be moved to another position.
///
/// `wf`, `at_end` and `last_seek` are the model of a cursor's state that the
/// contracts of `read` and `seek` are stated over. They are never called
/// when the program runs.
pub trait ContentCursorTrait {
    type Item: InnerContent;

    /// What the implementation keeps true of its own state.
    spec fn wf(&self) -> bool;

    /// The cursor has reported the end of its stream and has not been moved
    /// since.
    spec fn at_end(&self) -> bool;

    /// What the cursor was last asked to seek to, where nothing has been
    /// asked of it since that seek succeeded.
    spec fn last_seek(&self) -> Option<Seek>;

    /// The next unit, or `None` at the end of the stream. Once the end has
    /// been reported, every further read reports it again. The first unit
    /// after a seek without a flag does not precede the target of the seek.
    fn read(&mut self) -> (r: Result<Option<Content<Self::Item>>>)
        requires
            old(self).wf(),
        ensures
            final(self).wf(),
            old(self).at_end() ==> r == Ok::<Option<Content<Self::Item>>, crate::result::Error>(None),
            r matches Ok(None) ==> final(self).at_end(),
            r matches Ok(Some(c)) ==> (seek_floor(old(self).last_seek()) matches Some(t)
                ==> c.offset()@ >= t@),
    ;

    /// Moves the cursor so that the next read yields the first unit at
    /// `timestamp`. Without a flag, that unit does not precede `timestamp`.
    fn seek(&mut self, timestamp: Timestamp, flag: Option<ContentSeekFlag>) -> (r: Result<()>)
        requires
            old(self).wf(),
        ensures
            final(self).wf(),
            r is Ok ==> !final(self).at_end(),
            r is Ok ==> final(self).last_seek() == Some((timestamp, flag)),
    ;
}

/// A handle to a stream that can be opened any number of times. Handles are
/// passed by value: a copy of a handle opens the same stream and shares no
/// cursor with the handle it was copied from.
///
/// `wf` and `spec_duration` are the model that the contracts are stated
/// over. They are never called when the program runs.
pub trait ContentStreamServiceTrait: ServiceTrait {
    type Item: InnerContent;

    type ContentCursor: ContentCursorTrait<Item = Self::Item>;

    /// What the implementation keeps true of its own state.
    spec fn wf(&self) -> bool;

    /// The length of the stream.
    spec fn spec_duration(&self) -> Timestamp;

    /// The length of the stream. Asking changes nothing.
    fn duration(&self) -> (r: Timestamp)
        requires
            self.wf(),
        ensures
            r == self.spec_duration(),
    ;

    /// A new cursor at the start of the stream, independent of every other.
    fn cursor(&self) -> (r: Result<Self::ContentCursor>)
        requires
            self.wf(),
        ensures
            r matches Ok(c) ==> c.wf() && !c.at_end() && c.last_seek() is None,
    ;
}

/// A stream of video frames, which also knows its frame rate.
pub trait VideoContentStreamServiceTrait: ContentStreamServiceTrait<Item = Image> {
    /// Whole frames per second.
    fn fps(&self) -> u32;
}

/// A stream of video frames that a decoder backend reads from an input source.
pub trait VideoInputServiceTrait: ContentStreamServiceTrait<Item = Image> {

}

/// A stream of still images.
pub trait ImageContentStreamServiceTrait: ContentStreamServiceTrait<Item = Image> {

}

/// A stream of still images that a decoder backend reads from an input source.
pub trait ImageInputServiceTrait: ContentStreamServiceTrait<Item = Image> {

}

/// A stream of audio blocks.
pub trait AudioContentStreamServiceTrait: ContentStreamServiceTrait {

}

/// A stream of audio blocks that a decoder backend reads from an input source.
pub trait AudioInputServiceTrait: ContentStreamServiceTrait {

}

} // verus!
