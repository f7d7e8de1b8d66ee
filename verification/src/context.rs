//! One handle for either kind of video stream: a stream that a decoder
//! backend reads, or a track composed of such streams. The handle is a
//! closed union, and each operation goes to the variant it holds.

use crate::content::Content;
use crate::result::Result;
use crate::service::{
    ContentCursorTrait, ContentSeekFlag, ContentStreamServiceTrait, Seek, ServiceTrait,
};
use crate::timestamp::Timestamp;
use crate::tracks::{VideoTrack, VideoTrackContentCursor};
use vstd::prelude::*;
use vstd::std_specs::convert::FromSpecImpl;

verus! {

/// A cursor over either kind of video stream.
pub enum ContextVideoContentCursor<V: ContentStreamServiceTrait> {
    VideoInputContentCursor(V::ContentCursor),
    VideoTrackContentCursor(Box<VideoTrackContentCursor<V>>),
}

impl<V: ContentStreamServiceTrait> ContentCursorTrait for ContextVideoContentCursor<V> {
    type Item = V::Item;

    open spec fn wf(&self) -> bool {
        match self {
            ContextVideoContentCursor::VideoInputContentCursor(v) => v.wf(),
            ContextVideoContentCursor::VideoTrackContentCursor(t) => t.wf(),
        }
    }

    open spec fn at_end(&self) -> bool {
        match self {
            ContextVideoContentCursor::VideoInputContentCursor(v) => v.at_end(),
            ContextVideoContentCursor::VideoTrackContentCursor(t) => t.at_end(),
        }
    }

    open spec fn last_seek(&self) -> Option<Seek> {
        match self {
            ContextVideoContentCursor::VideoInputContentCursor(v) => v.last_seek(),
            ContextVideoContentCursor::VideoTrackContentCursor(t) => t.last_seek(),
        }
    }

    /// Reads from the cursor held, which stays of the same kind. A cursor
    /// over a track reads as the track's cursor reads.
    fn read(&mut self) -> (r: Result<Option<Content<V::Item>>>)
        ensures
            (*old(self) is VideoInputContentCursor) <==> (*final(self) is VideoInputContentCursor),
            *old(self) matches ContextVideoContentCursor::VideoTrackContentCursor(before) ==> (
            *final(self) matches ContextVideoContentCursor::VideoTrackContentCursor(after)
                && after.read_on(&*before, r)),
    {
        match self {
            ContextVideoContentCursor::VideoInputContentCursor(v) => v.read(),
            ContextVideoContentCursor::VideoTrackContentCursor(t) => t.read(),
        }
    }

    /// Moves the cursor held, which stays of the same kind. A cursor over a
    /// track is moved as the track's cursor moves.
    fn seek(&mut self, timestamp: Timestamp, flag: Option<ContentSeekFlag>) -> (r: Result<()>)
        ensures
            (*old(self) is VideoInputContentCursor) <==> (*final(self) is VideoInputContentCursor),
            *old(self) matches ContextVideoContentCursor::VideoTrackContentCursor(before) ==> (
            *final(self) matches ContextVideoContentCursor::VideoTrackContentCursor(after)
                && after.sought(&*before, timestamp, flag, r)),
    {
        match self {
            ContextVideoContentCursor::VideoInputContentCursor(v) => v.seek(timestamp, flag),
            ContextVideoContentCursor::VideoTrackContentCursor(t) => t.seek(timestamp, flag),
        }
    }
}

/// Either kind of video stream.
#[derive(Clone)]
pub enum ContextVideoContentStreamService<V: ContentStreamServiceTrait> {
    VideoInputService(V),
    VideoTrack(Box<VideoTrack<V>>),
}

impl<V: ContentStreamServiceTrait> From<V> for ContextVideoContentStreamService<V> {
    fn from(value: V) -> (r: Self) {
        ContextVideoContentStreamService::VideoInputService(value)
    }
}

impl<V: ContentStreamServiceTrait> FromSpecImpl<V> for ContextVideoContentStreamService<V> {
    open spec fn obeys_from_spec() -> bool {
        true
    }

    /// The handle that holds the backend's stream.
    open spec fn from_spec(value: V) -> Self {
        ContextVideoContentStreamService::VideoInputService(value)
    }
}

impl<V: ContentStreamServiceTrait> From<VideoTrack<V>> for ContextVideoContentStreamService<V> {
    fn from(value: VideoTrack<V>) -> (r: Self) {
        ContextVideoContentStreamService::VideoTrack(Box::new(value))
    }
}

impl<V: ContentStreamServiceTrait> FromSpecImpl<VideoTrack<V>> for ContextVideoContentStreamService<V> {
    open spec fn obeys_from_spec() -> bool {
        true
    }

    /// The handle that holds the track.
    open spec fn from_spec(value: VideoTrack<V>) -> Self {
        ContextVideoContentStreamService::VideoTrack(Box::new(value))
    }
}

impl<V: ContentStreamServiceTrait> ServiceTrait for ContextVideoContentStreamService<V> {

}

impl<V: ContentStreamServiceTrait> ContentStreamServiceTrait for ContextVideoContentStreamService<
    V,
> {
    type Item = V::Item;

    type ContentCursor = ContextVideoContentCursor<V>;

    open spec fn wf(&self) -> bool {
        match self {
            ContextVideoContentStreamService::VideoInputService(i) => i.wf(),
            ContextVideoContentStreamService::VideoTrack(t) => t.wf(),
        }
    }

    open spec fn spec_duration(&self) -> Timestamp {
        match self {
            ContextVideoContentStreamService::VideoInputService(i) => i.spec_duration(),
            ContextVideoContentStreamService::VideoTrack(t) => t.spec_duration(),
        }
    }

    fn duration(&self) -> (r: Timestamp) {
        match self {
            ContextVideoContentStreamService::VideoTrack(t) => ContentStreamServiceTrait::duration(
                &**t,
            ),
            ContextVideoContentStreamService::VideoInputService(i) => i.duration(),
        }
    }

    /// A cursor of the kind that matches the stream held. A track always
    /// gives one: a cursor before its first clip, with no clip opened yet.
    fn cursor(&self) -> (r: Result<ContextVideoContentCursor<V>>)
        ensures
            r matches Ok(c) ==> (c is VideoInputContentCursor <==> self is VideoInputService),
            self matches ContextVideoContentStreamService::VideoTrack(track) ==> {
                &&& r matches Ok(ContextVideoContentCursor::VideoTrackContentCursor(c))
                &&& c.ranges() == track.ranges()
                &&& c.current() == 0
                &&& c.active() is None
                &&& c.pending() is None
            },
    {
        match self {
            ContextVideoContentStreamService::VideoTrack(t) => {
                match ContentStreamServiceTrait::cursor(&**t) {
                    Ok(c) => Ok(ContextVideoContentCursor::VideoTrackContentCursor(Box::new(c))),
                    Err(e) => Err(e),
                }
            },
            ContextVideoContentStreamService::VideoInputService(i) => {
                match i.cursor() {
                    Ok(c) => Ok(ContextVideoContentCursor::VideoInputContentCursor(c)),
                    Err(e) => Err(e),
                }
            },
        }
    }
}

} // verus!
