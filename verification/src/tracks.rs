//! Timeline composition: a track is a sequence of clips, each a stream
//! placed at a start offset, presented as one continuous stream.

use crate::content::Content;
use crate::result::{Error, Result};
use crate::service::{
    seek_floor, ContentCursorTrait, ContentSeekFlag, ContentStreamServiceTrait, Seek, ServiceTrait,
};
use crate::timestamp::{fits_i64, saturated, Timestamp};
use std::collections::VecDeque;
use std::sync::Arc;
use vstd::prelude::*;

verus! {

broadcast use Timestamp::lemma_view;

/// `Arc::clone`: another handle to the same value.
#[verifier::external_body]
fn share<S>(handle: &Arc<S>) -> (r: Arc<S>)
    ensures
        r == *handle,
{
    Arc::clone(handle)
}

/// One clip: a stream and the offset at which it starts on the track.
pub struct ContentRange<S> {
    content: Arc<S>,
    offset: Timestamp,
}

impl<S: ContentStreamServiceTrait> ContentRange<S> {
    /// The stream that the clip plays.
    pub closed spec fn content(&self) -> S {
        *self.content
    }

    /// Where the clip starts on the track.
    pub closed spec fn spec_offset(&self) -> Timestamp {
        self.offset
    }

    /// The clip made of this stream at this offset.
    pub closed spec fn spec_new(content: S, offset: Timestamp) -> ContentRange<S> {
        ContentRange { content: Arc::new(content), offset }
    }

    /// The parts of a clip are the ones it was made of.
    pub broadcast proof fn lemma_new(content: S, offset: Timestamp)
        ensures
            (#[trigger] Self::spec_new(content, offset)).content() == content,
            Self::spec_new(content, offset).spec_offset() == offset,
    {
    }

    /// The first microsecond of the clip on the track.
    pub open spec fn start(&self) -> int {
        self.spec_offset()@
    }

    /// The length of the clip in microseconds.
    pub open spec fn length(&self) -> int {
        self.content().spec_duration()@
    }

    /// The first microsecond after the clip on the track.
    pub open spec fn end(&self) -> int {
        self.start() + self.length()
    }

    /// The clip covers the microsecond `t` of the track.
    pub open spec fn covers(&self, t: int) -> bool {
        self.start() <= t < self.end()
    }

    /// The stream is usable, the clip does not run backwards, and its end can
    /// be written as a timestamp.
    pub open spec fn wf(&self) -> bool {
        &&& self.content().wf()
        &&& self.length() >= 0
        &&& fits_i64(self.end())
    }

    #[verifier::when_used_as_spec(spec_offset)]
    fn offset(&self) -> (r: Timestamp)
        ensures
            r == self.spec_offset(),
    {
        self.offset
    }

    fn duration(&self) -> (r: Timestamp)
        requires
            self.content().wf(),
        ensures
            r@ == self.length(),
    {
        self.content.duration()
    }

    fn finish(&self) -> (r: Timestamp)
        requires
            self.wf(),
        ensures
            r@ == self.end(),
    {
        Timestamp::from_microseconds(
            self.offset.as_microseconds() + self.duration().as_microseconds(),
        )
    }

    fn duplicate(&self) -> (r: Self)
        ensures
            r == *self,
    {
        ContentRange { content: share(&self.content), offset: self.offset }
    }
}

/// Every clip of `ranges` is sound, and each ends before the next begins.
pub open spec fn ordered<S: ContentStreamServiceTrait>(ranges: Seq<ContentRange<S>>) -> bool {
    &&& forall|i: int| 0 <= i < ranges.len() ==> (#[trigger] ranges[i]).wf()
    &&& forall|i: int, j: int|
        0 <= i < j < ranges.len() ==> (#[trigger] ranges[i]).end() <= (#[trigger] ranges[j]).start()
}

/// How many clips of `ranges` start at or before `t`: the index at which a
/// clip starting at `t` goes in.
pub open spec fn position_of<S: ContentStreamServiceTrait>(
    ranges: Seq<ContentRange<S>>,
    t: int,
) -> int
    decreases ranges.len(),
{
    if ranges.len() == 0 {
        0
    } else if ranges.last().start() <= t {
        ranges.len() as int
    } else {
        position_of(ranges.drop_last(), t)
    }
}

/// No clip of `ranges` overlaps a clip that starts at `offset` and lasts
/// `length`, which itself does not run backwards and ends on the timeline.
pub open spec fn admits<S: ContentStreamServiceTrait>(
    ranges: Seq<ContentRange<S>>,
    offset: int,
    length: int,
) -> bool {
    &&& length >= 0
    &&& fits_i64(offset + length)
    &&& forall|i: int|
        0 <= i < ranges.len() ==> if (#[trigger] ranges[i]).start() <= offset {
            ranges[i].end() <= offset
        } else {
            offset + length <= ranges[i].start()
        }
}

/// The end of the last clip, or zero where there is none.
pub open spec fn total_duration<S: ContentStreamServiceTrait>(ranges: Seq<ContentRange<S>>) -> int {
    if ranges.len() == 0 {
        0
    } else {
        ranges.last().end()
    }
}

/// In an ordered sequence the clips before `position_of` start at or before
/// `t`, and the others after it.
pub proof fn lemma_position_of<S: ContentStreamServiceTrait>(ranges: Seq<ContentRange<S>>, t: int)
    requires
        ordered(ranges),
    ensures
        0 <= position_of(ranges, t) <= ranges.len(),
        forall|i: int| 0 <= i < position_of(ranges, t) ==> (#[trigger] ranges[i]).start() <= t,
        forall|i: int|
            position_of(ranges, t) <= i < ranges.len() ==> (#[trigger] ranges[i]).start() > t,
    decreases ranges.len(),
{
    if ranges.len() == 0 {
    } else if ranges.last().start() <= t {
        let last = ranges.len() - 1;
        assert forall|i: int| 0 <= i < ranges.len() implies (#[trigger] ranges[i]).start() <= t by {
            if i < last {
                assert(ranges[i].wf());
                assert(ranges[i].end() <= ranges[last].start());
            }
        }
    } else {
        let front = ranges.drop_last();
        assert(ordered(front)) by {
            assert forall|i: int| 0 <= i < front.len() implies (#[trigger] front[i]).wf() by {
                assert(front[i] == ranges[i]);
            }
            assert forall|i: int, j: int| 0 <= i < j < front.len() implies (
            #[trigger] front[i]).end() <= (#[trigger] front[j]).start() by {
                assert(front[i] == ranges[i]);
                assert(front[j] == ranges[j]);
            }
        }
        lemma_position_of(front, t);
        assert forall|i: int| 0 <= i < position_of(ranges, t) implies (
        #[trigger] ranges[i]).start() <= t by {
            assert(front[i] == ranges[i]);
        }
        assert forall|i: int| position_of(ranges, t) <= i < ranges.len() implies (
        #[trigger] ranges[i]).start() > t by {
            if i < front.len() {
                assert(front[i] == ranges[i]);
            }
        }
    }
}

/// The index that splits an ordered sequence into the clips that start at
/// or before `t` and those that start after it is `position_of`.
pub proof fn lemma_position_unique<S: ContentStreamServiceTrait>(
    ranges: Seq<ContentRange<S>>,
    t: int,
    p: int,
)
    requires
        ordered(ranges),
        0 <= p <= ranges.len(),
        forall|i: int| 0 <= i < p ==> (#[trigger] ranges[i]).start() <= t,
        forall|i: int| p <= i < ranges.len() ==> (#[trigger] ranges[i]).start() > t,
    ensures
        p == position_of(ranges, t),
{
    lemma_position_of(ranges, t);
    let q = position_of(ranges, t);
    if p < q {
        assert(ranges[p].start() > t);
        assert(ranges[p].start() <= t);
    } else if q < p {
        assert(ranges[q].start() > t);
        assert(ranges[q].start() <= t);
    }
}

/// No clip of an ordered sequence ends after the sequence's total duration,
/// and a sequence without clips lasts no time at all.
pub proof fn law_duration_bounds<S: ContentStreamServiceTrait>(ranges: Seq<ContentRange<S>>)
    requires
        ordered(ranges),
    ensures
        ranges.len() == 0 ==> total_duration(ranges) == 0,
        forall|i: int| 0 <= i < ranges.len() ==> (#[trigger] ranges[i]).end() <= total_duration(ranges),
{
    if ranges.len() > 0 {
        let last = ranges.len() - 1;
        assert(ranges[last].wf());
        assert forall|i: int| 0 <= i < ranges.len() implies (#[trigger] ranges[i]).end()
            <= total_duration(ranges) by {
            if i < last {
                assert(ranges[i].end() <= ranges[last].start());
            }
        }
    }
}

/// A clip placed after every other clip sets the total duration: the
/// sequence then lasts until that clip's end.
pub proof fn law_duration_after_append<S: ContentStreamServiceTrait>(
    ranges: Seq<ContentRange<S>>,
    content: S,
    offset: Timestamp,
)
    requires
        ordered(ranges),
        admits(ranges, offset@, content.spec_duration()@),
        position_of(ranges, offset@) == ranges.len(),
    ensures
        total_duration(ranges.insert(ranges.len() as int, ContentRange::spec_new(content, offset)))
            == offset@ + content.spec_duration()@,
{
    broadcast use ContentRange::lemma_new;

    let clip = ContentRange::spec_new(content, offset);
    let after = ranges.insert(ranges.len() as int, clip);
    assert(after.last() == clip);
}

/// The clips of an ordered sequence lie in the order of their start
/// offsets.
pub proof fn law_starts_in_order<S: ContentStreamServiceTrait>(
    ranges: Seq<ContentRange<S>>,
    i: int,
    j: int,
)
    requires
        ordered(ranges),
        0 <= i <= j < ranges.len(),
    ensures
        ranges[i].start() <= ranges[j].start(),
{
    if i < j {
        assert(ranges[i].wf());
        assert(ranges[i].end() <= ranges[j].start());
    }
}

/// At most one clip of an ordered sequence covers a given microsecond.
pub proof fn law_one_clip_covers<S: ContentStreamServiceTrait>(
    ranges: Seq<ContentRange<S>>,
    t: int,
    i: int,
    j: int,
)
    requires
        ordered(ranges),
        0 <= i < ranges.len(),
        0 <= j < ranges.len(),
        ranges[i].covers(t),
        ranges[j].covers(t),
    ensures
        i == j,
{
    if i < j {
        assert(ranges[i].end() <= ranges[j].start());
    } else if j < i {
        assert(ranges[j].end() <= ranges[i].start());
    }
}

/// A sequence of clips presented as one continuous stream. The clips lie in
/// the order of their start offsets and none overlaps another.
pub struct VideoTrack<S> {
    sequence: VecDeque<ContentRange<S>>,
}

impl<S: ContentStreamServiceTrait> VideoTrack<S> {
    /// The clips of the track, in timeline order.
    pub closed spec fn ranges(&self) -> Seq<ContentRange<S>> {
        self.sequence@
    }

    /// What holds of a track between any two calls.
    pub open spec fn is_ordered(&self) -> bool {
        ordered(self.ranges())
    }

    /// The index of the clip that covers `t`, where there is one.
    pub open spec fn clip_at(&self, t: int) -> Option<int> {
        let p = position_of(self.ranges(), t);
        if p > 0 && self.ranges()[p - 1].covers(t) {
            Some(p - 1)
        } else {
            None
        }
    }

    /// A track without clips.
    pub fn new() -> (r: Self)
        ensures
            r.is_ordered(),
            r.ranges().len() == 0,
    {
        VideoTrack { sequence: VecDeque::new() }
    }

    /// The number of clips.
    pub fn len(&self) -> (r: usize)
        ensures
            r == self.ranges().len(),
    {
        self.sequence.len()
    }

    /// The index at which a clip starting at `timestamp` belongs: the number
    /// of clips that start at or before it.
    pub fn position(&self, timestamp: Timestamp) -> (r: usize)
        requires
            self.is_ordered(),
        ensures
            r == position_of(self.ranges(), timestamp@),
    {
        let mut low: usize = 0;
        let mut high: usize = self.sequence.len();
        proof {
            lemma_position_of(self.ranges(), timestamp@);
        }
        while low < high
            invariant
                self.is_ordered(),
                0 <= low <= high <= self.sequence.len(),
                forall|i: int| 0 <= i < low ==> (#[trigger] self.ranges()[i]).start() <= timestamp@,
                forall|i: int|
                    high <= i < self.ranges().len() ==> (#[trigger] self.ranges()[i]).start()
                        > timestamp@,
            decreases high - low,
        {
            let middle: usize = low + (high - low) / 2;
            let start = self.sequence[middle].offset();
            if start.as_microseconds() <= timestamp.as_microseconds() {
                assert forall|i: int| 0 <= i < middle + 1 implies (
                #[trigger] self.ranges()[i]).start() <= timestamp@ by {
                    if i < middle {
                        assert(self.ranges()[i].wf());
                        assert(self.ranges()[i].end() <= self.ranges()[middle as int].start());
                    }
                }
                low = middle + 1;
            } else {
                assert forall|i: int| middle <= i < self.ranges().len() implies (
                #[trigger] self.ranges()[i]).start() > timestamp@ by {
                    if middle < i {
                        assert(self.ranges()[middle as int].wf());
                        assert(self.ranges()[middle as int].end() <= self.ranges()[i].start());
                    }
                }
                high = middle;
            }
        }
        proof {
            lemma_position_unique(self.ranges(), timestamp@, low as int);
        }
        low
    }

    /// The index of the clip that covers `timestamp`, found by bisection.
    pub fn locate(&self, timestamp: Timestamp) -> (r: Option<usize>)
        requires
            self.is_ordered(),
        ensures
            match r {
                Some(k) => {
                    &&& k < self.ranges().len()
                    &&& self.ranges()[k as int].covers(timestamp@)
                    &&& self.clip_at(timestamp@) == Some(k as int)
                },
                None => {
                    &&& self.clip_at(timestamp@) is None
                    &&& forall|i: int|
                        0 <= i < self.ranges().len() ==> !(#[trigger] self.ranges()[i]).covers(
                            timestamp@,
                        )
                },
            },
    {
        let p = self.position(timestamp);
        proof {
            lemma_position_of(self.ranges(), timestamp@);
        }
        if p == 0 {
            return None;
        }
        let k: usize = p - 1;
        assert(self.ranges()[k as int].wf());
        let end = self.sequence[k].finish();
        if timestamp.as_microseconds() < end.as_microseconds() {
            Some(k)
        } else {
            assert forall|i: int| 0 <= i < self.ranges().len() implies !(
            #[trigger] self.ranges()[i]).covers(timestamp@) by {
                if i < k {
                    assert(self.ranges()[i].end() <= self.ranges()[k as int].start());
                }
            }
            None
        }
    }

    /// The length of the track: the end of its last clip, or zero for a track
    /// without clips.
    pub fn duration(&self) -> (r: Timestamp)
        requires
            self.is_ordered(),
        ensures
            r@ == total_duration(self.ranges()),
    {
        let n = self.sequence.len();
        if n == 0 {
            Timestamp::default()
        } else {
            assert(self.ranges()[n - 1].wf());
            self.sequence[n - 1].finish()
        }
    }

    /// Places `content` on the track at `offset` and says at which index it
    /// went in. A clip that would overlap another, that runs backwards, or
    /// whose end lies beyond the timeline is refused, and the track stays as
    /// it was.
    pub fn insert(&mut self, content: S, offset: Timestamp) -> (r: Result<usize>)
        requires
            old(self).is_ordered(),
            content.wf(),
        ensures
            final(self).is_ordered(),
            r is Ok <==> admits(old(self).ranges(), offset@, content.spec_duration()@),
            match r {
                Ok(p) => {
                    &&& p == position_of(old(self).ranges(), offset@)
                    &&& final(self).ranges() == old(self).ranges().insert(
                        p as int,
                        ContentRange::spec_new(content, offset),
                    )
                },
                Err(e) => {
                    &&& e matches Error::Input(text) && text@ == refusal_text()
                    &&& final(self).ranges() == old(self).ranges()
                },
            },
    {
        broadcast use ContentRange::lemma_new;

        let length = content.duration();
        if length.as_microseconds() < 0 {
            return Err(Error::new_input(refusal()));
        }
        let end = match offset.as_microseconds().checked_add(length.as_microseconds()) {
            Some(end) => end,
            None => {
                return Err(Error::new_input(refusal()));
            },
        };
        let p = self.position(offset);
        proof {
            lemma_position_of(self.ranges(), offset@);
        }
        if p > 0 {
            assert(self.ranges()[p - 1].wf());
            let before = self.sequence[p - 1].finish();
            if before.as_microseconds() > offset.as_microseconds() {
                return Err(Error::new_input(refusal()));
            }
        }
        if p < self.sequence.len() {
            let after = self.sequence[p].offset();
            if end > after.as_microseconds() {
                return Err(Error::new_input(refusal()));
            }
        }
        let clip = ContentRange { content: Arc::new(content), offset };
        assert(clip == ContentRange::spec_new(content, offset));
        assert(admits(self.ranges(), offset@, content.spec_duration()@)) by {
            assert forall|i: int| 0 <= i < self.ranges().len() implies if (
            #[trigger] self.ranges()[i]).start() <= offset@ {
                self.ranges()[i].end() <= offset@
            } else {
                offset@ + content.spec_duration()@ <= self.ranges()[i].start()
            } by {
                if i < p {
                    if i < p - 1 {
                        assert(self.ranges()[i].end() <= self.ranges()[p - 1].start());
                        assert(self.ranges()[p - 1].wf());
                    }
                } else {
                    if p < i {
                        assert(self.ranges()[p as int].wf());
                        assert(self.ranges()[p as int].end() <= self.ranges()[i].start());
                    }
                }
            }
        }
        self.sequence.insert(p, clip);
        proof {
            let before = old(self).ranges();
            let after = self.ranges();
            assert forall|i: int| 0 <= i < after.len() implies (#[trigger] after[i]).wf() by {
                if i < p {
                    assert(after[i] == before[i]);
                } else if i > p {
                    assert(after[i] == before[i - 1]);
                }
            }
            assert forall|i: int, j: int| 0 <= i < j < after.len() implies (
            #[trigger] after[i]).end() <= (#[trigger] after[j]).start() by {
                if i < p {
                    assert(after[i] == before[i]);
                } else if i > p {
                    assert(after[i] == before[i - 1]);
                }
                if j < p {
                    assert(after[j] == before[j]);
                } else if j > p {
                    assert(after[j] == before[j - 1]);
                }
            }
        }
        Ok(p)
    }
}

impl<S: ContentStreamServiceTrait> VideoTrack<S> {
    /// Another handle to the same clips.
    fn duplicate(&self) -> (r: Self)
        ensures
            r.ranges() == self.ranges(),
    {
        let mut sequence: VecDeque<ContentRange<S>> = VecDeque::with_capacity(self.sequence.len());
        let mut i: usize = 0;
        while i < self.sequence.len()
            invariant
                0 <= i <= self.sequence.len(),
                sequence@ == self.sequence@.take(i as int),
            decreases self.sequence.len() - i,
        {
            sequence.push_back(self.sequence[i].duplicate());
            assert(sequence@ =~= self.sequence@.take(i + 1));
            i = i + 1;
        }
        assert(sequence@ =~= self.sequence@);
        VideoTrack { sequence }
    }

    /// Opens the stream of clip `k`.
    fn open(&self, k: usize) -> (r: Result<S::ContentCursor>)
        requires
            self.is_ordered(),
            k < self.ranges().len(),
        ensures
            r matches Ok(c) ==> c.wf() && !c.at_end() && c.last_seek() is None,
    {
        assert(self.ranges()[k as int].wf());
        self.sequence[k].content.cursor()
    }
}

impl<S: ContentStreamServiceTrait> Clone for VideoTrack<S> {
    /// A copy of a track holds the same clips in the same places.
    fn clone(&self) -> (r: Self)
        ensures
            r.ranges() == self.ranges(),
    {
        self.duplicate()
    }
}

impl<S: ContentStreamServiceTrait> ServiceTrait for VideoTrack<S> {

}

impl<S: ContentStreamServiceTrait> ContentStreamServiceTrait for VideoTrack<S> {
    type Item = S::Item;

    type ContentCursor = VideoTrackContentCursor<S>;

    open spec fn wf(&self) -> bool {
        self.is_ordered()
    }

    open spec fn spec_duration(&self) -> Timestamp {
        Timestamp::spec_from_microseconds(total_duration(self.ranges()) as i64)
    }

    /// The end of the last clip, or zero for a track without clips.
    fn duration(&self) -> (r: Timestamp)
        ensures
            r@ == total_duration(self.ranges()),
    {
        proof {
            if self.ranges().len() > 0 {
                assert(self.ranges().last().wf());
            }
        }
        let r = VideoTrack::duration(self);
        proof {
            Timestamp::lemma_view_injective(r, self.spec_duration());
        }
        r
    }

    /// A cursor before the first clip. No clip is opened yet, so this
    /// cannot fail.
    fn cursor(&self) -> (r: Result<VideoTrackContentCursor<S>>)
        ensures
            r matches Ok(c) && c.ranges() == self.ranges() && c.current() == 0 && c.active() is None
                && c.pending() is None && !c.ended(),
    {
        Ok(
            VideoTrackContentCursor {
                track: self.duplicate(),
                current: 0,
                active: None,
                pending: None,
                ended: false,
            },
        )
    }
}

/// `unit` as it appears on a track whose clip starts at `start`: the same
/// item and duration, presented `start` later. A unit whose place on the
/// track cannot be written as a timestamp is refused.
pub fn rebase<I>(unit: Content<I>, start: Timestamp) -> (r: Result<Content<I>>)
    ensures
        r is Ok <==> fits_i64(unit.offset()@ + start@),
        match r {
            Ok(placed) => {
                &&& placed.spec_item() == unit.spec_item()
                &&& placed.offset()@ == unit.offset()@ + start@
                &&& placed.duration() == unit.duration()
            },
            Err(e) => e is Input,
        },
{
    broadcast use Content::lemma_new;

    match unit.offset().as_microseconds().checked_add(start.as_microseconds()) {
        Some(at) => Ok(unit.with_offset(Timestamp::from_microseconds(at))),
        None => Err(Error::new_input("the unit lies beyond the timeline".to_string())),
    }
}

/// `timestamp` in the time of a clip that starts at `start`: the difference
/// of the two, or the nearest timestamp that can be written where the
/// difference cannot.
pub fn local_time(timestamp: Timestamp, start: Timestamp) -> (r: Timestamp)
    ensures
        r@ == saturated(timestamp@ - start@),
{
    let at: i128 = timestamp.as_microseconds() as i128 - start.as_microseconds() as i128;
    if at < i64::MIN as i128 {
        Timestamp::from_microseconds(i64::MIN)
    } else if at > i64::MAX as i128 {
        Timestamp::from_microseconds(i64::MAX)
    } else {
        Timestamp::from_microseconds(at as i64)
    }
}

/// The target of a seek, where the seek was given no flag.
fn exact_target(seek: Option<Seek>) -> (r: Option<Timestamp>)
    ensures
        r == seek_floor(seek),
{
    match seek {
        Some((timestamp, None)) => Some(timestamp),
        _ => None,
    }
}

/// A reader over a track. It reads the clips one after another, opening
/// each clip's stream when it is reached, and hands out every unit at its
/// place on the track.
pub struct VideoTrackContentCursor<S: ContentStreamServiceTrait> {
    track: VideoTrack<S>,
    current: usize,
    active: Option<S::ContentCursor>,
    pending: Option<Seek>,
    ended: bool,
}

impl<S: ContentStreamServiceTrait> VideoTrackContentCursor<S> {
    /// The clips that the cursor reads.
    pub closed spec fn ranges(&self) -> Seq<ContentRange<S>> {
        self.track.ranges()
    }

    /// The index of the clip being read; the number of clips once all have
    /// been read.
    pub closed spec fn current(&self) -> int {
        self.current as int
    }

    /// The open reader of the current clip, where there is one.
    pub closed spec fn active(&self) -> Option<S::ContentCursor> {
        self.active
    }

    /// What the cursor was last asked to seek to, until a read has handed
    /// out a unit or a fault.
    pub closed spec fn pending(&self) -> Option<Seek> {
        self.pending
    }

    /// The target of the pending seek, where that seek was given no flag: the
    /// next unit does not precede it.
    pub open spec fn floor(&self) -> Option<Timestamp> {
        seek_floor(self.pending())
    }

    /// The end of the track has been reported.
    pub closed spec fn ended(&self) -> bool {
        self.ended
    }

    /// The start of the current clip on the track, in microseconds.
    pub open spec fn current_start(&self) -> int
        recommends
            0 <= self.current() < self.ranges().len(),
    {
        self.ranges()[self.current()].start()
    }

    /// Where the cursor stands among its clips: the clips are in order, the
    /// current clip is one of them or none is left, a reader is open only on
    /// the current clip, and a floor lies before the end of the current clip
    /// (before its start, where the clip has not been opened).
    pub open spec fn shape(&self) -> bool {
        &&& ordered(self.ranges())
        &&& 0 <= self.current() <= self.ranges().len()
        &&& self.ended() ==> self.current() == self.ranges().len() && self.active() is None
        &&& self.floor() matches Some(t) ==> (self.current() < self.ranges().len() ==> {
            &&& self.ranges()[self.current()].end() > t@
            &&& self.active() is None ==> self.ranges()[self.current()].start() > t@
        })
        &&& self.active() matches Some(c) ==> self.current() < self.ranges().len() && c.wf()
    }

    /// What holds of the cursor between any two calls: its shape, and that
    /// an open reader has promised a floor which, on the track, is no
    /// earlier than the cursor's own.
    pub open spec fn inv(&self) -> bool {
        &&& self.shape()
        &&& self.active() matches Some(c) ==> (self.floor() matches Some(t) ==> (seek_floor(
            c.last_seek(),
        ) matches Some(l) && l@ + self.ranges()[self.current()].start() >= t@))
    }

    /// What a read that ended in `r` has made of the cursor `before`: the
    /// clips are the same and the cursor has not gone back; with no clip
    /// left it reported the end; a unit came from a clip that is still
    /// open, and answered the pending seek; the end came after the last clip.
    pub open spec fn read_on(
        &self,
        before: &Self,
        r: Result<Option<Content<S::Item>>>,
    ) -> bool {
        &&& self.ranges() == before.ranges()
        &&& self.current() >= before.current()
        &&& before.current() == before.ranges().len() ==> (r matches Ok(None)) && self.ended()
        &&& r matches Ok(Some(_)) ==> {
            &&& self.current() < self.ranges().len()
            &&& self.active() is Some
            &&& self.pending() is None
        }
        &&& r matches Ok(None) ==> self.current() == self.ranges().len() && self.ended()
        &&& r is Err ==> self.pending() is None || (self.pending() == before.pending()
            && self.active() is None)
    }

    /// What a seek to `timestamp` with `flag` that ended in `r` has made of
    /// the cursor `before`. The clips are the same. Where the seek
    /// succeeded, the cursor reads the clip that covers `timestamp`, and
    /// that clip's reader has been moved, with the same flag, to `timestamp`
    /// less the clip's start. Where no clip covers `timestamp`, the seek was
    /// refused and the cursor is as it was. After any fault the cursor is
    /// still on the clip it was on.
    pub open spec fn sought(
        &self,
        before: &Self,
        timestamp: Timestamp,
        flag: Option<ContentSeekFlag>,
        r: Result<()>,
    ) -> bool {
        &&& self.ranges() == before.ranges()
        &&& r is Ok ==> {
            &&& 0 <= self.current() < before.ranges().len()
            &&& before.ranges()[self.current()].covers(timestamp@)
            &&& !self.ended()
            &&& self.pending() == Some((timestamp, flag))
            &&& self.active() matches Some(c) && c.last_seek() matches Some((local, given))
                && given == flag && local@ == timestamp@
                - before.ranges()[self.current()].start()
        }
        &&& (forall|i: int|
            0 <= i < before.ranges().len() ==> !(#[trigger] before.ranges()[i]).covers(timestamp@))
            ==> {
            &&& r matches Err(Error::Input(_))
            &&& self.active() == before.active()
            &&& self.pending() == before.pending()
        }
        &&& r is Err ==> {
            &&& self.current() == before.current()
            &&& self.ended() == before.ended()
            &&& self.pending() is None || (self.pending() == before.pending() && self.active()
                == before.active())
        }
    }

    /// Takes in what the current clip's reader answered to a read, and says
    /// how the track's read goes on. A fault is the answer of the track's
    /// read. A unit is the answer too, placed on the track: its
    /// presentation timestamp is moved by the start of the current clip,
    /// and where that cannot be written the answer is a fault of the input.
    /// Either answer settles the pending seek. Where the clip has no more,
    /// there is no answer yet: the clip's reader is dropped and the next
    /// clip becomes the current one.
    pub fn place(&mut self, outcome: Result<Option<Content<S::Item>>>) -> (r: Option<
        Result<Option<Content<S::Item>>>,
    >)
        requires
            old(self).shape(),
            old(self).current() < old(self).ranges().len(),
        ensures
            final(self).inv(),
            final(self).ranges() == old(self).ranges(),
            !final(self).ended(),
            match outcome {
                Err(e) => {
                    &&& r == Some(Err::<Option<Content<S::Item>>, Error>(e))
                    &&& final(self).current() == old(self).current()
                    &&& final(self).active() == old(self).active()
                    &&& final(self).pending() is None
                },
                Ok(Some(unit)) => {
                    &&& final(self).current() == old(self).current()
                    &&& final(self).active() == old(self).active()
                    &&& final(self).pending() is None
                    &&& if fits_i64(unit.offset()@ + old(self).current_start()) {
                        &&& r matches Some(Ok(Some(placed)))
                        &&& placed.spec_item() == unit.spec_item()
                        &&& placed.offset()@ == unit.offset()@ + old(self).current_start()
                        &&& placed.duration() == unit.duration()
                    } else {
                        r matches Some(Err(Error::Input(_)))
                    }
                },
                Ok(None) => {
                    &&& r is None
                    &&& final(self).current() == old(self).current() + 1
                    &&& final(self).active() is None
                    &&& final(self).pending() == old(self).pending()
                },
            },
    {
        match outcome {
            Err(e) => {
                self.pending = None;
                Some(Err(e))
            },
            Ok(Some(unit)) => {
                let start = self.track.sequence[self.current].offset();
                self.pending = None;
                match rebase(unit, start) {
                    Ok(placed) => Some(Ok(Some(placed))),
                    Err(e) => Some(Err(e)),
                }
            },
            Ok(None) => {
                proof {
                    assert(self.ranges()[self.current()].wf());
                    if self.current() + 1 < self.ranges().len() {
                        assert(self.ranges()[self.current()].end() <= self.ranges()[self.current()
                            + 1].start());
                        assert(self.ranges()[self.current() + 1].wf());
                    }
                }
                assert(self.current < self.track.sequence.len());
                self.active = None;
                self.current = self.current + 1;
                None
            },
        }
    }
}

impl<S: ContentStreamServiceTrait> ContentCursorTrait for VideoTrackContentCursor<S> {
    type Item = S::Item;

    open spec fn wf(&self) -> bool {
        self.inv()
    }

    open spec fn at_end(&self) -> bool {
        self.ended()
    }

    open spec fn last_seek(&self) -> Option<Seek> {
        self.pending()
    }

    /// The next unit of the current clip, placed on the track. Where the
    /// clip has no more, the cursor crosses to the next one; after the last
    /// clip it reports the end. A clip is opened when it is first read, and
    /// where a seek without a flag is still pending, it is moved to the
    /// target of that seek in its own time. What the clip's reader answers
    /// goes through `place`.
    fn read(&mut self) -> (r: Result<Option<Content<S::Item>>>)
        ensures
            final(self).read_on(old(self), r),
    {
        if self.ended {
            return Ok(None);
        }
        loop
            invariant
                self.inv(),
                !self.ended(),
                !old(self).ended(),
                self.pending() == old(self).pending(),
                self.ranges() == old(self).ranges(),
                self.current() >= old(self).current(),
                self.current() > old(self).current() ==> self.active() is None,
            decreases self.ranges().len() - self.current(),
        {
            if self.current >= self.track.len() {
                self.ended = true;
                self.active = None;
                return Ok(None);
            }
            let start = self.track.sequence[self.current].offset();
            assert(self.ranges()[self.current()].wf());
            let mut cursor = match self.active.take() {
                Some(c) => c,
                None => {
                    let mut opened = self.track.open(self.current)?;
                    match exact_target(self.pending) {
                        Some(t) => {
                            opened.seek(local_time(t, start), None)?;
                        },
                        None => {},
                    }
                    opened
                },
            };
            assert(self.floor() matches Some(t) ==> (seek_floor(cursor.last_seek()) matches Some(l)
                && l@ + start@ >= t@));
            let outcome = cursor.read();
            self.active = Some(cursor);
            match self.place(outcome) {
                Some(answer) => {
                    return answer;
                },
                None => {},
            }
        }
    }

    /// Moves to the clip that covers `timestamp` and to `timestamp` within
    /// it. The reader of the current clip is moved where that is the clip;
    /// otherwise the clip is opened anew and the reader of the clip left
    /// behind is dropped. The clip's reader is handed `timestamp` less the
    /// clip's start, and the flag as it came. A timestamp that no clip
    /// covers is refused.
    fn seek(&mut self, timestamp: Timestamp, flag: Option<ContentSeekFlag>) -> (r: Result<()>)
        ensures
            final(self).sought(old(self), timestamp, flag, r),
    {
        let k = match self.track.locate(timestamp) {
            Some(k) => k,
            None => {
                return Err(Error::new_input("no clip covers the timestamp".to_string()));
            },
        };
        let start = self.track.sequence[k].offset();
        assert(self.ranges()[k as int].wf());
        let local = local_time(timestamp, start);
        let reuse = if self.current == k {
            self.active.take()
        } else {
            None
        };
        let mut cursor = match reuse {
            Some(c) => c,
            None => self.track.open(k)?,
        };
        match cursor.seek(local, flag) {
            Ok(()) => {
                self.current = k;
                self.active = Some(cursor);
                self.ended = false;
                self.pending = Some((timestamp, flag));
                Ok(())
            },
            Err(e) => {
                if self.current == k {
                    self.active = Some(cursor);
                    self.pending = None;
                }
                Err(e)
            },
        }
    }
}

/// The text with which a track refuses a clip.
pub open spec fn refusal_text() -> Seq<char> {
    "the clip does not fit on the track"@
}

/// What a track says when it refuses a clip.
fn refusal() -> (r: String)
    ensures
        r@ == refusal_text(),
{
    "the clip does not fit on the track".to_string()
}

} // verus!
