//! The paced playback engine: a bounded look-ahead queue in front of a
//! cursor, and the schedule on which the queued units are handed on.
//!
//! The engine decides; it never waits. Whoever drives it fills the queue,
//! asks for the next emission with the current reading of a monotonic clock,
//! waits until the instant the emission names, and hands the unit to the
//! consumer.

use crate::content::Content;
use crate::result::Result;
use crate::service::{seek_floor, ContentCursorTrait, ContentSeekFlag};
use crate::timestamp::{saturated, Timestamp};
use std::collections::VecDeque;
use vstd::prelude::*;

verus! {

broadcast use Timestamp::lemma_view;

/// The most units that a session buffers ahead of the consumer.
pub const MAX_QUEUE_SIZE: usize = 10;

/// The presentation timestamps of `units` never step back.
pub open spec fn nondecreasing<I>(units: Seq<Content<I>>) -> bool {
    forall|i: int, j: int|
        0 <= i <= j < units.len() ==> (#[trigger] units[i]).offset()@ <= (
        #[trigger] units[j]).offset()@
}

/// The pair that ties stream time to clock time for one session: the unit
/// presented at `base_offset` is due at `base_instant`.
#[derive(Clone, Copy, Debug, PartialEq, Eq, Structural)]
pub struct Anchor {
    /// The clock reading at which the session's first unit was emitted.
    pub base_instant: Timestamp,
    /// The presentation timestamp of that first unit.
    pub base_offset: Timestamp,
}

impl Anchor {
    /// The clock reading at which a unit presented at `presentation_timestamp`
    /// is due, as a mathematical integer.
    pub open spec fn due(&self, presentation_timestamp: Timestamp) -> int {
        self.base_instant@ + (presentation_timestamp@ - self.base_offset@)
    }

    /// The clock reading at which a unit presented at `presentation_timestamp`
    /// is due. An instant beyond the ends of the clock's range comes out as
    /// the nearest end.
    pub fn target_instant(&self, presentation_timestamp: Timestamp) -> (r: Timestamp)
        ensures
            r@ == saturated(self.due(presentation_timestamp)),
    {
        let base: i128 = self.base_instant.as_microseconds() as i128;
        let offset: i128 = self.base_offset.as_microseconds() as i128;
        let presented: i128 = presentation_timestamp.as_microseconds() as i128;
        let due: i128 = base + (presented - offset);
        if due < i64::MIN as i128 {
            Timestamp::from_microseconds(i64::MIN)
        } else if due > i64::MAX as i128 {
            Timestamp::from_microseconds(i64::MAX)
        } else {
            Timestamp::from_microseconds(due as i64)
        }
    }

    /// A later unit is never due before an earlier one.
    pub proof fn law_due_monotone(&self, earlier: Timestamp, later: Timestamp)
        requires
            earlier@ <= later@,
        ensures
            saturated(self.due(earlier)) <= saturated(self.due(later)),
    {
    }

    /// Two units are due exactly as far apart as they are presented, where
    /// both instants are within the clock's range.
    pub proof fn law_due_gap(&self, a: Timestamp, b: Timestamp)
        requires
            self.due(a) == saturated(self.due(a)),
            self.due(b) == saturated(self.due(b)),
        ensures
            saturated(self.due(b)) - saturated(self.due(a)) == b@ - a@,
    {
    }

    /// The unit that the anchor was taken from is due at the anchor's instant.
    pub proof fn law_due_at_base(&self)
        ensures
            saturated(self.due(self.base_offset)) == self.base_instant@,
    {
    }
}

/// What a session hands out when it is asked to emit.
pub enum Emission<I> {
    /// Hand `content` to the consumer at `target_instant`.
    Unit { content: Content<I>, target_instant: Timestamp },
    /// The stream is over and everything has been handed out: give the
    /// consumer the end marker and stop.
    End,
    /// Nothing to hand out: the queue is empty and either the source has more
    /// to give or the end has been signalled already.
    Idle,
}

/// One playback session over one cursor.
pub struct PlaybackSession<I> {
    queue: VecDeque<Content<I>>,
    anchor: Option<Anchor>,
    source_ended: bool,
    finished: bool,
    pulled: Ghost<Seq<Content<I>>>,
    released: Ghost<Seq<Content<I>>>,
}

impl<I> PlaybackSession<I> {
    /// The units read and not yet handed out, oldest first.
    pub closed spec fn buffered(&self) -> Seq<Content<I>> {
        self.queue@
    }

    /// The session's anchor, once its first unit has been emitted.
    pub closed spec fn spec_anchor(&self) -> Option<Anchor> {
        self.anchor
    }

    /// The cursor has reported the end of the stream.
    pub closed spec fn spec_source_ended(&self) -> bool {
        self.source_ended
    }

    /// The end marker has been handed out.
    pub closed spec fn spec_finished(&self) -> bool {
        self.finished
    }

    /// Every unit the session has taken from its cursor, in the order read.
    pub closed spec fn pulled(&self) -> Seq<Content<I>> {
        self.pulled@
    }

    /// Every unit the session has handed out, in the order emitted.
    pub closed spec fn released(&self) -> Seq<Content<I>> {
        self.released@
    }

    /// What holds of a session between any two calls.
    pub open spec fn wf(&self) -> bool {
        &&& self.buffered().len() <= MAX_QUEUE_SIZE
        &&& self.pulled() == self.released() + self.buffered()
        &&& (self.spec_finished() ==> self.spec_source_ended() && self.buffered().len() == 0)
        &&& match self.spec_anchor() {
            None => self.released().len() == 0,
            Some(a) => self.released().len() > 0 && a.base_offset == self.released()[0].offset(),
        }
    }

    /// Two sessions that agree on everything a caller can observe.
    pub open spec fn same_as(&self, other: &Self) -> bool {
        &&& self.buffered() == other.buffered()
        &&& self.spec_anchor() == other.spec_anchor()
        &&& self.spec_source_ended() == other.spec_source_ended()
        &&& self.spec_finished() == other.spec_finished()
        &&& self.pulled() == other.pulled()
        &&& self.released() == other.released()
    }

    /// A session that has read nothing and emitted nothing.
    pub open spec fn is_fresh(&self) -> bool {
        &&& self.buffered().len() == 0
        &&& self.spec_anchor() is None
        &&& !self.spec_source_ended()
        &&& !self.spec_finished()
        &&& self.pulled().len() == 0
        &&& self.released().len() == 0
    }

    /// The session can take one more unit: the queue has room and the source
    /// has not ended.
    pub open spec fn spec_wants_more(&self) -> bool {
        self.buffered().len() < MAX_QUEUE_SIZE && !self.spec_source_ended()
    }

    /// A session that has read nothing and emitted nothing.
    pub fn new() -> (r: Self)
        ensures
            r.wf(),
            r.is_fresh(),
    {
        PlaybackSession {
            queue: VecDeque::with_capacity(MAX_QUEUE_SIZE),
            anchor: None,
            source_ended: false,
            finished: false,
            pulled: Ghost(Seq::empty()),
            released: Ghost(Seq::empty()),
        }
    }

    /// The number of units buffered.
    pub fn len(&self) -> (r: usize)
        ensures
            r == self.buffered().len(),
    {
        self.queue.len()
    }

    /// The session's anchor, once its first unit has been emitted.
    #[verifier::when_used_as_spec(spec_anchor)]
    pub fn anchor(&self) -> (r: Option<Anchor>)
        ensures
            r == self.spec_anchor(),
    {
        self.anchor
    }

    /// The cursor has reported the end of the stream.
    #[verifier::when_used_as_spec(spec_source_ended)]
    pub fn source_ended(&self) -> (r: bool)
        ensures
            r == self.spec_source_ended(),
    {
        self.source_ended
    }

    /// The end marker has been handed out.
    #[verifier::when_used_as_spec(spec_finished)]
    pub fn finished(&self) -> (r: bool)
        ensures
            r == self.spec_finished(),
    {
        self.finished
    }

    /// The session can take one more unit.
    #[verifier::when_used_as_spec(spec_wants_more)]
    pub fn wants_more(&self) -> (r: bool)
        ensures
            r == self.spec_wants_more(),
    {
        self.queue.len() < MAX_QUEUE_SIZE && !self.source_ended
    }

    /// Takes in the outcome of one read of the cursor. A unit goes to the
    /// back of the queue; the end of the stream is noted; a fault is handed
    /// back and leaves the session as it was.
    pub fn accept(&mut self, outcome: Result<Option<Content<I>>>) -> (r: Result<()>)
        requires
            old(self).wf(),
            old(self).wants_more(),
        ensures
            final(self).wf(),
            final(self).anchor() == old(self).anchor(),
            final(self).finished() == old(self).finished(),
            final(self).released() == old(self).released(),
            match outcome {
                Ok(Some(content)) => {
                    &&& r is Ok
                    &&& final(self).buffered() == old(self).buffered().push(content)
                    &&& final(self).pulled() == old(self).pulled().push(content)
                    &&& !final(self).source_ended()
                },
                Ok(None) => {
                    &&& r is Ok
                    &&& final(self).buffered() == old(self).buffered()
                    &&& final(self).pulled() == old(self).pulled()
                    &&& final(self).source_ended()
                },
                Err(e) => {
                    &&& r == Err::<(), crate::result::Error>(e)
                    &&& final(self).same_as(old(self))
                },
            },
    {
        match outcome {
            Ok(Some(content)) => {
                proof {
                    self.pulled@ = self.pulled@.push(content);
                }
                self.queue.push_back(content);
                assert(self.pulled@ =~= self.released@ + self.queue@);
                Ok(())
            },
            Ok(None) => {
                self.source_ended = true;
                Ok(())
            },
            Err(e) => Err(e),
        }
    }

    /// The fill phase: reads from `cursor` until the queue is full or the
    /// cursor reports the end of its stream. A fault ends the phase at once
    /// and is handed back; what was read before it stays buffered.
    pub fn fill<C: ContentCursorTrait<Item = I>>(&mut self, cursor: &mut C) -> (r: Result<()>)
        requires
            old(self).wf(),
            old(cursor).wf(),
        ensures
            final(self).wf(),
            final(cursor).wf(),
            final(self).buffered().len() <= MAX_QUEUE_SIZE,
            final(self).anchor() == old(self).anchor(),
            final(self).finished() == old(self).finished(),
            final(self).released() == old(self).released(),
            old(self).buffered().is_prefix_of(final(self).buffered()),
            !old(self).wants_more() ==> r is Ok && final(self).same_as(old(self)),
            r is Ok ==> !final(self).wants_more(),
            r is Err ==> final(self).source_ended() == old(self).source_ended(),
            final(self).source_ended() && !old(self).source_ended() ==> final(cursor).at_end(),
            !old(self).wants_more() ==> *final(cursor) == *old(cursor),
            (final(self).buffered().len() > old(self).buffered().len() && seek_floor(old(cursor).last_seek())
                is Some) ==> final(self).buffered()[old(self).buffered().len() as int].offset()@
                >= seek_floor(old(cursor).last_seek()).unwrap()@,
    {
        while self.wants_more()
            invariant
                self.wf(),
                cursor.wf(),
                self.anchor() == old(self).anchor(),
                self.finished() == old(self).finished(),
                self.released() == old(self).released(),
                old(self).buffered().is_prefix_of(self.buffered()),
                !old(self).wants_more() ==> self.same_as(old(self)),
                self.source_ended() && !old(self).source_ended() ==> cursor.at_end(),
                !old(self).wants_more() ==> *cursor == *old(cursor),
                self.buffered().len() == old(self).buffered().len() ==> self.source_ended()
                    || cursor.last_seek() == old(cursor).last_seek(),
                (self.buffered().len() > old(self).buffered().len() && seek_floor(old(cursor).last_seek())
                    is Some) ==> self.buffered()[old(self).buffered().len() as int].offset()@
                    >= seek_floor(old(cursor).last_seek()).unwrap()@,
            decreases
                MAX_QUEUE_SIZE - self.buffered().len() + (if self.source_ended() {
                    0int
                } else {
                    1int
                }),
        {
            let outcome = cursor.read();
            match self.accept(outcome) {
                Ok(()) => {},
                Err(e) => {
                    return Err(e);
                },
            }
        }
        Ok(())
    }

    /// The emit phase: takes the oldest buffered unit and says when it is
    /// due. The first unit of a session is due at `now` and fixes the anchor;
    /// every later unit is due as far after the anchor's instant as it is
    /// presented after the anchor's offset. With nothing buffered, the answer
    /// is the end marker, once, when the source has ended, and `Idle`
    /// otherwise.
    pub fn emit(&mut self, now: Timestamp) -> (r: Emission<I>)
        requires
            old(self).wf(),
        ensures
            final(self).wf(),
            final(self).buffered().len() <= MAX_QUEUE_SIZE,
            final(self).pulled() == old(self).pulled(),
            final(self).source_ended() == old(self).source_ended(),
            old(self).anchor() is Some ==> final(self).anchor() == old(self).anchor(),
            match r {
                Emission::Unit { content, target_instant } => {
                    &&& old(self).buffered().len() > 0
                    &&& content == old(self).buffered()[0]
                    &&& final(self).buffered() == old(self).buffered().skip(1)
                    &&& final(self).released() == old(self).released().push(content)
                    &&& final(self).finished() == old(self).finished()
                    &&& final(self).anchor() == Some(
                        match old(self).anchor() {
                            Some(a) => a,
                            None => (Anchor { base_instant: now, base_offset: content.offset() }),
                        },
                    )
                    &&& target_instant@ == saturated(
                        final(self).anchor().unwrap().due(content.offset()),
                    )
                    &&& old(self).anchor() is None ==> target_instant == now
                },
                Emission::End => {
                    &&& old(self).buffered().len() == 0
                    &&& old(self).source_ended()
                    &&& !old(self).finished()
                    &&& final(self).finished()
                    &&& final(self).buffered() == old(self).buffered()
                    &&& final(self).released() == old(self).released()
                    &&& final(self).anchor() == old(self).anchor()
                },
                Emission::Idle => {
                    &&& old(self).buffered().len() == 0
                    &&& !old(self).source_ended() || old(self).finished()
                    &&& final(self).same_as(old(self))
                },
            },
    {
        match self.queue.pop_front() {
            Some(content) => {
                let anchor = match self.anchor {
                    Some(a) => a,
                    None => Anchor { base_instant: now, base_offset: content.offset() },
                };
                self.anchor = Some(anchor);
                let target_instant = anchor.target_instant(content.offset());
                proof {
                    if old(self).anchor is None {
                        Timestamp::lemma_view_injective(target_instant, now);
                    }
                    self.released@ = self.released@.push(content);
                    assert(self.pulled@ =~= self.released@ + self.queue@);
                    assert(self.queue@ =~= old(self).queue@.skip(1));
                }
                Emission::Unit { content, target_instant }
            },
            None => {
                if self.source_ended && !self.finished {
                    self.finished = true;
                    Emission::End
                } else {
                    Emission::Idle
                }
            },
        }
    }

    /// Forgets everything: the queue, the anchor and both end marks. What
    /// follows is a new session.
    pub fn restart(&mut self)
        ensures
            final(self).wf(),
            final(self).is_fresh(),
    {
        self.queue.clear();
        self.anchor = None;
        self.source_ended = false;
        self.finished = false;
        self.pulled = Ghost(Seq::empty());
        self.released = Ghost(Seq::empty());
    }

    /// Moves `cursor` to `timestamp`. Where the cursor agrees, everything
    /// buffered is discarded and a new session begins; where it reports a
    /// fault, the fault is handed back and the session stays as it was.
    pub fn seek<C: ContentCursorTrait<Item = I>>(
        &mut self,
        cursor: &mut C,
        timestamp: Timestamp,
        flag: Option<ContentSeekFlag>,
    ) -> (r: Result<()>)
        requires
            old(self).wf(),
            old(cursor).wf(),
        ensures
            final(self).wf(),
            final(cursor).wf(),
            r is Ok ==> final(self).is_fresh() && !final(cursor).at_end(),
            r is Ok ==> final(cursor).last_seek() == Some((timestamp, flag)),
            r is Err ==> final(self).same_as(old(self)),
    {
        let outcome = cursor.seek(timestamp, flag);
        self.settle(outcome)
    }

    /// Takes in the outcome of moving the cursor. After a move that
    /// succeeded, everything buffered is discarded and a new session begins;
    /// a fault is handed back and leaves the session as it was.
    pub fn settle(&mut self, outcome: Result<()>) -> (r: Result<()>)
        requires
            old(self).wf(),
        ensures
            final(self).wf(),
            match outcome {
                Ok(()) => r is Ok && final(self).is_fresh(),
                Err(e) => r == Err::<(), crate::result::Error>(e) && final(self).same_as(old(self)),
            },
    {
        match outcome {
            Ok(()) => {
                self.restart();
                Ok(())
            },
            Err(e) => Err(e),
        }
    }

    /// The queue never holds more than `MAX_QUEUE_SIZE` units.
    pub proof fn law_queue_bound(&self)
        requires
            self.wf(),
        ensures
            self.buffered().len() <= MAX_QUEUE_SIZE,
    {
    }

    /// The anchor is taken from the first unit handed out, and from no other:
    /// it is there once a unit has been handed out, not before, and its
    /// offset is that unit's presentation timestamp.
    pub proof fn law_anchor_is_first_unit(&self)
        requires
            self.wf(),
        ensures
            self.anchor() is Some <==> self.released().len() > 0,
            self.anchor() matches Some(a) ==> a.base_offset == self.released()[0].offset(),
    {
    }

    /// Units leave in the order in which they were read: what has been
    /// handed out is the beginning of what has been read, and what is
    /// buffered is the rest.
    pub proof fn law_first_in_first_out(&self)
        requires
            self.wf(),
        ensures
            self.released().is_prefix_of(self.pulled()),
            self.pulled() == self.released() + self.buffered(),
    {
        assert(self.pulled().subrange(0, self.released().len() as int) =~= self.released());
    }

    /// Where the units read never step back in presentation time, neither
    /// do the units handed out.
    pub proof fn law_emission_order(&self)
        requires
            self.wf(),
            nondecreasing(self.pulled()),
        ensures
            nondecreasing(self.released()),
    {
        assert forall|i: int, j: int| 0 <= i <= j < self.released().len() implies (
        #[trigger] self.released()[i]).offset()@ <= (#[trigger] self.released()[j]).offset()@ by {
            assert(self.pulled()[i] == self.released()[i]);
            assert(self.pulled()[j] == self.released()[j]);
        }
    }
}

} // verus!
