//! What a decoding cursor keeps between two reads: the units it has decoded
//! ahead, whether its stream has ended, and what its last seek promised.
//!
//! A decoder often yields several units for one packet, or none. A cursor
//! built on a `LookAhead` puts whatever the decoder yields in, and reads out
//! one unit at a time. The end of the stream, once noted, stays noted until
//! the cursor is moved; a move discards everything decoded before it; and
//! after a move to an exact position no unit from before that position comes
//! out.

use crate::content::Content;
use crate::timestamp::Timestamp;
use std::collections::VecDeque;
use vstd::prelude::*;

verus! {

broadcast use Timestamp::lemma_view;

/// What a cursor does next when it is asked for a unit.
pub enum Next<I> {
    /// Answer the read with this: a unit, or the end of the stream.
    Ready(Option<Content<I>>),
    /// Nothing is held and the stream has not ended: decode more, put in
    /// what that yields or note the end, and ask again.
    Decode,
}

/// The units decoded ahead of the reader, with the marks that go with them.
pub struct LookAhead<I> {
    cache: VecDeque<Content<I>>,
    ended: bool,
    floor: Option<Timestamp>,
}

impl<I> LookAhead<I> {
    /// The units held, oldest first.
    pub closed spec fn buffered(&self) -> Seq<Content<I>> {
        self.cache@
    }

    /// The source has nothing more to decode.
    pub closed spec fn spec_ended(&self) -> bool {
        self.ended
    }

    /// The target of the last exact seek, until a unit has come out.
    pub closed spec fn spec_floor(&self) -> Option<Timestamp> {
        self.floor
    }

    /// Nothing held will come out before the floor.
    pub open spec fn wf(&self) -> bool {
        forall|i: int| 0 <= i < self.buffered().len() ==> self.admits(#[trigger] self.buffered()[i])
    }

    /// Every read from here on reports the end of the stream.
    pub open spec fn spec_at_end(&self) -> bool {
        self.spec_ended() && self.buffered().len() == 0
    }

    /// `unit` may go in: no floor is set, or the unit does not precede it.
    pub open spec fn admits(&self, unit: Content<I>) -> bool {
        match self.spec_floor() {
            Some(t) => unit.offset()@ >= t@,
            None => true,
        }
    }

    /// A look-ahead that holds nothing, at the start of a stream.
    pub fn new() -> (r: Self)
        ensures
            r.wf(),
            r.buffered().len() == 0,
            !r.ended(),
            r.floor() is None,
    {
        LookAhead { cache: VecDeque::new(), ended: false, floor: None }
    }

    /// The number of units held.
    pub fn len(&self) -> (r: usize)
        ensures
            r == self.buffered().len(),
    {
        self.cache.len()
    }

    /// The source has nothing more to decode.
    #[verifier::when_used_as_spec(spec_ended)]
    pub fn ended(&self) -> (r: bool)
        ensures
            r == self.spec_ended(),
    {
        self.ended
    }

    /// The target of the last exact seek, until a unit has come out.
    #[verifier::when_used_as_spec(spec_floor)]
    pub fn floor(&self) -> (r: Option<Timestamp>)
        ensures
            r == self.spec_floor(),
    {
        self.floor
    }

    /// Every read from here on reports the end of the stream.
    #[verifier::when_used_as_spec(spec_at_end)]
    pub fn at_end(&self) -> (r: bool)
        ensures
            r == self.spec_at_end(),
    {
        self.ended && self.cache.len() == 0
    }

    /// Takes in a decoded unit and says whether it was kept. A unit from
    /// before the floor is dropped.
    pub fn push(&mut self, unit: Content<I>) -> (kept: bool)
        requires
            old(self).wf(),
        ensures
            final(self).wf(),
            final(self).ended() == old(self).ended(),
            final(self).floor() == old(self).floor(),
            kept == old(self).admits(unit),
            final(self).buffered() == if kept {
                old(self).buffered().push(unit)
            } else {
                old(self).buffered()
            },
    {
        let keep = match self.floor {
            Some(t) => unit.offset().as_microseconds() >= t.as_microseconds(),
            None => true,
        };
        if keep {
            self.cache.push_back(unit);
            assert forall|i: int| 0 <= i < self.buffered().len() implies self.admits(
                #[trigger] self.buffered()[i],
            ) by {
                if i < old(self).buffered().len() {
                    assert(self.buffered()[i] == old(self).buffered()[i]);
                    assert(old(self).admits(old(self).buffered()[i]));
                }
            }
        }
        keep
    }

    /// Hands out the oldest unit held. With that the floor has been
    /// answered and is lifted.
    pub fn pop(&mut self) -> (r: Option<Content<I>>)
        requires
            old(self).wf(),
        ensures
            final(self).wf(),
            final(self).ended() == old(self).ended(),
            match r {
                Some(unit) => {
                    &&& old(self).buffered().len() > 0
                    &&& unit == old(self).buffered()[0]
                    &&& final(self).buffered() == old(self).buffered().skip(1)
                    &&& final(self).floor() is None
                    &&& old(self).floor() matches Some(t) ==> unit.offset()@ >= t@
                },
                None => {
                    &&& old(self).buffered().len() == 0
                    &&& final(self).buffered() == old(self).buffered()
                    &&& final(self).floor() == old(self).floor()
                },
            },
            old(self).at_end() ==> r is None && final(self).at_end(),
    {
        let unit = self.cache.pop_front();
        if unit.is_some() {
            self.floor = None;
            assert(self.cache@ =~= old(self).cache@.skip(1));
        }
        unit
    }

    /// Decides how a read goes on. A unit held is handed out; the end of the
    /// stream is reported only where the source has ended and nothing is
    /// held; otherwise the cursor has to decode more.
    pub fn next(&mut self) -> (r: Next<I>)
        requires
            old(self).wf(),
        ensures
            final(self).wf(),
            final(self).ended() == old(self).ended(),
            match r {
                Next::Ready(Some(unit)) => {
                    &&& old(self).buffered().len() > 0
                    &&& unit == old(self).buffered()[0]
                    &&& final(self).buffered() == old(self).buffered().skip(1)
                    &&& final(self).floor() is None
                    &&& old(self).floor() matches Some(t) ==> unit.offset()@ >= t@
                },
                Next::Ready(None) => {
                    &&& old(self).at_end()
                    &&& final(self).at_end()
                    &&& final(self).floor() == old(self).floor()
                },
                Next::Decode => {
                    &&& old(self).buffered().len() == 0
                    &&& !old(self).ended()
                    &&& final(self).buffered() == old(self).buffered()
                    &&& final(self).floor() == old(self).floor()
                },
            },
    {
        match self.pop() {
            Some(unit) => Next::Ready(Some(unit)),
            None => {
                if self.ended {
                    Next::Ready(None)
                } else {
                    Next::Decode
                }
            },
        }
    }

    /// Notes that the source has nothing more to decode.
    pub fn mark_ended(&mut self)
        requires
            old(self).wf(),
        ensures
            final(self).wf(),
            final(self).ended(),
            final(self).buffered() == old(self).buffered(),
            final(self).floor() == old(self).floor(),
    {
        self.ended = true;
        assert forall|i: int| 0 <= i < self.buffered().len() implies self.admits(
            #[trigger] self.buffered()[i],
        ) by {
            assert(old(self).admits(old(self).buffered()[i]));
        }
    }

    /// Starts over after a seek: what was decoded before is discarded, the
    /// stream has not ended, and the floor is the target of the seek where
    /// the seek was exact.
    pub fn reset(&mut self, floor: Option<Timestamp>)
        ensures
            final(self).wf(),
            final(self).buffered().len() == 0,
            !final(self).ended(),
            final(self).floor() == floor,
    {
        self.cache.clear();
        self.ended = false;
        self.floor = floor;
    }
}

} // verus!
