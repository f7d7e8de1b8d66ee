//! One decoded, timestamped unit of media.

use crate::timestamp::Timestamp;
use vstd::prelude::*;

verus! {

/// Marks a type that can be carried as the item of a [`Content`].
pub trait InnerContent {

}

/// One decoded item together with the time at which it is to be presented
/// and the time for which it lasts.
pub struct Content<I> {
    item: I,
    offset: Timestamp,
    duration: Timestamp,
}

impl<I> Content<I> {
    /// The unit made of exactly these three parts.
    pub closed spec fn spec_new(item: I, offset: Timestamp, duration: Timestamp) -> Content<I> {
        Content { item, offset, duration }
    }

    /// The decoded item.
    pub closed spec fn spec_item(&self) -> I {
        self.item
    }

    /// The presentation timestamp.
    pub closed spec fn spec_offset(&self) -> Timestamp {
        self.offset
    }

    /// The time for which the unit lasts.
    pub closed spec fn spec_duration(&self) -> Timestamp {
        self.duration
    }

    /// The parts of a unit are the ones it was made of.
    pub broadcast proof fn lemma_new(item: I, offset: Timestamp, duration: Timestamp)
        ensures
            (#[trigger] Self::spec_new(item, offset, duration)).spec_item() == item,
            Self::spec_new(item, offset, duration).spec_offset() == offset,
            Self::spec_new(item, offset, duration).spec_duration() == duration,
    {
    }

    /// The decoded item.
    pub fn item(&self) -> (r: &I)
        ensures
            *r == self.spec_item(),
    {
        &self.item
    }

    /// The decoded item, to be changed in place. The timestamps stay.
    pub fn item_mut(&mut self) -> (r: &mut I)
        ensures
            *r == old(self).spec_item(),
            *final(self) == Self::spec_new(
                *final(r),
                old(self).spec_offset(),
                old(self).spec_duration(),
            ),
    {
        &mut self.item
    }

    /// The presentation timestamp: where on its stream's timeline the unit
    /// is to be presented.
    #[verifier::when_used_as_spec(spec_offset)]
    pub fn offset(&self) -> (r: Timestamp)
        ensures
            r == self.spec_offset(),
    {
        self.offset
    }

    /// The time for which the unit lasts.
    #[verifier::when_used_as_spec(spec_duration)]
    pub fn duration(&self) -> (r: Timestamp)
        ensures
            r == self.spec_duration(),
    {
        self.duration
    }

    /// The unit that holds `item`, is presented at `offset` and lasts
    /// `duration`.
    pub fn new(item: I, offset: Timestamp, duration: Timestamp) -> (r: Self)
        ensures
            r == Self::spec_new(item, offset, duration),
            r.spec_item() == item,
            r.offset() == offset,
            r.duration() == duration,
    {
        Self { item, offset, duration }
    }

    /// The same item and duration, presented at `offset` instead.
    pub fn with_offset(self, offset: Timestamp) -> (r: Self)
        ensures
            r == Self::spec_new(self.spec_item(), offset, self.duration()),
    {
        Self { item: self.item, offset, duration: self.duration }
    }
}

} // verus!
