//! The item-production capability and its polling model.
//!
//! A stream is modelled by the ordered sequence of poll results it will
//! hand out — its *script*.  Each call to `poll_next` delivers the head of
//! the script and leaves the tail; a stream whose script has run out has
//! settled into permanent exhaustion.

use vstd::prelude::*;

verus! {

/// One result of polling a stream for its next item.
#[derive(Clone, Copy, Debug, PartialEq, Eq)]
pub enum ItemPoll<T, E> {
    /// No progress yet; the caller should poll again later.
    Pending,
    /// The next item of the sequence.
    Item(T),
    /// The stream reports a failure in place of an item.
    Failed(E),
    /// The stream has no further items.
    Exhausted,
}

/// One result of polling a close operation.
#[derive(Clone, Copy, Debug, PartialEq, Eq)]
pub enum ClosePoll<E> {
    /// The shutdown has not completed yet; poll again later.
    Pending,
    /// The stream has reached its terminal, shut-down state.
    Closed,
    /// The shutdown observed a failure and stopped.
    Failed(E),
}

/// A cooperative producer of items, each poll yielding an item, a failure,
/// a not-ready notice, or exhaustion.
///
/// The model is the `script`: the exact sequence of results future polls
/// will produce.  Once the script is empty the stream is settled and every
/// further poll reports exhaustion.
pub trait Stream {
    type Item;
    type Error;

    /// The results the coming polls will produce, in order.
    spec fn script(&self) -> Seq<ItemPoll<Self::Item, Self::Error>>;

    /// Attempt to produce the next item.
    fn poll_next(&mut self) -> (r: ItemPoll<Self::Item, Self::Error>)
        ensures
            Self::script(old(self)).len() == 0 ==> r is Exhausted
                && Self::script(final(self)) == Self::script(old(self)),
            Self::script(old(self)).len() > 0 ==> r == Self::script(old(self))[0]
                && Self::script(final(self)) == Self::script(old(self)).skip(1),
    ;
}

impl<'a, S: Stream> Stream for &'a mut S {
    type Item = S::Item;

    type Error = S::Error;

    open spec fn script(&self) -> Seq<ItemPoll<S::Item, S::Error>> {
        S::script(*self)
    }

    fn poll_next(&mut self) -> (r: ItemPoll<S::Item, S::Error>) {
        S::poll_next(*self)
    }
}

} // verus!
