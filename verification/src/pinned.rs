//! A stable, non-relocatable handle to a stream.
//!
//! An in-progress close operation must be able to assume that the stream
//! it works on stays put.  `Pinned` models the pinned exclusive pointer of
//! the protocols' delegation layer: it holds its stream in a heap slot and
//! never hands the value back out, so the slot stays stable for as long as
//! the handle lives.  Every capability of the stream is delegated through
//! the handle unchanged.

use vstd::prelude::*;

use crate::poll::PollClose;
use crate::start::StartClose;
use crate::stream::{ClosePoll, ItemPoll, Stream};

verus! {

/// A pinned exclusive pointer to a stream: owns the stream in a stable
/// heap slot and relays every capability to it.
pub struct Pinned<S> {
    inner: Box<S>,
}

impl<S> Pinned<S> {
    /// Move the stream into a stable heap slot.
    pub fn new(stream: S) -> (p: Self)
        ensures
            p.pinned() == stream,
    {
        Pinned { inner: Box::new(stream) }
    }

    /// The stream held in the slot.
    pub closed spec fn pinned(&self) -> S {
        *self.inner
    }
}

impl<S: Stream> Stream for Pinned<S> {
    type Item = S::Item;

    type Error = S::Error;

    open spec fn script(&self) -> Seq<ItemPoll<S::Item, S::Error>> {
        S::script(&self.pinned())
    }

    fn poll_next(&mut self) -> (r: ItemPoll<S::Item, S::Error>) {
        S::poll_next(&mut self.inner)
    }
}

impl<S: PollClose> PollClose for Pinned<S> {
    open spec fn close_script(&self) -> Seq<ClosePoll<S::Error>> {
        S::close_script(&self.pinned())
    }

    fn poll_close(&mut self) -> (r: ClosePoll<S::Error>) {
        S::poll_close(&mut self.inner)
    }
}

impl<S: StartClose> StartClose for Pinned<S> {
    open spec fn closing_script(&self) -> Seq<ItemPoll<S::Item, S::Error>> {
        S::closing_script(&self.pinned())
    }

    fn start_close(&mut self) {
        S::start_close(&mut self.inner)
    }
}

/// Law (delegation equivalence, pinned handle): the handle relays every
/// capability to the stream in its slot unchanged — the scripts seen
/// through the handle are the stream's own, so the contracts force every
/// poll through the handle to report what the stream itself would.
pub proof fn lemma_pinned_delegation<S: PollClose + StartClose>(p: Pinned<S>)
    ensures
        p.script() == S::script(&p.pinned()),
        p.close_script() == S::close_script(&p.pinned()),
        p.closing_script() == S::closing_script(&p.pinned()),
{
}

} // verus!
