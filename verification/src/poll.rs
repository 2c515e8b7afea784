//! The poll-driven close protocol.
//!
//! A stream taking part in this protocol exposes an explicit close-poll:
//! each poll advances an internal shutdown sequence and reports not-ready,
//! success, or a failure of the stream's own failure type.  The shutdown
//! is modelled by its close script — the ordered results the coming
//! close-polls will produce; a stream whose close script has run out has
//! settled into its closed state.

use vstd::prelude::*;

use crate::stream::{ClosePoll, ItemPoll, Stream};

verus! {

/// The pollable close capability.
pub trait PollClose: Stream {
    /// The results the coming close-polls will produce, in order.
    spec fn close_script(&self) -> Seq<ClosePoll<Self::Error>>;

    /// Advance the shutdown sequence by one step.  On a settled stream —
    /// one whose close script has run out — a close-poll is a no-op: it
    /// reports success and leaves the item script untouched.
    fn poll_close(&mut self) -> (r: ClosePoll<Self::Error>)
        ensures
            Self::close_script(old(self)).len() == 0 ==> r is Closed
                && Self::close_script(final(self)) == Self::close_script(old(self))
                && Self::script(final(self)) == Self::script(old(self)),
            Self::close_script(old(self)).len() > 0 ==> r == Self::close_script(old(self))[0]
                && Self::close_script(final(self)) == Self::close_script(old(self)).skip(1),
    ;
}

impl<'a, S: PollClose> PollClose for &'a mut S {
    open spec fn close_script(&self) -> Seq<ClosePoll<S::Error>> {
        S::close_script(*self)
    }

    fn poll_close(&mut self) -> (r: ClosePoll<S::Error>) {
        S::poll_close(*self)
    }
}

/// Adapter granting any stream the pollable close capability: item polls
/// forward unchanged, and the close-poll reports immediate success, since
/// the wrapped stream declares no shutdown sequence of its own.
pub struct Closable<S> {
    pub stream: S,
}

impl<S> From<S> for Closable<S> {
    fn from(stream: S) -> Self {
        Closable { stream }
    }
}

impl<S> vstd::std_specs::convert::FromSpecImpl<S> for Closable<S> {
    open spec fn obeys_from_spec() -> bool {
        true
    }

    open spec fn from_spec(stream: S) -> Self {
        Closable { stream }
    }
}

impl<S: Stream> Stream for Closable<S> {
    type Item = S::Item;

    type Error = S::Error;

    open spec fn script(&self) -> Seq<ItemPoll<S::Item, S::Error>> {
        S::script(&self.stream)
    }

    fn poll_next(&mut self) -> (r: ItemPoll<S::Item, S::Error>) {
        S::poll_next(&mut self.stream)
    }
}

impl<S: Stream> PollClose for Closable<S> {
    /// The adapter is already closed by definition: its close script is
    /// empty.
    open spec fn close_script(&self) -> Seq<ClosePoll<S::Error>> {
        Seq::empty()
    }

    /// A close-poll of the adapter reports immediate success and leaves
    /// the wrapped stream untouched, however many items remain.
    fn poll_close(&mut self) -> (r: ClosePoll<S::Error>)
        ensures
            r is Closed,
            final(self).stream == old(self).stream,
    {
        ClosePoll::Closed
    }
}

/// The asynchronous close operation of the poll-driven protocol: an
/// exclusive borrow of the stream, each poll forwarding directly to the
/// stream's own close-poll.
pub struct Close<'a, S> {
    pub stream: &'a mut S,
}

impl<'a, S: PollClose> Close<'a, S> {
    /// The close script still ahead of the borrowed stream.
    pub open spec fn close_script(&self) -> Seq<ClosePoll<S::Error>> {
        S::close_script(self.stream)
    }

    /// The item script still ahead of the borrowed stream.
    pub open spec fn script(&self) -> Seq<ItemPoll<S::Item, S::Error>> {
        S::script(self.stream)
    }

    /// One poll of the operation: exactly one close-poll of the borrowed
    /// stream, with no further bookkeeping.  Over a settled stream — the
    /// adapter above is one from the start — every poll reports success
    /// at once and leaves the item script untouched.
    pub fn poll(&mut self) -> (r: ClosePoll<S::Error>)
        ensures
            old(self).close_script().len() == 0 ==> r is Closed
                && final(self).close_script() == old(self).close_script()
                && final(self).script() == old(self).script(),
            old(self).close_script().len() > 0 ==> r == old(self).close_script()[0]
                && final(self).close_script() == old(self).close_script().skip(1),
    {
        S::poll_close(&mut *self.stream)
    }
}

/// Ergonomic entry into the poll-driven protocol: the capability is
/// self-starting on its first poll, so `close` delivers no prior signal.
pub trait PollCloseExt: PollClose + Sized {
    /// Hand back the close operation over an exclusive borrow of the
    /// stream.  Construction performs no poll and delivers no signal: the
    /// stream is handed over unchanged.
    fn close(&mut self) -> (c: Close<'_, Self>)
        ensures
            *c.stream == *old(self),
            c.close_script() == Self::close_script(old(self)),
            *final(self) == *final(c.stream),
    {
        Close { stream: self }
    }
}

impl<S: PollClose> PollCloseExt for S {}

/// Law (delegation equivalence, exclusive borrow): a borrow relays the
/// capability to its referent unchanged — the scripts seen through the
/// borrow are the referent's own, so the contracts force every close-poll
/// through the borrow to report what the referent itself would.
pub proof fn lemma_borrow_delegation<'a, S: PollClose>(b: &'a mut S)
    ensures
        <&'a mut S as Stream>::script(&b) == S::script(old(b)),
        <&'a mut S as PollClose>::close_script(&b) == S::close_script(old(b)),
{
}

} // verus!
