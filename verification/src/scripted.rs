//! An in-memory stream that follows a script written out in advance.
//!
//! The scripted stream makes the protocols concrete: it produces exactly
//! the item-poll results listed in `events`, switches to `on_close` when
//! the begin-closing signal arrives, and answers close-polls from
//! `close_polls`.  It is the crate's reference implementer of every
//! capability and the item source of the executable scenarios.

use vstd::prelude::*;

use crate::poll::PollClose;
use crate::start::StartClose;
use crate::stream::{ClosePoll, ItemPoll, Stream};

verus! {

/// A stream whose item production and begin-closing behaviour are written
/// out in advance; the reference implementer of the start-then-drain
/// protocol.
pub struct ScriptedStream<T, E> {
    /// The item-poll results still to be produced, front first.
    pub events: Vec<ItemPoll<T, E>>,
    /// The item-poll results to switch to when the begin-closing signal
    /// arrives.
    pub on_close: Vec<ItemPoll<T, E>>,
    /// Whether the begin-closing signal has been delivered.  A closing
    /// stream follows `events` to the end; re-delivering the signal to it
    /// changes nothing.
    pub closing: bool,
}

impl<T, E> Stream for ScriptedStream<T, E> {
    type Item = T;

    type Error = E;

    open spec fn script(&self) -> Seq<ItemPoll<T, E>> {
        self.events@
    }

    fn poll_next(&mut self) -> (r: ItemPoll<T, E>)
        ensures
            final(self).on_close == old(self).on_close,
            final(self).closing == old(self).closing,
    {
        if self.events.len() == 0 {
            ItemPoll::Exhausted
        } else {
            let r = self.events.remove(0);
            proof {
                assert(self.events@ =~= old(self).events@.skip(1));
            }
            r
        }
    }
}

impl<T, E> StartClose for ScriptedStream<T, E> {
    open spec fn closing_script(&self) -> Seq<ItemPoll<T, E>> {
        if self.closing {
            self.events@
        } else {
            self.on_close@
        }
    }

    fn start_close(&mut self)
        ensures
            final(self).closing,
            final(self).on_close == old(self).on_close || final(self).on_close@.len() == 0,
    {
        if !self.closing {
            core::mem::swap(&mut self.events, &mut self.on_close);
            self.on_close.clear();
            self.closing = true;
        }
    }
}

/// A stream with a written-out shutdown sequence; the reference
/// implementer of the poll-driven close protocol.
pub struct ScriptedCloser<T, E> {
    /// The item-poll results still to be produced, front first.
    pub events: Vec<ItemPoll<T, E>>,
    /// The close-poll results still to be produced, front first.
    pub close_polls: Vec<ClosePoll<E>>,
}

impl<T, E> Stream for ScriptedCloser<T, E> {
    type Item = T;

    type Error = E;

    open spec fn script(&self) -> Seq<ItemPoll<T, E>> {
        self.events@
    }

    fn poll_next(&mut self) -> (r: ItemPoll<T, E>)
        ensures
            final(self).close_polls == old(self).close_polls,
    {
        if self.events.len() == 0 {
            ItemPoll::Exhausted
        } else {
            let r = self.events.remove(0);
            proof {
                assert(self.events@ =~= old(self).events@.skip(1));
            }
            r
        }
    }
}

impl<T, E> PollClose for ScriptedCloser<T, E> {
    open spec fn close_script(&self) -> Seq<ClosePoll<E>> {
        self.close_polls@
    }

    fn poll_close(&mut self) -> (r: ClosePoll<E>)
        ensures
            final(self).events == old(self).events,
    {
        if self.close_polls.len() == 0 {
            ClosePoll::Closed
        } else {
            let r = self.close_polls.remove(0);
            proof {
                assert(self.close_polls@ =~= old(self).close_polls@.skip(1));
            }
            r
        }
    }
}

} // verus!
