//! The start-then-drain close protocol.
//!
//! A stream taking part in this protocol exposes a synchronous
//! begin-closing signal; completion is observed by draining: polling for
//! items, discarding each one, until the stream reports exhaustion.  A
//! failure met while draining aborts the drain and is reported verbatim.

use vstd::prelude::*;

use crate::stream::{ClosePoll, ItemPoll, Stream};

verus! {

/// The outcome of one drain pass over a script: items are discarded until
/// the first deciding event — a not-ready notice suspends the pass, a
/// failure is reported verbatim, exhaustion (or a script that has run out)
/// means the stream is closed.
pub open spec fn drain_result<T, E>(s: Seq<ItemPoll<T, E>>) -> ClosePoll<E>
    decreases s.len(),
{
    if s.len() == 0 {
        ClosePoll::Closed
    } else {
        match s[0] {
            ItemPoll::Item(_) => drain_result(s.skip(1)),
            ItemPoll::Pending => ClosePoll::Pending,
            ItemPoll::Failed(e) => ClosePoll::Failed(e),
            ItemPoll::Exhausted => ClosePoll::Closed,
        }
    }
}

/// How many script events one drain pass consumes: every discarded item
/// plus the deciding event, if any.
pub open spec fn drain_len<T, E>(s: Seq<ItemPoll<T, E>>) -> int
    decreases s.len(),
{
    if s.len() == 0 {
        0
    } else if s[0] is Item {
        1 + drain_len(s.skip(1))
    } else {
        1
    }
}

/// What one drain step decides of an observed item-poll result: an item
/// is discarded and the pass goes on; any other event ends the pass with
/// the outcome it stands for.
pub open spec fn drain_step_result<T, E>(ev: ItemPoll<T, E>) -> Option<ClosePoll<E>> {
    match ev {
        ItemPoll::Item(_) => None,
        ItemPoll::Pending => Some(ClosePoll::Pending),
        ItemPoll::Failed(e) => Some(ClosePoll::Failed(e)),
        ItemPoll::Exhausted => Some(ClosePoll::Closed),
    }
}

/// One drain step: discard an item and keep draining, or end the pass on
/// the deciding event.
pub fn drain_step<T, E>(ev: ItemPoll<T, E>) -> (d: Option<ClosePoll<E>>)
    ensures
        d == drain_step_result(ev),
{
    match ev {
        ItemPoll::Item(_) => None,
        ItemPoll::Pending => Some(ClosePoll::Pending),
        ItemPoll::Failed(e) => Some(ClosePoll::Failed(e)),
        ItemPoll::Exhausted => Some(ClosePoll::Closed),
    }
}

/// One drain pass: poll the stream for items, discarding each, until a
/// deciding event ends the pass.  Consumes exactly the discarded items and
/// the deciding event, and reports the script's drain outcome.
pub fn drain<S: Stream>(s: &mut S) -> (r: ClosePoll<S::Error>)
    ensures
        r == drain_result(S::script(old(s))),
        S::script(final(s)) == S::script(old(s)).skip(drain_len(S::script(old(s)))),
{
    let ghost orig = S::script(s);
    let ghost mut k: int = 0;
    loop
        invariant
            0 <= k,
            k + S::script(s).len() == orig.len(),
            orig == S::script(old(s)),
            S::script(s) == orig.skip(k),
            drain_result(orig) == drain_result(S::script(s)),
            drain_len(orig) == k + drain_len(S::script(s)),
        decreases S::script(s).len(),
    {
        let ghost pre = S::script(s);
        let r = S::poll_next(&mut *s);
        match drain_step(r) {
            None => {
                proof {
                    assert(orig.skip(k + 1) =~= pre.skip(1));
                    k = k + 1;
                }
            },
            Some(out) => {
                proof {
                    if pre.len() > 0 {
                        assert(orig.skip(k + 1) =~= pre.skip(1));
                    }
                }
                return out;
            },
        }
    }
}

/// The start-then-drain close capability.
///
/// `start_close` is the begin-closing signal: a synchronous edge that
/// switches the stream onto its closing script.  Completion is observed
/// through ordinary item polling; the provided `poll_close` performs the
/// whole signal-then-drain pass.
pub trait StartClose: Stream {
    /// The script this stream will follow once the begin-closing signal
    /// has been delivered.
    spec fn closing_script(&self) -> Seq<ItemPoll<Self::Item, Self::Error>>;

    /// Deliver the begin-closing signal.  Synchronous and non-suspending;
    /// afterwards the stream follows its closing script.  The signal is
    /// edge-triggered: once it has been delivered, the closing script and
    /// the live script coincide, so delivering it again — as a repeated
    /// close-poll does — changes nothing.
    fn start_close(&mut self)
        ensures
            Self::script(final(self)) == Self::closing_script(old(self)),
            Self::closing_script(final(self)) == Self::script(final(self)),
    ;

    /// Drive the close: deliver the begin-closing signal, then drain,
    /// discarding every item, until exhaustion reports success, a failure
    /// is propagated verbatim, or a not-ready notice suspends the pass.
    ///
    /// A repeated close-poll re-delivers the signal; to a stream whose
    /// closing script has followed its live script through the drain —
    /// as the scripted stream's does — that delivery is a no-op and the
    /// pass resumes where the last one stopped.  A stream that leaves
    /// closing mode while suspended restarts from its new closing script:
    /// what a suspended close means for it is type-specific.
    fn poll_close(&mut self) -> (r: ClosePoll<Self::Error>) where Self: Sized
        ensures
            r == drain_result(Self::closing_script(old(self))),
            Self::script(final(self)) == Self::closing_script(old(self)).skip(
                drain_len(Self::closing_script(old(self))),
            ),
    {
        Self::start_close(&mut *self);
        drain(self)
    }
}

impl<'a, S: StartClose> StartClose for &'a mut S {
    open spec fn closing_script(&self) -> Seq<ItemPoll<S::Item, S::Error>> {
        S::closing_script(*self)
    }

    fn start_close(&mut self) {
        S::start_close(*self)
    }
}

/// The prefix of a script that comes before its first exhaustion report.
/// This is all that remains observable of a stream once a wrapper vacates
/// it on the first exhaustion it sees.
pub open spec fn before_exhaust<T, E>(s: Seq<ItemPoll<T, E>>) -> Seq<ItemPoll<T, E>>
    decreases s.len(),
{
    if s.len() == 0 {
        s
    } else if s[0] is Exhausted {
        Seq::empty()
    } else {
        seq![s[0]] + before_exhaust(s.skip(1))
    }
}

proof fn lemma_before_exhaust_step<T, E>(s: Seq<ItemPoll<T, E>>)
    requires
        s.len() > 0,
        !(s[0] is Exhausted),
    ensures
        before_exhaust(s).len() > 0,
        before_exhaust(s)[0] == s[0],
        before_exhaust(s).skip(1) == before_exhaust(s.skip(1)),
{
    assert((seq![s[0]] + before_exhaust(s.skip(1))).skip(1) =~= before_exhaust(s.skip(1)));
}

/// Adapter granting any stream idempotent exhaustion: the stream sits in
/// an optional slot; the first exhaustion it reports vacates the slot, and
/// a vacated adapter reports exhaustion on every further poll.
pub struct Closable<S> {
    pub stream: Option<S>,
}

impl<S> From<S> for Closable<S> {
    fn from(stream: S) -> Self {
        Closable { stream: Some(stream) }
    }
}

impl<S> vstd::std_specs::convert::FromSpecImpl<S> for Closable<S> {
    open spec fn obeys_from_spec() -> bool {
        true
    }

    open spec fn from_spec(stream: S) -> Self {
        Closable { stream: Some(stream) }
    }
}

impl<S: Stream> Stream for Closable<S> {
    type Item = S::Item;

    type Error = S::Error;

    open spec fn script(&self) -> Seq<ItemPoll<S::Item, S::Error>> {
        match self.stream {
            Some(inner) => before_exhaust(S::script(&inner)),
            None => Seq::empty(),
        }
    }

    fn poll_next(&mut self) -> (r: ItemPoll<S::Item, S::Error>)
        ensures
            r is Exhausted ==> final(self).stream is None,
    {
        let slot = self.stream.take();
        match slot {
            None => ItemPoll::Exhausted,
            Some(mut inner) => {
                let ghost pre = S::script(&inner);
                let r = inner.poll_next();
                match r {
                    ItemPoll::Exhausted => ItemPoll::Exhausted,
                    other => {
                        proof {
                            lemma_before_exhaust_step(pre);
                        }
                        self.stream = Some(inner);
                        other
                    },
                }
            },
        }
    }
}

/// The asynchronous close operation of the start-then-drain protocol: an
/// exclusive borrow of a stream whose begin-closing signal has already
/// been delivered.  Each poll is one drain pass.
pub struct Close<'a, S> {
    pub stream: &'a mut S,
}

impl<'a, S: StartClose> Close<'a, S> {
    /// The item script still ahead of the borrowed stream.
    pub open spec fn script(&self) -> Seq<ItemPoll<S::Item, S::Error>> {
        S::script(self.stream)
    }

    /// One poll of the operation: a drain pass over the borrowed stream,
    /// without re-delivering the begin-closing signal.
    pub fn poll(&mut self) -> (r: ClosePoll<S::Error>)
        ensures
            r == drain_result(old(self).script()),
            final(self).script() == old(self).script().skip(drain_len(old(self).script())),
    {
        drain(&mut *self.stream)
    }
}

/// Ergonomic entry into the start-then-drain protocol: `close` delivers
/// the begin-closing signal exactly once, synchronously, and returns the
/// draining close operation.
pub trait StartCloseExt: StartClose + Sized {
    /// Deliver the begin-closing signal once, then hand back the close
    /// operation that drains the stream over an exclusive borrow.
    fn close(&mut self) -> (c: Close<'_, Self>)
        ensures
            c.script() == Self::closing_script(old(self)),
            *final(self) == *final(c.stream),
    {
        Self::start_close(&mut *self);
        Close { stream: self }
    }
}

impl<S: StartClose> StartCloseExt for S {}

proof fn lemma_before_exhaust_no_exhaust<T, E>(s: Seq<ItemPoll<T, E>>)
    ensures
        forall|i: int|
            0 <= i < before_exhaust(s).len() ==> !((#[trigger] before_exhaust(s)[i]) is Exhausted),
    decreases s.len(),
{
    if s.len() == 0 {
    } else if s[0] is Exhausted {
    } else {
        lemma_before_exhaust_no_exhaust(s.skip(1));
        assert forall|i: int|
            0 <= i < before_exhaust(s).len() implies !((#[trigger] before_exhaust(s)[i])
            is Exhausted) by {
            if i > 0 {
                assert(before_exhaust(s)[i] == before_exhaust(s.skip(1))[i - 1]);
            }
        }
    }
}

/// Law (idempotent exhaustion): the start-variant adapter never schedules
/// an exhaustion event in its script.  It therefore reports exhaustion
/// exactly when its script has run out — and by the `Stream` contract an
/// empty script stays empty, so once the adapter has reported exhaustion,
/// every later poll reports exhaustion again.
pub proof fn lemma_closable_idempotent_exhaustion<S: Stream>(c: Closable<S>)
    ensures
        forall|i: int| 0 <= i < c.script().len() ==> !((#[trigger] c.script()[i]) is Exhausted),
{
    match c.stream {
        Some(inner) => lemma_before_exhaust_no_exhaust(S::script(&inner)),
        None => {},
    }
}

/// Law (drain completeness): over a finite source holding `items` and
/// then reporting exhaustion, a drain pass discards exactly the remaining
/// items — all of them, and nothing past the exhaustion report — and
/// closes with success.  The begin-closing signal is no part of the pass:
/// draining consumes item-poll events only, so the signal delivered once
/// up front is never re-invoked.
pub proof fn lemma_drain_completeness<T, E>(items: Seq<T>)
    ensures
        drain_result::<T, E>(
            items.map_values(|t: T| ItemPoll::<T, E>::Item(t)).push(ItemPoll::Exhausted),
        ) == ClosePoll::<E>::Closed,
        drain_len::<T, E>(
            items.map_values(|t: T| ItemPoll::<T, E>::Item(t)).push(ItemPoll::Exhausted),
        ) == items.len() + 1,
    decreases items.len(),
{
    let s = items.map_values(|t: T| ItemPoll::<T, E>::Item(t)).push(ItemPoll::Exhausted);
    if items.len() == 0 {
        assert(s[0] is Exhausted);
    } else {
        lemma_drain_completeness::<T, E>(items.skip(1));
        assert(s[0] == ItemPoll::<T, E>::Item(items[0]));
        assert(s.skip(1) =~= items.skip(1).map_values(|t: T| ItemPoll::<T, E>::Item(t)).push(
            ItemPoll::Exhausted,
        ));
    }
}

/// Law (drain completeness, natural end): over a script of items alone —
/// the shape the start-variant adapter exposes for a finite source — a
/// drain pass discards all of the items and closes with success when the
/// script runs out.
pub proof fn lemma_drain_completeness_natural<T, E>(items: Seq<T>)
    ensures
        drain_result::<T, E>(items.map_values(|t: T| ItemPoll::<T, E>::Item(t)))
            == ClosePoll::<E>::Closed,
        drain_len::<T, E>(items.map_values(|t: T| ItemPoll::<T, E>::Item(t))) == items.len(),
    decreases items.len(),
{
    let s = items.map_values(|t: T| ItemPoll::<T, E>::Item(t));
    if items.len() > 0 {
        lemma_drain_completeness_natural::<T, E>(items.skip(1));
        assert(s[0] == ItemPoll::<T, E>::Item(items[0]));
        assert(s.skip(1) =~= items.skip(1).map_values(|t: T| ItemPoll::<T, E>::Item(t)));
    }
}

/// Law (fail-fast): if, `k` items into a drain pass, the next poll
/// reports failure `f`, the pass reports exactly `f` and consumes nothing
/// past the failure — the events behind it are never polled.
pub proof fn lemma_drain_fail_fast<T, E>(s: Seq<ItemPoll<T, E>>, k: int, f: E)
    requires
        0 <= k < s.len(),
        forall|i: int| 0 <= i < k ==> (#[trigger] s[i]) is Item,
        s[k] == ItemPoll::<T, E>::Failed(f),
    ensures
        drain_result(s) == ClosePoll::<E>::Failed(f),
        drain_len(s) == k + 1,
    decreases k,
{
    if k > 0 {
        assert(s[0] is Item);
        assert forall|i: int| 0 <= i < k - 1 implies (#[trigger] s.skip(1)[i]) is Item by {
            assert(s.skip(1)[i] == s[i + 1]);
        }
        assert(s.skip(1)[k - 1] == s[k]);
        lemma_drain_fail_fast(s.skip(1), k - 1, f);
    }
}

/// Law (delegation equivalence, exclusive borrow): a borrow relays the
/// capability to its referent unchanged — the scripts seen through the
/// borrow are the referent's own, so the contracts force every poll
/// through the borrow to report what the referent itself would.
pub proof fn lemma_borrow_delegation<'a, S: StartClose>(b: &'a mut S)
    ensures
        <&'a mut S as Stream>::script(&b) == S::script(old(b)),
        <&'a mut S as StartClose>::closing_script(&b) == S::closing_script(old(b)),
{
}

} // verus!
