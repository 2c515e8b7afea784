use stream_close::pinned::Pinned;
use stream_close::scripted::ScriptedStream;
use stream_close::start::{drain, Closable, StartClose, StartCloseExt};
use stream_close::stream::{ClosePoll, ItemPoll, Stream};

fn source(
    events: Vec<ItemPoll<i32, &'static str>>,
    on_close: Vec<ItemPoll<i32, &'static str>>,
) -> ScriptedStream<i32, &'static str> {
    ScriptedStream {
        events,
        on_close,
        closing: false,
    }
}

#[test]
fn scenario_finite_source_close_succeeds() {
    let mut s = source(
        vec![],
        vec![ItemPoll::Item(1), ItemPoll::Item(2), ItemPoll::Item(3)],
    );
    let mut op = s.close();
    assert_eq!(op.poll(), ClosePoll::Closed);
    assert!(s.events.is_empty());
    assert!(s.on_close.is_empty());
}

#[test]
fn close_with_nothing_left_succeeds_at_once() {
    let mut s = source(vec![ItemPoll::Item(1)], vec![]);
    let mut op = s.close();
    assert_eq!(op.poll(), ClosePoll::Closed);
}

#[test]
fn drain_through_empty_adapter_succeeds() {
    let mut c: Closable<ScriptedStream<i32, &'static str>> =
        Closable::from(source(vec![], vec![]));
    assert_eq!(drain(&mut c), ClosePoll::Closed);
}

#[test]
fn drain_consumes_items_in_order_after_signal() {
    let mut s = source(
        vec![ItemPoll::Item(9)],
        vec![ItemPoll::Item(1), ItemPoll::Item(2)],
    );
    s.start_close();
    assert_eq!(s.poll_next(), ItemPoll::Item(1));
    assert_eq!(s.poll_next(), ItemPoll::Item(2));
    assert_eq!(s.poll_next(), ItemPoll::Exhausted);
    assert_eq!(s.poll_next(), ItemPoll::Exhausted);
}

#[test]
fn scenario_failure_aborts_drain() {
    let mut s = source(
        vec![],
        vec![ItemPoll::Item(1), ItemPoll::Failed("boom"), ItemPoll::Item(3)],
    );
    let mut op = s.close();
    assert_eq!(op.poll(), ClosePoll::Failed("boom"));
    assert_eq!(s.events, vec![ItemPoll::Item(3)]);
}

#[test]
fn poll_close_signals_then_drains() {
    let mut s = source(
        vec![ItemPoll::Item(7)],
        vec![ItemPoll::Item(1), ItemPoll::Exhausted],
    );
    assert_eq!(s.poll_close(), ClosePoll::Closed);
    assert!(s.events.is_empty());
}

#[test]
fn close_operation_suspends_and_resumes() {
    let mut s = source(
        vec![],
        vec![
            ItemPoll::Item(1),
            ItemPoll::Pending,
            ItemPoll::Item(2),
            ItemPoll::Exhausted,
        ],
    );
    let mut op = s.close();
    assert_eq!(op.poll(), ClosePoll::Pending);
    assert_eq!(op.poll(), ClosePoll::Closed);
    assert!(s.events.is_empty());
}

#[test]
fn repeated_poll_close_resumes_without_loss() {
    let mut s = source(
        vec![],
        vec![ItemPoll::Item(1), ItemPoll::Pending, ItemPoll::Failed("late")],
    );
    assert_eq!(s.poll_close(), ClosePoll::Pending);
    assert_eq!(s.poll_close(), ClosePoll::Failed("late"));
}

#[test]
fn second_signal_is_a_no_op() {
    let mut s = source(vec![ItemPoll::Item(9)], vec![ItemPoll::Item(1)]);
    s.start_close();
    s.start_close();
    assert_eq!(s.poll_next(), ItemPoll::Item(1));
    assert_eq!(s.poll_next(), ItemPoll::Exhausted);
}

#[test]
fn adapter_exhaustion_is_idempotent() {
    let inner = source(
        vec![ItemPoll::Item(1), ItemPoll::Exhausted, ItemPoll::Item(2)],
        vec![],
    );
    let mut c = Closable::from(inner);
    assert_eq!(c.poll_next(), ItemPoll::Item(1));
    assert_eq!(c.poll_next(), ItemPoll::Exhausted);
    assert_eq!(c.poll_next(), ItemPoll::Exhausted);
    assert_eq!(c.poll_next(), ItemPoll::Exhausted);
    assert!(c.stream.is_none());
}

#[test]
fn adapter_forwards_faithfully_before_exhaustion() {
    let inner = source(
        vec![ItemPoll::Pending, ItemPoll::Item(4), ItemPoll::Failed("bad")],
        vec![],
    );
    let mut c = Closable::from(inner);
    assert_eq!(c.poll_next(), ItemPoll::Pending);
    assert_eq!(c.poll_next(), ItemPoll::Item(4));
    assert_eq!(c.poll_next(), ItemPoll::Failed("bad"));
    assert_eq!(c.poll_next(), ItemPoll::Exhausted);
}

#[test]
fn drain_through_adapter_closes_on_natural_end() {
    let inner = source(vec![ItemPoll::Item(1), ItemPoll::Item(2)], vec![]);
    let mut c = Closable::from(inner);
    assert_eq!(drain(&mut c), ClosePoll::Closed);
    assert!(c.stream.is_none());
}

#[test]
fn drain_through_adapter_fails_fast() {
    let inner = source(
        vec![ItemPoll::Item(1), ItemPoll::Failed("bad"), ItemPoll::Item(3)],
        vec![],
    );
    let mut c = Closable::from(inner);
    assert_eq!(drain(&mut c), ClosePoll::Failed("bad"));
    assert_eq!(c.stream.unwrap().events, vec![ItemPoll::Item(3)]);
}

#[test]
fn delegation_gives_identical_poll_results() {
    let script = || {
        source(
            vec![],
            vec![
                ItemPoll::Item(1),
                ItemPoll::Pending,
                ItemPoll::Item(2),
                ItemPoll::Exhausted,
            ],
        )
    };

    let mut s1 = script();
    let mut op1 = s1.close();
    let direct = vec![op1.poll(), op1.poll()];

    let mut s2 = script();
    let mut b = &mut s2;
    let mut op2 = b.close();
    let borrowed = vec![op2.poll(), op2.poll()];

    let mut p = Pinned::new(script());
    let mut op3 = p.close();
    let pinned = vec![op3.poll(), op3.poll()];

    assert_eq!(direct, borrowed);
    assert_eq!(direct, pinned);
}

#[test]
fn pinned_handle_forwards_items() {
    let mut p = Pinned::new(source(vec![ItemPoll::Item(5)], vec![]));
    assert_eq!(p.poll_next(), ItemPoll::Item(5));
    assert_eq!(p.poll_next(), ItemPoll::Exhausted);
}

#[test]
fn adapter_from_fills_the_slot() {
    let c = Closable::from(source(vec![ItemPoll::Item(8)], vec![]));
    assert_eq!(c.stream.unwrap().events, vec![ItemPoll::Item(8)]);
}
