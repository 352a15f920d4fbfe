use vstd::prelude::*;
use crate::bridge::{
    cancel_spec, deliver_spec, finish_driver_spec, initial, next_spec, terminal_pull, BridgeModel,
    DriverAction, Phase, Pull, StreamError,
};
use crate::event::{Notification, RawMessage, SourceEvent, TransportError};

verus! {

/// The state after handing a sequence of poll outcomes to the bridge, in order.
pub open spec fn feed(m: BridgeModel, evs: Seq<SourceEvent>) -> BridgeModel
    decreases evs.len(),
{
    if evs.len() == 0 {
        m
    } else {
        feed(deliver_spec(m, evs[0]).0, evs.drop_first())
    }
}

/// The state after `k` pulls, and what those pulls yielded, in order.
pub open spec fn run_pulls(m: BridgeModel, k: nat) -> (BridgeModel, Seq<Pull>)
    decreases k,
{
    if k == 0 {
        (m, Seq::empty())
    } else {
        let (m1, p) = next_spec(m);
        let (m2, ps) = run_pulls(m1, (k - 1) as nat);
        (m2, seq![p] + ps)
    }
}

/// The notifications among raw messages, in order.
pub open spec fn notifications_of(q: Seq<RawMessage>) -> Seq<Notification>
    decreases q.len(),
{
    if q.len() == 0 {
        Seq::empty()
    } else {
        match q[0] {
            RawMessage::Notification(n) => seq![n] + notifications_of(q.drop_first()),
            RawMessage::Other(_) => notifications_of(q.drop_first()),
        }
    }
}

/// Raw messages as successful poll outcomes.
pub open spec fn as_messages(ms: Seq<RawMessage>) -> Seq<SourceEvent> {
    ms.map_values(|r: RawMessage| SourceEvent::Message(r))
}

/// Notifications as the pulls that yield them.
pub open spec fn as_items(ns: Seq<Notification>) -> Seq<Pull> {
    ns.map_values(|n: Notification| Pull::Item(n))
}

/// `k` pulls that each yield nothing more.
pub open spec fn spent(k: nat) -> Seq<Pull> {
    Seq::new(k, |i: int| Pull::Spent)
}

proof fn lemma_feed_messages(m: BridgeModel, ms: Seq<RawMessage>)
    requires
        m.running(),
    ensures
        feed(m, as_messages(ms)) == (BridgeModel { queue: m.queue + ms, ..m }),
    decreases ms.len(),
{
    if ms.len() == 0 {
        assert(m.queue + ms =~= m.queue);
    } else {
        let m1 = BridgeModel { queue: m.queue.push(ms[0]), ..m };
        assert(as_messages(ms).drop_first() =~= as_messages(ms.drop_first()));
        lemma_feed_messages(m1, ms.drop_first());
        assert(m1.queue + ms.drop_first() =~= m.queue + ms);
    }
}

proof fn lemma_feed_push(m: BridgeModel, evs: Seq<SourceEvent>, ev: SourceEvent)
    ensures
        feed(m, evs.push(ev)) == deliver_spec(feed(m, evs), ev).0,
    decreases evs.len(),
{
    if evs.len() == 0 {
        assert(evs.push(ev).drop_first() =~= Seq::<SourceEvent>::empty());
        assert(feed(deliver_spec(m, ev).0, Seq::empty()) == deliver_spec(m, ev).0);
    } else {
        assert(evs.push(ev)[0] == evs[0]);
        assert(evs.push(ev).drop_first() =~= evs.drop_first().push(ev));
        lemma_feed_push(deliver_spec(m, evs[0]).0, evs.drop_first(), ev);
    }
}

/// A pull hands out the first buffered notification and leaves the rest, or,
/// with none buffered, acts as on an empty queue.
proof fn lemma_next_skips(m: BridgeModel)
    ensures
        notifications_of(m.queue).len() > 0 ==> {
            &&& next_spec(m).1 == Pull::Item(notifications_of(m.queue)[0])
            &&& next_spec(m).0.emptied() == m.emptied()
            &&& notifications_of(next_spec(m).0.queue) == notifications_of(m.queue).drop_first()
        },
        notifications_of(m.queue).len() == 0 ==> next_spec(m) == next_spec(m.emptied()),
    decreases m.queue.len(),
{
    if m.queue.len() > 0 {
        let rest = BridgeModel { queue: m.queue.drop_first(), ..m };
        lemma_next_skips(rest);
        assert(rest.emptied() == m.emptied());
        match m.queue[0] {
            RawMessage::Notification(n) => {
                assert(notifications_of(m.queue) == seq![n] + notifications_of(rest.queue));
                assert((seq![n] + notifications_of(rest.queue)).drop_first() =~= notifications_of(
                    rest.queue,
                ));
            },
            RawMessage::Other(_) => {},
        }
    } else {
        assert(m.queue =~= m.emptied().queue);
        assert(m == m.emptied());
    }
}

proof fn lemma_run_split(m: BridgeModel, a: nat, b: nat)
    ensures
        run_pulls(m, a + b).0 == run_pulls(run_pulls(m, a).0, b).0,
        run_pulls(m, a + b).1 == run_pulls(m, a).1 + run_pulls(run_pulls(m, a).0, b).1,
    decreases a,
{
    if a == 0 {
        assert(run_pulls(m, a).1 + run_pulls(m, b).1 =~= run_pulls(m, b).1);
    } else {
        let m1 = next_spec(m).0;
        lemma_run_split(m1, (a - 1) as nat, b);
        assert((a + b - 1) as nat == (a - 1) as nat + b);
        let p = next_spec(m).1;
        assert(seq![p] + (run_pulls(m1, (a - 1) as nat).1 + run_pulls(
            run_pulls(m1, (a - 1) as nat).0,
            b,
        ).1) =~= (seq![p] + run_pulls(m1, (a - 1) as nat).1) + run_pulls(
            run_pulls(m1, (a - 1) as nat).0,
            b,
        ).1);
    }
}

/// Pulling as many times as there are buffered notifications yields exactly
/// those, in order, and leaves a state that pulls as an emptied one.
proof fn lemma_drain(m: BridgeModel)
    ensures
        run_pulls(m, notifications_of(m.queue).len()).1 == as_items(notifications_of(m.queue)),
        next_spec(run_pulls(m, notifications_of(m.queue).len()).0) == next_spec(m.emptied()),
    decreases notifications_of(m.queue).len(),
{
    let ns = notifications_of(m.queue);
    lemma_next_skips(m);
    if ns.len() == 0 {
        assert(as_items(ns) =~= Seq::<Pull>::empty());
    } else {
        let m1 = next_spec(m).0;
        lemma_drain(m1);
        assert(m1.emptied() == m.emptied());
        assert(as_items(ns) =~= seq![Pull::Item(ns[0])] + as_items(ns.drop_first()));
    }
}

proof fn lemma_spent(m: BridgeModel, k: nat)
    requires
        m.queue.len() == 0,
        m.reported,
    ensures
        run_pulls(m, k) == (m, spent(k)),
    decreases k,
{
    if k > 0 {
        lemma_spent(m, (k - 1) as nat);
        assert(seq![Pull::Spent] + spent((k - 1) as nat) =~= spent(k));
    } else {
        assert(spent(0) =~= Seq::<Pull>::empty());
    }
}

/// Once intake has stopped, a consumer pulls every buffered notification in
/// order, then the terminal outcome once, then nothing more.
proof fn lemma_drain_to_end(m: BridgeModel, k: nat)
    requires
        !m.running(),
        !m.reported,
    ensures
        run_pulls(m, notifications_of(m.queue).len() + 1 + k).1 == as_items(
            notifications_of(m.queue),
        ) + seq![terminal_pull(m.end)] + spent(k),
{
    let n = notifications_of(m.queue).len();
    lemma_drain(m);
    lemma_run_split(m, n, 1 + k);
    let m1 = run_pulls(m, n).0;
    lemma_run_split(m1, 1, k);
    let m2 = next_spec(m.emptied()).0;
    assert(m.emptied().queue.len() == 0);
    assert(next_spec(m.emptied()) == (BridgeModel { reported: true, ..m.emptied() }, terminal_pull(m.end)));
    assert(next_spec(m1) == next_spec(m.emptied()));
    assert(run_pulls(m2, 0) == (m2, Seq::<Pull>::empty()));
    assert(run_pulls(m1, 1).1 =~= seq![terminal_pull(m.end)]);
    assert(run_pulls(m1, 1).0 == m2);
    lemma_spent(m2, k);
    assert(as_items(notifications_of(m.queue)) + (seq![terminal_pull(m.end)] + spent(k))
        =~= as_items(notifications_of(m.queue)) + seq![terminal_pull(m.end)] + spent(k));
}

/// Whatever messages a freshly subscribed bridge takes in, its consumer pulls
/// exactly the notifications among them, unchanged and in arrival order; no
/// other message is ever surfaced, and the next pull finds nothing waiting.
pub proof fn law_stream_yields_notifications_in_order(channel: Seq<char>, ms: Seq<RawMessage>)
    ensures
        ({
            let m = feed(initial(channel), as_messages(ms));
            let (after, pulled) = run_pulls(m, notifications_of(ms).len());
            &&& pulled == as_items(notifications_of(ms))
            &&& next_spec(after).1 == Pull::Pending
        }),
{
    lemma_feed_messages(initial(channel), ms);
    let m = feed(initial(channel), as_messages(ms));
    assert(m.queue =~= ms);
    lemma_drain(m);
}

/// When the source reports a clean close after some messages, the consumer
/// pulls the notifications among them in order, then one end of stream, then
/// never a value again.
pub proof fn law_end_of_stream_once(channel: Seq<char>, ms: Seq<RawMessage>, k: nat)
    ensures
        run_pulls(
            feed(initial(channel), as_messages(ms).push(SourceEvent::Closed)),
            notifications_of(ms).len() + 1 + k,
        ).1 == as_items(notifications_of(ms)) + seq![Pull::EndOfStream] + spent(k),
{
    lemma_feed_messages(initial(channel), ms);
    lemma_feed_push(initial(channel), as_messages(ms), SourceEvent::Closed);
    let m = feed(initial(channel), as_messages(ms).push(SourceEvent::Closed));
    assert(m.queue =~= ms);
    lemma_drain_to_end(m, k);
}

/// When the source fails after some messages, the consumer pulls the
/// notifications among them in order, then one error carrying the failure,
/// then never a value again.
pub proof fn law_error_after_delivered(
    channel: Seq<char>,
    ms: Seq<RawMessage>,
    e: TransportError,
    k: nat,
)
    ensures
        run_pulls(
            feed(initial(channel), as_messages(ms).push(SourceEvent::Error(e))),
            notifications_of(ms).len() + 1 + k,
        ).1 == as_items(notifications_of(ms)) + seq![Pull::Failed(StreamError::Transport(e))]
            + spent(k),
{
    lemma_feed_messages(initial(channel), ms);
    lemma_feed_push(initial(channel), as_messages(ms), SourceEvent::Error(e));
    let m = feed(initial(channel), as_messages(ms).push(SourceEvent::Error(e)));
    assert(m.queue =~= ms);
    lemma_drain_to_end(m, k);
}

/// After a cancellation the polling side is told to stop on whatever it
/// delivers next, and no outcome handed in afterwards changes the bridge: no
/// message enters the channel.
pub proof fn law_cancel_stops_intake(m: BridgeModel, evs: Seq<SourceEvent>)
    ensures
        !cancel_spec(m).running(),
        feed(cancel_spec(m), evs) == cancel_spec(m),
        forall|ev: SourceEvent|
            #[trigger] deliver_spec(cancel_spec(m), ev) == (cancel_spec(m), DriverAction::Stop),
    decreases evs.len(),
{
    if evs.len() > 0 {
        law_cancel_stops_intake(m, evs.drop_first());
    }
}

/// Cancelling twice leaves the same state as cancelling once.
pub proof fn law_cancel_idempotent(m: BridgeModel)
    ensures
        cancel_spec(cancel_spec(m)) == cancel_spec(m),
        cancel_spec(m).phase() != Phase::Active,
{
}

/// Shutdown is one-way: once intake has stopped no operation restarts it,
/// and a closed bridge stays closed.
pub proof fn law_shutdown_is_final(m: BridgeModel, ev: SourceEvent)
    requires
        !m.running(),
    ensures
        !deliver_spec(m, ev).0.running(),
        !cancel_spec(m).running(),
        !finish_driver_spec(m).running(),
        !next_spec(m).0.running(),
        m.phase() == Phase::Closed ==> {
            &&& deliver_spec(m, ev).0.phase() == Phase::Closed
            &&& cancel_spec(m).phase() == Phase::Closed
            &&& finish_driver_spec(m).phase() == Phase::Closed
            &&& next_spec(m).0.phase() == Phase::Closed
        },
{
    lemma_next_keeps_flags(m);
}

/// A pull changes neither how intake ended nor whether the polling side
/// exited, and never takes back a reported outcome.
proof fn lemma_next_keeps_flags(m: BridgeModel)
    ensures
        next_spec(m).0.end == m.end,
        next_spec(m).0.cancelled == m.cancelled,
        next_spec(m).0.driver_exited == m.driver_exited,
        m.reported ==> next_spec(m).0.reported,
    decreases m.queue.len(),
{
    if m.queue.len() > 0 {
        lemma_next_keeps_flags(BridgeModel { queue: m.queue.drop_first(), ..m });
    }
}

} // verus!
