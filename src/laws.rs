//! Properties of the clustering engine over whole streams of events, stated
//! over the models that `Collector::receive` is specified with.
use crate::event_collector::{
    collector_step, empty_collector, CollectorView, ElementView, EventView, KeyState, StateView,
    CLUSTER_INTERVAL_LIMIT_MS,
};
use crate::timestamp::within_window;
use vstd::prelude::*;

verus! {

/// The state of a fresh collector after it has received `events` in order.
pub open spec fn after_receiving(events: Seq<EventView>) -> CollectorView
    decreases events.len(),
{
    if events.len() == 0 {
        empty_collector()
    } else {
        collector_step(after_receiving(events.drop_last()), events.last())
    }
}

/// `e` is a key press.
pub open spec fn is_press(e: EventView) -> bool {
    e.state == KeyState::Down
}

/// `t` lies inside the engine's window opened at `anchor`.
pub open spec fn in_engine_window(anchor: nat, t: nat) -> bool {
    within_window(anchor, t, CLUSTER_INTERVAL_LIMIT_MS as nat)
}

/// A burst of presses with strictly increasing timestamps, all within the
/// window of the first one, produces no output: every press stays pending,
/// in arrival order.
pub proof fn lemma_burst_stays_pending(events: Seq<EventView>)
    requires
        forall|i: int| 0 <= i < events.len() ==> is_press(#[trigger] events[i]),
        forall|i: int, j: int| 0 <= i < j < events.len() ==> events[i].time < events[j].time,
        forall|i: int|
            0 <= i < events.len() ==> in_engine_window(events[0].time, #[trigger] events[i].time),
    ensures
        after_receiving(events).elements.len() == 0,
        after_receiving(events).pending.members == events,
        after_receiving(events).pending.members.len() == events.len(),
    decreases events.len(),
{
    if events.len() > 0 {
        let prefix = events.drop_last();
        assert forall|i: int| 0 <= i < prefix.len() implies in_engine_window(
            prefix[0].time,
            #[trigger] prefix[i].time,
        ) by {
            assert(prefix[i] == events[i]);
        }
        lemma_burst_stays_pending(prefix);
        assert(prefix.push(events.last()) =~= events);
    }
}

/// A press followed by a second press that comes later than the window
/// allows: the first is rejected as a singleton, and the log holds both as
/// standalone keys, nothing stays pending.
pub proof fn lemma_lone_press_is_rejected(first: EventView, second: EventView)
    requires
        is_press(first),
        is_press(second),
        !in_engine_window(first.time, second.time),
    ensures
        after_receiving(seq![first, second]).pending.members.len() == 0,
        after_receiving(seq![first, second]).pending.state == StateView::Rejected(
            seq![ElementView::Key(first)],
        ),
        after_receiving(seq![first, second]).elements == seq![
            ElementView::Key(first),
            ElementView::Key(second),
        ],
{
    let events = seq![first, second];
    let empty = Seq::<EventView>::empty();
    assert(seq![first].drop_last() =~= empty);
    assert(after_receiving(empty) == empty_collector());
    let one = after_receiving(seq![first]);
    assert(one == collector_step(empty_collector(), first));
    assert(one.pending.members =~= seq![first]);
    assert(one.elements =~= empty_collector().elements);
    assert(events.drop_last() =~= seq![first]);
    assert(after_receiving(events) == collector_step(one, second));
    assert(after_receiving(events).elements =~= seq![
        ElementView::Key(first),
        ElementView::Key(second),
    ]);
}

/// Two presses inside the window followed by a press outside it: the two
/// form a cluster, which is logged before the third as a standalone key, and
/// nothing stays pending.
pub proof fn lemma_pair_forms_cluster(first: EventView, second: EventView, third: EventView)
    requires
        is_press(first),
        is_press(second),
        is_press(third),
        in_engine_window(first.time, second.time),
        !in_engine_window(first.time, third.time),
    ensures
        after_receiving(seq![first, second, third]).pending.members.len() == 0,
        after_receiving(seq![first, second, third]).pending.state == StateView::Formed(
            ElementView::Cluster(seq![first, second]),
        ),
        after_receiving(seq![first, second, third]).elements == seq![
            ElementView::Cluster(seq![first, second]),
            ElementView::Key(third),
        ],
{
    let events = seq![first, second, third];
    let empty = Seq::<EventView>::empty();
    assert(seq![first].drop_last() =~= empty);
    assert(after_receiving(empty) == empty_collector());
    let one = after_receiving(seq![first]);
    assert(one == collector_step(empty_collector(), first));
    assert(one.pending.members =~= seq![first]);
    assert(one.elements =~= empty_collector().elements);
    assert(seq![first, second].drop_last() =~= seq![first]);
    let two = after_receiving(seq![first, second]);
    assert(two == collector_step(one, second));
    assert(two.pending.members =~= seq![first, second]);
    assert(events.drop_last() =~= seq![first, second]);
    assert(after_receiving(events) == collector_step(two, third));
    assert(after_receiving(events).elements =~= seq![
        ElementView::Cluster(seq![first, second]),
        ElementView::Key(third),
    ]);
}

/// An event that is not a press changes nothing: not the pending members,
/// not the outcome of the latest update, not the log.
pub proof fn lemma_non_press_changes_nothing(c: CollectorView, e: EventView)
    requires
        !is_press(e),
    ensures
        collector_step(c, e) == c,
{
}

/// However events that are not presses are interleaved with presses, and
/// whatever their timestamps, the outcome is that of the presses alone.
pub proof fn lemma_only_presses_count(events: Seq<EventView>)
    ensures
        after_receiving(events) == after_receiving(events.filter(|e: EventView| is_press(e))),
    decreases events.len(),
{
    reveal(Seq::filter);
    if events.len() > 0 {
        lemma_only_presses_count(events.drop_last());
        let kept = events.filter(|e: EventView| is_press(e));
        if is_press(events.last()) {
            assert(kept.drop_last() == events.drop_last().filter(|e: EventView| is_press(e)));
        }
    }
}

} // verus!
