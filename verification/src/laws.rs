//! What holds of the client as a whole.

use crate::background::{ids, Event, Next, PhaseView, StepView, TaskView};
use crate::dispatch::{Answer, Closed, Dispatched, DispatchedCall, Op, Reply, RetrySubscription};
use crate::handler::{HandlerEvent, HandlerStep, HandlerView, SubscriptionHandler, Then};
use crate::outside::rx_channel;
use crate::types::{Disconnect, Error, RpcError, SubscriptionResult};
use crate::utils::{wrapping_succ, EndCall, Notice};
use vstd::prelude::*;

verus! {

/// One event that the background task dealt with: what it knew before, what happened, what it
/// knew after and what it had done about it.
pub struct Turn {
    pub pre: TaskView,
    pub event: Event,
    pub post: TaskView,
    pub out: StepView,
}

impl Turn {
    /// The task went on as it does.
    pub open spec fn steps(self) -> bool {
        self.pre.steps_to(self.event, self.post, self.out)
    }
}

/// From one turn to the next, only the operations in flight change.
pub open spec fn only_pending_changes(before: TaskView, after: TaskView) -> bool {
    after == (TaskView { pending: after.pending, ..before })
}

/// The turns of a background task, one after the other.
pub open spec fn is_run(run: Seq<Turn>) -> bool {
    &&& run.len() > 0
    &&& forall|i: int|
        0 <= i < run.len() ==> {
            let turn = #[trigger] run[i];
            turn.steps()
        }
    &&& forall|i: int|
        0 < i < run.len() ==> only_pending_changes(run[i - 1].post, (#[trigger] run[i]).pre)
}

/// The operations that the task keeps, to be dispatched when there is a connection again.
pub open spec fn kept(task: TaskView) -> Seq<(usize, Op)> {
    match task.phase {
        PhaseView::Draining { dispatch } => dispatch,
        PhaseView::Connecting { dispatch } => dispatch,
        _ => Seq::empty(),
    }
}

/// The operations that an event brings to the task, each with the id that it has or gets: one
/// that a user asked for, or one that has to be tried again.
pub open spec fn brought(task: TaskView, event: Event) -> Seq<(usize, Op)> {
    match event {
        Event::Message(Some(op)) => seq![(task.id, op)],
        Event::Response(Some(Err(Closed::Retry { op, id }))) => seq![(id, op)],
        _ => Seq::empty(),
    }
}

/// All the operations that were brought to the task.
pub open spec fn all_brought(run: Seq<Turn>) -> Seq<(usize, Op)>
    decreases run.len(),
{
    if run.len() == 0 {
        Seq::empty()
    } else {
        all_brought(run.drop_last()) + brought(run.last().pre, run.last().event)
    }
}

/// All the operations that the task had dispatched.
pub open spec fn all_dispatched(run: Seq<Turn>) -> Seq<(usize, Op)>
    decreases run.len(),
{
    if run.len() == 0 {
        Seq::empty()
    } else {
        all_dispatched(run.drop_last()) + run.last().out.dispatch
    }
}

/// A part of a run is a run.
proof fn lemma_run_part(run: Seq<Turn>, start: int, end: int)
    requires
        is_run(run),
        0 <= start < end <= run.len(),
    ensures
        is_run(run.subrange(start, end)),
{
    let part = run.subrange(start, end);
    assert forall|i: int| 0 <= i < part.len() implies {
        let turn = #[trigger] part[i];
        turn.steps()
    } by {
        assert(part[i] == run[start + i]);
    }
    assert forall|i: int| 0 < i < part.len() implies only_pending_changes(
        part[i - 1].post,
        (#[trigger] part[i]).pre,
    ) by {
        assert(part[i] == run[start + i]);
        assert(part[i - 1] == run[start + i - 1]);
    }
}

/// All turns of a run but the last are a run.
proof fn lemma_run_prefix(run: Seq<Turn>)
    requires
        is_run(run),
        run.len() > 1,
    ensures
        is_run(run.drop_last()),
        run.drop_last().last() == run[run.len() - 2],
        only_pending_changes(run.drop_last().last().post, run.last().pre),
{
    lemma_run_part(run, 0, run.len() - 1);
    assert(run.drop_last() =~= run.subrange(0, run.len() - 1));
    assert(only_pending_changes(run[run.len() - 2].post, run[run.len() - 1].pre));
}

/// As long as the task is not over, an event brings an operation to it, or not, and the task
/// has dispatched, or keeps, what it kept before and that operation, in this order.
pub proof fn law_a_turn_loses_no_operation(turn: Turn)
    requires
        turn.steps(),
        !(turn.post.phase is Terminated),
    ensures
        kept(turn.pre) + brought(turn.pre, turn.event) == turn.out.dispatch + kept(turn.post),
{
    assert(kept(turn.pre) + brought(turn.pre, turn.event) =~= turn.out.dispatch + kept(turn.post));
}

/// No operation is lost, sent twice for nothing, changed or overtaken by another: as long as the
/// task is not over, the operations that it kept and those that were brought to it, by users or
/// because they have to be tried again, are those that it has dispatched, under the same ids and
/// in the same order, and then those that it keeps until there is a connection again.
pub proof fn law_no_operation_is_lost(run: Seq<Turn>)
    requires
        is_run(run),
        !(run.last().post.phase is Terminated),
    ensures
        kept(run[0].pre) + all_brought(run) == all_dispatched(run) + kept(run.last().post),
    decreases run.len(),
{
    let turn = run.last();
    assert(turn.steps());
    law_a_turn_loses_no_operation(turn);
    let start = kept(run[0].pre);
    let before = run.drop_last();
    if run.len() > 1 {
        lemma_run_prefix(run);
        law_no_operation_is_lost(before);
        assert(before[0] == run[0]);
    } else {
        assert(before.len() == 0);
        assert(start + all_brought(before) =~= all_dispatched(before) + kept(turn.pre));
    }
    assert(start + all_brought(run) =~= (start + all_brought(before)) + brought(
        turn.pre,
        turn.event,
    ));
    assert((all_dispatched(before) + kept(turn.pre)) + brought(turn.pre, turn.event)
        =~= all_dispatched(before) + (kept(turn.pre) + brought(turn.pre, turn.event)));
    assert(all_dispatched(before) + (turn.out.dispatch + kept(turn.post)) =~= all_dispatched(run)
        + kept(turn.post));
}

/// Once the connection is back, every operation that had to be tried again has been: nothing is
/// kept while the connection holds.
pub proof fn law_pending_operations_are_retransmitted(run: Seq<Turn>)
    requires
        is_run(run),
        run.last().post.phase is Running || run.last().post.phase is Resubscribing,
    ensures
        kept(run[0].pre) + all_brought(run) == all_dispatched(run),
{
    law_no_operation_is_lost(run);
    assert(all_dispatched(run) + kept(run.last().post) =~= all_dispatched(run));
}

/// How many of the turns were about a new connection.
pub open spec fn connections(run: Seq<Turn>) -> nat
    decreases run.len(),
{
    if run.len() == 0 {
        0
    } else {
        connections(run.drop_last()) + if run.last().event is Connected {
            1nat
        } else {
            0
        }
    }
}

/// Counting on by `n` from `start`, where after `usize::MAX` comes zero.
pub open spec fn counted_on(start: usize, n: nat) -> usize
    decreases n,
{
    if n == 0 {
        start
    } else {
        wrapping_succ(counted_on(start, (n - 1) as nat))
    }
}

/// Counting on does not wrap around before the end of the type.
pub proof fn law_counting_is_adding(start: usize, n: nat)
    requires
        start + n <= usize::MAX,
    ensures
        counted_on(start, n) == start + n,
    decreases n,
{
    if n > 0 {
        law_counting_is_adding(start, (n - 1) as nat);
    }
}

/// The client has reconnected once for each new connection, and never else.
pub proof fn law_reconnections_are_counted(run: Seq<Turn>)
    requires
        is_run(run),
    ensures
        run.last().post.reconnects == counted_on(run[0].pre.reconnects, connections(run)),
    decreases run.len(),
{
    let turn = run.last();
    assert(turn.steps());
    let before = run.drop_last();
    if run.len() > 1 {
        lemma_run_prefix(run);
        law_reconnections_are_counted(before);
        assert(before[0] == run[0]);
    } else {
        assert(before.len() == 0);
        assert(connections(before) == 0);
    }
    let start = run[0].pre.reconnects;
    assert(counted_on(start, connections(before) + 1) == wrapping_succ(
        counted_on(start, connections(before)),
    ));
}

/// How many of the calls, each on an end of some channel, announced a reconnection over this
/// channel.
pub open spec fn announced(calls: Seq<(int, EndCall)>, channel: int) -> nat
    decreases calls.len(),
{
    if calls.len() == 0 {
        0
    } else {
        announced(calls.drop_last(), channel) + if calls.last().0 == channel && calls.last().1
            is Reconnect {
            1nat
        } else {
            0
        }
    }
}

/// `counts` is what the sending ends of all channels have counted, before the first of the calls
/// and after each of them.
pub open spec fn counts_along(calls: Seq<(int, EndCall)>, counts: Seq<Map<int, usize>>) -> bool {
    &&& counts.len() == calls.len() + 1
    &&& forall|i: int|
        0 <= i < calls.len() ==> {
            let (channel, call) = #[trigger] calls[i];
            counts[i + 1] == counts[i].insert(channel, call.counts(counts[i][channel]))
        }
}

/// The count of a channel, which all of its ends read, is that of the reconnections that were
/// announced over it, whatever else was called on its ends, and on those of other channels, and in
/// whatever order.
pub proof fn law_every_end_reads_the_count_of_its_channel(
    calls: Seq<(int, EndCall)>,
    counts: Seq<Map<int, usize>>,
    channel: int,
)
    requires
        counts_along(calls, counts),
    ensures
        counts.last()[channel] == counted_on(counts[0][channel], announced(calls, channel)),
    decreases calls.len(),
{
    if calls.len() > 0 {
        let before = calls.drop_last();
        let shorter = counts.drop_last();
        let last = calls[calls.len() - 1];
        assert(counts.last() == counts[calls.len() as int]);
        assert forall|i: int| 0 <= i < before.len() implies {
            let (channel, call) = #[trigger] before[i];
            shorter[i + 1] == shorter[i].insert(channel, call.counts(shorter[i][channel]))
        } by {
            assert(before[i] == calls[i]);
        }
        law_every_end_reads_the_count_of_its_channel(before, shorter, channel);
        let start = counts[0][channel];
        assert(counted_on(start, announced(before, channel) + 1) == wrapping_succ(
            counted_on(start, announced(before, channel)),
        ));
    }
}

/// A notice that says how often the client has reconnected says what the task has counted.
pub proof fn law_notices_tell_the_count(turn: Turn, told: usize)
    requires
        turn.steps(),
        turn.out.notice == Some(Notice::Completed { count: told }),
    ensures
        told == turn.post.reconnects,
{
}

/// How many notices of the run say that reconnecting has started.
pub open spec fn starts(run: Seq<Turn>) -> nat
    decreases run.len(),
{
    if run.len() == 0 {
        0
    } else {
        starts(run.drop_last()) + if run.last().out.notice matches Some(Notice::Started) {
            1nat
        } else {
            0
        }
    }
}

/// How many notices of the run say that the connection is established again.
pub open spec fn completions(run: Seq<Turn>) -> nat
    decreases run.len(),
{
    if run.len() == 0 {
        0
    } else {
        completions(run.drop_last()) + if run.last().out.notice matches Some(
            Notice::Completed { .. },
        ) {
            1nat
        } else {
            0
        }
    }
}

/// The two notices take turns, and the first of each pair is that reconnecting has started: as
/// long as the task is not over, it has announced as many starts as reconnections, and one more
/// while a connection is being made.
pub proof fn law_each_reconnection_is_announced_twice(run: Seq<Turn>)
    requires
        is_run(run),
        run[0].pre.phase is Running,
        !(run.last().post.phase is Terminated),
    ensures
        starts(run) == completions(run) + if run.last().post.phase is Connecting {
            1nat
        } else {
            0
        },
        completions(run) == connections(run),
    decreases run.len(),
{
    let turn = run.last();
    assert(turn.steps());
    let before = run.drop_last();
    if run.len() > 1 {
        lemma_run_prefix(run);
        assert(before[0] == run[0]);
        law_each_reconnection_is_announced_twice(before);
    } else {
        assert(before.len() == 0);
        assert(starts(before) == 0 && completions(before) == 0 && connections(before) == 0);
    }
}

/// When no connection can be made, or a subscription cannot be re-established, the task is over:
/// nothing is dispatched or announced, and it never waits for anything again.
pub proof fn law_giving_up_is_final(turn: Turn)
    requires
        turn.steps(),
        turn.event is ConnectFailed || turn.event is ResubscribeFailed,
    ensures
        turn.out.next is Stop,
        turn.out.dispatch.len() == 0,
        turn.out.notice is None,
        turn.out.handler is None,
        forall|later: Event| !(#[trigger] turn.post.awaits(later)),
{
}

/// The task stops exactly when it is over, and what it waits for next is something that it can
/// deal with.
pub proof fn law_the_task_can_go_on(turn: Turn, later: Event)
    requires
        turn.steps(),
    ensures
        turn.pre.awaits(turn.event),
        turn.post.awaits(later) == match turn.out.next {
            Next::Select => later is Message || later is Response || later is Disconnected
                || later is SubscriptionClosed,
            Next::Response => later is Response,
            Next::Connect => later is Connected || later is ConnectFailed,
            Next::Resubscribe(_) => later is Resubscribed || later is ResubscribeFailed,
            Next::Stop => false,
        },
{
}

/// Whatever waits to be re-established is open and wants to be: that is so of a new task, and
/// stays so.
pub proof fn law_what_waits_is_open(turn: Turn)
    requires
        turn.steps(),
        turn.pre.well_formed(),
    ensures
        turn.post.well_formed(),
{
    if turn.event is Connected {
        let all = lemma_listed(turn);
        assert(forall|id: usize|
            turn.post.resubscribes(id) == #[trigger] turn.pre.resubscribes(id));
        assert forall|i: int| 0 <= i < all.len() implies {
            &&& turn.post.resubscribes((#[trigger] all[i]).id)
            &&& all[i] == turn.post.handler(all[i].id)
        } by {
            assert(ids(all)[i] == all[i].id);
            assert(ids(all).contains(all[i].id));
        }
    } else if turn.event is Resubscribed {
        let left = waiting(turn.pre);
        let rest = left.drop_last();
        assert(forall|i: int| 0 <= i < rest.len() ==> #[trigger] rest[i] == left[i]);
        assert forall|i: int, j: int|
            0 <= i < ids(rest).len() && 0 <= j < ids(rest).len() && i != j implies ids(rest)[i]
            != ids(rest)[j] by {
            assert(ids(left)[i] == ids(rest)[i]);
            assert(ids(left)[j] == ids(rest)[j]);
        }
    }
}

/// What is to be re-established over a new connection.
proof fn lemma_listed(turn: Turn) -> (all: Seq<HandlerView>)
    requires
        turn.steps(),
        turn.event is Connected,
    ensures
        turn.pre.lists_resubscriptions(all),
        waiting(turn.post) == all,
        turn.post.open == turn.pre.open,
        turn.post.phase is Running || turn.post.phase is Resubscribing,
{
    let all = choose|all: Seq<HandlerView>| #[trigger]
        turn.pre.lists_resubscriptions(all) && turn.post == (TaskView {
            reconnects: wrapping_succ(turn.pre.reconnects),
            ..turn.pre
        }).resuming(all).0;
    assert(waiting(turn.post) =~= all);
    all
}

/// No new connection is made while an operation is in flight over the old one.
pub proof fn law_no_operation_is_left_behind(turn: Turn)
    requires
        turn.steps(),
        turn.out.next is Connect,
    ensures
        turn.post.pending.len() == 0,
{
}

/// The turns from a new connection on in which subscriptions are re-established, one after the
/// other.
pub open spec fn is_resubscription(turns: Seq<Turn>) -> bool {
    &&& is_run(turns)
    &&& turns[0].event is Connected
    &&& forall|i: int| 0 < i < turns.len() ==> (#[trigger] turns[i]).event is Resubscribed
}

/// The handlers of the subscriptions that remain to be re-established.
spec fn waiting(task: TaskView) -> Seq<HandlerView> {
    match task.phase {
        PhaseView::Resubscribing { remaining } => remaining,
        _ => Seq::empty(),
    }
}

/// The handlers that were started in the run.
pub open spec fn restarted(run: Seq<Turn>) -> Seq<HandlerView>
    decreases run.len(),
{
    if run.len() == 0 {
        Seq::empty()
    } else {
        let before = restarted(run.drop_last());
        match run.last().out.handler {
            Some(handler) => before.push(handler),
            None => before,
        }
    }
}

/// The ids of the handlers that were started in the run.
pub open spec fn resubscribed_ids(run: Seq<Turn>) -> Seq<usize> {
    ids(restarted(run))
}

/// Those that were re-established and those that remain are all that have to be.
proof fn lemma_resubscription(turns: Seq<Turn>) -> (all: Seq<HandlerView>)
    requires
        is_resubscription(turns),
    ensures
        turns[0].pre.lists_resubscriptions(all),
        all == waiting(turns.last().post) + restarted(turns).reverse(),
        turns.last().post.open == turns[0].pre.open,
        turns.last().post.phase is Running || turns.last().post.phase is Resubscribing,
    decreases turns.len(),
{
    let turn = turns.last();
    assert(turn.steps());
    let before = turns.drop_last();
    if turns.len() > 1 {
        lemma_run_prefix(turns);
        assert(forall|i: int| 0 <= i < before.len() ==> #[trigger] before[i] == turns[i]);
        let all = lemma_resubscription(before);
        let left = waiting(turn.pre);
        let done = restarted(before);
        assert(turn.event is Resubscribed);
        assert(restarted(turns) =~= done.push(left.last()));
        assert(waiting(turn.post) =~= left.drop_last());
        assert(left.len() > 0) by {
            lemma_something_waits(before);
        }
        assert(all =~= left.drop_last() + done.push(left.last()).reverse());
        all
    } else {
        assert(restarted(before) =~= Seq::<HandlerView>::empty());
        let all = lemma_listed(turn);
        assert(all =~= waiting(turn.post) + restarted(turns).reverse());
        all
    }
}

/// While subscriptions are re-established, there is one to wait for.
proof fn lemma_something_waits(turns: Seq<Turn>)
    requires
        is_resubscription(turns),
    ensures
        turns.last().post.phase is Resubscribing ==> waiting(turns.last().post).len() > 0,
{
    assert(turns.last().steps());
    assert(turns.len() > 1 ==> turns[turns.len() - 1].event is Resubscribed);
}

/// When the connection holds again after it was lost, every open subscription that is
/// re-established when the connection is lost has been, once, and no other has: each has got a
/// handler that goes by its policy and sends to its user. The record of open subscriptions is as
/// it was.
pub proof fn law_subscriptions_are_reestablished(turns: Seq<Turn>)
    requires
        is_resubscription(turns),
        turns.last().post.phase is Running,
    ensures
        resubscribed_ids(turns).no_duplicates(),
        forall|id: usize| #[trigger]
            resubscribed_ids(turns).contains(id) <==> turns[0].pre.resubscribes(id),
        forall|i: int|
            0 <= i < restarted(turns).len() ==> #[trigger] restarted(turns)[i]
                == turns[0].pre.handler(restarted(turns)[i].id),
        turns.last().post.open == turns[0].pre.open,
{
    let all = lemma_resubscription(turns);
    let started = restarted(turns);
    let done = resubscribed_ids(turns);
    assert(all =~= started.reverse());
    assert(forall|i: int| 0 <= i < done.len() ==> #[trigger] done[i] == started[i].id);
    assert forall|i: int, j: int|
        0 <= i < done.len() && 0 <= j < done.len() && i != j implies done[i] != done[j] by {
        assert(ids(all)[done.len() - 1 - i] == done[i]);
        assert(ids(all)[done.len() - 1 - j] == done[j]);
    }
    assert forall|id: usize| #[trigger] done.contains(id) <==> turns[0].pre.resubscribes(id) by {
        if done.contains(id) {
            let i = choose|i: int| 0 <= i < done.len() && done[i] == id;
            assert(ids(all)[done.len() - 1 - i] == id);
            assert(ids(all).contains(id));
        }
        if ids(all).contains(id) {
            let i = choose|i: int| 0 <= i < ids(all).len() && ids(all)[i] == id;
            assert(done[done.len() - 1 - i] == id);
        }
    }
    assert forall|i: int| 0 <= i < started.len() implies #[trigger] started[i]
        == turns[0].pre.handler(started[i].id) by {
        assert(all[started.len() - 1 - i] == started[i]);
    }
}

/// The handler that is started is for the subscription that the task asked to be opened again,
/// goes by its policy and sends to its user.
pub proof fn law_the_handler_is_for_what_was_asked(asked: Turn, answered: Turn, id: usize)
    requires
        asked.pre.well_formed(),
        asked.steps(),
        asked.out.next == Next::Resubscribe(id),
        only_pending_changes(asked.post, answered.pre),
        answered.event is Resubscribed,
        answered.steps(),
    ensures
        asked.post.resubscribes(id),
        answered.out.handler == Some(asked.post.handler(id)),
{
    law_what_waits_is_open(asked);
    let left = waiting(asked.post);
    assert(left.last() == left[left.len() - 1]);
}

/// The turn says nothing of the subscription with this id.
pub open spec fn leaves_alone(turn: Turn, id: usize) -> bool {
    match turn.event {
        Event::SubscriptionClosed(Some(closed)) => closed != id,
        Event::Response(Some(Ok(DispatchedCall::Subscription { id: opened, sub }))) => opened != id,
        _ => true,
    }
}

/// An open subscription stays open, with all it takes to establish it again, until it is closed;
/// losing the connection does not touch it.
pub proof fn law_open_subscriptions_stay_open(run: Seq<Turn>, id: usize)
    requires
        is_run(run),
        forall|i: int| 0 <= i < run.len() ==> leaves_alone(#[trigger] run[i], id),
        run[0].pre.open.contains_key(id),
    ensures
        run.last().post.open.contains_key(id),
        run.last().post.open[id] == run[0].pre.open[id],
    decreases run.len(),
{
    let turn = run.last();
    assert(turn.steps());
    assert(leaves_alone(turn, id));
    if run.len() > 1 {
        lemma_run_prefix(run);
        let before = run.drop_last();
        assert(before[0] == run[0]);
        assert forall|i: int| 0 <= i < before.len() implies leaves_alone(#[trigger] before[i], id) by {
            assert(before[i] == run[i]);
        }
        law_open_subscriptions_stay_open(before, id);
    }
}

/// A subscription that was opened over an earlier connection, and that is re-established when the
/// connection is lost, is so over the new one, which came with the turn at `back`. It has not
/// been closed in the meantime.
pub proof fn law_a_lost_subscription_is_reestablished(run: Seq<Turn>, id: usize, back: int)
    requires
        is_run(run),
        0 < back < run.len(),
        run[0].pre.resubscribes(id),
        forall|i: int| 0 <= i < back ==> leaves_alone(#[trigger] run[i], id),
        is_resubscription(run.subrange(back, run.len() as int)),
        run.last().post.phase is Running,
    ensures
        resubscribed_ids(run.subrange(back, run.len() as int)).contains(id),
        run.last().post.resubscribes(id),
        run.last().post.open[id] == run[0].pre.open[id],
{
    let until = run.subrange(0, back);
    let turns = run.subrange(back, run.len() as int);
    lemma_run_part(run, 0, back);
    assert(until[0] == run[0]);
    assert(until.last() == run[back - 1]);
    assert(turns[0] == run[back]);
    assert(turns.last() == run.last());
    assert(forall|i: int| 0 <= i < until.len() ==> #[trigger] until[i] == run[i]);
    law_open_subscriptions_stay_open(until, id);
    assert(only_pending_changes(run[back - 1].post, run[back].pre));
    assert(turns[0].pre.resubscribes(id));
    law_subscriptions_are_reestablished(turns);
}

/// The turn says that the subscription with this id has been opened.
pub open spec fn opens(turn: Turn, id: usize) -> bool {
    turn.event matches Event::Response(Some(Ok(DispatchedCall::Subscription { id: opened, sub })))
        && opened == id
}

/// The subscription with this id is not re-established, now or at the next loss.
spec fn is_left_out(task: TaskView, id: usize) -> bool {
    &&& !task.resubscribes(id)
    &&& forall|i: int| 0 <= i < waiting(task).len() ==> (#[trigger] waiting(task)[i]).id != id
    &&& task.phase is Resubscribing ==> waiting(task).len() > 0
}

/// What is left out of one turn stays so.
proof fn lemma_turn_leaves_out(turn: Turn, id: usize)
    requires
        turn.steps(),
        is_left_out(turn.pre, id),
        !opens(turn, id),
    ensures
        is_left_out(turn.post, id),
        turn.out.handler matches Some(handler) ==> handler.id != id,
        !turn.pre.open.contains_key(id) ==> !turn.post.open.contains_key(id),
{
    if turn.event is Connected {
        let all = lemma_listed(turn);
        assert forall|i: int| 0 <= i < all.len() implies (#[trigger] all[i]).id != id by {
            assert(ids(all)[i] == all[i].id);
            assert(ids(all).contains(all[i].id));
        }
    } else if turn.event is Resubscribed {
        let left = waiting(turn.pre);
        assert(left.last() == left[left.len() - 1]);
        assert(waiting(turn.post) =~= left.drop_last());
        assert(forall|i: int|
            0 <= i < left.len() - 1 ==> #[trigger] left.drop_last()[i] == left[i]);
    } else {
        assert(waiting(turn.post) =~= Seq::<HandlerView>::empty());
    }
}

/// What the first turn leaves out is not re-established in the run.
proof fn lemma_run_leaves_out(run: Seq<Turn>, id: usize)
    requires
        is_run(run),
        is_left_out(run[0].post, id),
        run[0].out.handler matches Some(handler) ==> handler.id != id,
        forall|i: int| 0 < i < run.len() ==> !opens(#[trigger] run[i], id),
    ensures
        is_left_out(run.last().post, id),
        !resubscribed_ids(run).contains(id),
        !run[0].post.open.contains_key(id) ==> !run.last().post.open.contains_key(id),
    decreases run.len(),
{
    let turn = run.last();
    let before = run.drop_last();
    if run.len() > 1 {
        lemma_run_prefix(run);
        assert(before[0] == run[0]);
        assert forall|i: int| 0 < i < before.len() implies !opens(#[trigger] before[i], id) by {
            assert(before[i] == run[i]);
        }
        lemma_run_leaves_out(before, id);
        assert(turn.steps());
        assert(!opens(turn, id));
        lemma_turn_leaves_out(turn, id);
    } else {
        assert(restarted(before) =~= Seq::<HandlerView>::empty());
    }
    let started = restarted(before);
    if resubscribed_ids(run).contains(id) {
        let i = choose|i: int|
            0 <= i < resubscribed_ids(run).len() && resubscribed_ids(run)[i] == id;
        assert(restarted(run)[i].id == id);
        assert(i < started.len());
        assert(resubscribed_ids(before)[i] == id);
    }
}

/// A subscription that has been removed is never established again, unless it is opened anew
/// under its id. Its removal touches no other subscription.
pub proof fn law_removed_subscriptions_stay_gone(run: Seq<Turn>, id: usize)
    requires
        is_run(run),
        run[0].event == Event::SubscriptionClosed(Some(id)),
        forall|i: int| 0 < i < run.len() ==> !opens(#[trigger] run[i], id),
    ensures
        run[0].post.open == run[0].pre.open.remove(id),
        !resubscribed_ids(run).contains(id),
        !run.last().post.open.contains_key(id),
{
    assert(run[0].steps());
    lemma_run_leaves_out(run, id);
}

/// A subscription that is open, but whose policy is not to re-establish it, is not, unless
/// another is opened under its id.
pub proof fn law_other_subscriptions_are_not_reestablished(run: Seq<Turn>, id: usize)
    requires
        is_run(run),
        run[0].pre.well_formed(),
        !run[0].pre.resubscribes(id),
        forall|i: int| 0 <= i < run.len() ==> !opens(#[trigger] run[i], id),
    ensures
        !resubscribed_ids(run).contains(id),
        !run.last().post.resubscribes(id),
{
    assert(run[0].steps());
    assert(!opens(run[0], id));
    lemma_turn_leaves_out(run[0], id);
    lemma_run_leaves_out(run, id);
}

/// Counting on from `start` never comes back to it in fewer steps than there are numbers.
proof fn lemma_counting_moves_on(start: usize, n: nat)
    requires
        n <= usize::MAX,
    ensures
        counted_on(start, n) == if start + n <= usize::MAX {
            start + n
        } else {
            start + n - usize::MAX - 1
        },
    decreases n,
{
    if n > 0 {
        lemma_counting_moves_on(start, (n - 1) as nat);
    }
}

/// The id that stands at turn `j` is counted on from the one at turn `i`, at most once for each
/// turn between them.
proof fn lemma_ids_count_on(run: Seq<Turn>, i: int, j: int) -> (n: nat)
    requires
        is_run(run),
        0 <= i <= j < run.len(),
    ensures
        n <= j - i,
        run[j].pre.id == counted_on(run[i].pre.id, n),
        i < j && run[i].post.phase is Running ==> n > 0,
    decreases j - i,
{
    if i == j {
        0
    } else {
        let n = lemma_ids_count_on(run, i, j - 1);
        let turn = run[j - 1];
        assert(turn.steps());
        assert(only_pending_changes(run[j - 1].post, run[j].pre));
        if turn.post.phase is Running {
            assert(counted_on(run[i].pre.id, n + 1) == wrapping_succ(counted_on(run[i].pre.id, n)));
            n + 1
        } else {
            n
        }
    }
}

/// No two operations that users asked for get the same id, in any run of at most `usize::MAX`
/// turns.
pub proof fn law_ids_are_fresh(run: Seq<Turn>, i: int, j: int)
    requires
        is_run(run),
        run.len() <= usize::MAX,
        0 <= i < j < run.len(),
        run[i].event matches Event::Message(Some(_)),
        run[j].event matches Event::Message(Some(_)),
    ensures
        run[i].out.dispatch.len() == 1,
        run[j].out.dispatch.len() == 1,
        run[i].out.dispatch[0].0 != run[j].out.dispatch[0].0,
{
    assert(run[i].steps());
    assert(run[j].steps());
    let n = lemma_ids_count_on(run, i, j);
    lemma_counting_moves_on(run[i].pre.id, n);
}

/// Whoever asked for an operation is told something exactly when it is not tried again.
pub proof fn law_an_operation_is_answered_or_retried(
    dispatched: Dispatched,
    op: Op,
    id: usize,
    answer: Answer,
)
    requires
        answer.answers(op),
        dispatched.settles(op, id, answer),
    ensures
        dispatched.reply is Held <==> dispatched.result matches Err(Closed::Retry { .. }),
        dispatched.reply is Held <==> answer.restart_needed() && op.policy().retries(),
{
}

/// An operation whose policy is to drop it is never sent again: when the connection is lost its
/// caller is told so, and the background task has nothing to do about it.
pub proof fn law_dropped_operations_are_not_sent_again(
    dispatched: Dispatched,
    op: Op,
    id: usize,
    answer: Answer,
    turn: Turn,
)
    requires
        answer.answers(op),
        answer.restart_needed(),
        !op.policy().retries(),
        dispatched.settles(op, id, answer),
        turn.steps(),
        turn.event == Event::Response(Some(dispatched.result)),
    ensures
        dispatched.fails_with(op, Error::DisconnectedWillReconnect),
        turn.out.dispatch.len() == 0,
        kept(turn.post) == kept(turn.pre),
        turn.post.open == turn.pre.open,
{
    assert(kept(turn.post) =~= kept(turn.pre));
}

/// An operation whose policy is to retry it is not given up when the connection is lost: its
/// caller is told nothing, and the background task keeps it as it was and under the same id.
pub proof fn law_retried_operations_are_kept(
    dispatched: Dispatched,
    op: Op,
    id: usize,
    answer: Answer,
    turn: Turn,
)
    requires
        answer.answers(op),
        answer.restart_needed(),
        op.policy().retries(),
        dispatched.settles(op, id, answer),
        turn.steps(),
        turn.event == Event::Response(Some(dispatched.result)),
    ensures
        dispatched.reply is Held,
        turn.out.dispatch.len() == 0,
        kept(turn.post) == kept(turn.pre).push((id, op)),
{
    assert(kept(turn.post) =~= kept(turn.pre).push((id, op)));
}

/// What the first event brings comes first.
proof fn lemma_first_brought(run: Seq<Turn>)
    requires
        run.len() > 0,
    ensures
        brought(run[0].pre, run[0].event).is_prefix_of(all_brought(run)),
    decreases run.len(),
{
    let before = run.drop_last();
    if run.len() > 1 {
        lemma_first_brought(before);
        assert(before[0] == run[0]);
    } else {
        assert(all_brought(before) =~= Seq::<(usize, Op)>::empty());
        assert(all_brought(run) =~= brought(run[0].pre, run[0].event));
    }
}

/// An operation whose policy is to retry it is sent again, as it was and under the same id, once
/// the connection is back, whatever happens until then.
pub proof fn law_retried_operations_are_sent_again(
    dispatched: Dispatched,
    op: Op,
    id: usize,
    answer: Answer,
    run: Seq<Turn>,
)
    requires
        answer.answers(op),
        answer.restart_needed(),
        op.policy().retries(),
        dispatched.settles(op, id, answer),
        is_run(run),
        run[0].event == Event::Response(Some(dispatched.result)),
        run.last().post.phase is Running || run.last().post.phase is Resubscribing,
    ensures
        all_dispatched(run).contains((id, op)),
{
    law_pending_operations_are_retransmitted(run);
    lemma_first_brought(run);
    let before = kept(run[0].pre);
    let all = all_brought(run);
    assert(brought(run[0].pre, run[0].event)[0] == (id, op));
    assert(all[0] == (id, op));
    assert((before + all)[before.len() as int] == all[0]);
}

/// The same operation was sent time and again: under the same id, what came back for it each time,
/// and what became of it. Each time but the last it had to be tried again.
pub open spec fn is_retrial(op: Op, id: usize, answers: Seq<Answer>, outcomes: Seq<Dispatched>) -> bool {
    &&& answers.len() == outcomes.len() > 0
    &&& forall|i: int|
        0 <= i < answers.len() ==> (#[trigger] answers[i]).answers(op) && outcomes[i].settles(
            op,
            id,
            answers[i],
        )
    &&& forall|i: int|
        0 <= i < outcomes.len() - 1 ==> (#[trigger] outcomes[i]).result matches Err(
            Closed::Retry { .. },
        )
}

/// How often whoever asked for the operation was told something.
pub open spec fn replies(outcomes: Seq<Dispatched>) -> nat
    decreases outcomes.len(),
{
    if outcomes.len() == 0 {
        0
    } else {
        replies(outcomes.drop_last()) + if outcomes.last().reply is Held {
            0nat
        } else {
            1
        }
    }
}

/// The reply says that the operation was dropped with the connection.
pub open spec fn tells_of_the_loss(reply: Reply) -> bool {
    match reply {
        Reply::Held => false,
        Reply::Call { result, .. } => result matches Err(Error::DisconnectedWillReconnect),
        Reply::Subscription { result, .. } => result matches Err(Error::DisconnectedWillReconnect),
    }
}

/// While an operation has to be tried again, nobody is told anything.
proof fn lemma_no_reply_yet(outcomes: Seq<Dispatched>)
    requires
        forall|i: int| 0 <= i < outcomes.len() ==> (#[trigger] outcomes[i]).reply is Held,
    ensures
        replies(outcomes) == 0,
    decreases outcomes.len(),
{
    if outcomes.len() > 0 {
        let before = outcomes.drop_last();
        assert(forall|i: int| 0 <= i < before.len() ==> #[trigger] before[i] == outcomes[i]);
        lemma_no_reply_yet(before);
    }
}

/// Over any number of lost connections, whoever asked for an operation that is retried is told
/// something once, when it is answered, and that is its last answer; they are never told that it
/// was dropped with the connection.
pub proof fn law_a_retried_operation_is_answered_once(
    op: Op,
    id: usize,
    answers: Seq<Answer>,
    outcomes: Seq<Dispatched>,
)
    requires
        op.policy().retries(),
        is_retrial(op, id, answers, outcomes),
    ensures
        replies(outcomes) == if answers.last().restart_needed() {
            0nat
        } else {
            1
        },
        forall|i: int|
            0 <= i < outcomes.len() - 1 ==> (#[trigger] answers[i]).restart_needed()
                && outcomes[i].retries(op, id),
        forall|i: int|
            0 <= i < outcomes.len() ==> !tells_of_the_loss((#[trigger] outcomes[i]).reply),
        match answers.last() {
            Answer::Call(Ok(value)) => outcomes.last().yields(op, value),
            Answer::Subscription(Ok(server_id)) => outcomes.last().opens(op, id, server_id),
            Answer::Call(Err(error)) | Answer::Subscription(Err(error)) => error is RestartNeeded
                || outcomes.last().fails_with(op, Error::RpcError(error)),
        },
{
    let before = outcomes.drop_last();
    assert forall|i: int| 0 <= i < outcomes.len() implies !tells_of_the_loss(
        (#[trigger] outcomes[i]).reply,
    ) && (i < before.len() ==> outcomes[i].reply is Held && answers[i].restart_needed()
        && outcomes[i].retries(op, id)) by {
        assert(answers[i].answers(op));
    }
    assert(forall|i: int| 0 <= i < before.len() ==> #[trigger] before[i] == outcomes[i]);
    lemma_no_reply_yet(before);
    assert(answers[answers.len() - 1].answers(op));
}

/// The channel that the user of a subscription receives from, once it has been opened.
pub open spec fn user_channel(dispatched: Dispatched) -> Option<int> {
    match dispatched.reply {
        Reply::Subscription { result: Ok(subscription), .. } => Some(
            rx_channel(subscription.spec_stream()),
        ),
        _ => None,
    }
}

/// A subscription that the server accepts is open from then on, under the id of its operation and
/// with all that its operation says, also when the connection was lost just after. Its handler
/// goes by the same id and policy, and what it sends goes to the stream that the user got.
pub proof fn law_accepted_subscriptions_are_open(
    dispatched: Dispatched,
    op: Op,
    id: usize,
    answer: Answer,
    turn: Turn,
)
    requires
        answer matches Answer::Subscription(Ok(_)),
        answer.answers(op),
        dispatched.settles(op, id, answer),
        turn.steps(),
        turn.event == Event::Response(Some(dispatched.result)),
    ensures
        turn.post.open.contains_key(id),
        ({
            let sub = turn.post.open[id];
            op matches Op::Subscription { subscribe_method, params, unsubscribe_method, policy, .. }
                && sub == (RetrySubscription {
                tx: sub.tx,
                subscribe_method,
                params,
                unsubscribe_method,
                policy,
            })
        }),
        turn.post.resubscribes(id) == op.policy().resubscribes(),
        dispatched.handler matches Some(handler) && handler@ == turn.post.handler(id),
        user_channel(dispatched) == Some(turn.post.handler(id).channel),
{
}

/// Over any number of lost connections, the notifications of a subscription go to the stream that
/// its user got when it was opened: the handler that is started when it is re-established, at the
/// turn `i`, sends there.
pub proof fn law_a_reestablished_subscription_feeds_its_stream(
    dispatched: Dispatched,
    op: Op,
    id: usize,
    answer: Answer,
    run: Seq<Turn>,
    i: int,
)
    requires
        answer matches Answer::Subscription(Ok(_)),
        answer.answers(op),
        dispatched.settles(op, id, answer),
        is_run(run),
        run[0].event == Event::Response(Some(dispatched.result)),
        forall|j: int| 0 < j < run.len() ==> leaves_alone(#[trigger] run[j], id),
        0 < i < run.len(),
        run[i].out.handler matches Some(handler) && handler.id == id,
    ensures
        run[i].out.handler matches Some(handler) && Some(handler.channel) == user_channel(
            dispatched,
        ) && handler.policy == op.policy(),
{
    assert(run[0].steps());
    law_accepted_subscriptions_are_open(dispatched, op, id, answer, run[0]);
    lemma_waits_with_its_handler(run, id, i - 1);
    assert(run[i].steps());
    assert(only_pending_changes(run[i - 1].post, run[i].pre));
    let left = waiting(run[i].pre);
    if left.len() > 0 {
        assert(left.last() == left[left.len() - 1]);
    }
}

/// What waits to be re-established is as it was recorded.
proof fn lemma_waits_with_its_handler(run: Seq<Turn>, id: usize, n: int)
    requires
        is_run(run),
        0 <= n < run.len(),
        run[0].post.open.contains_key(id),
        waiting(run[0].post).len() == 0,
        !(run[0].post.phase is Resubscribing),
        forall|j: int| 0 < j < run.len() ==> leaves_alone(#[trigger] run[j], id),
    ensures
        run[n].post.open.contains_key(id),
        run[n].post.open[id] == run[0].post.open[id],
        run[n].post.phase is Resubscribing ==> waiting(run[n].post).len() > 0,
        forall|k: int|
            0 <= k < waiting(run[n].post).len() && (#[trigger] waiting(run[n].post)[k]).id == id
                ==> waiting(run[n].post)[k] == run[n].post.handler(id),
    decreases n,
{
    if n > 0 {
        lemma_waits_with_its_handler(run, id, n - 1);
        let turn = run[n];
        assert(turn.steps());
        assert(leaves_alone(turn, id));
        assert(only_pending_changes(run[n - 1].post, turn.pre));
        if turn.event is Connected {
            let all = lemma_listed(turn);
        } else if turn.event is Resubscribed {
            let left = waiting(turn.pre);
            assert(waiting(turn.post) =~= left.drop_last());
            assert(forall|k: int|
                0 <= k < left.len() - 1 ==> #[trigger] left.drop_last()[k] == left[k]);
        } else {
            assert(waiting(turn.post) =~= Seq::<HandlerView>::empty());
        }
    }
}

/// The user of a subscription is told the truth when the connection is lost: that the
/// subscription is re-established exactly when the background task does that, and that it is
/// dropped otherwise.
pub proof fn law_users_are_told_what_happens(
    task: TaskView,
    handler: SubscriptionHandler,
    reason: RpcError,
)
    requires
        task.open.contains_key(handler.id),
        task.open[handler.id].policy == handler.policy,
    ensures
        handler.responds(HandlerEvent::Ended(reason)) == if task.resubscribes(handler.id) {
            HandlerStep::Send {
                message: Err(Disconnect::Retry(reason)),
                then: Then::Resubscribe,
            }
        } else {
            HandlerStep::Send { message: Err(Disconnect::Dropped(reason)), then: Then::Drop }
        },
{
}

/// A subscription whose user was told that it is dropped, or that its user has closed, is removed;
/// one whose user was told that it is re-established stays open.
pub proof fn law_only_ended_subscriptions_are_removed(
    handler: SubscriptionHandler,
    then: Then,
    delivered: bool,
    turn: Turn,
)
    ensures
        handler.responds(HandlerEvent::ClosedByUser) == (HandlerStep::Stop {
            remove: Some(handler.id),
        }),
        handler.proceeds(then, delivered) == (HandlerStep::Stop { remove: None })
            <==> delivered && then is Resubscribe,
        handler.proceeds(then, delivered) matches HandlerStep::Stop { remove: Some(id) } ==> {
            &&& id == handler.id
            &&& turn.steps() && turn.event == Event::SubscriptionClosed(Some(id))
                ==> turn.post.open == turn.pre.open.remove(handler.id)
        },
{
}

/// One event that a handler dealt with, and whether the message that it sent, if it sent one,
/// reached the user.
pub struct HandlerTurn {
    pub event: HandlerEvent,
    pub delivered: bool,
}

impl HandlerTurn {
    /// The message that the handler sends.
    pub open spec fn message(self, handler: SubscriptionHandler) -> Option<SubscriptionResult> {
        match handler.responds(self.event) {
            HandlerStep::Send { message, .. } => Some(message),
            _ => None,
        }
    }

    /// What the handler does after that.
    pub open spec fn after(self, handler: SubscriptionHandler) -> HandlerStep {
        match handler.responds(self.event) {
            HandlerStep::Send { then, .. } => handler.proceeds(then, self.delivered),
            step => step,
        }
    }
}

/// The turns of a handler, one after the other: it goes on as long as it listens.
pub open spec fn is_handler_run(handler: SubscriptionHandler, turns: Seq<HandlerTurn>) -> bool {
    forall|i: int| 0 <= i < turns.len() - 1 ==> (#[trigger] turns[i]).after(handler) is Listen
}

/// The messages that the handler sent, in order.
pub open spec fn sent(handler: SubscriptionHandler, turns: Seq<HandlerTurn>) -> Seq<
    SubscriptionResult,
>
    decreases turns.len(),
{
    if turns.len() == 0 {
        Seq::empty()
    } else {
        let before = sent(handler, turns.drop_last());
        match turns.last().message(handler) {
            Some(message) => before.push(message),
            None => before,
        }
    }
}

/// The messages that reached the user, in order.
pub open spec fn arrived(handler: SubscriptionHandler, turns: Seq<HandlerTurn>) -> Seq<
    SubscriptionResult,
>
    decreases turns.len(),
{
    if turns.len() == 0 {
        Seq::empty()
    } else {
        let before = arrived(handler, turns.drop_last());
        match turns.last().message(handler) {
            Some(message) if turns.last().delivered => before.push(message),
            _ => before,
        }
    }
}

/// The notifications that came, in order.
pub open spec fn notifications(turns: Seq<HandlerTurn>) -> Seq<SubscriptionResult>
    decreases turns.len(),
{
    if turns.len() == 0 {
        Seq::empty()
    } else {
        let before = notifications(turns.drop_last());
        match turns.last().event {
            HandlerEvent::Notification(value) => before.push(Ok(value)),
            _ => before,
        }
    }
}

/// As long as the handler listens, every notification that came has reached the user.
proof fn lemma_listening(handler: SubscriptionHandler, turns: Seq<HandlerTurn>)
    requires
        forall|i: int| 0 <= i < turns.len() ==> (#[trigger] turns[i]).after(handler) is Listen,
    ensures
        sent(handler, turns) == notifications(turns),
        arrived(handler, turns) == notifications(turns),
        forall|i: int| 0 <= i < notifications(turns).len() ==> notifications(turns)[i] is Ok,
    decreases turns.len(),
{
    if turns.len() > 0 {
        let before = turns.drop_last();
        assert(forall|i: int| 0 <= i < before.len() ==> #[trigger] before[i] == turns[i]);
        lemma_listening(handler, before);
        assert(turns[turns.len() - 1].after(handler) is Listen);
    }
}

/// At any moment, a handler has sent the notifications that came, each once, unchanged and in
/// order, and then, if they have ended, one message that says why and what happens to the
/// subscription. Nothing is sent after that. What has reached the user is the beginning of it.
pub proof fn law_notifications_are_passed_on(
    handler: SubscriptionHandler,
    turns: Seq<HandlerTurn>,
)
    requires
        turns.len() > 0,
        is_handler_run(handler, turns),
    ensures
        sent(handler, turns) == match turns.last().event {
            HandlerEvent::Ended(reason) => notifications(turns).push(
                Err(
                    if handler.policy.resubscribes() {
                        Disconnect::Retry(reason)
                    } else {
                        Disconnect::Dropped(reason)
                    },
                ),
            ),
            _ => notifications(turns),
        },
        forall|i: int| 0 <= i < notifications(turns).len() ==> notifications(turns)[i] is Ok,
        arrived(handler, turns).is_prefix_of(sent(handler, turns)),
        turns.last().event is Ended ==> turns.last().after(handler) is Stop,
{
    let before = turns.drop_last();
    assert(forall|i: int| 0 <= i < before.len() ==> #[trigger] before[i] == turns[i]);
    lemma_listening(handler, before);
}

/// A subscription that is not re-established gets its notifications and then, when the connection
/// is lost, one message that says that it is dropped, and nothing after that. It is removed, and
/// is not established over any later connection, unless another is opened under its id.
pub proof fn law_a_dropped_subscription_ends(
    handler: SubscriptionHandler,
    turns: Seq<HandlerTurn>,
    reason: RpcError,
    run: Seq<Turn>,
)
    requires
        !handler.policy.resubscribes(),
        turns.len() > 0,
        is_handler_run(handler, turns),
        turns.last().event == HandlerEvent::Ended(reason),
        is_run(run),
        run[0].pre.well_formed(),
        run[0].pre.open.contains_key(handler.id) ==> run[0].pre.open[handler.id].policy
            == handler.policy,
        forall|i: int| 0 <= i < run.len() ==> !opens(#[trigger] run[i], handler.id),
    ensures
        sent(handler, turns) == notifications(turns).push(Err(Disconnect::Dropped(reason))),
        turns.last().after(handler) == (HandlerStep::Stop { remove: Some(handler.id) }),
        !resubscribed_ids(run).contains(handler.id),
{
    law_notifications_are_passed_on(handler, turns);
    law_other_subscriptions_are_not_reestablished(run, handler.id);
}

} // verus!
