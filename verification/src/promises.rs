//! What each operation does with what goes in, whatever the state, the policy and the number of
//! operations in flight.

use crate::background::{ids, views, Event, Next, PhaseView, Step, TaskView};
use crate::client::{is_call, is_subscription};
use crate::dispatch::{Answer, Closed, Dispatched, DispatchedCall, Op, Reply};
use crate::handler::{HandlerEvent, HandlerStep, HandlerView, SubscriptionHandler, Then};
use crate::laws::{brought, is_run, kept, HandlerTurn, Turn};
use crate::outside::{answered, rx_channel, tx_channel};
use crate::types::{
    CallRetryPolicy, Disconnect, Error, MethodResult, RpcError, RpcParams, Subscription,
    SubscriptionResult,
};
use crate::utils::{wrapping_succ, EndCall, Notice};
use jsonrpsee::types::SubscriptionId;
use serde_json::value::RawValue;
use tokio::sync::oneshot;
use vstd::prelude::*;

verus! {

// ---------------------------------------------------------------------------
// Policies, operations and answers.
// ---------------------------------------------------------------------------

/// Only an operation that asked for it is dropped with the connection, and only a subscription
/// that asked for it is re-established.
pub proof fn law_what_a_policy_asks_for(policy: CallRetryPolicy)
    ensures
        !policy.retries() <==> policy is Drop,
        policy.resubscribes() <==> policy is RetryAndResubscribe,
        policy.resubscribes() ==> policy.retries(),
{
}

/// An operation is treated by the policy that it was made with.
pub proof fn law_an_operation_keeps_its_policy(
    call: Op,
    subscription: Op,
    policy: CallRetryPolicy,
)
    requires
        call matches Op::Call { policy: own, .. } && own == policy,
        subscription matches Op::Subscription { policy: own, .. } && own == policy,
    ensures
        call.policy() == policy,
        subscription.policy() == policy,
{
}

/// A call takes the answer of a call, and a subscription that of a subscription, whatever it
/// says; nothing else is asked of an answer.
pub proof fn law_which_answer_an_operation_takes(answer: Answer, op: Op)
    ensures
        op is Call && answer is Call ==> answer.answers(op),
        op is Subscription && answer is Subscription ==> answer.answers(op),
        op is Call && answer is Subscription ==> !answer.answers(op),
        op is Subscription && answer is Call ==> !answer.answers(op),
{
}

/// Of all answers, only the error that a restart is needed says that the connection is gone.
pub proof fn law_what_says_that_the_connection_is_gone(
    value: Box<RawValue>,
    server_id: SubscriptionId<'static>,
    error: RpcError,
)
    ensures
        !Answer::Call(Ok(value)).restart_needed(),
        !Answer::Subscription(Ok(server_id)).restart_needed(),
        Answer::Call(Err(error)).restart_needed() <==> error is RestartNeeded,
        Answer::Subscription(Err(error)).restart_needed() <==> error is RestartNeeded,
{
}

// ---------------------------------------------------------------------------
// What becomes of an operation.
// ---------------------------------------------------------------------------

/// Whoever called a method gets the value that the server answered, whatever the policy of the
/// call, and nothing is left to do.
pub proof fn law_an_answer_reaches_its_caller(
    dispatched: Dispatched,
    method: String,
    params: RpcParams,
    send_back: oneshot::Sender<MethodResult>,
    policy: CallRetryPolicy,
    id: usize,
    value: Box<RawValue>,
)
    requires
        dispatched.settles(
            Op::Call { method, params, send_back, policy },
            id,
            Answer::Call(Ok(value)),
        ),
    ensures
        dispatched.reply == (Reply::Call { send_back, result: Ok(value) }),
        dispatched.result == Ok::<DispatchedCall, Closed>(DispatchedCall::Done),
        dispatched.handler is None,
{
}

/// Whoever called a method over a connection that holds gets the error that came back, whatever
/// the policy of the call, and nothing is left to do.
pub proof fn law_an_error_reaches_its_caller(
    dispatched: Dispatched,
    method: String,
    params: RpcParams,
    send_back: oneshot::Sender<MethodResult>,
    policy: CallRetryPolicy,
    id: usize,
    error: RpcError,
)
    requires
        !(error is RestartNeeded),
        dispatched.settles(
            Op::Call { method, params, send_back, policy },
            id,
            Answer::Call(Err(error)),
        ),
    ensures
        dispatched.reply == (Reply::Call { send_back, result: Err(Error::RpcError(error)) }),
        dispatched.result == Ok::<DispatchedCall, Closed>(DispatchedCall::Done),
        dispatched.handler is None,
{
}

/// A call that loses its connection is dropped, and its caller told so, if it asked for that.
/// Otherwise nobody is told anything, and the very same call is to be sent again under the same
/// id.
pub proof fn law_a_lost_call_goes_by_its_policy(
    dispatched: Dispatched,
    method: String,
    params: RpcParams,
    send_back: oneshot::Sender<MethodResult>,
    policy: CallRetryPolicy,
    id: usize,
    error: RpcError,
)
    requires
        error is RestartNeeded,
        dispatched.settles(
            Op::Call { method, params, send_back, policy },
            id,
            Answer::Call(Err(error)),
        ),
    ensures
        dispatched.handler is None,
        policy is Drop ==> {
            &&& dispatched.reply == (Reply::Call {
                send_back,
                result: Err(Error::DisconnectedWillReconnect),
            })
            &&& dispatched.result == Err::<DispatchedCall, Closed>(Closed::Dropped)
        },
        policy is Retry || policy is RetryAndResubscribe ==> {
            &&& dispatched.reply is Held
            &&& dispatched.result == Err::<DispatchedCall, Closed>(
                Closed::Retry { op: Op::Call { method, params, send_back, policy }, id },
            )
        },
{
}

/// Whoever asked for a subscription that the server accepts gets a stream under the server's id,
/// whatever the policy. It is recorded with all that it was asked for with, its handler goes by
/// the same id and policy, and what is sent on the recorded end or by the handler goes to that
/// stream.
pub proof fn law_an_accepted_subscription_reaches_its_user(
    dispatched: Dispatched,
    subscribe_method: String,
    params: RpcParams,
    unsubscribe_method: String,
    send_back: oneshot::Sender<Result<Subscription, Error>>,
    policy: CallRetryPolicy,
    id: usize,
    server_id: SubscriptionId<'static>,
)
    requires
        dispatched.settles(
            Op::Subscription { subscribe_method, params, unsubscribe_method, send_back, policy },
            id,
            Answer::Subscription(Ok(server_id)),
        ),
    ensures
        ({
            &&& dispatched.reply matches Reply::Subscription {
                send_back: to,
                result: Ok(subscription),
            }
            &&& dispatched.result matches Ok(DispatchedCall::Subscription { id: recorded, sub })
            &&& dispatched.handler matches Some(handler)
            &&& to == send_back
            &&& subscription.spec_id() == server_id
            &&& answered(subscription.spec_stream()).len() == 0
            &&& recorded == id
            &&& sub.subscribe_method == subscribe_method
            &&& sub.params == params
            &&& sub.unsubscribe_method == unsubscribe_method
            &&& sub.policy == policy
            &&& tx_channel(sub.tx) == rx_channel(subscription.spec_stream())
            &&& handler.id == id
            &&& handler.policy == policy
            &&& tx_channel(handler.tx) == rx_channel(subscription.spec_stream())
        }),
{
}

/// Whoever asked for a subscription that the server refuses gets the error that came back,
/// whatever the policy, and nothing is left to do.
pub proof fn law_a_refusal_reaches_its_user(
    dispatched: Dispatched,
    subscribe_method: String,
    params: RpcParams,
    unsubscribe_method: String,
    send_back: oneshot::Sender<Result<Subscription, Error>>,
    policy: CallRetryPolicy,
    id: usize,
    error: RpcError,
)
    requires
        !(error is RestartNeeded),
        dispatched.settles(
            Op::Subscription { subscribe_method, params, unsubscribe_method, send_back, policy },
            id,
            Answer::Subscription(Err(error)),
        ),
    ensures
        dispatched.reply == (Reply::Subscription {
            send_back,
            result: Err(Error::RpcError(error)),
        }),
        dispatched.result == Ok::<DispatchedCall, Closed>(DispatchedCall::Done),
        dispatched.handler is None,
{
}

/// A subscription that loses its connection before it is accepted is dropped, and its user told
/// so, if it asked for that. Otherwise nobody is told anything, and the very same subscription is
/// to be asked for again under the same id.
pub proof fn law_a_lost_subscription_goes_by_its_policy(
    dispatched: Dispatched,
    subscribe_method: String,
    params: RpcParams,
    unsubscribe_method: String,
    send_back: oneshot::Sender<Result<Subscription, Error>>,
    policy: CallRetryPolicy,
    id: usize,
    error: RpcError,
)
    requires
        error is RestartNeeded,
        dispatched.settles(
            Op::Subscription { subscribe_method, params, unsubscribe_method, send_back, policy },
            id,
            Answer::Subscription(Err(error)),
        ),
    ensures
        dispatched.handler is None,
        policy is Drop ==> {
            &&& dispatched.reply == (Reply::Subscription {
                send_back,
                result: Err(Error::DisconnectedWillReconnect),
            })
            &&& dispatched.result == Err::<DispatchedCall, Closed>(Closed::Dropped)
        },
        policy is Retry || policy is RetryAndResubscribe ==> {
            &&& dispatched.reply is Held
            &&& dispatched.result == Err::<DispatchedCall, Closed>(
                Closed::Retry {
                    op: Op::Subscription {
                        subscribe_method,
                        params,
                        unsubscribe_method,
                        send_back,
                        policy,
                    },
                    id,
                },
            )
        },
{
}

/// As long as the connection holds, two calls that differ only in their policy, and in the id
/// that they were sent under, end alike.
pub proof fn law_a_policy_matters_only_when_the_connection_is_lost(
    one: Dispatched,
    other: Dispatched,
    method: String,
    params: RpcParams,
    send_back: oneshot::Sender<MethodResult>,
    policies: (CallRetryPolicy, CallRetryPolicy),
    numbers: (usize, usize),
    result: Result<Box<RawValue>, RpcError>,
)
    requires
        !(result matches Err(RpcError::RestartNeeded(_))),
        one.settles(
            Op::Call { method, params, send_back, policy: policies.0 },
            numbers.0,
            Answer::Call(result),
        ),
        other.settles(
            Op::Call { method, params, send_back, policy: policies.1 },
            numbers.1,
            Answer::Call(result),
        ),
    ensures
        one.reply == other.reply,
        one.result == other.result,
        !(one.result is Err),
{
}

/// Nobody is told that the connection was lost unless it was, and the operation asked to be
/// dropped with it.
pub proof fn law_only_a_dropped_operation_is_told_of_the_loss(
    dispatched: Dispatched,
    op: Op,
    id: usize,
    answer: Answer,
)
    requires
        answer.answers(op),
        dispatched.settles(op, id, answer),
        match dispatched.reply {
            Reply::Held => false,
            Reply::Call { result, .. } => result matches Err(Error::DisconnectedWillReconnect),
            Reply::Subscription { result, .. } => result matches Err(
                Error::DisconnectedWillReconnect,
            ),
        },
    ensures
        match answer {
            Answer::Call(result) => result matches Err(RpcError::RestartNeeded(_)),
            Answer::Subscription(result) => result matches Err(RpcError::RestartNeeded(_)),
        },
        match op {
            Op::Call { policy, .. } => policy is Drop,
            Op::Subscription { policy, .. } => policy is Drop,
        },
{
}

// ---------------------------------------------------------------------------
// What users ask for.
// ---------------------------------------------------------------------------

/// A method call has the method, the params, the policy and the way back that it was made with.
pub proof fn law_a_call_is_what_was_asked_for(
    op: Op,
    method: String,
    params: Option<Box<RawValue>>,
    policy: CallRetryPolicy,
    send_back: oneshot::Sender<MethodResult>,
)
    requires
        is_call(op, method, params, policy, send_back),
    ensures
        ({
            &&& op is Call
            &&& op->method == method
            &&& op->Call_params@ == params
            &&& op->Call_send_back == send_back
            &&& op->Call_policy == policy
        }),
{
}

/// A subscription has the methods, the params, the policy and the way back that it was made with:
/// the server is asked for what the user asked to subscribe to.
pub proof fn law_a_subscription_is_what_was_asked_for(
    op: Op,
    subscribe_method: String,
    params: Option<Box<RawValue>>,
    unsubscribe_method: String,
    policy: CallRetryPolicy,
    send_back: oneshot::Sender<Result<Subscription, Error>>,
)
    requires
        is_subscription(op, subscribe_method, params, unsubscribe_method, policy, send_back),
    ensures
        ({
            &&& op is Subscription
            &&& op->subscribe_method == subscribe_method
            &&& op->unsubscribe_method == unsubscribe_method
            &&& op->Subscription_params@ == params
            &&& op->Subscription_send_back == send_back
            &&& op->Subscription_policy == policy
        }),
{
}

/// From what a user asked to subscribe to, through the answer of the server, to what the
/// background task records and asks for again over the next connection: the methods, the params
/// and the policy stay the same.
pub proof fn law_what_was_asked_for_is_recorded(
    op: Op,
    subscribe_method: String,
    params: Option<Box<RawValue>>,
    unsubscribe_method: String,
    policy: CallRetryPolicy,
    send_back: oneshot::Sender<Result<Subscription, Error>>,
    server_id: SubscriptionId<'static>,
    id: usize,
    dispatched: Dispatched,
    turn: Turn,
)
    requires
        is_subscription(op, subscribe_method, params, unsubscribe_method, policy, send_back),
        dispatched.settles(op, id, Answer::Subscription(Ok(server_id))),
        turn.steps(),
        turn.event == Event::Response(Some(dispatched.result)),
    ensures
        turn.post.open.contains_key(id),
        turn.post.open[id].subscribe_method == subscribe_method,
        turn.post.open[id].params@ == params,
        turn.post.open[id].unsubscribe_method == unsubscribe_method,
        turn.post.open[id].policy == policy,
{
}

// ---------------------------------------------------------------------------
// The background task.
// ---------------------------------------------------------------------------

/// The task waits for what can happen in its phase, and for all of it.
pub proof fn law_what_the_task_waits_for(task: TaskView, event: Event)
    ensures
        task.phase is Running ==> (task.awaits(event) <==> event is Message || event is Response
            || event is Disconnected || event is SubscriptionClosed),
        task.phase is Draining ==> (task.awaits(event) <==> event is Response),
        task.phase is Connecting ==> (task.awaits(event) <==> event is Connected
            || event is ConnectFailed),
        task.phase is Resubscribing ==> (task.awaits(event) <==> event is Resubscribed
            || event is ResubscribeFailed),
        task.phase is Terminated ==> !task.awaits(event),
{
}

/// The task is over when there are no users left, no handlers, or no set of operations, and when
/// the retry policy gave up. It is never over for another reason: not because the connection is
/// lost, nor because of what came back for an operation, nor because of how many are in flight.
/// When it is over nothing is done any more.
pub proof fn law_when_the_task_is_over(turn: Turn)
    requires
        turn.steps(),
    ensures
        turn.post.phase is Terminated <==> {
            ||| turn.event matches Event::Message(None)
            ||| turn.event matches Event::SubscriptionClosed(None)
            ||| turn.event is ConnectFailed
            ||| turn.event is ResubscribeFailed
            ||| turn.pre.phase is Running && turn.event matches Event::Response(None)
        },
        turn.post.phase is Terminated <==> turn.out.next is Stop,
        turn.post.phase is Terminated ==> {
            &&& turn.out.dispatch.len() == 0
            &&& turn.out.notice is None
            &&& turn.out.handler is None
        },
        !(turn.pre.phase is Terminated),
{
}

/// As long as users and handlers are there and the retry policy does not give up, the task goes
/// on over any number of lost connections.
pub proof fn law_the_task_outlives_lost_connections(run: Seq<Turn>)
    requires
        is_run(run),
        forall|i: int|
            0 <= i < run.len() ==> {
                let event = (#[trigger] run[i]).event;
                &&& !(event matches Event::Message(None))
                &&& !(event matches Event::SubscriptionClosed(None))
                &&& !(event matches Event::Response(None))
                &&& !(event is ConnectFailed)
                &&& !(event is ResubscribeFailed)
            },
    ensures
        forall|i: int|
            0 <= i < run.len() ==> !((#[trigger] run[i]).post.phase is Terminated)
                && !(run[i].out.next is Stop),
{
    assert forall|i: int| 0 <= i < run.len() implies !((#[trigger] run[i]).post.phase is Terminated)
        && !(run[i].out.next is Stop) by {
        assert(run[i].steps());
        law_when_the_task_is_over(run[i]);
    }
}

/// A new operation, an answer, an operation that was dropped, or the end of a subscription.
pub open spec fn says_nothing_of_a_loss(event: Event) -> bool {
    ||| event matches Event::Message(Some(_))
    ||| event matches Event::Response(Some(Ok(_)))
    ||| event matches Event::Response(Some(Err(Closed::Dropped)))
    ||| event matches Event::SubscriptionClosed(Some(_))
}

/// The task learns that the connection is lost, or waits for what was in flight over it.
pub open spec fn is_after_a_loss(turn: Turn) -> bool {
    ||| turn.pre.phase is Running && turn.event is Disconnected
    ||| turn.pre.phase is Running && turn.event matches Event::Response(
        Some(Err(Closed::Retry { .. })),
    )
    ||| turn.pre.phase is Draining
}

/// While the connection holds, only its loss makes the task do anything but listen on: neither a
/// new operation does, nor an answer, nor an operation that was dropped, nor the end of a
/// subscription.
pub proof fn law_the_task_listens_on(turn: Turn)
    requires
        turn.steps(),
        turn.pre.phase is Running,
        says_nothing_of_a_loss(turn.event),
    ensures
        turn.post.phase is Running,
        turn.out.next is Select,
        turn.out.notice is None,
        turn.out.handler is None,
{
}

/// When the connection is lost, a new one is made, however many operations are in flight and
/// whatever they return: as soon as none is, and not before. Until then the task waits for the
/// next of them. Every operation that has to be tried again is kept.
pub proof fn law_a_lost_connection_is_replaced(turn: Turn)
    requires
        turn.steps(),
        is_after_a_loss(turn),
    ensures
        turn.pre.pending.len() == 0 ==> {
            &&& turn.post.phase is Connecting
            &&& turn.out.next is Connect
            &&& turn.out.notice matches Some(Notice::Started)
        },
        turn.pre.pending.len() > 0 ==> {
            &&& turn.post.phase is Draining
            &&& turn.out.next is Response
            &&& turn.out.notice is None
        },
        kept(turn.post) == kept(turn.pre) + brought(turn.pre, turn.event),
        turn.out.dispatch.len() == 0,
        turn.out.handler is None,
{
    assert(kept(turn.post) =~= kept(turn.pre) + brought(turn.pre, turn.event));
}

/// The task waits until it can send these operations, in this order.
pub open spec fn holds_back(phase: PhaseView, dispatch: Seq<(usize, Op)>) -> bool {
    phase == (PhaseView::Draining { dispatch }) || phase == (PhaseView::Connecting { dispatch })
}

/// From the loss of a connection on, each operation that has to be tried again joins those that
/// wait, as it is and under its own id, and nothing else does. All of them are sent as soon as the
/// connection is back.
pub proof fn law_what_waits_for_a_connection(turn: Turn)
    requires
        turn.steps(),
    ensures
        turn.event is Disconnected ==> holds_back(turn.post.phase, Seq::empty()),
        turn.pre.phase is Running ==> (turn.event matches Event::Response(
            Some(Err(Closed::Retry { op, id })),
        ) ==> holds_back(turn.post.phase, seq![(id, op)])),
        turn.pre.phase matches PhaseView::Draining { dispatch } ==> match turn.event {
            Event::Response(Some(Err(Closed::Retry { op, id }))) => holds_back(
                turn.post.phase,
                dispatch.push((id, op)),
            ),
            _ => holds_back(turn.post.phase, dispatch),
        },
        turn.pre.phase matches PhaseView::Connecting { dispatch } ==> (turn.event is Connected
            ==> turn.out.dispatch == dispatch),
{
}

/// How many operations are in flight, and which, changes nothing in what the task does; only
/// whether there is one does.
pub proof fn law_only_whether_something_is_in_flight_matters(one: Turn, other: Turn)
    requires
        one.steps(),
        other.steps(),
        one.event == other.event,
        !(one.event is Connected),
        one.pre == (TaskView { pending: one.pre.pending, ..other.pre }),
        one.pre.pending.len() == 0 <==> other.pre.pending.len() == 0,
    ensures
        one.out == other.out,
        one.post == (TaskView { pending: one.post.pending, ..other.post }),
{
}

/// Over a new connection everything that was kept is sent, in order. Then the task listens, unless
/// an open subscription asked to be re-established: each that did waits for it once, with a
/// handler that goes by its id and policy and sends where its notifications went before, and
/// nothing else waits.
pub proof fn law_what_a_new_connection_brings(turn: Turn)
    requires
        turn.steps(),
        turn.event is Connected,
    ensures
        turn.pre.phase is Connecting,
        turn.out.dispatch == kept(turn.pre),
        turn.out.notice == Some(Notice::Completed { count: turn.post.reconnects }),
        turn.out.handler is None,
        turn.post.phase is Running || turn.post.phase is Resubscribing,
        turn.post.phase is Running ==> turn.out.next is Select && forall|id: usize| #[trigger]
            turn.pre.open.contains_key(id) ==> !(turn.pre.open[id].policy is RetryAndResubscribe),
        turn.post.phase matches PhaseView::Resubscribing { remaining } ==> {
            &&& remaining.len() > 0
            &&& turn.out.next == Next::Resubscribe(remaining.last().id)
            &&& forall|i: int|
                0 <= i < remaining.len() ==> {
                    let handler = #[trigger] remaining[i];
                    &&& turn.pre.open.contains_key(handler.id)
                    &&& turn.pre.open[handler.id].policy is RetryAndResubscribe
                    &&& handler.policy is RetryAndResubscribe
                    &&& handler.channel == tx_channel(turn.pre.open[handler.id].tx)
                }
            &&& forall|i: int, j: int|
                0 <= i < j < remaining.len() ==> (#[trigger] remaining[i]).id != (
                #[trigger] remaining[j]).id
            &&& forall|id: usize| #[trigger]
                turn.pre.open.contains_key(id) && turn.pre.open[id].policy is RetryAndResubscribe
                    ==> exists|i: int| 0 <= i < remaining.len() && (#[trigger] remaining[i]).id == id
        },
{
    let all = choose|all: Seq<HandlerView>| #[trigger]
        turn.pre.lists_resubscriptions(all) && turn.post == (TaskView {
            reconnects: wrapping_succ(turn.pre.reconnects),
            ..turn.pre
        }).resuming(all).0;
    assert(forall|i: int| 0 <= i < all.len() ==> #[trigger] ids(all)[i] == all[i].id);
    assert forall|i: int| 0 <= i < all.len() implies turn.pre.resubscribes(
        (#[trigger] all[i]).id,
    ) by {
        assert(ids(all)[i] == all[i].id);
        assert(ids(all).contains(all[i].id));
    }
    assert forall|i: int, j: int| 0 <= i < j < all.len() implies (#[trigger] all[i]).id != (
    #[trigger] all[j]).id by {
        assert(ids(all)[i] != ids(all)[j]);
    }
    assert forall|id: usize| #[trigger]
        turn.pre.open.contains_key(id) && turn.pre.open[id].policy is RetryAndResubscribe implies exists|
        i: int,
    | 0 <= i < all.len() && (#[trigger] all[i]).id == id by {
        assert(turn.pre.resubscribes(id));
        assert(ids(all).contains(id));
        let i = choose|i: int| 0 <= i < ids(all).len() && ids(all)[i] == id;
        assert(all[i].id == id);
    }
    assert(kept(turn.pre) =~= turn.out.dispatch);
}

/// A subscription that is open again gets its own handler; the others follow, each in its turn,
/// and when none is left the task listens.
pub proof fn law_each_subscription_follows_in_its_turn(turn: Turn, remaining: Seq<HandlerView>)
    requires
        turn.steps(),
        turn.pre.phase == (PhaseView::Resubscribing { remaining }),
        remaining.len() > 0,
        turn.event is Resubscribed,
    ensures
        turn.out.handler == Some(remaining.last()),
        turn.out.dispatch.len() == 0,
        turn.out.notice is None,
        remaining.len() == 1 ==> turn.post.phase is Running && turn.out.next is Select,
        remaining.len() > 1 ==> {
            &&& turn.post.phase == (PhaseView::Resubscribing { remaining: remaining.drop_last() })
            &&& turn.out.next == Next::Resubscribe(remaining[remaining.len() - 2].id)
        },
{
}

/// What the task waits for next goes by its phase, and a handler is started exactly when a
/// subscription is open again.
pub proof fn law_the_phase_says_what_comes_next(turn: Turn)
    requires
        turn.steps(),
    ensures
        match turn.post.phase {
            PhaseView::Running => turn.out.next is Select,
            PhaseView::Draining { .. } => turn.out.next is Response,
            PhaseView::Connecting { .. } => turn.out.next is Connect,
            PhaseView::Resubscribing { remaining } => remaining.len() > 0 && turn.out.next
                == Next::Resubscribe(remaining.last().id),
            PhaseView::Terminated => turn.out.next is Stop,
        },
        turn.out.handler is Some <==> turn.event is Resubscribed,
{
}

/// An operation is dispatched when a user asks for it, under the id that is next, or when the
/// connection is back and it was kept; at no other time.
pub proof fn law_when_operations_are_dispatched(turn: Turn)
    requires
        turn.steps(),
    ensures
        turn.out.dispatch == match turn.event {
            Event::Message(Some(op)) => seq![(turn.pre.id, op)],
            Event::Connected => kept(turn.pre),
            _ => Seq::empty(),
        },
{
    assert(turn.out.dispatch =~= match turn.event {
        Event::Message(Some(op)) => seq![(turn.pre.id, op)],
        Event::Connected => kept(turn.pre),
        _ => Seq::empty(),
    });
}

/// A reconnection is announced when it starts, which is when a connection begins to be made, and
/// when it is done; nothing else is announced.
pub proof fn law_what_is_announced(turn: Turn)
    requires
        turn.steps(),
    ensures
        turn.out.notice matches Some(Notice::Started) <==> turn.post.phase is Connecting,
        turn.out.notice matches Some(Notice::Completed { .. }) <==> turn.event is Connected,
        turn.out.notice matches Some(Notice::Completed { count }) ==> count == turn.post.reconnects,
{
}

/// A turn takes no operation out of flight. It counts a new connection and nothing else, opens the
/// subscription that has been accepted and removes the one that is over, and leaves every other
/// as it is. The next id follows each time the task gets to listen.
pub proof fn law_what_a_turn_changes(turn: Turn)
    requires
        turn.steps(),
    ensures
        turn.post.pending == turn.pre.pending,
        turn.event is Connected ==> turn.post.reconnects == if turn.pre.reconnects == usize::MAX {
            0
        } else {
            turn.pre.reconnects + 1
        },
        !(turn.event is Connected) ==> turn.post.reconnects == turn.pre.reconnects,
        turn.post.phase is Running ==> turn.post.id == if turn.pre.id == usize::MAX {
            0
        } else {
            turn.pre.id + 1
        },
        !(turn.post.phase is Running) ==> turn.post.id == turn.pre.id,
        turn.post.open == match turn.event {
            Event::Response(Some(Ok(DispatchedCall::Subscription { id, sub }))) => {
                turn.pre.open.insert(id, sub)
            },
            Event::SubscriptionClosed(Some(id)) => turn.pre.open.remove(id),
            _ => turn.pre.open,
        },
{
}

/// A call that was dropped with its connection costs nobody else anything: its caller is told, and
/// the task listens on while the connection is not known to be lost, or goes on to replace it.
pub proof fn law_a_dropped_call_concerns_its_caller_alone(
    dispatched: Dispatched,
    method: String,
    params: RpcParams,
    send_back: oneshot::Sender<MethodResult>,
    id: usize,
    error: RpcError,
    turn: Turn,
)
    requires
        error is RestartNeeded,
        dispatched.settles(
            Op::Call { method, params, send_back, policy: CallRetryPolicy::Drop },
            id,
            Answer::Call(Err(error)),
        ),
        turn.steps(),
        turn.event == Event::Response(Some(dispatched.result)),
    ensures
        turn.pre.phase is Running || turn.pre.phase is Draining,
        turn.pre.phase is Running ==> turn.post.phase is Running && turn.out.next is Select,
        turn.pre.phase is Draining ==> turn.post.phase is Draining || turn.post.phase is Connecting,
        turn.post.open == turn.pre.open,
        kept(turn.post) == kept(turn.pre),
{
    assert(kept(turn.post) =~= kept(turn.pre));
}

/// What the task knows of an open subscription that it re-establishes is what was recorded.
pub proof fn law_what_is_known_of_a_subscription(task: TaskView, id: usize)
    ensures
        task.resubscribes(id) <==> task.open.contains_key(id)
            && task.open[id].policy is RetryAndResubscribe,
        task.handler(id).id == id,
        task.handler(id).policy == task.open[id].policy,
        task.handler(id).channel == tx_channel(task.open[id].tx),
{
}

/// A step shows the very notice, operations, handler and wait that it holds.
pub proof fn law_a_step_shows_what_it_holds(step: Step)
    ensures
        step@.notice == step.notice,
        step@.dispatch == step.dispatch@,
        step@.next == step.next,
        step@.handler is None <==> step.handler is None,
        step.handler matches Some(handler) ==> {
            &&& step@.handler matches Some(shown)
            &&& shown.id == handler.id
            &&& shown.policy == handler.policy
            &&& shown.channel == tx_channel(handler.tx)
        },
{
}

/// Handlers are shown one by one, in order, each with its id, its policy and its channel.
pub proof fn law_handlers_are_shown_in_order(handlers: Seq<SubscriptionHandler>, i: int)
    requires
        0 <= i < handlers.len(),
    ensures
        views(handlers).len() == handlers.len(),
        views(handlers)[i].id == handlers[i].id,
        views(handlers)[i].policy == handlers[i].policy,
        views(handlers)[i].channel == tx_channel(handlers[i].tx),
        ids(views(handlers)).len() == handlers.len(),
        ids(views(handlers))[i] == handlers[i].id,
{
}

// ---------------------------------------------------------------------------
// The handler of a subscription.
// ---------------------------------------------------------------------------

/// A handler sends every notification that comes, unchanged, and one message when they have ended,
/// which says whether the subscription asked to be re-established; it sends nothing else.
pub proof fn law_what_a_handler_sends(handler: SubscriptionHandler, turn: HandlerTurn)
    ensures
        turn.message(handler) == match turn.event {
            HandlerEvent::Notification(value) => Some::<SubscriptionResult>(Ok(value)),
            HandlerEvent::Ended(reason) => Some::<SubscriptionResult>(
                Err(
                    if handler.policy is RetryAndResubscribe {
                        Disconnect::Retry(reason)
                    } else {
                        Disconnect::Dropped(reason)
                    },
                ),
            ),
            HandlerEvent::ClosedByUser | HandlerEvent::TaskClosed => None,
        },
{
}

/// A handler listens on after every notification that reached its user, whatever its policy. It
/// stops only when the notifications have ended, its user or the task is gone, or a message did
/// not arrive.
pub proof fn law_when_a_handler_stops(handler: SubscriptionHandler, turn: HandlerTurn)
    ensures
        turn.after(handler) is Listen <==> turn.event is Notification && turn.delivered,
        turn.after(handler) is Stop <==> {
            ||| turn.event is Ended
            ||| turn.event is ClosedByUser
            ||| turn.event is TaskClosed
            ||| !turn.delivered
        },
{
}

/// A handler that stops has its own subscription removed, and no other; it is left open only for
/// a user who is there and was told that it is re-established.
pub proof fn law_what_a_handler_leaves_behind(
    handler: SubscriptionHandler,
    turn: HandlerTurn,
    remove: Option<usize>,
)
    requires
        turn.after(handler) == (HandlerStep::Stop { remove }),
    ensures
        remove is None <==> turn.event is Ended && turn.delivered
            && handler.policy is RetryAndResubscribe,
        remove is Some ==> remove == Some(handler.id),
{
}

/// After a message that its user did not get, a handler always has its subscription removed; after
/// one that arrived it does what was to follow.
pub proof fn law_what_follows_a_message(handler: SubscriptionHandler, then: Then, delivered: bool)
    ensures
        !delivered ==> handler.proceeds(then, delivered) == (HandlerStep::Stop {
            remove: Some(handler.id),
        }),
        delivered && then is Listen ==> handler.proceeds(then, delivered) is Listen,
        delivered && then is Resubscribe ==> handler.proceeds(then, delivered) == (
        HandlerStep::Stop { remove: None }),
        delivered && then is Drop ==> handler.proceeds(then, delivered) == (HandlerStep::Stop {
            remove: Some(handler.id),
        }),
{
}

/// Two handlers of the same policy treat an event alike, but that each speaks of its own
/// subscription.
pub proof fn law_a_handler_goes_by_its_policy(
    one: SubscriptionHandler,
    other: SubscriptionHandler,
    turn: HandlerTurn,
)
    requires
        one.policy == other.policy,
    ensures
        turn.message(one) == turn.message(other),
        turn.after(one) is Listen <==> turn.after(other) is Listen,
        turn.after(one) == (HandlerStep::Stop { remove: None }) <==> turn.after(other) == (
        HandlerStep::Stop { remove: None }),
{
}

// ---------------------------------------------------------------------------
// Counting.
// ---------------------------------------------------------------------------

/// Counting goes on by one, and begins anew at the end of the type. Only a reconnection is counted.
pub proof fn law_how_reconnections_are_counted(count: usize)
    ensures
        count < usize::MAX ==> wrapping_succ(count) == count + 1,
        wrapping_succ(usize::MAX) == 0,
        count < usize::MAX ==> EndCall::Reconnect.counts(count) == count + 1,
        EndCall::Reconnect.counts(usize::MAX) == 0,
        EndCall::Initiate.counts(count) == count,
        EndCall::Read.counts(count) == count,
{
}

} // verus!
