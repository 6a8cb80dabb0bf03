//! The background task: takes in what happens, one event at a time, and says what has
//! to be done about it.
//!
//! While the connection holds, the task dispatches operations and keeps a record of the
//! open subscriptions. When the connection is lost it waits for every operation in flight
//! to return, has a new connection made, dispatches over it whatever has to be tried again
//! and re-establishes the subscriptions that want it.

use crate::client::Client;
use crate::dispatch::{CallFuture, Closed, DispatchResult, DispatchedCall, Op, RetrySubscription};
use crate::handler::{HandlerView, SubscriptionHandler};
use crate::outside::{clone_sender, context_waker, tx_channel, woken_task};
use crate::types::{CallRetryPolicy, Poll};
use crate::utils::{wrapping_succ, MaybePendingFutures, Notice, ReconnectTx};
use std::collections::HashMap;
use std::task::{Context, Waker};
use vstd::multiset::Multiset;
use vstd::prelude::*;

verus! {

broadcast use vstd::std_specs::hash::group_hash_axioms;

/// Something that happened.
pub enum Event {
    /// A user of the client asked for an operation. `None` says that there are no users left.
    Message(Option<Op>),
    /// An operation in flight has returned. `None` says that the set of them has ended.
    Response(Option<DispatchResult>),
    /// The connection was terminated.
    Disconnected,
    /// The subscription with that id is over. `None` says that no handler is left.
    SubscriptionClosed(Option<usize>),
    /// A new connection has been made.
    Connected,
    /// No new connection could be made, and the retry policy gave up.
    ConnectFailed,
    /// The subscription that was being re-established is open again.
    Resubscribed,
    /// The subscription could not be re-established, and the retry policy gave up.
    ResubscribeFailed,
}

/// What to wait for next.
#[derive(Clone, Copy, Debug)]
pub enum Next {
    /// The first that happens of: a message, a response, a disconnect or the end of a
    /// subscription.
    Select,
    /// The response of the next operation in flight.
    Response,
    /// A new connection, for as long as the retry policy allows.
    Connect,
    /// The subscription with that id, to be opened again over the new connection, for as
    /// long as the retry policy allows.
    Resubscribe(usize),
    /// Nothing; the task is over.
    Stop,
}

/// What has to be done about an event, in this order.
pub struct Step {
    /// Something to announce.
    pub notice: Option<Notice>,
    /// The operations to dispatch, each under its id.
    pub dispatch: Vec<(usize, Op)>,
    /// The handler to start for the subscription that is open again.
    pub handler: Option<SubscriptionHandler>,
    /// What to wait for then.
    pub next: Next,
}

/// A `Step`, with its operations as a sequence and the channel of its handler.
pub struct StepView {
    pub notice: Option<Notice>,
    pub dispatch: Seq<(usize, Op)>,
    pub handler: Option<HandlerView>,
    pub next: Next,
}

impl View for Step {
    type V = StepView;

    open spec fn view(&self) -> StepView {
        StepView {
            notice: self.notice,
            dispatch: self.dispatch@,
            handler: match self.handler {
                Some(handler) => Some(handler@),
                None => None,
            },
            next: self.next,
        }
    }
}

/// Nothing to do but to wait.
pub open spec fn waits(next: Next) -> StepView {
    StepView { notice: None, dispatch: Seq::empty(), handler: None, next }
}

/// What the task is at.
pub enum PhaseView {
    /// The connection holds.
    Running,
    /// The connection is lost, and operations are still in flight; those in `dispatch` have
    /// returned and have to be tried again.
    Draining { dispatch: Seq<(usize, Op)> },
    /// A new connection is being made; those in `dispatch` have to be tried again.
    Connecting { dispatch: Seq<(usize, Op)> },
    /// The new connection is there; the subscriptions in `remaining`, of which there is one at
    /// least, have to be re-established and get these handlers, beginning with the last.
    Resubscribing { remaining: Seq<HandlerView> },
    /// The task is over.
    Terminated,
}

/// The ids of the handlers.
pub open spec fn ids(handlers: Seq<HandlerView>) -> Seq<usize> {
    Seq::new(handlers.len(), |i: int| handlers[i].id)
}

/// The handlers, each with the channel that it sends on.
pub open spec fn views(handlers: Seq<SubscriptionHandler>) -> Seq<HandlerView> {
    Seq::new(handlers.len(), |i: int| handlers[i]@)
}

/// All that the task knows.
pub struct TaskView {
    /// The id that the next operation gets.
    pub id: usize,
    /// The open subscriptions, under their ids.
    pub open: Map<usize, RetrySubscription>,
    /// The operations in flight.
    pub pending: Multiset<CallFuture>,
    /// How often the client has reconnected.
    pub reconnects: usize,
    pub phase: PhaseView,
}

impl TaskView {
    /// The subscription with this id is re-established when the connection is lost.
    pub open spec fn resubscribes(self, id: usize) -> bool {
        self.open.contains_key(id) && self.open[id].policy.resubscribes()
    }

    /// The handler of the open subscription with this id: it goes by the same policy, and sends
    /// on the same channel.
    pub open spec fn handler(self, id: usize) -> HandlerView {
        HandlerView { id, policy: self.open[id].policy, channel: tx_channel(self.open[id].tx) }
    }

    /// These are, once each and in some order, the handlers of the subscriptions that are
    /// re-established when the connection is lost.
    pub open spec fn lists_resubscriptions(self, handlers: Seq<HandlerView>) -> bool {
        &&& ids(handlers).no_duplicates()
        &&& forall|id: usize| #[trigger] ids(handlers).contains(id) <==> self.resubscribes(id)
        &&& forall|i: int|
            0 <= i < handlers.len() ==> #[trigger] handlers[i] == self.handler(handlers[i].id)
    }

    /// Whatever waits to be re-established is open and wants to be.
    pub open spec fn well_formed(self) -> bool {
        match self.phase {
            PhaseView::Resubscribing { remaining } => {
                &&& remaining.len() > 0
                &&& ids(remaining).no_duplicates()
                &&& forall|i: int|
                    0 <= i < remaining.len() ==> {
                        &&& self.resubscribes((#[trigger] remaining[i]).id)
                        &&& remaining[i] == self.handler(remaining[i].id)
                    }
            },
            _ => true,
        }
    }

    /// The event is one of those that the task waits for.
    pub open spec fn awaits(self, event: Event) -> bool {
        match self.phase {
            PhaseView::Running => {
                event is Message || event is Response || event is Disconnected
                    || event is SubscriptionClosed
            },
            PhaseView::Draining { .. } => event is Response,
            PhaseView::Connecting { .. } => event is Connected || event is ConnectFailed,
            PhaseView::Resubscribing { .. } => {
                event is Resubscribed || event is ResubscribeFailed
            },
            PhaseView::Terminated => false,
        }
    }

    /// One event has been dealt with, and the connection holds.
    pub open spec fn running(self) -> TaskView {
        TaskView { id: wrapping_succ(self.id), phase: PhaseView::Running, ..self }
    }

    /// The task is over, and so is all that waits in it.
    pub open spec fn terminated(self) -> TaskView {
        TaskView { phase: PhaseView::Terminated, ..self }
    }

    /// The connection is lost and `dispatch` has to be tried again. Only when no operation
    /// is in flight any more is a new connection made, and that is announced.
    pub open spec fn reconnecting(self, dispatch: Seq<(usize, Op)>) -> (TaskView, StepView) {
        if self.pending.len() == 0 {
            (
                TaskView { phase: PhaseView::Connecting { dispatch }, ..self },
                StepView { notice: Some(Notice::Started), ..waits(Next::Connect) },
            )
        } else {
            (
                TaskView { phase: PhaseView::Draining { dispatch }, ..self },
                waits(Next::Response),
            )
        }
    }

    /// The connection is there again and the subscriptions in `remaining` have to be
    /// re-established.
    pub open spec fn resuming(self, remaining: Seq<HandlerView>) -> (TaskView, Next) {
        if remaining.len() == 0 {
            (self.running(), Next::Select)
        } else {
            (
                TaskView { phase: PhaseView::Resubscribing { remaining }, ..self },
                Next::Resubscribe(remaining.last().id),
            )
        }
    }

    /// A response came while the connection holds.
    pub open spec fn responded(self, response: Option<DispatchResult>) -> (TaskView, StepView) {
        match response {
            None => (self.terminated(), waits(Next::Stop)),
            Some(Ok(DispatchedCall::Subscription { id, sub })) => (
                TaskView { open: self.open.insert(id, sub), ..self.running() },
                waits(Next::Select),
            ),
            Some(Err(Closed::Retry { op, id })) => self.reconnecting(seq![(id, op)]),
            Some(Ok(DispatchedCall::Done)) | Some(Err(Closed::Dropped)) => (
                self.running(),
                waits(Next::Select),
            ),
        }
    }

    /// A response came after the connection was lost: an operation that has to be tried again
    /// joins the others in `dispatch`, and a subscription that was opened just before is open.
    pub open spec fn drained(
        self,
        dispatch: Seq<(usize, Op)>,
        response: Option<DispatchResult>,
    ) -> (TaskView, StepView) {
        match response {
            Some(Err(Closed::Retry { op, id })) => self.reconnecting(dispatch.push((id, op))),
            Some(Ok(DispatchedCall::Subscription { id, sub })) => TaskView {
                open: self.open.insert(id, sub),
                ..self
            }.reconnecting(dispatch),
            _ => self.reconnecting(dispatch),
        }
    }

    /// A new connection is there: that is announced and counted, all of `dispatch` is
    /// dispatched again, in its order and under the same ids, and every open subscription
    /// that wants it is re-established, in no particular order.
    pub open spec fn connected(
        self,
        dispatch: Seq<(usize, Op)>,
        post: TaskView,
        out: StepView,
    ) -> bool {
        let counted = TaskView { reconnects: wrapping_succ(self.reconnects), ..self };
        exists|remaining: Seq<HandlerView>| #[trigger]
            self.lists_resubscriptions(remaining) && post == counted.resuming(remaining).0 && out
                == (StepView {
                notice: Some(Notice::Completed { count: counted.reconnects }),
                dispatch,
                handler: None,
                next: counted.resuming(remaining).1,
            })
    }

    /// The last of `remaining` is open again: its handler is started, and the others follow.
    pub open spec fn resubscribed(self, remaining: Seq<HandlerView>) -> (TaskView, StepView) {
        let (post, next) = self.resuming(remaining.drop_last());
        (post, StepView { handler: Some(remaining.last()), ..waits(next) })
    }

    /// How the task goes on from here when `event` happens.
    pub open spec fn steps_to(self, event: Event, post: TaskView, out: StepView) -> bool {
        match (self.phase, event) {
            (PhaseView::Running, Event::Message(Some(op))) => (post, out) == (
                self.running(),
                StepView { dispatch: seq![(self.id, op)], ..waits(Next::Select) },
            ),
            (PhaseView::Running, Event::Message(None)) => (post, out) == (
                self.terminated(),
                waits(Next::Stop),
            ),
            (PhaseView::Running, Event::Response(response)) => (post, out) == self.responded(
                response,
            ),
            (PhaseView::Running, Event::Disconnected) => (post, out) == self.reconnecting(
                Seq::empty(),
            ),
            (PhaseView::Running, Event::SubscriptionClosed(Some(id))) => (post, out) == (
                TaskView { open: self.open.remove(id), ..self.running() },
                waits(Next::Select),
            ),
            (PhaseView::Running, Event::SubscriptionClosed(None)) => (post, out) == (
                self.terminated(),
                waits(Next::Stop),
            ),
            (PhaseView::Draining { dispatch }, Event::Response(response)) => (post, out)
                == self.drained(dispatch, response),
            (PhaseView::Connecting { dispatch }, Event::Connected) => self.connected(
                dispatch,
                post,
                out,
            ),
            (PhaseView::Connecting { .. }, Event::ConnectFailed) => (post, out) == (
                self.terminated(),
                waits(Next::Stop),
            ),
            (PhaseView::Resubscribing { remaining }, Event::Resubscribed) => (post, out)
                == self.resubscribed(remaining),
            (PhaseView::Resubscribing { .. }, Event::ResubscribeFailed) => (post, out) == (
                self.terminated(),
                waits(Next::Stop),
            ),
            _ => false,
        }
    }
}

/// What the task is at, as `PhaseView` says.
enum Phase {
    Running,
    Draining { dispatch: Vec<(usize, Op)> },
    Connecting { dispatch: Vec<(usize, Op)> },
    Resubscribing { current: SubscriptionHandler, rest: Vec<SubscriptionHandler> },
    Terminated,
}

impl View for Phase {
    type V = PhaseView;

    closed spec fn view(&self) -> PhaseView {
        match self {
            Phase::Running => PhaseView::Running,
            Phase::Draining { dispatch } => PhaseView::Draining { dispatch: dispatch@ },
            Phase::Connecting { dispatch } => PhaseView::Connecting { dispatch: dispatch@ },
            Phase::Resubscribing { current, rest } => PhaseView::Resubscribing {
                remaining: views(rest@).push(current@),
            },
            Phase::Terminated => PhaseView::Terminated,
        }
    }
}

/// The background task of a client.
pub struct BackgroundTask {
    pending_calls: MaybePendingFutures,
    open_subscriptions: HashMap<usize, RetrySubscription>,
    id: usize,
    reconn: ReconnectTx,
    phase: Phase,
}

impl View for BackgroundTask {
    type V = TaskView;

    closed spec fn view(&self) -> TaskView {
        TaskView {
            id: self.id,
            open: self.open_subscriptions@,
            pending: self.pending_calls@,
            reconnects: self.reconn@,
            phase: self.phase@,
        }
    }
}

/// The step that does nothing but wait.
fn wait(next: Next) -> (step: Step)
    ensures
        step@ == waits(next),
{
    Step { notice: None, dispatch: Vec::new(), handler: None, next }
}

impl BackgroundTask {
    /// The waker of the task that waits for an operation to be dispatched.
    pub closed spec fn parked(self) -> Option<Waker> {
        self.pending_calls.parked()
    }

    /// What the operations in flight have answered so far to the polls for a response, in order.
    pub closed spec fn answered(self) -> Seq<Poll<Option<DispatchResult>>> {
        self.pending_calls.answered()
    }

    /// A task that has just connected; reconnections are announced over `reconn`.
    pub fn new(reconn: ReconnectTx) -> (task: Self)
        ensures
            task@ == (TaskView {
                id: 0,
                open: Map::empty(),
                pending: Multiset::empty(),
                reconnects: reconn@,
                phase: PhaseView::Running,
            }),
            task.parked() is None,
            task.answered().len() == 0,
    {
        BackgroundTask {
            pending_calls: MaybePendingFutures::new(),
            open_subscriptions: HashMap::new(),
            id: 0,
            reconn,
            phase: Phase::Running,
        }
    }

    /// A client of the task.
    pub fn client(&self) -> (client: Client<'_>)
        ensures
            client@ == self@.reconnects,
    {
        Client::new(self.reconn.receiver())
    }

    /// Takes the future of an operation that has been dispatched. The task that waits for one,
    /// if there is one, is handed out to be woken.
    #[must_use]
    pub fn push(&mut self, fut: CallFuture) -> (wake: Option<Waker>)
        ensures
            final(self)@ == (TaskView { pending: old(self)@.pending.insert(fut), ..old(self)@ }),
            final(self).answered() == old(self).answered(),
            wake == old(self).parked(),
            final(self).parked() is None,
    {
        self.pending_calls.push(fut)
    }

    /// Polls for the response of an operation in flight, and hands on what comes.
    pub fn poll_next(&mut self, cx: &mut Context<'_>) -> (item: Poll<Option<DispatchResult>>)
        ensures
            !(item matches Poll::Ready(None)),
            old(self)@.pending.len() == 0 ==> {
                &&& item is Pending
                &&& final(self)@ == old(self)@
                &&& final(self).answered() == old(self).answered()
                &&& final(self).parked() matches Some(waker) && woken_task(waker) == woken_task(
                    context_waker(*old(cx)),
                )
            },
            old(self)@.pending.len() > 0 ==> {
                &&& final(self).answered() == old(self).answered().push(item)
                &&& final(self).parked() == old(self).parked()
                &&& item is Pending ==> final(self)@ == old(self)@
                &&& item is Ready ==> exists|fut: CallFuture| #[trigger]
                    old(self)@.pending.contains(fut) && final(self)@ == (TaskView {
                        pending: old(self)@.pending.remove(fut),
                        ..old(self)@
                    })
            },
    {
        self.pending_calls.poll_next(cx)
    }

    /// The open subscription with that id.
    pub fn open_subscription(&self, id: usize) -> (sub: Option<&RetrySubscription>)
        ensures
            match sub {
                Some(sub) => self@.open.contains_key(id) && *sub == self@.open[id],
                None => !self@.open.contains_key(id),
            },
    {
        self.open_subscriptions.get(&id)
    }

    /// Whether the event is one of those that the task waits for.
    pub fn is_awaiting(&self, event: &Event) -> (awaited: bool)
        ensures
            awaited == self@.awaits(*event),
    {
        match (&self.phase, event) {
            (Phase::Running, Event::Message(_)) => true,
            (Phase::Running, Event::Response(_)) => true,
            (Phase::Running, Event::Disconnected) => true,
            (Phase::Running, Event::SubscriptionClosed(_)) => true,
            (Phase::Draining { .. }, Event::Response(_)) => true,
            (Phase::Connecting { .. }, Event::Connected) => true,
            (Phase::Connecting { .. }, Event::ConnectFailed) => true,
            (Phase::Resubscribing { .. }, Event::Resubscribed) => true,
            (Phase::Resubscribing { .. }, Event::ResubscribeFailed) => true,
            _ => false,
        }
    }

    /// Deals with one event.
    pub fn background_task(&mut self, event: Event) -> (step: Step)
        requires
            old(self)@.awaits(event),
        ensures
            old(self)@.steps_to(event, final(self)@, step@),
            final(self).parked() == old(self).parked(),
            final(self).answered() == old(self).answered(),
    {
        let mut phase = Phase::Terminated;
        std::mem::swap(&mut phase, &mut self.phase);
        match (phase, event) {
            // An incoming operation to dispatch.
            (Phase::Running, Event::Message(Some(op))) => {
                let id = self.id;
                self.listen();
                let mut dispatch: Vec<(usize, Op)> = Vec::new();
                dispatch.push((id, op));
                proof {
                    assert(dispatch@ =~= seq![(id, op)]);
                }
                Step { notice: None, dispatch, handler: None, next: Next::Select }
            },
            // An operation has returned.
            (Phase::Running, Event::Response(Some(response))) => match response {
                // New subscription opened.
                Ok(DispatchedCall::Subscription { id, sub }) => {
                    self.open_subscriptions.insert(id, sub);
                    self.listen();
                    wait(Next::Select)
                },
                // The connection was closed, re-connect and try to send all messages again.
                Err(Closed::Retry { op, id }) => {
                    let mut dispatch: Vec<(usize, Op)> = Vec::new();
                    dispatch.push((id, op));
                    proof {
                        assert(dispatch@ =~= seq![(id, op)]);
                    }
                    self.reconnect(dispatch)
                },
                Err(Closed::Dropped) | Ok(DispatchedCall::Done) => {
                    self.listen();
                    wait(Next::Select)
                },
            },
            // The connection was terminated and try to reconnect.
            (Phase::Running, Event::Disconnected) => self.reconnect(Vec::new()),
            // Subscription was closed.
            (Phase::Running, Event::SubscriptionClosed(Some(id))) => {
                self.open_subscriptions.remove(&id);
                self.listen();
                wait(Next::Select)
            },
            (Phase::Draining { dispatch }, Event::Response(response)) => self.drain(
                dispatch,
                response,
            ),
            (Phase::Connecting { dispatch }, Event::Connected) => {
                let notice = self.reconn.reconnected();
                let remaining = self.resubscriptions();
                proof {
                    let before = old(self)@;
                    assert(forall|id: usize|
                        self@.resubscribes(id) == #[trigger] before.resubscribes(id));
                    assert(forall|id: usize| self@.handler(id) == #[trigger] before.handler(id));
                    assert(before.lists_resubscriptions(views(remaining@)));
                }
                let next = self.resume(remaining);
                Step { notice: Some(notice), dispatch, handler: None, next }
            },
            (Phase::Resubscribing { current, rest }, Event::Resubscribed) => {
                proof {
                    let remaining = views(rest@).push(current@);
                    assert(remaining.drop_last() =~= views(rest@));
                }
                let next = self.resume(rest);
                Step { notice: None, dispatch: Vec::new(), handler: Some(current), next }
            },
            // Nothing is left to wait for, or the retry policy gave up.
            _ => wait(Next::Stop),
        }
    }

    /// Waits for the next event while the connection holds.
    fn listen(&mut self)
        ensures
            final(self)@ == old(self)@.running(),
            final(self).pending_calls == old(self).pending_calls,
    {
        self.id = self.id.wrapping_add(1);
        self.phase = Phase::Running;
    }

    /// Makes a new connection, once every operation in flight has returned.
    fn reconnect(&mut self, dispatch: Vec<(usize, Op)>) -> (step: Step)
        ensures
            (final(self)@, step@) == old(self)@.reconnecting(dispatch@),
            final(self).pending_calls == old(self).pending_calls,
    {
        // All operations return now because the connection has been terminated.
        if !self.pending_calls.is_empty() {
            self.phase = Phase::Draining { dispatch };
            return wait(Next::Response);
        }
        let notice = self.reconn.reconnect_initiated();
        self.phase = Phase::Connecting { dispatch };
        Step { notice: Some(notice), dispatch: Vec::new(), handler: None, next: Next::Connect }
    }

    /// Takes in a response that came after the connection was lost.
    fn drain(&mut self, dispatch: Vec<(usize, Op)>, response: Option<DispatchResult>) -> (step:
        Step)
        ensures
            (final(self)@, step@) == old(self)@.drained(dispatch@, response),
            final(self).pending_calls == old(self).pending_calls,
    {
        let mut dispatch = dispatch;
        match response {
            Some(Err(Closed::Retry { op, id })) => {
                dispatch.push((id, op));
            },
            Some(Ok(DispatchedCall::Subscription { id, sub })) => {
                self.open_subscriptions.insert(id, sub);
            },
            Some(Ok(DispatchedCall::Done)) | Some(Err(Closed::Dropped)) | None => {},
        }
        self.reconnect(dispatch)
    }

    /// Makes the handlers of the subscriptions that have to be re-established.
    fn resubscriptions(&self) -> (handlers: Vec<SubscriptionHandler>)
        ensures
            self@.lists_resubscriptions(views(handlers@)),
    {
        let listed = self.listed();
        let mut handlers: Vec<SubscriptionHandler> = Vec::new();
        for id in entries: listed.iter()
            invariant
                entries.seq().len() == listed@.len(),
                forall|i: int|
                    0 <= i < listed@.len() ==> *(#[trigger] entries.seq()[i]) == listed@[i],
                forall|i: int|
                    0 <= i < listed@.len() ==> listed@.contains(#[trigger] listed@[i]),
                forall|id: usize| #[trigger] listed@.contains(id) <==> self@.resubscribes(id),
                handlers@.len() == entries.index(),
                forall|i: int|
                    0 <= i < handlers@.len() ==> (#[trigger] handlers@[i])@ == self@.handler(
                        listed@[i],
                    ),
        {
            proof {
                assert(listed@.contains(*id));
            }
            let handler = match self.open_subscriptions.get(id) {
                Some(sub) => SubscriptionHandler {
                    id: *id,
                    policy: sub.policy,
                    tx: clone_sender(&sub.tx),
                },
                None => vstd::pervasive::unreached(),
            };
            handlers.push(handler);
        }
        proof {
            assert(ids(views(handlers@)) =~= listed@);
        }
        handlers
    }

    /// Lists the subscriptions that have to be re-established.
    fn listed(&self) -> (listed: Vec<usize>)
        ensures
            listed@.no_duplicates(),
            forall|id: usize| #[trigger] listed@.contains(id) <==> self@.resubscribes(id),
    {
        let mut listed: Vec<usize> = Vec::new();
        for entry in entries: self.open_subscriptions.iter()
            invariant
                entries.seq().no_duplicates(),
                forall|j: int|
                    0 <= j < entries.seq().len() ==> {
                        let (id, sub) = #[trigger] entries.seq()[j];
                        self@.open.contains_key(*id) && self@.open[*id] == *sub
                    },
                forall|id: usize| #[trigger]
                    self@.open.contains_key(id) ==> entries.seq().contains((&id, &self@.open[id])),
                listed@.no_duplicates(),
                forall|i: int|
                    0 <= i < listed@.len() ==> {
                        &&& self@.resubscribes(#[trigger] listed@[i])
                        &&& entries.seq().take(entries.index()).contains(
                            (&listed@[i], &self@.open[listed@[i]]),
                        )
                    },
                forall|j: int|
                    0 <= j < entries.index() && (#[trigger] entries.seq()[j]).1.policy.resubscribes()
                        ==> listed@.contains(*entries.seq()[j].0),
        {
            let ghost before = listed@;
            if matches!(entry.1.policy, CallRetryPolicy::RetryAndResubscribe) {
                listed.push(*entry.0);
            }
            proof {
                let all = entries.seq();
                let n = entries.index();
                assert(all[n] == entry);
                assert(all.take(n + 1) =~= all.take(n).push(entry));
                assert forall|i: int| 0 <= i < listed@.len() implies all.take(n + 1).contains(
                    (&#[trigger] listed@[i], &self@.open[listed@[i]]),
                ) by {
                    if i < before.len() {
                        let k = choose|k: int|
                            0 <= k < n && all.take(n)[k] == (&listed@[i], &self@.open[listed@[i]]);
                        assert(all.take(n + 1)[k] == all.take(n)[k]);
                    } else {
                        assert(all.take(n + 1)[n] == entry);
                    }
                }
                assert forall|j: int|
                    0 <= j < n + 1 && (#[trigger] all[j]).1.policy.resubscribes() implies listed@.contains(
                    *all[j].0,
                ) by {
                    if j < n {
                        let k = choose|k: int| 0 <= k < before.len() && before[k] == *all[j].0;
                        assert(listed@[k] == before[k]);
                    } else {
                        assert(listed@[before.len() as int] == *entry.0);
                    }
                }
            }
        }
        listed
    }

    /// Goes on with the subscriptions that still have to be re-established.
    fn resume(&mut self, remaining: Vec<SubscriptionHandler>) -> (next: Next)
        ensures
            (final(self)@, next) == old(self)@.resuming(views(remaining@)),
            final(self).pending_calls == old(self).pending_calls,
    {
        let mut rest = remaining;
        match rest.pop() {
            None => {
                self.listen();
                Next::Select
            },
            Some(current) => {
                let id = current.id;
                proof {
                    assert(views(rest@).push(current@) =~= views(remaining@));
                }
                self.phase = Phase::Resubscribing { current, rest };
                Next::Resubscribe(id)
            },
        }
    }
}

} // verus!
