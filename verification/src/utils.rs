//! The set of calls in flight, and the count of reconnections.

use crate::dispatch::{CallFuture, DispatchResult};
use crate::outside::{
    context_waker, futures_held, held, holds_none, no_futures, poll_futures, push_future,
    set_answered, woken_task,
};
use crate::types::Poll;
use futures::stream::FuturesUnordered;
use std::task::{Context, Waker};
use vstd::multiset::Multiset;
use vstd::prelude::*;

verus! {

/// A wrapper around `FuturesUnordered` that doesn't end when it's empty.
pub struct MaybePendingFutures {
    futs: FuturesUnordered<CallFuture>,
    waker: Option<Waker>,
}

impl View for MaybePendingFutures {
    type V = Multiset<CallFuture>;

    /// The futures that are held.
    closed spec fn view(&self) -> Multiset<CallFuture> {
        held(self.futs)
    }
}

impl Default for MaybePendingFutures {
    fn default() -> (pending: Self)
        ensures
            pending@ == Multiset::<CallFuture>::empty(),
            pending.parked() is None,
            pending.answered().len() == 0,
    {
        MaybePendingFutures::new()
    }
}

impl MaybePendingFutures {
    /// The waker of the task that found the set empty and has to be woken when a future
    /// is added.
    pub closed spec fn parked(self) -> Option<Waker> {
        self.waker
    }

    /// What the set has answered so far to the polls that found it not empty, in order.
    pub closed spec fn answered(self) -> Seq<Poll<Option<DispatchResult>>> {
        set_answered(self.futs)
    }

    /// An empty set that no task waits for.
    pub fn new() -> (pending: Self)
        ensures
            pending@ == Multiset::<CallFuture>::empty(),
            pending.parked() is None,
            pending.answered().len() == 0,
    {
        MaybePendingFutures { futs: no_futures(), waker: None }
    }

    /// Adds a future. The task that waits for one, if there is one, is handed out to be woken.
    #[must_use]
    pub fn push(&mut self, fut: CallFuture) -> (wake: Option<Waker>)
        ensures
            final(self)@ == old(self)@.insert(fut),
            final(self).answered() == old(self).answered(),
            wake == old(self).parked(),
            final(self).parked() is None,
    {
        push_future(&mut self.futs, fut);
        self.waker.take()
    }

    /// Whether no future is held.
    pub fn is_empty(&self) -> (empty: bool)
        ensures
            empty == (self@.len() == 0),
    {
        holds_none(&self.futs)
    }

    /// How many futures are held.
    pub fn len(&self) -> (n: usize)
        ensures
            n == self@.len(),
    {
        futures_held(&self.futs)
    }

    /// Polls for the output of a future that is done; that future leaves the set, and what the
    /// set answers is handed on. On an empty set this is pending, and the next `push` hands out
    /// the polling task to be woken: the stream never ends.
    pub fn poll_next(&mut self, cx: &mut Context<'_>) -> (item: Poll<Option<DispatchResult>>)
        ensures
            !(item matches Poll::Ready(None)),
            old(self)@.len() == 0 ==> {
                &&& item is Pending
                &&& final(self)@ == old(self)@
                &&& final(self).answered() == old(self).answered()
                &&& final(self).parked() matches Some(waker) && woken_task(waker) == woken_task(
                    context_waker(*old(cx)),
                )
            },
            old(self)@.len() > 0 ==> {
                &&& final(self).answered() == old(self).answered().push(item)
                &&& final(self).parked() == old(self).parked()
                &&& item is Pending ==> final(self)@ == old(self)@
                &&& item is Ready ==> exists|fut: CallFuture| #[trigger]
                    old(self)@.contains(fut) && final(self)@ == old(self)@.remove(fut)
            },
    {
        if self.is_empty() {
            self.waker = Some(cx.waker().clone());
            return Poll::Pending;
        }
        poll_futures(&mut self.futs, cx)
    }
}

/// The number that follows `n` when counting wraps around at the end of its type.
pub open spec fn wrapping_succ(n: usize) -> usize {
    if n == usize::MAX {
        0
    } else {
        (n + 1) as usize
    }
}

/// Counts how often the client has reconnected. The count of a channel is one value: it is not
/// copied, and everyone reads it where it is.
#[derive(Debug)]
pub struct ReconnectCounter(usize);

impl View for ReconnectCounter {
    type V = usize;

    closed spec fn view(&self) -> usize {
        self.0
    }
}

impl Default for ReconnectCounter {
    fn default() -> (counter: Self)
        ensures
            counter@ == 0,
    {
        ReconnectCounter::new()
    }
}

impl ReconnectCounter {
    /// A counter that stands at zero.
    pub fn new() -> (counter: Self)
        ensures
            counter@ == 0,
    {
        ReconnectCounter(0)
    }

    /// What the counter stands at.
    pub fn get(&self) -> (count: usize)
        ensures
            count == self@,
    {
        self.0
    }

    /// Counts one more; after `usize::MAX` comes zero.
    pub fn inc(&mut self)
        ensures
            final(self)@ == wrapping_succ(old(self)@),
    {
        self.0 = self.0.wrapping_add(1);
    }
}

/// What the task that reconnects tells everyone who holds a `ReconnectRx`.
#[derive(Clone, Copy, Debug)]
pub enum Notice {
    /// The connection was closed and reconnecting has started.
    Started,
    /// The connection is established again, for the `count`-th time.
    Completed { count: usize },
}

/// A call on an end of the channel that reconnections are announced over.
pub enum EndCall {
    /// `ReconnectTx::reconnect` or `ReconnectTx::reconnected`.
    Reconnect,
    /// `ReconnectTx::reconnect_initiated`.
    Initiate,
    /// A call on any end that reads the count or looks at a notice.
    Read,
}

impl EndCall {
    /// What the count is after the call, when it was `count` before.
    pub open spec fn counts(self, count: usize) -> usize {
        match self {
            EndCall::Reconnect => wrapping_succ(count),
            EndCall::Initiate | EndCall::Read => count,
        }
    }
}

/// Makes a channel that reconnections are announced over. Nothing has been announced yet. What
/// is made is the sending end; every receiving end is taken from it, and reads its count.
pub fn reconnect_channel() -> (tx: ReconnectTx)
    ensures
        tx@ == 0,
{
    ReconnectTx { count: ReconnectCounter::new() }
}

/// The end that announces reconnections, and holds their count.
#[derive(Debug)]
pub struct ReconnectTx {
    count: ReconnectCounter,
}

impl View for ReconnectTx {
    type V = usize;

    /// How many reconnections have been announced.
    closed spec fn view(&self) -> usize {
        self.count@
    }
}

impl ReconnectTx {
    /// A receiving end of the channel.
    pub fn receiver(&self) -> (rx: ReconnectRx<'_>)
        ensures
            rx@ == self@,
    {
        ReconnectRx { tx: self }
    }

    /// Announces that reconnecting has started.
    pub fn reconnect_initiated(&self) -> (notice: Notice)
        ensures
            notice is Started,
    {
        Notice::Started
    }

    /// Announces and counts a reconnection.
    pub fn reconnect(&mut self) -> (notice: Notice)
        ensures
            final(self)@ == EndCall::Reconnect.counts(old(self)@),
            notice == (Notice::Completed { count: final(self)@ }),
    {
        self.count.inc();
        Notice::Completed { count: self.count.get() }
    }

    /// Announces and counts that the connection is established again.
    pub fn reconnected(&mut self) -> (notice: Notice)
        ensures
            final(self)@ == EndCall::Reconnect.counts(old(self)@),
            notice == (Notice::Completed { count: final(self)@ }),
    {
        self.reconnect()
    }

    /// How many reconnections have been announced.
    pub fn count(&self) -> (count: usize)
        ensures
            count == self@,
    {
        self.count.get()
    }
}

/// An end that reconnections are observed at. It reads the count of the sending end that it
/// belongs to.
#[derive(Clone, Copy, Debug)]
pub struct ReconnectRx<'a> {
    tx: &'a ReconnectTx,
}

impl<'a> View for ReconnectRx<'a> {
    type V = usize;

    /// How many reconnections have been announced.
    closed spec fn view(&self) -> usize {
        self.tx@
    }
}

impl<'a> ReconnectRx<'a> {
    /// Whether `notice` is what a caller waits for who wants to know that reconnecting
    /// has started.
    pub fn reconnect_started(&self, notice: Notice) -> (released: bool)
        ensures
            released == (notice is Started),
    {
        matches!(notice, Notice::Started)
    }

    /// Whether `notice` is what a caller waits for who wants to know of a reconnection.
    pub fn on_reconnect(&self, notice: Notice) -> (released: bool)
        ensures
            released == (notice is Completed),
    {
        matches!(notice, Notice::Completed { .. })
    }

    /// Whether `notice` is what a caller waits for who wants to know that the connection
    /// is established again.
    pub fn reconnected(&self, notice: Notice) -> (released: bool)
        ensures
            released == (notice is Completed),
    {
        self.on_reconnect(notice)
    }

    /// How many reconnections have been announced.
    pub fn count(&self) -> (count: usize)
        ensures
            count == self@,
    {
        self.tx.count()
    }
}

} // verus!
