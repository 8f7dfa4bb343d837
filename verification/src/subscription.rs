//! Subscriptions: opening one, and the handle through which its items are
//! read.
//!
//! A subscription is idle until [`begin_subscribe`] is called, which fails at
//! once or gives the [`SubscribeCall`] to send. [`complete_subscribe`] turns
//! the client's answer into a [`SubscriptionHandle`], or into the failure.
//! The handle is active until the underlying stream ends or the caller
//! cancels; both are final.

use vstd::prelude::*;
use crate::error::RpcError;
use crate::params::{normalize, normalized, text_of, ParamList};
use crate::payload::RawJson;

verus! {

/// The identifier that a server gave to a subscription.
#[derive(Debug, PartialEq, Eq, Clone)]
pub enum SubscriptionId {
    Num(u64),
    Str(String),
}

/// How the underlying client tells the notifications of a subscription
/// apart.
#[derive(Debug, PartialEq, Eq, Clone)]
pub enum SubscriptionKind {
    /// By the identifier that the server gave.
    Subscription(SubscriptionId),
    /// By the name of the method that notifies.
    Method(String),
    /// In a way that this library has no name for.
    Other,
}

/// One subscription for the underlying client: the method that starts it,
/// its positional parameters, and the method that stops it.
#[derive(Debug, PartialEq, Eq)]
pub struct SubscribeCall {
    pub subscribe_method: String,
    pub params: ParamList,
    pub unsubscribe_method: String,
}

/// Where a subscription's stream stands.
#[derive(Debug, PartialEq, Eq, Clone, Copy, Structural)]
pub enum StreamState {
    /// Items may still come.
    Active,
    /// The underlying stream has ended.
    Ended,
    /// The caller has given the subscription up.
    Cancelled,
}

/// The caller's end of an open subscription: its identifier, where it has
/// one, and the state of its stream.
#[derive(Debug, PartialEq, Eq)]
pub struct SubscriptionHandle {
    id: Option<String>,
    state: StreamState,
}

/// What a [`SubscriptionHandle`] stands for.
pub struct HandleView {
    pub id: Option<Seq<char>>,
    pub state: StreamState,
}

impl View for SubscriptionHandle {
    type V = HandleView;

    closed spec fn view(&self) -> HandleView {
        HandleView {
            id: match self.id {
                Some(id) => Some(id@),
                None => None,
            },
            state: self.state,
        }
    }
}

/// The identifier of a subscription of this kind: the string that the server
/// gave, and none for every other kind.
pub open spec fn string_id_of(kind: SubscriptionKind) -> Option<Seq<char>> {
    match kind {
        SubscriptionKind::Subscription(SubscriptionId::Str(id)) => Some(id@),
        _ => None,
    }
}

/// The state of a stream after one more read of the underlying stream, which
/// had an item (`more`) or had ended. Only an active stream moves.
pub open spec fn state_after(state: StreamState, more: bool) -> StreamState {
    match state {
        StreamState::Active => if more {
            StreamState::Active
        } else {
            StreamState::Ended
        },
        StreamState::Ended => StreamState::Ended,
        StreamState::Cancelled => StreamState::Cancelled,
    }
}

/// What the caller gets for an item of the underlying stream: a payload as
/// it came, a failure wrapped as `ClientError`.
pub open spec fn item_of<R, E>(item: Result<R, E>) -> Result<R, RpcError<E>> {
    match item {
        Ok(payload) => Ok(payload),
        Err(failure) => Err(RpcError::ClientError(failure)),
    }
}

/// What one read yields in a given state, where the underlying stream gave
/// `pulled`: the item while the stream is active, nothing otherwise.
pub open spec fn yielded<R, E>(state: StreamState, pulled: Option<Result<R, E>>) -> Option<
    Result<R, RpcError<E>>,
> {
    match (state, pulled) {
        (StreamState::Active, Some(item)) => Some(item_of(item)),
        _ => None,
    }
}

/// The state after a run of reads, the underlying stream having given
/// `pulls` in this order.
pub open spec fn state_after_all<R, E>(
    state: StreamState,
    pulls: Seq<Option<Result<R, E>>>,
) -> StreamState
    decreases pulls.len(),
{
    if pulls.len() == 0 {
        state
    } else {
        state_after(state_after_all(state, pulls.drop_last()), pulls.last() is Some)
    }
}

/// What the read at position `i` of a run yields.
pub open spec fn yielded_at<R, E>(
    state: StreamState,
    pulls: Seq<Option<Result<R, E>>>,
    i: int,
) -> Option<Result<R, RpcError<E>>>
    recommends
        0 <= i < pulls.len(),
{
    yielded(state_after_all(state, pulls.take(i)), pulls[i])
}

/// Finds the identifier of a subscription.
pub fn string_id(kind: &SubscriptionKind) -> (id: Option<String>)
    ensures
        match id {
            Some(text) => string_id_of(*kind) == Some(text@),
            None => string_id_of(*kind) is None,
        },
{
    match kind {
        SubscriptionKind::Subscription(SubscriptionId::Str(id)) => Some(id.clone()),
        _ => None,
    }
}

/// Prepares a subscription.
///
/// Both method names are handed on as given. The parameters are normalised
/// as for a request.
pub fn begin_subscribe<E>(
    subscribe_method: &str,
    params: Option<RawJson>,
    unsubscribe_method: &str,
) -> (r: Result<SubscribeCall, RpcError<E>>)
    ensures
        match normalized(text_of(params)) {
            Ok(items) => r matches Ok(call) && call.subscribe_method@ == subscribe_method@
                && call.params@ == items && call.unsubscribe_method@ == unsubscribe_method@,
            Err(message) => r matches Err(RpcError::InvalidParams(refusal)) && refusal.message@
                == message,
        },
{
    match normalize(params) {
        Ok(list) => Ok(
            SubscribeCall {
                subscribe_method: subscribe_method.to_owned(),
                params: list,
                unsubscribe_method: unsubscribe_method.to_owned(),
            },
        ),
        Err(refusal) => Err(RpcError::InvalidParams(refusal)),
    }
}

/// Turns the answer of the underlying client into the caller's result.
///
/// The client answers with the kind of the subscription that it opened and
/// with the stream of its items, or with a failure. For a subscription the
/// result is an active handle with the identifier of that kind, beside the
/// stream as it came; for a failure, `ClientError` and no handle.
pub fn complete_subscribe<S, E>(answer: Result<(SubscriptionKind, S), E>) -> (r: Result<
    (SubscriptionHandle, S),
    RpcError<E>,
>)
    ensures
        match answer {
            Ok((kind, stream)) => r matches Ok((handle, handed)) && handed == stream && handle@.id
                == string_id_of(kind) && handle@.state == StreamState::Active,
            Err(failure) => r == Err::<(SubscriptionHandle, S), RpcError<E>>(
                RpcError::ClientError(failure),
            ),
        },
{
    match answer {
        Ok((kind, stream)) => Ok((SubscriptionHandle::open(&kind), stream)),
        Err(failure) => Err(RpcError::ClientError(failure)),
    }
}

impl SubscriptionHandle {
    /// The handle of a subscription that was just opened.
    pub fn open(kind: &SubscriptionKind) -> (handle: SubscriptionHandle)
        ensures
            handle@.id == string_id_of(*kind),
            handle@.state == StreamState::Active,
    {
        SubscriptionHandle { id: string_id(kind), state: StreamState::Active }
    }

    /// The identifier, where the subscription has one.
    pub fn id(&self) -> (id: &Option<String>)
        ensures
            match *id {
                Some(text) => self@.id == Some(text@),
                None => self@.id is None,
            },
    {
        &self.id
    }

    /// Where the stream stands.
    pub fn state(&self) -> (state: StreamState)
        ensures
            state == self@.state,
    {
        self.state
    }

    /// Whether a read may still yield an item.
    pub fn is_active(&self) -> (active: bool)
        ensures
            active == (self@.state == StreamState::Active),
    {
        match self.state {
            StreamState::Active => true,
            _ => false,
        }
    }

    /// One read. `pulled` is what the underlying stream gave: an item, or
    /// `None` at its end.
    ///
    /// While the stream is active an item is yielded, a failure among them
    /// as an item too, and the stream stays active; its end yields nothing
    /// and ends the stream. After that, and after a cancel, a read yields
    /// nothing whatever `pulled` holds.
    pub fn deliver<R, E>(&mut self, pulled: Option<Result<R, E>>) -> (r: Option<
        Result<R, RpcError<E>>,
    >)
        ensures
            r == yielded(old(self)@.state, pulled),
            final(self)@.state == state_after(old(self)@.state, pulled is Some),
            final(self)@.id == old(self)@.id,
    {
        match self.state {
            StreamState::Active => match pulled {
                Some(item) => Some(RpcError::wrap(item)),
                None => {
                    self.state = StreamState::Ended;
                    None
                },
            },
            _ => None,
        }
    }

    /// Gives the subscription up. An active stream becomes cancelled; one
    /// that has ended stays ended.
    pub fn cancel(&mut self)
        ensures
            final(self)@.state == (match old(self)@.state {
                StreamState::Active => StreamState::Cancelled,
                state => state,
            }),
            final(self)@.id == old(self)@.id,
    {
        match self.state {
            StreamState::Active => {
                self.state = StreamState::Cancelled;
            },
            _ => {},
        }
    }
}

/// A stream that has ended or was cancelled stays as it is, whatever the
/// underlying stream gives afterwards.
pub proof fn lemma_terminal_is_final<R, E>(state: StreamState, pulls: Seq<Option<Result<R, E>>>)
    requires
        state != StreamState::Active,
    ensures
        state_after_all(state, pulls) == state,
    decreases pulls.len(),
{
    if pulls.len() > 0 {
        lemma_terminal_is_final(state, pulls.drop_last());
    }
}

/// A stream stays active for as long as the underlying stream gives items.
pub proof fn lemma_active_while_items<R, E>(pulls: Seq<Option<Result<R, E>>>)
    requires
        forall|j: int| 0 <= j < pulls.len() ==> pulls[j] is Some,
    ensures
        state_after_all(StreamState::Active, pulls) == StreamState::Active,
    decreases pulls.len(),
{
    if pulls.len() > 0 {
        lemma_active_while_items(pulls.drop_last());
    }
}

/// A stream is no longer active once the underlying stream has ended.
pub proof fn lemma_ended_after_end<R, E>(pulls: Seq<Option<Result<R, E>>>, k: int)
    requires
        0 <= k < pulls.len(),
        pulls[k] is None,
    ensures
        state_after_all(StreamState::Active, pulls) == StreamState::Ended,
    decreases pulls.len(),
{
    let before = pulls.drop_last();
    if k < pulls.len() - 1 {
        lemma_ended_after_end(before, k);
    } else {
        // the last read met the end: an active stream ends, an ended one stays
        lemma_never_cancelled_by_reads(before);
    }
}

/// Reading alone never cancels a stream.
pub proof fn lemma_never_cancelled_by_reads<R, E>(pulls: Seq<Option<Result<R, E>>>)
    ensures
        state_after_all(StreamState::Active, pulls) != StreamState::Cancelled,
    decreases pulls.len(),
{
    if pulls.len() > 0 {
        lemma_never_cancelled_by_reads(pulls.drop_last());
    }
}

/// A handle can be read again and again: each read before the end of the
/// underlying stream yields that read's item, a failure among them wrapped
/// as `ClientError`; every read from the end on yields nothing, whatever the
/// underlying stream gives then.
pub proof fn lemma_reads_until_end<R, E>(pulls: Seq<Option<Result<R, E>>>, i: int)
    requires
        0 <= i < pulls.len(),
    ensures
        (forall|j: int| 0 <= j < i ==> pulls[j] is Some) ==> yielded_at(
            StreamState::Active,
            pulls,
            i,
        ) == (match pulls[i] {
            Some(item) => Some(item_of(item)),
            None => None,
        }),
        (exists|j: int| 0 <= j < i && pulls[j] is None) ==> yielded_at(
            StreamState::Active,
            pulls,
            i,
        ) is None,
{
    let earlier = pulls.take(i);
    if forall|j: int| 0 <= j < i ==> pulls[j] is Some {
        lemma_active_while_items(earlier);
    }
    if exists|j: int| 0 <= j < i && pulls[j] is None {
        let k = choose|j: int| 0 <= j < i && pulls[j] is None;
        lemma_ended_after_end(earlier, k);
    }
}

/// Once cancelled, a handle yields nothing more.
pub proof fn lemma_silent_after_cancel<R, E>(pulls: Seq<Option<Result<R, E>>>, i: int)
    requires
        0 <= i < pulls.len(),
    ensures
        yielded_at(StreamState::Cancelled, pulls, i) is None,
{
    lemma_terminal_is_final(StreamState::Cancelled, pulls.take(i));
}

} // verus!
