//! The messages that pass between the client and the server side of a thread loop, and the
//! store in which the server leaves its responses.

use crate::error::Error;
use std::collections::HashMap;
use vstd::prelude::*;

verus! {

broadcast use vstd::std_specs::hash::group_hash_axioms;

/// The identifier of a request.
#[derive(Clone, Copy, Debug, Default, PartialEq, Eq, PartialOrd, Ord, Hash)]
pub struct Id(u64);

impl View for Id {
    type V = u64;

    closed spec fn view(&self) -> u64 {
        self.0
    }
}

/// The source of request identifiers: it hands out consecutive numbers, wrapping around after
/// `u64::MAX`.
#[derive(Debug, Default)]
pub struct IdCounter {
    next: u64,
}

impl View for IdCounter {
    type V = u64;

    /// The identifier that the counter hands out next.
    closed spec fn view(&self) -> u64 {
        self.next
    }
}

/// The number that follows `n` when counting with wrap-around.
pub open spec fn following_id(n: u64) -> u64 {
    if n == u64::MAX {
        0
    } else {
        (n + 1) as u64
    }
}

/// The identifier handed out `k` calls after a counter stood at `start`.
pub open spec fn nth_id(start: u64, k: nat) -> u64 {
    ((start + k) % 0x1_0000_0000_0000_0000) as u64
}

impl IdCounter {
    /// A counter that starts at 0.
    pub fn new() -> (counter: Self)
        ensures
            counter@ == 0,
    {
        IdCounter { next: 0 }
    }
}

impl Id {
    /// Takes the next identifier from the counter.
    pub fn next(counter: &mut IdCounter) -> (id: Self)
        ensures
            id@ == old(counter)@,
            final(counter)@ == following_id(old(counter)@),
    {
        let id = Id(counter.next);
        counter.next = counter.next.wrapping_add(1);
        id
    }
}

/// The counter moves on by one with every identifier it hands out.
pub proof fn lemma_following_id_is_nth(start: u64, k: nat)
    ensures
        following_id(nth_id(start, k)) == nth_id(start, k + 1),
{
    assert(following_id(nth_id(start, k)) == nth_id(start, k + 1)) by (nonlinear_arith);
}

/// Fewer than 2^64 consecutive identifiers of one counter are pairwise distinct.
pub proof fn lemma_ids_distinct(start: u64, i: nat, j: nat)
    requires
        i < j < 0x1_0000_0000_0000_0000,
    ensures
        nth_id(start, i) != nth_id(start, j),
{
    assert(nth_id(start, i) != nth_id(start, j)) by (nonlinear_arith)
        requires
            i < j < 0x1_0000_0000_0000_0000,
            0 <= start < 0x1_0000_0000_0000_0000,
    ;
}

/// A counter that starts at 0 hands out increasing identifiers: the `k`-th is `k`, as long as
/// fewer than 2^64 have been drawn.
pub proof fn lemma_ids_increase(i: nat, j: nat)
    requires
        i < j < 0x1_0000_0000_0000_0000,
    ensures
        nth_id(0, i) == i,
        nth_id(0, i) < nth_id(0, j),
{
}

/// An event, with the acknowledgement its sender waits for if it waits for one.
#[derive(Debug)]
pub struct Envelope<M, A> {
    pub message: M,
    pub ack: Option<A>,
}

/// A message from the server side to the client side.
#[derive(Debug)]
pub enum ServerToClient<E, Ready, A> {
    /// The server has started, or failed to.
    Ready(Result<Ready, Error>),
    Event(Envelope<E, A>),
    /// The server has stopped.
    Stop,
}

/// A message from the client side to the server side.
#[derive(Debug)]
pub enum ClientToServer<R, Start> {
    Start { id: Id, params: Start },
    Request { id: Id, request: R },
    Stop { id: Id },
}

impl<R, Start> ClientToServer<R, Start> {
    /// The identifier of the message.
    pub open spec fn spec_id(&self) -> Id {
        match self {
            ClientToServer::Start { id, .. } => *id,
            ClientToServer::Request { id, .. } => *id,
            ClientToServer::Stop { id } => *id,
        }
    }

    pub fn start(counter: &mut IdCounter, params: Start) -> (message: Self)
        ensures
            message matches ClientToServer::Start { id, params: p } && id@ == old(counter)@
                && p == params,
            final(counter)@ == following_id(old(counter)@),
    {
        ClientToServer::Start { id: Id::next(counter), params }
    }

    pub fn request(counter: &mut IdCounter, request: R) -> (message: Self)
        ensures
            message matches ClientToServer::Request { id, request: r } && id@ == old(counter)@
                && r == request,
            final(counter)@ == following_id(old(counter)@),
    {
        ClientToServer::Request { id: Id::next(counter), request }
    }

    pub fn stop(counter: &mut IdCounter) -> (message: Self)
        ensures
            message matches ClientToServer::Stop { id } && id@ == old(counter)@,
            final(counter)@ == following_id(old(counter)@),
    {
        ClientToServer::Stop { id: Id::next(counter) }
    }

    pub fn id(&self) -> (id: Id)
        ensures
            id == self.spec_id(),
    {
        match self {
            ClientToServer::Start { id, .. } | ClientToServer::Request { id, .. }
            | ClientToServer::Stop { id } => *id,
        }
    }
}

/// The responses of the server, by the identifier of the request they answer.
///
/// Both sides share one store (behind a lock and a condition variable): the server inserts a
/// response and wakes the waiters, the client waits until the response it wants is there and
/// takes it.
#[derive(Debug)]
pub struct ResponseStore<R> {
    map: HashMap<u64, R>,
}

impl<R> View for ResponseStore<R> {
    type V = Map<u64, R>;

    closed spec fn view(&self) -> Map<u64, R> {
        self.map@
    }
}

impl<R> ResponseStore<R> {
    pub fn new() -> (store: Self)
        ensures
            store@ == Map::<u64, R>::empty(),
    {
        ResponseStore { map: HashMap::new() }
    }

    /// Records the response to the request `id`, replacing an earlier one.
    pub fn insert_and_notify(&mut self, id: Id, response: R)
        ensures
            final(self)@ == old(self)@.insert(id@, response),
    {
        self.map.insert(id.0, response);
    }

    /// Whether the response to the request `id` has arrived.
    pub fn contains_key(&self, id: &Id) -> (arrived: bool)
        ensures
            arrived == self@.contains_key(id@),
    {
        self.map.contains_key(&id.0)
    }

    /// Takes the response to the request `id` out of the store; the wait for it ends only once
    /// it has arrived.
    pub fn wait_and_take(&mut self, id: &Id) -> (response: Option<R>)
        requires
            old(self)@.contains_key(id@),
        ensures
            response == Some(old(self)@[id@]),
            final(self)@ == old(self)@.remove(id@),
    {
        self.map.remove(&id.0)
    }
}

/// A response that was recorded is what the wait for it takes, and the store forgets it.
pub proof fn lemma_response_round_trip<R>(store: Map<u64, R>, id: u64, response: R)
    ensures
        store.insert(id, response).contains_key(id),
        store.insert(id, response)[id] == response,
        store.insert(id, response).remove(id) == store.remove(id),
{
    assert(store.insert(id, response).remove(id) =~= store.remove(id));
}

} // verus!
