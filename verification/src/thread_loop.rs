//! The client side of a thread loop: the decisions that the window's owner takes about the
//! messages of the server thread.
//!
//! The channels, the server thread and the acknowledgement signals are the caller's; each
//! operation hands the caller the work to do through a closure, at the point where the loop
//! does it.

use crate::error::{Error, NextEventError};
use crate::message::{Envelope, ServerToClient};
use crate::thread_state::{State, ThreadState};
use vstd::prelude::*;

verus! {

/// The client side of a thread loop, with the acknowledgement (of type `A`) of the last event it
/// took and has not acknowledged yet.
pub struct ThreadLoop<A> {
    state: State,
    pending_ack: Option<A>,
}

/// What a message from the server gives the client that asked for the next event.
pub open spec fn received_event<E, Ready, A>(
    polled: Result<ServerToClient<E, Ready, A>, NextEventError>,
) -> Result<E, NextEventError> {
    match polled {
        Ok(ServerToClient::Ready(_)) => Err(NextEventError::Empty),
        Ok(ServerToClient::Event(envelope)) => Ok(envelope.message),
        Ok(ServerToClient::Stop) => Err(NextEventError::Disconnected),
        Err(error) => Err(error),
    }
}

/// The acknowledgement that the client owes after receiving `polled`.
pub open spec fn owed_ack<E, Ready, A>(
    polled: Result<ServerToClient<E, Ready, A>, NextEventError>,
) -> Option<A> {
    match polled {
        Ok(ServerToClient::Event(envelope)) => envelope.ack,
        _ => None,
    }
}

/// A stop request has no effect on a loop that is already stopping or stopped.
pub open spec fn stop_is_ignored(state: ThreadState) -> bool {
    state == ThreadState::Stopping || state == ThreadState::Stopped
}

impl<A> ThreadLoop<A> {
    pub closed spec fn state(&self) -> ThreadState {
        self.state@
    }

    /// The acknowledgement of the last event taken, not yet given.
    pub closed spec fn pending_ack(&self) -> Option<A> {
        self.pending_ack
    }

    /// A loop whose server thread is starting.
    pub fn new() -> (thread_loop: Self)
        ensures
            thread_loop.state() == ThreadState::Initializing,
            thread_loop.pending_ack() is None,
    {
        ThreadLoop { state: State::default(), pending_ack: None }
    }

    /// Looks at one message received while waiting for the server to be ready (`None` when the
    /// channel has closed): gives the outcome of the start once there is one.
    pub fn start<E, Ready>(received: Option<ServerToClient<E, Ready, A>>) -> (outcome: Option<
        Result<Ready, Error>,
    >)
        ensures
            match received {
                Some(ServerToClient::Ready(ready)) => outcome == Some(ready),
                Some(_) => outcome is None,
                None => outcome matches Some(Err(Error::Disconnected(message)))
                    && message@ == "Threadloop disconnected before it was ready."@,
            },
    {
        match received {
            Some(ServerToClient::Ready(ready)) => Some(ready),
            Some(_) => None,
            None => Some(
                Err(Error::Disconnected("Threadloop disconnected before it was ready.".to_owned())),
            ),
        }
    }

    /// Takes the acknowledgement that is owed for the last event, for the caller to give.
    pub fn ack_last_event(&mut self) -> (ack: Option<A>)
        ensures
            ack == old(self).pending_ack(),
            final(self).pending_ack() is None,
            final(self).state() == old(self).state(),
    {
        self.pending_ack.take()
    }

    /// Takes the next event: `poll` is given the acknowledgement owed for the previous event,
    /// which it gives before it receives (waiting for a message if `wait`), and returns what it
    /// received.
    pub fn next_event<E, Ready, F>(&mut self, wait: bool, poll: F) -> (event: Result<
        E,
        NextEventError,
    >) where F: FnOnce(Option<A>, bool) -> Result<ServerToClient<E, Ready, A>, NextEventError>
        requires
            call_requires(poll, (old(self).pending_ack(), wait)),
        ensures
            final(self).state() == old(self).state(),
            exists|polled: Result<ServerToClient<E, Ready, A>, NextEventError>|
                {
                    &&& call_ensures(poll, (old(self).pending_ack(), wait), polled)
                    &&& event == received_event(polled)
                    &&& final(self).pending_ack() == owed_ack(polled)
                },
    {
        let ack = self.ack_last_event();
        let polled = poll(ack, wait);
        let ghost received = polled;
        let event = match polled {
            Ok(ServerToClient::Ready(_)) => Err(NextEventError::Empty),
            Ok(ServerToClient::Event(Envelope { message, ack })) => {
                self.pending_ack = ack;
                Ok(message)
            },
            Ok(ServerToClient::Stop) => Err(NextEventError::Disconnected),
            Err(error) => Err(error),
        };
        assert(call_ensures(poll, (old(self).pending_ack(), wait), received));
        assert(event == received_event(received));
        assert(self.pending_ack == owed_ack(received));
        event
    }

    pub fn set_active(&mut self)
        ensures
            final(self).state() == ThreadState::Ready,
            final(self).pending_ack() == old(self).pending_ack(),
    {
        self.state.change_state(ThreadState::Ready);
    }

    pub fn set_inactive(&mut self)
        ensures
            final(self).state() == ThreadState::Inactive,
            final(self).pending_ack() == old(self).pending_ack(),
    {
        self.state.change_state(ThreadState::Inactive);
    }

    pub fn current_state(&self) -> (state: ThreadState)
        ensures
            state == self.state(),
    {
        self.state.current_state()
    }

    /// Stops the loop: `send_stop` is given the acknowledgement owed for the last event, which
    /// it gives before it sends the stop request and joins the server thread. A loop that is
    /// already stopping ignores the request, and then `send_stop` is not called (its `requires`
    /// is owed only for a stop that is not ignored).
    pub fn stop<F>(&mut self, send_stop: F) -> (result: Result<(), Error>) where
        F: FnOnce(Option<A>) -> Result<(), Error>,

        requires
            !stop_is_ignored(old(self).state()) ==> call_requires(
                send_stop,
                (old(self).pending_ack(),),
            ),
        ensures
            final(self).state() == ThreadState::Stopping,
            stop_is_ignored(old(self).state()) ==> result == Err::<(), Error>(Error::Ignored)
                && final(self).pending_ack() == old(self).pending_ack(),
            !stop_is_ignored(old(self).state()) ==> call_ensures(
                send_stop,
                (old(self).pending_ack(),),
                result,
            ) && final(self).pending_ack() is None,
    {
        let previous = self.state.swap_state(ThreadState::Stopping);
        if matches!(previous, ThreadState::Stopping | ThreadState::Stopped) {
            return Err(Error::Ignored);
        }
        let ack = self.ack_last_event();
        send_stop(ack)
    }
}

/// Once a loop has been asked to stop, every further request to stop it is ignored.
pub proof fn lemma_stop_is_final(state: ThreadState)
    ensures
        stop_is_ignored(ThreadState::Stopping),
        stop_is_ignored(state) ==> state == ThreadState::Stopping || state == ThreadState::Stopped,
{
}

/// The acknowledgement that an event came with is the one the client gives before it takes the
/// next message: it is owed after the event, and it is what the next poll is handed.
pub proof fn lemma_event_ack_is_owed<E, Ready, A>(envelope: Envelope<E, A>)
    ensures
        received_event(Ok::<ServerToClient<E, Ready, A>, NextEventError>(ServerToClient::Event(envelope)))
            == Ok::<E, NextEventError>(envelope.message),
        owed_ack(Ok::<ServerToClient<E, Ready, A>, NextEventError>(ServerToClient::Event(envelope)))
            == envelope.ack,
{
}

} // verus!
