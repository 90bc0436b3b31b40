//! The server side of a thread loop: the decisions of the thread that owns the window.
//!
//! As on the client side, the channels are the caller's: each operation returns the message to
//! send, or hands the caller the work to do through a closure at the point where it is done.

use crate::error::Error;
use crate::message::{ClientToServer, Envelope, ResponseStore, ServerToClient};
use crate::thread_state::{State, ThreadState};
use vstd::prelude::*;

verus! {

/// The server side of a thread loop.
pub struct Context {
    state: State,
}

/// The state that handling `request` leaves: a stop request stops the server.
pub open spec fn state_after_request<Req, Start>(
    state: ThreadState,
    request: ClientToServer<Req, Start>,
) -> ThreadState {
    if request is Stop {
        ThreadState::Stopped
    } else {
        state
    }
}

impl Context {
    pub closed spec fn state(&self) -> ThreadState {
        self.state@
    }

    pub fn new() -> (context: Self)
        ensures
            context.state() == ThreadState::Initializing,
    {
        Context { state: State::default() }
    }

    /// Marks the server ready and gives the message that tells the client how the start went.
    pub fn signal_ready<E, Ready, A>(&mut self, ready: Result<Ready, Error>) -> (message:
        ServerToClient<E, Ready, A>)
        ensures
            final(self).state() == ThreadState::Ready,
            message matches ServerToClient::Ready(r) && r == ready,
    {
        self.state.change_state(ThreadState::Ready);
        ServerToClient::Ready(ready)
    }

    /// Handles one request, if the server has not stopped and `recv` finds one waiting: a stop
    /// request stops the server; the response that `handler` gives is recorded under the
    /// request's identifier, and an error of the handler is returned as it is. The result tells
    /// whether a request was handled. A stopped server takes no request: `recv` may be called
    /// only while it has not stopped, and `handler` only on a request that `recv` gave.
    pub fn try_handle_request<Req, Start, Res, Recv, Handler>(
        &mut self,
        responses: &mut ResponseStore<Res>,
        recv: Recv,
        handler: Handler,
    ) -> (handled: Result<bool, Error>) where
        Recv: FnOnce() -> Option<ClientToServer<Req, Start>>,
        Handler: FnOnce(ClientToServer<Req, Start>) -> Result<Res, Error>,

        requires
            old(self).state() != ThreadState::Stopped ==> call_requires(recv, ()),
            forall|request: ClientToServer<Req, Start>|
                #[trigger] call_ensures(recv, (), Some(request)) ==> call_requires(
                    handler,
                    (request,),
                ),
        ensures
            old(self).state() == ThreadState::Stopped ==> handled == Ok::<bool, Error>(false)
                && final(self).state() == old(self).state() && final(responses)@ == old(
                responses,
            )@,
            old(self).state() != ThreadState::Stopped ==> exists|
                received: Option<ClientToServer<Req, Start>>,
            |
                {
                    &&& call_ensures(recv, (), received)
                    &&& match received {
                        None => {
                            &&& handled == Ok::<bool, Error>(false)
                            &&& final(self).state() == old(self).state()
                            &&& final(responses)@ == old(responses)@
                        },
                        Some(request) => {
                            &&& final(self).state() == state_after_request(
                                old(self).state(),
                                request,
                            )
                            &&& exists|response: Result<Res, Error>|
                                {
                                    &&& call_ensures(handler, (request,), response)
                                    &&& match response {
                                        Ok(r) => {
                                            &&& handled == Ok::<bool, Error>(true)
                                            &&& final(responses)@ == old(responses)@.insert(
                                                request.spec_id()@,
                                                r,
                                            )
                                        },
                                        Err(e) => {
                                            &&& handled == Err::<bool, Error>(e)
                                            &&& final(responses)@ == old(responses)@
                                        },
                                    }
                                }
                        },
                    }
                },
    {
        if self.state.has_stopped() {
            return Ok(false);
        }
        let received = recv();
        let ghost got = received;
        match received {
            Some(request) => {
                if let ClientToServer::Stop { .. } = &request {
                    self.state.change_state(ThreadState::Stopped);
                }
                let id = request.id();
                let ghost req = request;
                let response = handler(request);
                let ghost answered = response;
                match response {
                    Ok(r) => {
                        responses.insert_and_notify(id, r);
                        assert(call_ensures(handler, (req,), answered));
                        assert(call_ensures(recv, (), got));
                        Ok(true)
                    },
                    Err(e) => {
                        assert(call_ensures(handler, (req,), answered));
                        assert(call_ensures(recv, (), got));
                        Err(e)
                    },
                }
            },
            None => {
                assert(call_ensures(recv, (), got));
                Ok(false)
            },
        }
    }

    /// The message that carries `event` to the client. While the client is taking events (the
    /// loop is ready) the event carries `ack`, and the caller waits for it after sending;
    /// otherwise it carries none.
    pub fn send_event<E, Ready, A>(&self, event: E, ack: A) -> (message: ServerToClient<
        E,
        Ready,
        A,
    >)
        ensures
            message matches ServerToClient::Event(envelope) && envelope.message == event
                && envelope.ack == (if self.state() == ThreadState::Ready {
                Some(ack)
            } else {
                None
            }),
    {
        let ack = if self.state.is_ready() {
            Some(ack)
        } else {
            None
        };
        ServerToClient::Event(Envelope { ack, message: event })
    }

    pub fn set_active(&mut self)
        ensures
            final(self).state() == ThreadState::Ready,
    {
        self.state.change_state(ThreadState::Ready);
    }

    pub fn set_inactive(&mut self)
        ensures
            final(self).state() == ThreadState::Inactive,
    {
        self.state.change_state(ThreadState::Inactive);
    }

    pub fn current_state(&self) -> (state: ThreadState)
        ensures
            state == self.state(),
    {
        self.state.current_state()
    }

    pub fn is_ready(&self) -> (ready: bool)
        ensures
            ready == (self.state() == ThreadState::Ready),
    {
        self.state.is_ready()
    }

    pub fn is_inactive(&self) -> (inactive: bool)
        ensures
            inactive == (self.state() == ThreadState::Inactive),
    {
        self.state.is_inactive()
    }

    pub fn is_stopping(&self) -> (stopping: bool)
        ensures
            stopping == (self.state() == ThreadState::Stopping || self.state()
                == ThreadState::Stopped),
    {
        self.state.is_stopping()
    }

    pub fn has_stopped(&self) -> (stopped: bool)
        ensures
            stopped == (self.state() == ThreadState::Stopped),
    {
        self.state.has_stopped()
    }

    /// Marks the server inactive and gives the message that tells the client it has stopped.
    pub fn notify_stopped<E, Ready, A>(&mut self) -> (message: ServerToClient<E, Ready, A>)
        ensures
            final(self).state() == ThreadState::Inactive,
            message is Stop,
    {
        self.set_inactive();
        ServerToClient::Stop
    }
}

/// Once a stop request has been handled, the server handles no further request.
pub proof fn lemma_stop_request_ends_handling<Req, Start>(
    state: ThreadState,
    request: ClientToServer<Req, Start>,
)
    requires
        request is Stop,
    ensures
        state_after_request(state, request) == ThreadState::Stopped,
{
}

} // verus!
