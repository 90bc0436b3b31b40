//! The logic of the Win32 backend: how the window thread answers the messages of the system and
//! the requests of the window's owner, and how the owner takes its events.

use crate::error::{Error, NextEventError};
use crate::event::{Event, KeyEvent, Modifiers, PhysicalPosition, PhysicalSize, PointerEvent, WindowEvent};
use crate::keys::{Code, KeyState, Location, LogicalKey, NamedKey, NativeKey, PhysicalKey};
use crate::message::{ClientToServer, ServerToClient};
use crate::thread_loop::{owed_ack, received_event, ThreadLoop};
use crate::thread_state::ThreadState;
use vstd::prelude::*;

verus! {

/// Whether the owner of a window waits for events or polls for them.
#[derive(Clone, Copy, Debug, PartialEq, Eq)]
pub enum Flow {
    Wait,
    Poll,
}

/// Whether something is shown.
#[derive(Clone, Copy, Debug, PartialEq, Eq)]
pub enum Visibility {
    Shown,
    Hidden,
}

/// A request of the window's owner to the window thread.
#[derive(Clone, Debug, PartialEq, Eq)]
pub enum Command {
    Empty,
    CreateWindow,
    Redraw,
    GetWindowText,
    SetVisibility(Visibility),
    SetDecorations(Visibility),
    SetWindowText(String),
    SetSize(PhysicalSize),
    SetPosition(PhysicalPosition),
    SetFullscreen(bool),
    SetCursorVisibility(Visibility),
}

/// The answer of the window thread to a request.
#[derive(Clone, Debug, PartialEq, Eq)]
pub enum CommandResponse {
    Success,
    GetWindowText(String),
}

/// The window title and the closing behaviour, shared by the owner and the window thread.
#[derive(Clone, Debug)]
pub struct SharedInternal {
    pub title: String,
    pub close_on_x: bool,
}

impl SharedInternal {
    pub fn new(title: String, close_on_x: bool) -> (shared: Self)
        ensures
            shared.title@ == title@,
            shared.close_on_x == close_on_x,
    {
        SharedInternal { title, close_on_x }
    }

    pub fn title(&self) -> (title: &String)
        ensures
            title@ == self.title@,
    {
        &self.title
    }
}

/// A window operation that the window thread performs for a request.
#[derive(Clone, Debug, PartialEq, Eq)]
pub enum WindowOp {
    Redraw,
    GetWindowText,
    SetWindowText(String),
    Destroy,
    /// The request needs no window operation.
    Nothing,
}

/// What a window operation came to: `Done` for the operations that succeed or fail with the
/// system's message, `Text` for reading the title (`None` when it could not be read).
#[derive(Debug, PartialEq, Eq)]
pub enum OpOutcome {
    Done(Result<(), String>),
    Text(Option<String>),
}

/// The window operation that a request asks for: a redraw, reading or setting the title, or,
/// for a stop request, destroying the window; every other request and a start need none.
pub open spec fn operation_of<Start>(request: ClientToServer<Command, Start>) -> WindowOp {
    match request {
        ClientToServer::Request { request: Command::Redraw, .. } => WindowOp::Redraw,
        ClientToServer::Request { request: Command::GetWindowText, .. } => WindowOp::GetWindowText,
        ClientToServer::Request { request: Command::SetWindowText(text), .. } => WindowOp::SetWindowText(
            text,
        ),
        ClientToServer::Stop { .. } => WindowOp::Destroy,
        _ => WindowOp::Nothing,
    }
}

/// The outcome that an operation can have: reading the title gives a text, the others are done
/// or fail.
pub open spec fn outcome_fits(op: WindowOp, outcome: OpOutcome) -> bool {
    if op == WindowOp::GetWindowText {
        outcome is Text
    } else {
        outcome is Done
    }
}

/// The answer to a request whose operation (other than reading the title) had the outcome
/// `done`: a redraw or a change of title answers `Success` or the system's error; destroying
/// the window answers `Success` whatever came of it, as does a request that needed no
/// operation.
pub open spec fn done_response(op: WindowOp, done: Result<(), String>) -> Result<
    CommandResponse,
    Error,
> {
    match op {
        WindowOp::Redraw | WindowOp::SetWindowText(_) => match done {
            Err(message) => Err(Error::Os(message)),
            Ok(()) => Ok(CommandResponse::Success),
        },
        _ => Ok(CommandResponse::Success),
    }
}

/// The one window operation that the window thread performs for a request; the caller
/// performs it (and no other) and answers with `request_response`.
pub fn on_request<Start>(request: ClientToServer<Command, Start>) -> (op: WindowOp)
    ensures
        op == operation_of(request),
{
    match request {
        ClientToServer::Request { request: Command::Redraw, .. } => WindowOp::Redraw,
        ClientToServer::Request { request: Command::GetWindowText, .. } => WindowOp::GetWindowText,
        ClientToServer::Request { request: Command::SetWindowText(text), .. } => WindowOp::SetWindowText(
            text,
        ),
        ClientToServer::Stop { .. } => WindowOp::Destroy,
        _ => WindowOp::Nothing,
    }
}

/// The answer to a request, from the outcome of the operation `on_request` chose for it: a
/// redraw or a change of title answers `Success` or the system's error; reading the title
/// answers the text, empty if it could not be read; destroying the window answers `Success`
/// whatever came of it, as does a request that needed no operation.
pub fn request_response(op: &WindowOp, outcome: OpOutcome) -> (response: Result<
    CommandResponse,
    Error,
>)
    requires
        outcome_fits(*op, outcome),
    ensures
        match outcome {
            OpOutcome::Done(done) => response == done_response(*op, done),
            OpOutcome::Text(Some(text)) => response == Ok::<CommandResponse, Error>(
                CommandResponse::GetWindowText(text),
            ),
            OpOutcome::Text(None) => response matches Ok(CommandResponse::GetWindowText(text))
                && text@ == Seq::<char>::empty(),
        },
{
    match op {
        WindowOp::Redraw | WindowOp::SetWindowText(_) => match outcome {
            OpOutcome::Done(Err(message)) => Err(Error::Os(message)),
            _ => Ok(CommandResponse::Success),
        },
        WindowOp::GetWindowText => match outcome {
            OpOutcome::Text(Some(text)) => Ok(CommandResponse::GetWindowText(text)),
            _ => Ok(CommandResponse::GetWindowText(String::new())),
        },
        _ => Ok(CommandResponse::Success),
    }
}

/// The identifier of the application message that carries a request to the window thread:
/// the first one after `WM_APP`.
pub const COMMAND_MESSAGE: u32 = 0x8001;

/// The key that the system reports for a key event.
#[derive(Clone, Debug, PartialEq, Eq)]
pub enum WinKey {
    Named(NamedKey),
    Character(String),
    /// A virtual-key code with no meaning of its own.
    Unidentified(u16),
    Dead(Option<char>),
}

/// A key event as the system reports it.
#[derive(Clone, Debug, PartialEq, Eq)]
pub struct WinKeyEvent {
    pub state: KeyState,
    pub key: WinKey,
    pub code: Code,
    pub location: Location,
    pub modifiers: Modifiers,
    pub repeat: bool,
}

/// A window message of the system, with the fields the window reads.
#[derive(Debug)]
pub enum Win32Message {
    Create,
    SettingChange,
    Close,
    Paint,
    /// The window text changed to the given text.
    SetText(String),
    /// An application message; a command message carries a request.
    App { id: u32, request: Option<ClientToServer<Command, ()>> },
    Destroy,
    KeyDown(WinKeyEvent),
    KeyUp(WinKeyEvent),
    /// A mouse button message (down, up or double click of the left, right, middle or an extra
    /// button).
    Mouse(PointerEvent),
    Size(PhysicalSize),
    Move(PhysicalPosition),
    /// Any other message.
    Other,
}

/// The logical key of a key event of the system.
pub open spec fn logical_key_of(key: WinKey) -> LogicalKey {
    match key {
        WinKey::Named(named) => LogicalKey::Named(named),
        WinKey::Character(text) => LogicalKey::Character(text),
        WinKey::Unidentified(vkey) => LogicalKey::Unidentified(NativeKey::Key(vkey as u32)),
        WinKey::Dead(dead) => LogicalKey::Dead(dead),
    }
}

/// A key event of the system as a key event of the window.
pub open spec fn key_event_of(event: WinKeyEvent) -> KeyEvent {
    KeyEvent {
        state: event.state,
        key: logical_key_of(event.key),
        code: PhysicalKey::Code(event.code),
        location: event.location,
        modifiers: event.modifiers,
        repeat: event.repeat,
    }
}

pub fn convert_key_event(key_event: WinKeyEvent) -> (event: KeyEvent)
    ensures
        event == key_event_of(key_event),
{
    let key = match key_event.key {
        WinKey::Named(named_key) => LogicalKey::Named(named_key),
        WinKey::Character(string) => LogicalKey::Character(string),
        WinKey::Unidentified(vkey) => LogicalKey::Unidentified(NativeKey::Key(vkey as u32)),
        WinKey::Dead(dead) => LogicalKey::Dead(dead),
    };
    KeyEvent {
        state: key_event.state,
        key,
        code: PhysicalKey::Code(key_event.code),
        location: key_event.location,
        modifiers: key_event.modifiers,
        repeat: key_event.repeat,
    }
}

/// The window event that a message of the system reports, if it reports one.
pub open spec fn window_event_of(native: Win32Message) -> Option<WindowEvent> {
    match native {
        Win32Message::Close => Some(WindowEvent::CloseRequest),
        Win32Message::Paint => Some(WindowEvent::Draw),
        Win32Message::KeyDown(key) => Some(WindowEvent::Keyboard(key_event_of(key))),
        Win32Message::KeyUp(key) => Some(WindowEvent::Keyboard(key_event_of(key))),
        Win32Message::Mouse(pointer) => Some(WindowEvent::Pointer(pointer)),
        Win32Message::Size(size) => Some(WindowEvent::Resized(size)),
        Win32Message::Move(position) => Some(WindowEvent::Moved(position)),
        _ => None,
    }
}

pub fn map_native_event(native: Win32Message) -> (event: Option<WindowEvent>)
    ensures
        event == window_event_of(native),
{
    match native {
        Win32Message::Close => Some(WindowEvent::CloseRequest),
        Win32Message::Paint => Some(WindowEvent::Draw),
        Win32Message::KeyDown(key) => Some(WindowEvent::Keyboard(convert_key_event(key))),
        Win32Message::KeyUp(key) => Some(WindowEvent::Keyboard(convert_key_event(key))),
        Win32Message::Mouse(pointer) => Some(mouse_event_to_window_event(pointer)),
        Win32Message::Size(size) => Some(WindowEvent::Resized(size)),
        Win32Message::Move(position) => Some(WindowEvent::Moved(position)),
        _ => None,
    }
}

pub fn mouse_event_to_window_event(mouse_event: PointerEvent) -> (event: WindowEvent)
    ensures
        event == WindowEvent::Pointer(mouse_event),
{
    WindowEvent::Pointer(mouse_event)
}

/// What the window procedure does about a message.
#[derive(Debug)]
pub enum MessageAction {
    /// Match the window's dark mode to the system's.
    ApplyDarkMode,
    /// Send the event to the window's owner.
    SendEvent(Event),
    /// Record the new window title.
    SetTitle(String),
    /// Answer the request of the window's owner.
    HandleRequest(ClientToServer<Command, ()>),
    /// End the window thread's message loop.
    Quit,
    Nothing,
}

/// What the window procedure makes of a message, and whether it handles the message itself
/// rather than leave it to the default procedure.
pub open spec fn message_action(native: Win32Message) -> (MessageAction, bool) {
    match native {
        Win32Message::Create => (MessageAction::ApplyDarkMode, false),
        Win32Message::SettingChange => (MessageAction::ApplyDarkMode, false),
        Win32Message::Close => (
            MessageAction::SendEvent(Event::Window(WindowEvent::CloseRequest)),
            true,
        ),
        Win32Message::SetText(text) => (MessageAction::SetTitle(text), false),
        Win32Message::App { id, request } => if id == COMMAND_MESSAGE {
            (MessageAction::HandleRequest(request->0), false)
        } else {
            (MessageAction::Nothing, false)
        },
        Win32Message::Destroy => (MessageAction::Quit, false),
        _ => match window_event_of(native) {
            Some(event) => (MessageAction::SendEvent(Event::Window(event)), false),
            None => (MessageAction::Nothing, false),
        },
    }
}

/// The window procedure's decision about a message: what to do, and whether the message is
/// handled (a close request is, so that the default procedure does not destroy the window).
pub fn on_message(native: Win32Message) -> (outcome: (MessageAction, bool))
    requires
        native matches Win32Message::App { id, request } ==> (id == COMMAND_MESSAGE ==> request is Some),
    ensures
        outcome == message_action(native),
{
    match native {
        Win32Message::Create => (MessageAction::ApplyDarkMode, false),
        Win32Message::SettingChange => (MessageAction::ApplyDarkMode, false),
        Win32Message::Close => (MessageAction::SendEvent(Event::Window(WindowEvent::CloseRequest)), true),
        Win32Message::SetText(text) => (MessageAction::SetTitle(text), false),
        Win32Message::App { id, request } => {
            if id == COMMAND_MESSAGE {
                match request {
                    Some(request) => (MessageAction::HandleRequest(request), false),
                    None => (MessageAction::Nothing, false),
                }
            } else {
                (MessageAction::Nothing, false)
            }
        },
        Win32Message::Destroy => (MessageAction::Quit, false),
        other => {
            match map_native_event(other) {
                Some(event) => (MessageAction::SendEvent(Event::Window(event)), false),
                None => (MessageAction::Nothing, false),
            }
        },
    }
}

/// A key message of the system, whether the key went down or up, is reported as a keyboard
/// event that carries the message's state, key, code, location, modifiers and repeat flag; the
/// down and up messages of one key event are reported alike.
pub proof fn lemma_key_messages_reported(key: WinKeyEvent)
    ensures
        window_event_of(Win32Message::KeyDown(key)) == window_event_of(Win32Message::KeyUp(key)),
        window_event_of(Win32Message::KeyUp(key)) matches Some(WindowEvent::Keyboard(event)) && {
            &&& event.state == key.state
            &&& event.key == logical_key_of(key.key)
            &&& event.code == PhysicalKey::Code(key.code)
            &&& event.location == key.location
            &&& event.modifiers == key.modifiers
            &&& event.repeat == key.repeat
        },
{
}

/// The messages of the window's geometry, painting, pointer and closing are each reported as
/// the window event that carries what the message says.
pub proof fn lemma_window_messages_reported(
    size: PhysicalSize,
    position: PhysicalPosition,
    pointer: PointerEvent,
)
    ensures
        window_event_of(Win32Message::Size(size)) == Some(WindowEvent::Resized(size)),
        window_event_of(Win32Message::Move(position)) == Some(WindowEvent::Moved(position)),
        window_event_of(Win32Message::Mouse(pointer)) == Some(WindowEvent::Pointer(pointer)),
        window_event_of(Win32Message::Paint) == Some(WindowEvent::Draw),
        window_event_of(Win32Message::Close) == Some(WindowEvent::CloseRequest),
{
}

/// Apart from the messages the window procedure handles itself (creation, a change of system
/// settings, a close request, a new window text, an application message and destruction), a
/// message is forwarded to the window's owner exactly when it reports a window event, and then
/// as that event; a message that reports none is left to the default procedure untouched.
pub proof fn lemma_window_events_forwarded(native: Win32Message)
    requires
        !(native is Create),
        !(native is SettingChange),
        !(native is Close),
        !(native is SetText),
        !(native is App),
        !(native is Destroy),
    ensures
        window_event_of(native) matches Some(event) ==> message_action(native) matches (
            MessageAction::SendEvent(sent),
            false,
        ) && sent == Event::Window(event),
        window_event_of(native) is None ==> message_action(native) matches (
            MessageAction::Nothing,
            false,
        ),
{
}

/// The messages the window procedure handles itself: creation and a change of system settings
/// match the window's dark mode to the system's, a close request is sent on to the owner and is
/// the one message marked handled, a new window text is recorded as the title, a command
/// message has its request answered while other application messages are ignored, and
/// destruction ends the message loop.
pub proof fn lemma_special_messages(native: Win32Message, text: String, id: u32, request: ClientToServer<Command, ()>)
    ensures
        message_action(Win32Message::Create) matches (MessageAction::ApplyDarkMode, false),
        message_action(Win32Message::SettingChange) matches (MessageAction::ApplyDarkMode, false),
        message_action(Win32Message::Close) matches (MessageAction::SendEvent(sent), true) && sent
            == Event::Window(WindowEvent::CloseRequest),
        message_action(Win32Message::SetText(text)) matches (MessageAction::SetTitle(title), false)
            && title == text,
        message_action(Win32Message::App { id: COMMAND_MESSAGE, request: Some(request) }) matches (
            MessageAction::HandleRequest(handled),
            false,
        ) && handled == request,
        id != COMMAND_MESSAGE ==> message_action(
            Win32Message::App { id, request: Some(request) },
        ) matches (MessageAction::Nothing, false),
        message_action(Win32Message::Destroy) matches (MessageAction::Quit, false),
        message_action(native).1 <==> native is Close,
{
}

/// An event on its way to the window's owner, with the acknowledgement the window thread waits
/// for, if any.
#[derive(Debug)]
pub struct EventEnvelope<A> {
    pub event: Event,
    pub ack: Option<A>,
}

impl<A> EventEnvelope<A> {
    pub fn empty() -> (envelope: Self)
        ensures
            envelope.event == Event::Nothing,
            envelope.ack is None,
    {
        EventEnvelope { event: Event::Nothing, ack: None }
    }
}

/// The owner's side of a Win32 window.
pub struct Win32WindowState<A> {
    pub flow: Flow,
    pub should_quit: bool,
    pub close_on_x: bool,
    pub thread: ThreadLoop<A>,
}

/// The event that the owner of a window reports for what its thread loop gave; `None` means
/// the window thread has gone.
pub open spec fn reported_event(received: Result<Event, NextEventError>) -> Option<Event> {
    match received {
        Ok(event) => Some(event),
        Err(NextEventError::Empty) => Some(Event::Nothing),
        Err(NextEventError::Disconnected) => None,
    }
}

impl<A> Win32WindowState<A> {
    /// The next event of the window. A closing window has none, and its thread loop turns
    /// inactive. Otherwise the thread loop takes the next message (`poll` gives the owed
    /// acknowledgement, then receives, waiting when the window's flow is `Wait`): no event yet
    /// is reported as `Nothing`, a departed window thread ends the events. A close request closes
    /// a window that closes on close requests. A closing window does not poll: `poll` may be
    /// called only while the window is not closing.
    pub fn next<Ready, F>(&mut self, poll: F) -> (event: Option<Event>) where
        F: FnOnce(Option<A>, bool) -> Result<ServerToClient<Event, Ready, A>, NextEventError>,

        requires
            !old(self).should_quit ==> call_requires(
                poll,
                (old(self).thread.pending_ack(), old(self).flow == Flow::Wait),
            ),
        ensures
            final(self).flow == old(self).flow,
            final(self).close_on_x == old(self).close_on_x,
            old(self).should_quit ==> {
                &&& event is None
                &&& final(self).should_quit
                &&& final(self).thread.state() == ThreadState::Inactive
                &&& final(self).thread.pending_ack() == old(self).thread.pending_ack()
            },
            !old(self).should_quit ==> exists|
                polled: Result<ServerToClient<Event, Ready, A>, NextEventError>,
            |
                {
                    &&& call_ensures(
                        poll,
                        (old(self).thread.pending_ack(), old(self).flow == Flow::Wait),
                        polled,
                    )
                    &&& event == reported_event(received_event(polled))
                    &&& final(self).thread.pending_ack() == owed_ack(polled)
                    &&& final(self).thread.state() == old(self).thread.state()
                    &&& final(self).should_quit == (event == Some(
                        Event::Window(WindowEvent::CloseRequest),
                    ) && old(self).close_on_x)
                },
    {
        if self.is_closing() {
            self.thread.set_inactive();
            return None;
        }
        let wait = match self.flow {
            Flow::Wait => true,
            Flow::Poll => false,
        };
        let event = match self.thread.next_event(wait, poll) {
            Ok(event) => event,
            Err(NextEventError::Empty) => Event::Nothing,
            Err(NextEventError::Disconnected) => return None,
        };
        let close = match &event {
            Event::Window(WindowEvent::CloseRequest) => self.close_on_x,
            _ => false,
        };
        if close {
            self.close();
        }
        Some(event)
    }

    pub fn close(&mut self)
        ensures
            final(self).should_quit,
            final(self).flow == old(self).flow,
            final(self).close_on_x == old(self).close_on_x,
            final(self).thread == old(self).thread,
    {
        self.should_quit = true;
    }

    pub fn is_closing(&self) -> (closing: bool)
        ensures
            closing == self.should_quit,
    {
        self.should_quit
    }
}

} // verus!
