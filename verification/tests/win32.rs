use ventana::error::{Error, NextEventError};
use ventana::event::{ButtonAction, Event, KeyEvent, Modifiers, MouseButton, PhysicalPosition, PhysicalSize, PointerEvent, WindowEvent};
use ventana::keys::{Code, KeyState, Location, LogicalKey, NamedKey, NativeKey, PhysicalKey};
use ventana::message::{ClientToServer, Envelope, IdCounter, ServerToClient};
use ventana::thread_loop::ThreadLoop;
use ventana::thread_state::ThreadState;
use ventana::win32::{
    convert_key_event, map_native_event, on_message, on_request, request_response, Command, CommandResponse, EventEnvelope, Flow,
    MessageAction, OpOutcome, WindowOp, SharedInternal, Win32Message, Win32WindowState, WinKey, WinKeyEvent, COMMAND_MESSAGE,
};

fn win_key(key: WinKey) -> WinKeyEvent {
    WinKeyEvent {
        state: KeyState::Up,
        key,
        code: Code::KeyQ,
        location: Location::Standard,
        modifiers: Modifiers { shift: true, ..Modifiers::default() },
        repeat: true,
    }
}

#[test]
fn key_events_convert() {
    let event = convert_key_event(win_key(WinKey::Unidentified(0xff)));
    assert_eq!(
        event,
        KeyEvent {
            state: KeyState::Up,
            key: LogicalKey::Unidentified(NativeKey::Key(0xff)),
            code: PhysicalKey::Code(Code::KeyQ),
            location: Location::Standard,
            modifiers: Modifiers { shift: true, ..Modifiers::default() },
            repeat: true,
        }
    );
    assert_eq!(convert_key_event(win_key(WinKey::Character("q".to_string()))).key, LogicalKey::Character("q".to_string()));
    assert_eq!(convert_key_event(win_key(WinKey::Named(NamedKey::Tab))).key, LogicalKey::Named(NamedKey::Tab));
    assert_eq!(convert_key_event(win_key(WinKey::Dead(Some('^')))).key, LogicalKey::Dead(Some('^')));
}

#[test]
fn native_events_map() {
    assert_eq!(map_native_event(Win32Message::Close), Some(WindowEvent::CloseRequest));
    assert_eq!(map_native_event(Win32Message::Paint), Some(WindowEvent::Draw));
    let size = PhysicalSize { width: 3, height: 4 };
    assert_eq!(map_native_event(Win32Message::Size(size)), Some(WindowEvent::Resized(size)));
    let position = PhysicalPosition { x: -1, y: 2 };
    assert_eq!(map_native_event(Win32Message::Move(position)), Some(WindowEvent::Moved(position)));
    let click = PointerEvent { button: MouseButton::Back, action: ButtonAction::DoubleClicked };
    assert_eq!(map_native_event(Win32Message::Mouse(click)), Some(WindowEvent::Pointer(click)));
    assert!(matches!(map_native_event(Win32Message::KeyDown(win_key(WinKey::Named(NamedKey::Enter)))), Some(WindowEvent::Keyboard(_))));
    assert_eq!(map_native_event(Win32Message::Create), None);
    assert_eq!(map_native_event(Win32Message::Other), None);
}

#[test]
fn window_procedure_decisions() {
    assert!(matches!(on_message(Win32Message::Create), (MessageAction::ApplyDarkMode, false)));
    assert!(matches!(on_message(Win32Message::SettingChange), (MessageAction::ApplyDarkMode, false)));
    assert!(matches!(
        on_message(Win32Message::Close),
        (MessageAction::SendEvent(Event::Window(WindowEvent::CloseRequest)), true)
    ));
    assert!(matches!(on_message(Win32Message::SetText("t".to_string())), (MessageAction::SetTitle(t), false) if t == "t"));
    assert!(matches!(on_message(Win32Message::Destroy), (MessageAction::Quit, false)));
    assert!(matches!(on_message(Win32Message::Paint), (MessageAction::SendEvent(Event::Window(WindowEvent::Draw)), false)));
    assert!(matches!(on_message(Win32Message::Other), (MessageAction::Nothing, false)));
    let mut counter = IdCounter::new();
    let request = ClientToServer::request(&mut counter, Command::Redraw);
    assert!(matches!(
        on_message(Win32Message::App { id: COMMAND_MESSAGE, request: Some(request) }),
        (MessageAction::HandleRequest(ClientToServer::Request { request: Command::Redraw, .. }), false)
    ));
    assert!(matches!(on_message(Win32Message::App { id: COMMAND_MESSAGE + 1, request: None }), (MessageAction::Nothing, false)));
}

#[test]
fn requests_choose_one_operation() {
    let mut counter = IdCounter::new();
    let redraw: ClientToServer<Command, ()> = ClientToServer::request(&mut counter, Command::Redraw);
    assert_eq!(on_request(redraw), WindowOp::Redraw);
    let get: ClientToServer<Command, ()> = ClientToServer::request(&mut counter, Command::GetWindowText);
    assert_eq!(on_request(get), WindowOp::GetWindowText);
    let set: ClientToServer<Command, ()> = ClientToServer::request(&mut counter, Command::SetWindowText("new".to_string()));
    assert_eq!(on_request(set), WindowOp::SetWindowText("new".to_string()));
    let stop: ClientToServer<Command, ()> = ClientToServer::stop(&mut counter);
    assert_eq!(on_request(stop), WindowOp::Destroy);
    let other: ClientToServer<Command, ()> = ClientToServer::request(&mut counter, Command::SetFullscreen(true));
    assert_eq!(on_request(other), WindowOp::Nothing);
    let start: ClientToServer<Command, u8> = ClientToServer::start(&mut counter, 1);
    assert_eq!(on_request(start), WindowOp::Nothing);
}

#[test]
fn requests_are_answered() {
    assert_eq!(request_response(&WindowOp::Redraw, OpOutcome::Done(Ok(()))), Ok(CommandResponse::Success));
    assert_eq!(
        request_response(&WindowOp::Redraw, OpOutcome::Done(Err("busy".to_string()))),
        Err(Error::Os("busy".to_string()))
    );
    assert_eq!(
        request_response(&WindowOp::GetWindowText, OpOutcome::Text(Some("title".to_string()))),
        Ok(CommandResponse::GetWindowText("title".to_string()))
    );
    assert_eq!(
        request_response(&WindowOp::GetWindowText, OpOutcome::Text(None)),
        Ok(CommandResponse::GetWindowText(String::new()))
    );
    let set = WindowOp::SetWindowText("new".to_string());
    assert_eq!(request_response(&set, OpOutcome::Done(Ok(()))), Ok(CommandResponse::Success));
    assert_eq!(request_response(&set, OpOutcome::Done(Err("no".to_string()))), Err(Error::Os("no".to_string())));
    assert_eq!(
        request_response(&WindowOp::Destroy, OpOutcome::Done(Err("gone".to_string()))),
        Ok(CommandResponse::Success)
    );
    assert_eq!(request_response(&WindowOp::Nothing, OpOutcome::Done(Ok(()))), Ok(CommandResponse::Success));
}

#[test]
fn shared_internal() {
    let shared = SharedInternal::new("Example".to_string(), true);
    assert_eq!(shared.title(), "Example");
    assert!(shared.close_on_x);
}

#[test]
fn empty_envelope() {
    let envelope: EventEnvelope<u8> = EventEnvelope::empty();
    assert_eq!(envelope.event, Event::Nothing);
    assert!(envelope.ack.is_none());
}

type Msg = ServerToClient<Event, u64, u8>;

fn state(flow: Flow, close_on_x: bool) -> Win32WindowState<u8> {
    Win32WindowState { flow, should_quit: false, close_on_x, thread: ThreadLoop::new() }
}

#[test]
fn window_takes_events_from_its_thread() {
    let mut window = state(Flow::Wait, true);
    let event = window.next(|ack, wait| -> Result<Msg, NextEventError> {
        assert!(wait);
        assert_eq!(ack, None);
        Ok(ServerToClient::Event(Envelope { message: Event::Window(WindowEvent::Draw), ack: Some(1) }))
    });
    assert_eq!(event, Some(Event::Window(WindowEvent::Draw)));
    let event = window.next(|ack, _| -> Result<Msg, NextEventError> {
        assert_eq!(ack, Some(1));
        Err(NextEventError::Empty)
    });
    assert_eq!(event, Some(Event::Nothing));
    let event = window.next(|_, _| -> Result<Msg, NextEventError> { Ok(ServerToClient::Stop) });
    assert_eq!(event, None);
}

#[test]
fn window_closes_on_close_request() {
    let mut window = state(Flow::Poll, true);
    let event = window.next(|_, wait| -> Result<Msg, NextEventError> {
        assert!(!wait);
        Ok(ServerToClient::Event(Envelope { message: Event::Window(WindowEvent::CloseRequest), ack: None }))
    });
    assert_eq!(event, Some(Event::Window(WindowEvent::CloseRequest)));
    assert!(window.is_closing());
    let mut polled = false;
    assert_eq!(window.next(|_, _| -> Result<Msg, NextEventError> { polled = true; Err(NextEventError::Empty) }), None);
    assert!(!polled);
    assert_eq!(window.thread.current_state(), ThreadState::Inactive);
}

#[test]
fn window_without_close_on_x_stays_open() {
    let mut window = state(Flow::Poll, false);
    let event = window.next(|_, _| -> Result<Msg, NextEventError> {
        Ok(ServerToClient::Event(Envelope { message: Event::Window(WindowEvent::CloseRequest), ack: None }))
    });
    assert_eq!(event, Some(Event::Window(WindowEvent::CloseRequest)));
    assert!(!window.is_closing());
    window.close();
    assert!(window.is_closing());
}
