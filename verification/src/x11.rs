//! The logic of the X11 backend: how a window interprets the events of the X server, and the
//! values it derives from what the server reports.

use crate::error::RequestError;
use crate::event::{Event, KeyEvent, PhysicalPosition, PhysicalSize, Rgb8, WindowEvent};
use crate::keys::KeyState;
use vstd::prelude::*;
use vstd::utf8::{decode_utf8, valid_utf8};

verus! {

/// The atoms (interned names) of the X server that a window compares events against.
#[derive(Clone, Copy, Debug, PartialEq, Eq)]
pub struct Atoms {
    pub wm_delete_window: u32,
    pub ventana_request_redraw: u32,
}

/// The fields of an X server event that a window reads.
#[derive(Clone, Debug, PartialEq, Eq)]
pub enum X11Event {
    /// A client message; `first_datum` is the first 32-bit word of its data.
    ClientMessage { window: u32, format: u8, type_: u32, first_datum: u32 },
    Expose { window: u32 },
    ConfigureNotify { window: u32, x: i16, y: i16, width: u16, height: u16 },
    ButtonPress,
    ButtonRelease,
    /// A key press, with the key event that the keyboard state makes of it, if any.
    KeyPress { key: Option<KeyEvent> },
    /// A key release, with the key event that the keyboard state makes of it, if any.
    KeyRelease { key: Option<KeyEvent> },
    Error,
    /// Any other event.
    Other,
}

/// What an X11 window knows of itself.
#[derive(Clone, Copy, Debug, PartialEq, Eq)]
pub struct X11WindowState {
    /// The window's X identifier.
    pub id: u32,
    pub size: PhysicalSize,
    pub position: PhysicalPosition,
    pub is_running: bool,
    /// Closing is the answer to a close request.
    pub close_on_x: bool,
}

/// The event that `native` means for the window `state`, and the window state after it.
pub open spec fn mapped_event(state: X11WindowState, atoms: Atoms, native: X11Event) -> (
    X11WindowState,
    Event,
) {
    match native {
        X11Event::ClientMessage { window, format, type_, first_datum } => {
            if window != state.id || format != 32 {
                (state, Event::Nothing)
            } else if first_datum == atoms.wm_delete_window {
                (state, Event::Window(WindowEvent::CloseRequest))
            } else if type_ == atoms.ventana_request_redraw {
                (state, Event::Window(WindowEvent::Draw))
            } else {
                (state, Event::Nothing)
            }
        },
        X11Event::Expose { window } => {
            if window == state.id {
                (state, Event::Window(WindowEvent::Draw))
            } else {
                (state, Event::Nothing)
            }
        },
        X11Event::ConfigureNotify { window, x, y, width, height } => {
            let size = PhysicalSize { width: width as u32, height: height as u32 };
            let position = PhysicalPosition { x: x as i32, y: y as i32 };
            if window == state.id && state.size != size {
                (X11WindowState { size, ..state }, Event::Window(WindowEvent::Resized(size)))
            } else if window == state.id && state.position != position {
                (X11WindowState { position, ..state }, Event::Window(WindowEvent::Moved(position)))
            } else {
                (state, Event::Nothing)
            }
        },
        X11Event::KeyPress { key } => match key {
            Some(k) => (state, Event::Window(WindowEvent::Keyboard(k))),
            None => (state, Event::Nothing),
        },
        X11Event::KeyRelease { key } => match key {
            Some(k) => (state, Event::Window(WindowEvent::Keyboard(k))),
            None => (state, Event::Nothing),
        },
        _ => (state, Event::Nothing),
    }
}

/// The window state after `event` was reported: a close request closes a window that closes on
/// close requests.
pub open spec fn closed_on_request(state: X11WindowState, event: Event) -> X11WindowState {
    if event == Event::Window(WindowEvent::CloseRequest) && state.close_on_x {
        X11WindowState { is_running: false, ..state }
    } else {
        state
    }
}

impl X11WindowState {
    /// A running window.
    pub fn new(id: u32, size: PhysicalSize, position: PhysicalPosition, close_on_x: bool) -> (state:
        Self)
        ensures
            state == (X11WindowState { id, size, position, is_running: true, close_on_x }),
    {
        X11WindowState { id, size, position, is_running: true, close_on_x }
    }

    /// The event that an event of the X server (if there was one) means for this window; a
    /// resize or a move is recorded.
    pub fn map_native_event(&mut self, atoms: &Atoms, native: Option<X11Event>) -> (event: Event)
        ensures
            match native {
                Some(n) => (*final(self), event) == mapped_event(*old(self), *atoms, n),
                None => *final(self) == *old(self) && event == Event::Nothing,
            },
    {
        let native = match native {
            Some(native) => native,
            None => return Event::Nothing,
        };
        match native {
            X11Event::ClientMessage { window, format, type_, first_datum } => {
                if window != self.id || format != 32 {
                    return Event::Nothing;
                }
                if first_datum == atoms.wm_delete_window {
                    return Event::Window(WindowEvent::CloseRequest);
                }
                if type_ == atoms.ventana_request_redraw {
                    return Event::Window(WindowEvent::Draw);
                }
                Event::Nothing
            },
            X11Event::Expose { window } => {
                if window == self.id {
                    Event::Window(WindowEvent::Draw)
                } else {
                    Event::Nothing
                }
            },
            X11Event::ConfigureNotify { window, x, y, width, height } => {
                let old_size = self.size;
                let new_size = PhysicalSize { width: width as u32, height: height as u32 };
                if window == self.id && (old_size.width != new_size.width || old_size.height
                    != new_size.height) {
                    self.size = new_size;
                    return Event::Window(WindowEvent::Resized(new_size));
                }
                let old_position = self.position;
                let new_position = PhysicalPosition { x: x as i32, y: y as i32 };
                if window == self.id && (old_position.x != new_position.x || old_position.y
                    != new_position.y) {
                    self.position = new_position;
                    return Event::Window(WindowEvent::Moved(new_position));
                }
                Event::Nothing
            },
            X11Event::KeyPress { key } => match key {
                Some(event) => Event::Window(WindowEvent::Keyboard(event)),
                None => Event::Nothing,
            },
            X11Event::KeyRelease { key } => match key {
                Some(event) => Event::Window(WindowEvent::Keyboard(event)),
                None => Event::Nothing,
            },
            _ => Event::Nothing,
        }
    }

    /// The next event of the window. A closed window has none, and does not ask the X server:
    /// `poll` may be called only while the window runs (its `requires` is owed only then).
    /// `poll` fetches an event from the X server: `None` when that failed, `Some(None)` when no
    /// event was waiting. A close request closes a window that closes on close requests.
    pub fn next_event<F>(&mut self, atoms: &Atoms, poll: F) -> (event: Option<Event>) where
        F: FnOnce() -> Option<Option<X11Event>>,

        requires
            old(self).is_running ==> call_requires(poll, ()),
        ensures
            !old(self).is_running ==> event is None && *final(self) == *old(self),
            old(self).is_running ==> exists|polled: Option<Option<X11Event>>|
                {
                    &&& call_ensures(poll, (), polled)
                    &&& match polled {
                        None => event is None && *final(self) == *old(self),
                        Some(None) => event == Some(Event::Nothing) && *final(self) == *old(self),
                        Some(Some(native)) => {
                            let (mapped_state, mapped) = mapped_event(*old(self), *atoms, native);
                            &&& event == Some(mapped)
                            &&& *final(self) == closed_on_request(mapped_state, mapped)
                        },
                    }
                },
    {
        if self.is_closing() {
            return None;
        }
        let polled = poll();
        let ghost got = polled;
        let native = match polled {
            Some(native) => native,
            None => {
                assert(call_ensures(poll, (), got));
                return None;
            },
        };
        let event = self.map_native_event(atoms, native);
        let close = match &event {
            Event::Window(WindowEvent::CloseRequest) => self.close_on_x,
            _ => false,
        };
        if close {
            self.close();
        }
        assert(call_ensures(poll, (), got));
        Some(event)
    }

    pub fn close(&mut self)
        ensures
            *final(self) == (X11WindowState { is_running: false, ..*old(self) }),
    {
        self.is_running = false;
    }

    pub fn is_closing(&self) -> (closing: bool)
        ensures
            closing == !self.is_running,
    {
        !self.is_running
    }
}

/// An event for another window neither changes the window nor concerns it, unless it is a key
/// event (X11 reports key events for the focused window, whatever the window field says).
pub proof fn lemma_foreign_events_ignored(state: X11WindowState, atoms: Atoms, native: X11Event)
    requires
        (native matches X11Event::ClientMessage { window, .. } && window != state.id)
            || (native matches X11Event::Expose { window } && window != state.id)
            || (native matches X11Event::ConfigureNotify { window, .. } && window != state.id),
    ensures
        mapped_event(state, atoms, native) == (state, Event::Nothing),
{
}

/// Every key event that the keyboard state makes of a key press or a key release is reported
/// to the window's owner as that keyboard event, and leaves the window as it was: a press and a
/// release carrying the same key event are reported alike.
pub proof fn lemma_key_events_reported(state: X11WindowState, atoms: Atoms, key: KeyEvent)
    ensures
        mapped_event(state, atoms, X11Event::KeyPress { key: Some(key) }) == (
            state,
            Event::Window(WindowEvent::Keyboard(key)),
        ),
        mapped_event(state, atoms, X11Event::KeyRelease { key: Some(key) }) == (
            state,
            Event::Window(WindowEvent::Keyboard(key)),
        ),
        mapped_event(state, atoms, X11Event::KeyRelease { key: Some(key) }) == mapped_event(
            state,
            atoms,
            X11Event::KeyPress { key: Some(key) },
        ),
{
}

/// An exposure of the window asks for a redraw. A configure notification of the window
/// reports a new size as `Resized` with that size, or else a new position as `Moved` with that
/// position, and the window records what it reported; one that changes neither reports nothing.
/// No event changes anything of the window but its size and position, and button presses and
/// releases, errors and other events report nothing.
pub proof fn lemma_window_events_reported(
    state: X11WindowState,
    atoms: Atoms,
    native: X11Event,
    x: i16,
    y: i16,
    width: u16,
    height: u16,
)
    ensures
        mapped_event(state, atoms, X11Event::Expose { window: state.id }) == (
            state,
            Event::Window(WindowEvent::Draw),
        ),
        ({
            let (after, event) = mapped_event(
                state,
                atoms,
                X11Event::ConfigureNotify { window: state.id, x, y, width, height },
            );
            let size = PhysicalSize { width: width as u32, height: height as u32 };
            let position = PhysicalPosition { x: x as i32, y: y as i32 };
            &&& size != state.size ==> event == Event::Window(WindowEvent::Resized(size))
                && after.size == size && after.position == state.position
            &&& size == state.size && position != state.position ==> event == Event::Window(
                WindowEvent::Moved(position),
            ) && after.position == position && after.size == state.size
            &&& size == state.size && position == state.position ==> event == Event::Nothing
                && after == state
        }),
        ({
            let after = mapped_event(state, atoms, native).0;
            &&& after.id == state.id
            &&& after.is_running == state.is_running
            &&& after.close_on_x == state.close_on_x
        }),
        (native is ButtonPress || native is ButtonRelease || native is Error || native is Other)
            ==> mapped_event(state, atoms, native) == (state, Event::Nothing),
{
}

/// Delivering the same configure notification over and over brings the window up to date by
/// the second delivery, after which it reports nothing more.
pub proof fn lemma_configure_settles(
    state: X11WindowState,
    atoms: Atoms,
    x: i16,
    y: i16,
    width: u16,
    height: u16,
)
    ensures
        ({
            let native = X11Event::ConfigureNotify { window: state.id, x, y, width, height };
            let first = mapped_event(state, atoms, native).0;
            let second = mapped_event(first, atoms, native).0;
            &&& second.size == PhysicalSize { width: width as u32, height: height as u32 }
            &&& second.position == PhysicalPosition { x: x as i32, y: y as i32 }
            &&& mapped_event(second, atoms, native) == (second, Event::Nothing)
        }),
{
}

/// A window that closes on close requests is closed after reporting one, and then has no
/// further events.
pub proof fn lemma_close_request_closes(state: X11WindowState)
    requires
        state.close_on_x,
    ensures
        !closed_on_request(state, Event::Window(WindowEvent::CloseRequest)).is_running,
{
}

/// The client message that asks the window `window` to redraw: a 32-bit message of the
/// `VENTANA_REQUEST_REDRAW` type whose data is all zero.
pub fn redraw_request(window: u32, atoms: &Atoms) -> (message: X11Event)
    ensures
        message == (X11Event::ClientMessage {
            window,
            format: 32,
            type_: atoms.ventana_request_redraw,
            first_datum: 0,
        }),
{
    X11Event::ClientMessage { window, format: 32, type_: atoms.ventana_request_redraw, first_datum: 0 }
}

/// A redraw request that comes back to the window it was sent to is reported as `Draw` and
/// leaves the window unchanged. (The X server never hands out the atom 0, so the data of the
/// message cannot be mistaken for `WM_DELETE_WINDOW`.)
pub proof fn lemma_redraw_request_draws(state: X11WindowState, atoms: Atoms)
    requires
        atoms.wm_delete_window != 0,
    ensures
        mapped_event(
            state,
            atoms,
            X11Event::ClientMessage {
                window: state.id,
                format: 32,
                type_: atoms.ventana_request_redraw,
                first_datum: 0,
            },
        ) == (state, Event::Window(WindowEvent::Draw)),
{
}

/// The close request, if `native` is one for the window `window_id`: a 32-bit client message to
/// that window whose data starts with `WM_DELETE_WINDOW`. Every other event gives `Nothing`.
pub open spec fn close_request_event(native: X11Event, window_id: u32, atoms: Atoms) -> Event {
    match native {
        X11Event::ClientMessage { window, format, first_datum, .. } => {
            if format == 32 && window == window_id && first_datum == atoms.wm_delete_window {
                Event::Window(WindowEvent::CloseRequest)
            } else {
                Event::Nothing
            }
        },
        _ => Event::Nothing,
    }
}

/// Reports the close requests for the window `window_id`, and nothing else.
pub fn map_native_event(native: &X11Event, window_id: u32, atoms: &Atoms) -> (event: Event)
    ensures
        event == close_request_event(*native, window_id, *atoms),
{
    match native {
        X11Event::ClientMessage { window, format, first_datum, .. } => {
            if *format == 32 && *window == window_id && *first_datum == atoms.wm_delete_window {
                Event::Window(WindowEvent::CloseRequest)
            } else {
                Event::Nothing
            }
        },
        _ => Event::Nothing,
    }
}

/// A close request for a window means the same to the close-request mapping as to the window.
pub proof fn lemma_close_request_agrees(state: X11WindowState, atoms: Atoms, native: X11Event)
    requires
        close_request_event(native, state.id, atoms) == Event::Window(WindowEvent::CloseRequest),
    ensures
        mapped_event(state, atoms, native) == (state, Event::Window(WindowEvent::CloseRequest)),
{
}

/// Which repeatable key is held down, to tell the repeats of a key press from new presses.
#[derive(Clone, Copy, Debug, Default, PartialEq, Eq)]
pub struct HeldKey {
    pub keycode: Option<u32>,
}

/// Whether a key event is a repeat, and which key is held after it.
pub open spec fn repeat_step(held: Option<u32>, key_repeats: bool, keycode: u32, state: KeyState) -> (
    Option<u32>,
    bool,
) {
    if !key_repeats {
        (held, false)
    } else if state == KeyState::Down {
        (Some(keycode), held == Some(keycode))
    } else if held == Some(keycode) {
        (None, false)
    } else {
        (held, false)
    }
}

impl HeldKey {
    /// Whether the event of the key `keycode` going to `state` is a repeat. A press of a key
    /// that repeats is a repeat when that key is the latest one held; it becomes the held key.
    /// Releasing the held key ends the repeats; releasing another key leaves them going, as the
    /// system keeps repeating the latest key pressed.
    pub fn is_repeat(&mut self, key_repeats: bool, keycode: u32, state: KeyState) -> (repeat: bool)
        ensures
            (final(self).keycode, repeat) == repeat_step(old(self).keycode, key_repeats, keycode, state),
    {
        if !key_repeats {
            return false;
        }
        let is_latest_held = match self.keycode {
            Some(held) => held == keycode,
            None => false,
        };
        match state {
            KeyState::Down => {
                self.keycode = Some(keycode);
                is_latest_held
            },
            KeyState::Up => {
                if is_latest_held {
                    self.keycode = None;
                }
                false
            },
        }
    }
}

/// A key that repeats and is pressed again without being released reports a repeat; a key that
/// was released reports a new press.
pub proof fn lemma_repeat_after_press(held: Option<u32>, keycode: u32)
    ensures
        repeat_step(repeat_step(held, true, keycode, KeyState::Down).0, true, keycode, KeyState::Down).1,
        !repeat_step(
            repeat_step(repeat_step(held, true, keycode, KeyState::Down).0, true, keycode, KeyState::Up).0,
            true,
            keycode,
            KeyState::Down,
        ).1,
{
}

/// The pixel value of the window background: the clear colour packed as `0xRRGGBB`, or the
/// screen's black pixel when there is none.
pub fn clear_color_pixel(clear_color: Option<Rgb8>, black_pixel: u32) -> (pixel: u32)
    ensures
        pixel == match clear_color {
            Some(color) => color.r * 0x10000 + color.g * 0x100 + color.b,
            None => black_pixel as int,
        },
{
    match clear_color {
        Some(color) => {
            let r = color.r as u32;
            let g = color.g as u32;
            let b = color.b as u32;
            assert((r << 16u32 | g << 8u32 | b) == r * 0x10000 + g * 0x100 + b) by (bit_vector)
                requires
                    r < 256 && g < 256 && b < 256,
            ;
            r << 16 | g << 8 | b
        },
        None => black_pixel,
    }
}

/// The text that `String::from_utf8_lossy` makes of `bytes`.
pub uninterp spec fn lossy_utf8(bytes: Seq<u8>) -> Seq<char>;

/// Calls `String::from_utf8_lossy`, which decodes UTF-8 and puts U+FFFD in place of each invalid
/// sequence. Stated: the result is the one named `lossy_utf8`, and it is the plain decoding
/// when the bytes are valid UTF-8. Not stated: which replacement characters invalid input
/// gets.
#[verifier::external_body]
fn utf8_lossy(bytes: &[u8]) -> (text: String)
    ensures
        text@ == lossy_utf8(bytes@),
        valid_utf8(bytes@) ==> text@ == decode_utf8(bytes@),
{
    String::from_utf8_lossy(bytes).into_owned()
}

/// Calls `std::str::from_utf8`, which checks that the bytes are UTF-8 and reads them as text.
/// Stated, as its documentation gives it: it succeeds exactly on valid UTF-8, with the text the
/// bytes encode.
#[verifier::external_body]
fn utf8_str(bytes: &[u8]) -> (text: Option<String>)
    ensures
        text is Some <==> valid_utf8(bytes@),
        text matches Some(t) ==> t@ == decode_utf8(bytes@),
{
    std::str::from_utf8(bytes).ok().map(|text| text.to_owned())
}

/// The text that the keyboard library wrote into a buffer, which it promises to be UTF-8;
/// `None` when it is not.
pub fn byte_slice_to_text(bytes: &[u8]) -> (text: Option<String>)
    ensures
        text is Some <==> valid_utf8(bytes@),
        text matches Some(t) ==> t@ == decode_utf8(bytes@),
{
    utf8_str(bytes)
}

/// The title of a window from its `_NET_WM_NAME` and `WM_NAME` properties: the first that is
/// set, decoded as UTF-8, or the empty string.
pub fn title_from_properties(net_wm_name: &[u8], wm_name: &[u8]) -> (title: String)
    ensures
        net_wm_name@.len() > 0 ==> title@ == lossy_utf8(net_wm_name@),
        net_wm_name@.len() == 0 && wm_name@.len() > 0 ==> title@ == lossy_utf8(wm_name@),
        net_wm_name@.len() == 0 && wm_name@.len() == 0 ==> title@ == Seq::<char>::empty(),
        net_wm_name@.len() > 0 && valid_utf8(net_wm_name@) ==> title@ == decode_utf8(net_wm_name@),
        net_wm_name@.len() == 0 && valid_utf8(wm_name@) ==> title@ == decode_utf8(wm_name@),
{
    if net_wm_name.len() != 0 {
        return utf8_lossy(net_wm_name);
    }
    if wm_name.len() != 0 {
        return utf8_lossy(wm_name);
    }
    String::new()
}

/// What the X server reports of a monitor.
#[derive(Clone, Copy, Debug, PartialEq, Eq)]
pub struct MonitorInfo {
    pub id: u32,
    pub primary: bool,
    pub automatic: bool,
    pub x: i16,
    pub y: i16,
    pub width: u16,
    pub height: u16,
    pub width_in_millimeters: u32,
    pub height_in_millimeters: u32,
}

/// The index of the monitor chosen as primary: the first monitor marked primary, else the first
/// monitor.
pub open spec fn primary_index(monitors: Seq<MonitorInfo>) -> Option<int> {
    if exists|i: int| 0 <= i < monitors.len() && monitors[i].primary {
        Some(
            choose|i: int|
                0 <= i < monitors.len() && monitors[i].primary && forall|j: int|
                    0 <= j < i ==> !monitors[j].primary,
        )
    } else if monitors.len() > 0 {
        Some(0)
    } else {
        None
    }
}

/// Some monitor marked primary comes first among those marked primary.
proof fn lemma_first_primary_exists(monitors: Seq<MonitorInfo>, i: int)
    requires
        0 <= i < monitors.len(),
        monitors[i].primary,
    ensures
        exists|k: int|
            0 <= k < monitors.len() && monitors[k].primary && forall|j: int|
                0 <= j < k ==> !monitors[j].primary,
    decreases i,
{
    if exists|j: int| 0 <= j < i && monitors[j].primary {
        let j = choose|j: int| 0 <= j < i && monitors[j].primary;
        lemma_first_primary_exists(monitors, j);
    } else {
        assert(forall|j: int| 0 <= j < i ==> !monitors[j].primary);
    }
}

/// The primary monitor is the first one marked primary, if any is.
pub proof fn lemma_primary_is_first_marked(monitors: Seq<MonitorInfo>)
    requires
        exists|i: int| 0 <= i < monitors.len() && monitors[i].primary,
    ensures
        ({
            let i = primary_index(monitors)->0;
            &&& 0 <= i < monitors.len()
            &&& monitors[i].primary
            &&& forall|j: int| 0 <= j < i ==> !monitors[j].primary
        }),
{
    let i = choose|i: int| 0 <= i < monitors.len() && monitors[i].primary;
    lemma_first_primary_exists(monitors, i);
}

/// The primary monitor among those the X server lists; fails when it lists none.
pub fn primary_monitor(monitors: &Vec<MonitorInfo>) -> (primary: Result<MonitorInfo, RequestError>)
    ensures
        match primary_index(monitors@) {
            Some(i) => primary == Ok::<MonitorInfo, RequestError>(monitors@[i]),
            None => primary matches Err(RequestError::Os(message)) && message@
                == "No available monitors to select from"@,
        },
{
    let mut i: usize = 0;
    while i < monitors.len()
        invariant
            0 <= i <= monitors@.len(),
            forall|j: int| 0 <= j < i ==> !monitors@[j].primary,
        decreases monitors@.len() - i,
    {
        if monitors[i].primary {
            proof {
                lemma_primary_is_first_marked(monitors@);
                let k = primary_index(monitors@)->0;
                if k > i as int {
                    assert(!monitors@[i as int].primary);
                }
            }
            return Ok(monitors[i]);
        }
        i = i + 1;
    }
    if monitors.len() > 0 {
        Ok(monitors[0])
    } else {
        Err(RequestError::Os("No available monitors to select from".to_owned()))
    }
}

} // verus!
