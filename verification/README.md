# ventana

The window-system logic of Ventana, an iterator-based windowing library, verified with Verus.

- `src/` is the verified library:
  - `keys`, `keysym`, `keymap`: the keyboard vocabulary and the translation of Linux scancodes
    and X11 key symbols into it, with the laws that the two scancode tables are inverse.
  - `thread_state`, `signal`, `message`, `thread_loop`, `context`: the thread loop that runs a
    window on a thread of its own: its states, its messages, the decisions of the client side
    and of the server side, and the store of responses.
  - `backend`: the automatic choice of a backend from an order of preference.
  - `event`, `x11`, `win32`, `wayland`: window events and what the X11 and Win32 backends make
    of the messages of their window systems.
- `app/` holds the runtime: threads, channels, locks and condition variables around the thread
  loop, the probing of window servers, and the X11 backend's conversation with the X server
  (through `x11rb`).
- `tests/` exercises the library on concrete values.
