//! Window-system logic of the Ventana windowing library.

pub mod backend;
pub mod context;
pub mod error;
pub mod event;
pub mod keymap;
pub mod keys;
pub mod keysym;
pub mod message;
pub mod signal;
pub mod thread_loop;
pub mod thread_state;
pub mod x11;
pub mod win32;
pub mod wayland;
