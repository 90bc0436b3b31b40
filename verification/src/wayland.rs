//! The logic of the Wayland backend.

use vstd::prelude::*;

verus! {

/// The window update coming from the compositor.
#[derive(Debug, Clone, Copy, PartialEq, Eq)]
pub struct WindowCompositorUpdate {
    /// The id of the window this update belongs to.
    pub window_id: u64,
    /// New window size.
    pub resized: bool,
    /// New scale factor.
    pub scale_changed: bool,
    /// Close the window.
    pub close_window: bool,
}

impl WindowCompositorUpdate {
    /// An update of the window `window_id` that changes nothing yet.
    pub fn new(window_id: u64) -> (update: Self)
        ensures
            update == (WindowCompositorUpdate {
                window_id,
                resized: false,
                scale_changed: false,
                close_window: false,
            }),
    {
        WindowCompositorUpdate { window_id, resized: false, scale_changed: false, close_window: false }
    }
}

} // verus!
