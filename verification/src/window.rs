use vstd::prelude::*;

verus! {

/// One window or input event from the host environment, as plain values.
#[derive(Clone, Copy, PartialEq, Eq, Structural, Debug)]
pub enum WinEvent {
    /// The window is now `width` by `height` pixels.
    Resized(u32, u32),
    /// The pointer sits at this pixel position, measured from the top left.
    CursorMoved(u32, u32),
    /// The pointer entered the window bounds.
    CursorEntered,
    /// The pointer left the window bounds.
    CursorLeft,
    /// The host asked the window to close.
    CloseRequested,
}

/// Host window and input state, mirrored from environment events and read
/// by the frame-uniform computation.
#[derive(Clone, Copy, PartialEq, Eq, Structural, Debug)]
pub struct WindowState {
    /// Window width in pixels.
    pub width: u32,
    /// Window height in pixels.
    pub height: u32,
    /// Last reported pointer x, in pixels from the left edge.
    pub cursor_x: u32,
    /// Last reported pointer y, in pixels from the top edge.
    pub cursor_y: u32,
    /// Whether the pointer is inside the window bounds.
    pub cursor_in: bool,
    /// Whether a close was requested; never reset.
    pub should_close: bool,
}

impl WindowState {
    /// The state a fresh window of the given size starts in: pointer
    /// outside, no close requested.
    pub open spec fn initial(width: u32, height: u32) -> WindowState {
        WindowState {
            width,
            height,
            cursor_x: 0,
            cursor_y: 0,
            cursor_in: false,
            should_close: false,
        }
    }

    /// The mirrored state after one environment event.
    pub open spec fn after_event(self, e: WinEvent) -> WindowState {
        match e {
            WinEvent::Resized(w, h) => WindowState { width: w, height: h, ..self },
            WinEvent::CursorMoved(x, y) => WindowState { cursor_x: x, cursor_y: y, ..self },
            WinEvent::CursorEntered => WindowState { cursor_in: true, ..self },
            WinEvent::CursorLeft => WindowState { cursor_in: false, ..self },
            WinEvent::CloseRequested => WindowState { should_close: true, ..self },
        }
    }

    /// Fresh state for a window of the given size.
    pub fn new(width: u32, height: u32) -> (r: WindowState)
        ensures
            r == WindowState::initial(width, height),
    {
        WindowState {
            width,
            height,
            cursor_x: 0,
            cursor_y: 0,
            cursor_in: false,
            should_close: false,
        }
    }

    /// Fold one environment event into the mirrored state.
    pub fn event(&mut self, e: &WinEvent)
        ensures
            *final(self) == old(self).after_event(*e),
    {
        match e {
            WinEvent::Resized(w, h) => {
                self.width = *w;
                self.height = *h;
            },
            WinEvent::CursorMoved(x, y) => {
                self.cursor_x = *x;
                self.cursor_y = *y;
            },
            WinEvent::CursorEntered => {
                self.cursor_in = true;
            },
            WinEvent::CursorLeft => {
                self.cursor_in = false;
            },
            WinEvent::CloseRequested => {
                self.should_close = true;
            },
        }
    }
}

} // verus!
