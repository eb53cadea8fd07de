//! Redraw and input-method bookkeeping of the window.
//!
//! The window is drawn once per frame of the compositor, and only while
//! something has changed. When nothing has, drawing stalls until an event
//! asks to unstall it. Changes of the text are reported to the input method
//! together with their cause.

use crate::geometry::Size;
use vstd::prelude::*;

verus! {

/// Why the text around the cursor has changed.
#[derive(PartialEq, Eq, Structural, Copy, Clone, Debug)]
pub enum ChangeCause {
    /// The input method itself has changed it.
    InputMethod,
    /// Something else has: a key, a touch, the clipboard.
    Other,
}

/// Text input with enabled-state tracking.
#[derive(PartialEq, Eq, Structural, Copy, Clone, Debug)]
pub struct TextInput {
    /// Whether the input method was enabled for this text input.
    pub enabled: bool,
}

impl TextInput {
    /// A text input that is not enabled yet.
    pub fn new() -> (text_input: Self)
        ensures
            !text_input.enabled,
    {
        TextInput { enabled: false }
    }

    /// Enable text input on a surface.
    ///
    /// This is automatically debounced if the text input is already enabled:
    /// returns whether the request is to be sent.
    pub fn enable(&mut self) -> (send: bool)
        ensures
            final(self).enabled,
            send == !old(self).enabled,
    {
        if self.enabled {
            return false;
        }
        self.enabled = true;
        true
    }
}

/// What to tell the input method in one batch: the request to enable it if
/// it is due, then the text around the cursor, this cause of its change, the
/// content type and the cursor rectangle, then the commit.
#[derive(PartialEq, Eq, Structural, Copy, Clone, Debug)]
pub struct TextInputUpdate {
    /// Whether to send the request to enable the input method first.
    pub enable: bool,
    /// The cause of the change to report.
    pub cause: ChangeCause,
}

/// State of the window.
#[derive(PartialEq, Eq, Structural, Copy, Clone, Debug)]
pub struct Window {
    /// Whether the window was drawn at least once.
    pub initial_draw_done: bool,
    /// Cause of the last change of the text, until it is reported.
    pub ime_cause: Option<ChangeCause>,
    /// The text input that is focused on the window.
    pub text_input: Option<TextInput>,
    /// Whether drawing has stopped for want of changes.
    pub stalled: bool,
    /// Whether the window itself has to be drawn again.
    pub dirty: bool,
    /// Logical size of the window.
    pub size: Size,
}

impl Window {
    /// A window of the default size, not drawn yet.
    pub fn new() -> (window: Self)
        ensures
            window == (Window {
                initial_draw_done: false,
                ime_cause: None,
                text_input: None,
                stalled: true,
                dirty: true,
                size: Size { width: 360, height: 720 },
            }),
    {
        Window {
            initial_draw_done: false,
            ime_cause: None,
            text_input: None,
            stalled: true,
            dirty: true,
            size: Size { width: 360, height: 720 },
        }
    }

    /// Check whether UI needs redraw.
    pub fn dirty(&self, text_box_dirty: bool) -> (dirty: bool)
        ensures
            dirty == (self.dirty || text_box_dirty),
    {
        self.dirty || text_box_dirty
    }

    /// Starts a redraw of the window. Returns whether to draw: if nothing
    /// has changed since the last redraw, drawing stalls instead.
    pub fn draw(&mut self, text_box_dirty: bool) -> (draw: bool)
        ensures
            draw == (old(self).dirty || text_box_dirty),
            *final(self) == if draw {
                Window { initial_draw_done: true, dirty: false, ..*old(self) }
            } else {
                Window { stalled: true, ..*old(self) }
            },
    {
        if !self.dirty(text_box_dirty) {
            self.stalled = true;
            return false;
        }
        self.initial_draw_done = true;
        self.dirty = false;
        true
    }

    /// Unstall the renderer. Returns whether to redraw at once, which is so
    /// if there currently is no frame request pending.
    pub fn unstall(&mut self) -> (redraw: bool)
        ensures
            redraw == old(self).stalled,
            *final(self) == (Window { stalled: false, ..*old(self) }),
    {
        let stalled = self.stalled;
        self.stalled = false;
        stalled
    }

    /// Update the window's logical size. Returns whether the size has
    /// changed, in which case the window is due for a redraw.
    pub fn set_size(&mut self, size: Size) -> (changed: bool)
        ensures
            changed == (old(self).size != size),
            *final(self) == if changed {
                Window { size, dirty: true, ..*old(self) }
            } else {
                *old(self)
            },
    {
        if self.size.width == size.width && self.size.height == size.height {
            return false;
        }
        self.size = size;
        self.dirty = true;
        true
    }

    /// Marks the window as due for a redraw.
    pub fn mark_dirty(&mut self)
        ensures
            *final(self) == (Window { dirty: true, ..*old(self) }),
    {
        self.dirty = true;
    }

    /// Notes that the user is about to change the text, by key or touch.
    pub fn user_input(&mut self)
        ensures
            *final(self) == (Window { ime_cause: Some(ChangeCause::Other), ..*old(self) }),
    {
        self.ime_cause = Some(ChangeCause::Other);
    }

    /// Handle IME focus: a text input has entered the window.
    pub fn text_input_enter(&mut self)
        ensures
            *final(self) == (Window {
                text_input: Some(TextInput { enabled: false }),
                ..*old(self)
            }),
    {
        self.text_input = Some(TextInput::new());
    }

    /// Handle IME focus loss.
    pub fn text_input_leave(&mut self)
        ensures
            *final(self) == (Window { text_input: None, ..*old(self) }),
    {
        self.text_input = None;
    }

    /// Apply pending text input changes. Without a text input there is
    /// nothing to tell. Otherwise the cause that was noted is used up, and
    /// a change without a noted cause counts as one by the input method.
    pub fn update_text_input(&mut self) -> (update: Option<TextInputUpdate>)
        ensures
            match old(self).text_input {
                Some(text_input) => {
                    &&& update == Some(
                        TextInputUpdate {
                            enable: !text_input.enabled,
                            cause: match old(self).ime_cause {
                                Some(cause) => cause,
                                None => ChangeCause::InputMethod,
                            },
                        },
                    )
                    &&& *final(self) == (Window {
                        text_input: Some(TextInput { enabled: true }),
                        ime_cause: None,
                        ..*old(self)
                    })
                },
                None => update is None && *final(self) == *old(self),
            },
    {
        let mut text_input = match self.text_input {
            Some(text_input) => text_input,
            None => {
                return None;
            },
        };
        let enable = text_input.enable();
        self.text_input = Some(text_input);
        let cause = match self.ime_cause.take() {
            Some(cause) => cause,
            None => ChangeCause::InputMethod,
        };
        Some(TextInputUpdate { enable, cause })
    }
}

} // verus!
