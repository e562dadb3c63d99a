//! What the Wayland event handlers keep between events: the configured logical size
//! and whether the event loop should stop.
use vstd::prelude::*;

verus! {

/// The shell state shared by the event handlers.
#[derive(Clone, Copy, Debug, PartialEq, Eq, Structural)]
pub struct ShellState {
    /// Configured logical width and height.
    pub width: u32,
    pub height: u32,
    /// The event loop stops before its next dispatch.
    pub exit: bool,
}

/// A configured side: its value, or 0 when the compositor leaves it to the client.
pub open spec fn configured_side(side: Option<u32>) -> u32 {
    match side {
        Some(v) => v,
        None => 0,
    }
}

impl ShellState {
    /// The state after a configure: each side given (and not 0) is taken.
    pub open spec fn after_configure(self, width: Option<u32>, height: Option<u32>) -> ShellState {
        ShellState {
            width: if configured_side(width) > 0 {
                configured_side(width)
            } else {
                self.width
            },
            height: if configured_side(height) > 0 {
                configured_side(height)
            } else {
                self.height
            },
            ..self
        }
    }

    /// The state before the first configure: the fallback size, running.
    pub fn new(fallback_size: (u32, u32)) -> (s: ShellState)
        ensures
            s == (ShellState { width: fallback_size.0, height: fallback_size.1, exit: false }),
    {
        ShellState { width: fallback_size.0, height: fallback_size.1, exit: false }
    }

    /// The compositor configured the surface with an optional width and height (absent
    /// means the client chooses). Each given side becomes the configured size; the
    /// returned size, with 0 for an absent side, is what the window adapter is told.
    pub fn configure(&mut self, new_width: Option<u32>, new_height: Option<u32>) -> (size: (
        u32,
        u32,
    ))
        ensures
            size == (configured_side(new_width), configured_side(new_height)),
            *final(self) == old(self).after_configure(new_width, new_height),
    {
        let width: u32 = match new_width {
            Some(w) => w,
            None => 0,
        };
        let height: u32 = match new_height {
            Some(h) => h,
            None => 0,
        };
        if width > 0 {
            self.width = width;
        }
        if height > 0 {
            self.height = height;
        }
        (width, height)
    }

    /// The compositor asked to close the window, or the application asked the event
    /// loop to quit: the loop stops.
    pub fn request_exit(&mut self)
        ensures
            *final(self) == (ShellState { exit: true, ..*old(self) }),
    {
        self.exit = true;
    }

    /// Whether the event loop dispatches again.
    pub fn keeps_running(&self) -> (b: bool)
        ensures
            b == !self.exit,
    {
        !self.exit
    }
}

/// Once asked to exit, the event loop stays stopped: configures do not restart it.
pub proof fn law_exit_is_final(s: ShellState, width: Option<u32>, height: Option<u32>)
    requires
        s.exit,
    ensures
        s.after_configure(width, height).exit,
{
}

/// Configures are idempotent, and one that leaves both sides to the client keeps the
/// configured size: the size only ever changes to a size the compositor gave.
pub proof fn law_configure_keeps_given_sizes(s: ShellState, width: Option<u32>, height: Option<u32>)
    ensures
        s.after_configure(width, height).after_configure(width, height) == s.after_configure(
            width,
            height,
        ),
        s.after_configure(None, None) == s,
        s.after_configure(width, height).width == s.width || s.after_configure(width, height).width
            == configured_side(width),
        s.after_configure(width, height).height == s.height || s.after_configure(
            width,
            height,
        ).height == configured_side(height),
{
}

/// A configure takes every side the compositor gives (non-zero) and keeps every side it
/// leaves open (absent or zero), independently for width and height.
pub proof fn law_configure_takes_given_sides(s: ShellState, width: Option<u32>, height: Option<u32>)
    ensures
        forall|w: u32| width == Some(w) && w > 0 ==> s.after_configure(width, height).width == w,
        forall|h: u32|
            height == Some(h) && h > 0 ==> s.after_configure(width, height).height == h,
        (width is None || width == Some(0u32)) ==> s.after_configure(width, height).width
            == s.width,
        (height is None || height == Some(0u32)) ==> s.after_configure(width, height).height
            == s.height,
        s.after_configure(width, height).exit == s.exit,
{
}

} // verus!
