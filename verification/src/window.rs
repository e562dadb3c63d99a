//! Redraw scheduling and size tracking of the single surface a Slint window draws to.
//!
//! A frame is drawn only when Slint asked for one, and only when the compositor is not
//! still busy with the previous one: each presented or re-committed frame requests a
//! `wl_surface.frame` callback, and the next frame waits for that callback. The
//! methods here decide; the caller does the Wayland and renderer work they ask for.
use vstd::prelude::*;

verus! {

/// What the renderer did with a frame.
#[derive(Clone, Copy, Debug, PartialEq, Eq, Structural)]
pub enum RenderOutcome {
    /// Drawn and committed; a frame callback was requested.
    Presented,
    /// Nothing could be drawn yet (no area, or no free buffer).
    Skipped,
    /// The renderer reported an error.
    Failed,
}

/// The abstract state of a window surface.
#[derive(Clone, Copy, Debug, PartialEq, Eq, Structural)]
pub struct WindowView {
    /// Current size in physical pixels.
    pub width: u32,
    pub height: u32,
    /// Logical size used for a side the compositor leaves open.
    pub fallback_width: u32,
    pub fallback_height: u32,
    /// Slint asked for a frame that has not been drawn yet.
    pub needs_redraw: bool,
    /// A frame callback from the compositor is still to come.
    pub frame_pending: bool,
}

impl WindowView {
    /// A redraw that is asked for is never forgotten: some frame callback is still to
    /// come, and it will draw it.
    pub open spec fn wf(self) -> bool {
        self.needs_redraw ==> self.frame_pending
    }

    /// After Slint asks for a redraw.
    pub open spec fn after_request(self) -> WindowView {
        WindowView { needs_redraw: true, frame_pending: true, ..self }
    }

    /// Whether a redraw request must re-commit the surface to get a frame callback.
    pub open spec fn request_defers(self) -> bool {
        !self.frame_pending
    }

    /// After the compositor's frame callback, the asked-for frame (if any) being taken.
    pub open spec fn after_frame_done(self) -> WindowView {
        WindowView { needs_redraw: false, frame_pending: false, ..self }
    }

    /// After a frame was drawn with the given outcome.
    pub open spec fn after_render(self, outcome: RenderOutcome) -> WindowView {
        WindowView {
            needs_redraw: self.needs_redraw || outcome != RenderOutcome::Presented,
            frame_pending: true,
            ..self
        }
    }
}

/// The logical size to use for a configured size: each side the compositor left at 0
/// takes the fallback.
pub open spec fn logical_size_for(configured: (u32, u32), fallback: (u32, u32)) -> (u32, u32) {
    (
        if configured.0 > 0 {
            configured.0
        } else {
            fallback.0
        },
        if configured.1 > 0 {
            configured.1
        } else {
            fallback.1
        },
    )
}

/// Redraw flags and size of the window surface.
pub struct WindowState {
    width: u32,
    height: u32,
    fallback_width: u32,
    fallback_height: u32,
    needs_redraw: bool,
    frame_pending: bool,
}

impl View for WindowState {
    type V = WindowView;

    closed spec fn view(&self) -> WindowView {
        WindowView {
            width: self.width,
            height: self.height,
            fallback_width: self.fallback_width,
            fallback_height: self.fallback_height,
            needs_redraw: self.needs_redraw,
            frame_pending: self.frame_pending,
        }
    }
}

impl WindowState {
    /// A redraw that was asked for has a frame callback on its way.
    #[verifier::type_invariant]
    closed spec fn inv(&self) -> bool {
        self.needs_redraw ==> self.frame_pending
    }

    /// A surface of the given physical size, with nothing to draw and no frame pending.
    pub fn new(initial_size: (u32, u32), fallback_size: (u32, u32)) -> (s: WindowState)
        ensures
            s@ == (WindowView {
                width: initial_size.0,
                height: initial_size.1,
                fallback_width: fallback_size.0,
                fallback_height: fallback_size.1,
                needs_redraw: false,
                frame_pending: false,
            }),
            s@.wf(),
    {
        WindowState {
            width: initial_size.0,
            height: initial_size.1,
            fallback_width: fallback_size.0,
            fallback_height: fallback_size.1,
            needs_redraw: false,
            frame_pending: false,
        }
    }

    /// The current size in physical pixels.
    pub fn size(&self) -> (s: (u32, u32))
        ensures
            s == (self@.width, self@.height),
    {
        (self.width, self.height)
    }

    /// Whether Slint asked for a frame that has not been drawn yet.
    pub fn needs_redraw(&self) -> (b: bool)
        ensures
            b == self@.needs_redraw,
            self@.wf(),
    {
        proof {
            use_type_invariant(self);
        }
        self.needs_redraw
    }

    /// Whether a frame callback is still to come.
    pub fn frame_pending(&self) -> (b: bool)
        ensures
            b == self@.frame_pending,
            self@.wf(),
    {
        proof {
            use_type_invariant(self);
        }
        self.frame_pending
    }

    /// The logical size for a size the compositor configured.
    pub fn logical_size(&self, configured: (u32, u32)) -> (s: (u32, u32))
        ensures
            s == logical_size_for(configured, (self@.fallback_width, self@.fallback_height)),
    {
        (
            if configured.0 > 0 {
                configured.0
            } else {
                self.fallback_width
            },
            if configured.1 > 0 {
                configured.1
            } else {
                self.fallback_height
            },
        )
    }

    /// Takes a new physical size. Returns whether it differs from the current one, in
    /// which case the renderer must be resized and Slint told of the new size.
    pub fn update_size(&mut self, physical: (u32, u32)) -> (changed: bool)
        ensures
            changed == (physical != (old(self)@.width, old(self)@.height)),
            final(self)@ == (WindowView {
                width: physical.0,
                height: physical.1,
                ..old(self)@
            }),
            final(self)@.wf(),
    {
        proof {
            use_type_invariant(&*self);
        }
        if physical.0 != self.width || physical.1 != self.height {
            self.width = physical.0;
            self.height = physical.1;
            true
        } else {
            false
        }
    }

    /// Takes the outcome of a frame. Returns whether to re-commit the surface with a
    /// frame callback so that the frame is tried again when the callback comes.
    pub fn finish_render(&mut self, outcome: RenderOutcome) -> (defer: bool)
        ensures
            defer == (outcome != RenderOutcome::Presented),
            final(self)@ == old(self)@.after_render(outcome),
            final(self)@.wf(),
    {
        proof {
            use_type_invariant(&*self);
        }
        self.frame_pending = true;
        match outcome {
            RenderOutcome::Presented => false,
            _ => {
                self.needs_redraw = true;
                true
            },
        }
    }

    /// The compositor's frame callback came. Returns whether to draw now.
    pub fn frame_done(&mut self) -> (render: bool)
        ensures
            render == old(self)@.needs_redraw,
            final(self)@ == old(self)@.after_frame_done(),
            final(self)@.wf(),
    {
        proof {
            use_type_invariant(&*self);
        }
        let render = self.needs_redraw;
        self.needs_redraw = false;
        self.frame_pending = false;
        render
    }

    /// Slint asks for a redraw. Returns whether to re-commit the surface with a frame
    /// callback now, which is the case only when no callback is pending yet.
    pub fn request_redraw(&mut self) -> (defer: bool)
        ensures
            defer == old(self)@.request_defers(),
            final(self)@ == old(self)@.after_request(),
            final(self)@.wf(),
    {
        proof {
            use_type_invariant(&*self);
        }
        let defer = !self.frame_pending;
        self.frame_pending = true;
        self.needs_redraw = true;
        defer
    }

    /// The window is shown or hidden. Returns whether to draw now: a shown window is
    /// drawn at once, a hidden one keeps its state (its buffer is detached).
    pub fn set_visible(&mut self, visible: bool) -> (render: bool)
        ensures
            render == visible,
            final(self)@ == (if visible {
                WindowView { needs_redraw: false, ..old(self)@ }
            } else {
                old(self)@
            }),
            final(self)@.wf(),
    {
        proof {
            use_type_invariant(&*self);
        }
        if visible {
            // The redraw asked by showing the window is taken at once.
            self.needs_redraw = false;
            true
        } else {
            false
        }
    }

    /// A regular window is resized by the application. Returns whether the size
    /// changed, in which case the renderer must be resized and the window drawn now.
    pub fn resize_window(&mut self, physical: (u32, u32)) -> (render: bool)
        ensures
            render == (physical != (old(self)@.width, old(self)@.height)),
            final(self)@ == (if render {
                WindowView {
                    width: physical.0,
                    height: physical.1,
                    needs_redraw: false,
                    ..old(self)@
                }
            } else {
                old(self)@
            }),
            final(self)@.wf(),
    {
        proof {
            use_type_invariant(&*self);
        }
        if self.update_size(physical) {
            // The redraw asked by the new size is taken at once.
            self.needs_redraw = false;
            true
        } else {
            false
        }
    }
}

/// A redraw request is never lost: after it a frame callback is pending, and that
/// callback draws the frame.
pub proof fn law_request_is_drawn_at_next_callback(v: WindowView)
    ensures
        v.after_request().wf(),
        v.after_request().frame_pending,
        v.after_request().needs_redraw,
{
}

/// Requests made while a frame callback is pending add no further callbacks: of any
/// number of requests in a row only the first may re-commit the surface.
pub proof fn law_requests_coalesce(v: WindowView)
    ensures
        !v.after_request().request_defers(),
        v.after_request().after_request() == v.after_request(),
{
}

/// A frame that could not be presented is drawn again at the next callback, which is
/// on its way; a presented frame leaves nothing to draw when nothing else was asked.
pub proof fn law_unpresented_frame_is_retried(v: WindowView, outcome: RenderOutcome)
    requires
        !v.needs_redraw,
    ensures
        v.after_render(outcome).wf(),
        v.after_render(outcome).frame_pending,
        v.after_render(outcome).needs_redraw == (outcome != RenderOutcome::Presented),
{
}

/// A callback with nothing asked for draws nothing and leaves the surface idle: no
/// frame is pending until the next request.
pub proof fn law_idle_callback_settles(v: WindowView)
    requires
        !v.needs_redraw,
    ensures
        !v.after_frame_done().needs_redraw,
        !v.after_frame_done().frame_pending,
        v.after_frame_done().request_defers(),
{
}

/// The logical size never has a zero side when the fallback has none, and a side the
/// compositor sets is taken as it is.
pub proof fn law_logical_size_prefers_configured(configured: (u32, u32), fallback: (u32, u32))
    ensures
        configured.0 > 0 ==> logical_size_for(configured, fallback).0 == configured.0,
        configured.1 > 0 ==> logical_size_for(configured, fallback).1 == configured.1,
        fallback.0 > 0 ==> logical_size_for(configured, fallback).0 > 0,
        fallback.1 > 0 ==> logical_size_for(configured, fallback).1 > 0,
{
}

/// Drawing a frame never drops a redraw that was asked for: whatever the outcome, a
/// pending request is still pending afterwards, and an unpresented frame adds one.
/// So after a request and any frame, the next callback draws.
pub proof fn law_render_keeps_pending_request(v: WindowView, outcome: RenderOutcome)
    ensures
        v.needs_redraw ==> v.after_render(outcome).needs_redraw,
        outcome != RenderOutcome::Presented ==> v.after_render(outcome).needs_redraw,
        outcome == RenderOutcome::Presented && !v.needs_redraw ==> !v.after_render(
            outcome,
        ).needs_redraw,
        v.after_request().after_render(outcome).needs_redraw,
        v.after_render(outcome).frame_pending,
        v.after_render(outcome).width == v.width && v.after_render(outcome).height == v.height,
{
}

} // verus!
