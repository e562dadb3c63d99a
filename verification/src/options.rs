//! What the user asks for: a wlr layer-shell surface or a regular xdg window.
use vstd::prelude::*;

use crate::renderer::RendererKind;

verus! {

/// The z-depth of a layer surface.
#[derive(Clone, Copy, Debug, PartialEq, Eq, Structural)]
pub enum Layer {
    Background,
    Bottom,
    Top,
    Overlay,
}

/// Edges of the output a layer surface is anchored to, as the wlr-layer-shell bit set
/// (top 1, bottom 2, left 4, right 8).
#[derive(Clone, Copy, Debug, PartialEq, Eq, Structural)]
pub struct Anchor {
    pub bits: u32,
}

impl Anchor {
    /// No edge.
    pub fn empty() -> (a: Anchor)
        ensures
            a.bits == 0,
    {
        Anchor { bits: 0 }
    }

    /// The top edge.
    pub fn top() -> (a: Anchor)
        ensures
            a.bits == 1,
    {
        Anchor { bits: 1 }
    }

    /// The bottom edge.
    pub fn bottom() -> (a: Anchor)
        ensures
            a.bits == 2,
    {
        Anchor { bits: 2 }
    }

    /// The left edge.
    pub fn left() -> (a: Anchor)
        ensures
            a.bits == 4,
    {
        Anchor { bits: 4 }
    }

    /// The right edge.
    pub fn right() -> (a: Anchor)
        ensures
            a.bits == 8,
    {
        Anchor { bits: 8 }
    }

    /// The edges of both anchors.
    pub fn union(self, other: Anchor) -> (a: Anchor)
        ensures
            a.bits == self.bits | other.bits,
    {
        Anchor { bits: self.bits | other.bits }
    }

    /// Whether every edge of `other` is one of these edges.
    pub fn contains(self, other: Anchor) -> (b: bool)
        ensures
            b == (self.bits & other.bits == other.bits),
    {
        self.bits & other.bits == other.bits
    }
}

/// How a layer surface takes keyboard focus.
#[derive(Clone, Copy, Debug, PartialEq, Eq, Structural)]
pub enum KeyboardInteractivity {
    /// No keyboard focus is possible (the protocol's `none`).
    NoFocus,
    Exclusive,
    OnDemand,
}

/// Which side draws the decorations of an xdg window.
#[derive(Clone, Copy, Debug, PartialEq, Eq, Structural)]
pub enum WindowDecorations {
    ServerDefault,
    RequestServer,
    RequestClient,
    ClientOnly,
    /// Neither side draws decorations (the toolkit's `None`).
    NoDecorations,
}

/// Layer shell configuration options.
pub struct LayerShellOptions {
    pub namespace: &'static str,
    pub layer: Layer,
    pub anchor: Anchor,
    /// (top, right, bottom, left), in logical pixels.
    pub margin: (i32, i32, i32, i32),
    pub exclusive_zone: Option<i32>,
    pub keyboard_interactivity: KeyboardInteractivity,
    /// Desired size in logical pixels.
    /// None defaults to anchored sides / compositor preference.
    pub size: (Option<u32>, Option<u32>),
    pub renderer: RendererKind,
}

impl Default for LayerShellOptions {
    fn default() -> (o: Self)
        ensures
            o.namespace@ == "slint-shell"@,
            o.layer == Layer::Top,
            o.anchor.bits == 0,
            o.margin == (0i32, 0i32, 0i32, 0i32),
            o.exclusive_zone == None::<i32>,
            o.keyboard_interactivity == KeyboardInteractivity::NoFocus,
            o.size == (Some(256u32), Some(256u32)),
            o.renderer == RendererKind::Software,
    {
        LayerShellOptions {
            namespace: "slint-shell",
            layer: Layer::Top,
            anchor: Anchor::empty(),
            margin: (0, 0, 0, 0),
            exclusive_zone: None,
            keyboard_interactivity: KeyboardInteractivity::NoFocus,
            size: (Some(256), Some(256)),
            renderer: RendererKind::default(),
        }
    }
}

/// `value`, or `default` when there is none.
pub open spec fn or_default(value: Option<u32>, default: u32) -> u32 {
    match value {
        Some(v) => v,
        None => default,
    }
}

fn value_or(value: Option<u32>, default: u32) -> (r: u32)
    ensures
        r == or_default(value, default),
{
    match value {
        Some(v) => v,
        None => default,
    }
}

impl LayerShellOptions {
    /// The logical size used while the compositor has not given one: the desired
    /// size, with 256 wide and 32 high for the sides left open.
    pub fn fallback_size(&self) -> (s: (u32, u32))
        ensures
            s == (or_default(self.size.0, 256), or_default(self.size.1, 32)),
    {
        (value_or(self.size.0, 256), value_or(self.size.1, 32))
    }

    /// The size asked of the compositor: the desired size, 0 (compositor's choice)
    /// for the sides left open.
    pub fn requested_size(&self) -> (s: (u32, u32))
        ensures
            s == (or_default(self.size.0, 0), or_default(self.size.1, 0)),
    {
        (value_or(self.size.0, 0), value_or(self.size.1, 0))
    }
}

/// Regular xdg window configuration options.
pub struct WindowOptions {
    pub title: &'static str,
    pub app_id: &'static str,
    /// Desired size in logical pixels.
    /// None defaults to compositor preference.
    pub size: (Option<u32>, Option<u32>),
    pub decorations: WindowDecorations,
    pub renderer: RendererKind,
}

impl Default for WindowOptions {
    fn default() -> (o: Self)
        ensures
            o.title@ == "slint-shell window"@,
            o.app_id@ == "slint-shell"@,
            o.size == (Some(800u32), Some(600u32)),
            o.decorations == WindowDecorations::ServerDefault,
            o.renderer == RendererKind::Software,
    {
        WindowOptions {
            title: "slint-shell window",
            app_id: "slint-shell",
            size: (Some(800), Some(600)),
            decorations: WindowDecorations::ServerDefault,
            renderer: RendererKind::default(),
        }
    }
}

impl WindowOptions {
    /// The logical size used while the compositor has not given one: the desired
    /// size, with 800 by 600 for the sides left open.
    pub fn fallback_size(&self) -> (s: (u32, u32))
        ensures
            s == (or_default(self.size.0, 800), or_default(self.size.1, 600)),
    {
        (value_or(self.size.0, 800), value_or(self.size.1, 600))
    }
}

/// Wayland backend options (layer or window).
pub enum Options {
    Layer(LayerShellOptions),
    Window(WindowOptions),
}

impl Options {
    /// The renderer asked for.
    pub fn renderer(&self) -> (k: RendererKind)
        ensures
            k == match self {
                Options::Layer(o) => o.renderer,
                Options::Window(o) => o.renderer,
            },
    {
        match self {
            Options::Layer(options) => options.renderer,
            Options::Window(options) => options.renderer,
        }
    }

    /// The logical size used while the compositor has not given one.
    pub fn fallback_size(&self) -> (s: (u32, u32))
        ensures
            s == match self {
                Options::Layer(o) => (or_default(o.size.0, 256), or_default(o.size.1, 32)),
                Options::Window(o) => (or_default(o.size.0, 800), or_default(o.size.1, 600)),
            },
    {
        match self {
            Options::Layer(options) => options.fallback_size(),
            Options::Window(options) => options.fallback_size(),
        }
    }
}

} // verus!
