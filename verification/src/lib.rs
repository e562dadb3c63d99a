//! Verified core of a Wayland platform for Slint: layer-shell and xdg window
//! options, renderer selection, the software renderer's pixels and buffers,
//! key and pointer translation, and the redraw scheduling of a window surface.
pub mod keyboard;
pub mod keysym;
pub mod options;
pub mod pixel;
pub mod platform;
pub mod pointer;
pub mod renderer;
pub mod shm;
pub mod state;
pub mod window;

pub use options::{
    Anchor, KeyboardInteractivity, Layer, LayerShellOptions, Options, WindowDecorations,
    WindowOptions,
};
pub use renderer::{Graphics, RendererKind, RENDERER_ENV_VAR};
