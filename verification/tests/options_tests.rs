use slint_shell::{
    Anchor, KeyboardInteractivity, Layer, LayerShellOptions, Options, RendererKind,
    WindowDecorations, WindowOptions,
};

#[test]
fn layer_defaults() {
    let o = LayerShellOptions::default();
    assert_eq!(o.namespace, "slint-shell");
    assert_eq!(o.layer, Layer::Top);
    assert_eq!(o.anchor, Anchor::empty());
    assert_eq!(o.margin, (0, 0, 0, 0));
    assert_eq!(o.exclusive_zone, None);
    assert_eq!(o.keyboard_interactivity, KeyboardInteractivity::NoFocus);
    assert_eq!(o.size, (Some(256), Some(256)));
    assert_eq!(o.renderer, RendererKind::Software);
}

#[test]
fn window_defaults() {
    let o = WindowOptions::default();
    assert_eq!(o.title, "slint-shell window");
    assert_eq!(o.app_id, "slint-shell");
    assert_eq!(o.size, (Some(800), Some(600)));
    assert_eq!(o.decorations, WindowDecorations::ServerDefault);
    assert_eq!(o.renderer, RendererKind::Software);
}

#[test]
fn layer_fallback_and_requested_sizes() {
    let bar = LayerShellOptions { size: (None, Some(36)), ..Default::default() };
    assert_eq!(bar.fallback_size(), (256, 36));
    assert_eq!(bar.requested_size(), (0, 36));
    let open = LayerShellOptions { size: (None, None), ..Default::default() };
    assert_eq!(open.fallback_size(), (256, 32));
    assert_eq!(open.requested_size(), (0, 0));
    assert_eq!(LayerShellOptions::default().fallback_size(), (256, 256));
}

#[test]
fn window_fallback_sizes() {
    let w = WindowOptions { size: (Some(400), None), ..Default::default() };
    assert_eq!(w.fallback_size(), (400, 600));
    let w = WindowOptions { size: (None, None), ..Default::default() };
    assert_eq!(w.fallback_size(), (800, 600));
}

#[test]
fn options_dispatch_renderer_and_fallback() {
    let layer = Options::Layer(LayerShellOptions {
        renderer: RendererKind::Skia(slint_shell::Graphics::Wgpu),
        size: (Some(10), None),
        ..Default::default()
    });
    assert_eq!(layer.renderer(), RendererKind::Skia(slint_shell::Graphics::Wgpu));
    assert_eq!(layer.fallback_size(), (10, 32));
    let window = Options::Window(WindowOptions::default());
    assert_eq!(window.renderer(), RendererKind::Software);
    assert_eq!(window.fallback_size(), (800, 600));
}

#[test]
fn anchors_combine_as_bits() {
    let a = Anchor::top().union(Anchor::left()).union(Anchor::right());
    assert_eq!(a.bits, 1 | 4 | 8);
    assert!(a.contains(Anchor::left()));
    assert!(!a.contains(Anchor::bottom()));
    assert!(a.contains(Anchor::empty()));
    assert_eq!(Anchor::bottom().bits, 2);
}
