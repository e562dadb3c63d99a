use std::str::FromStr;

use slint_shell::renderer::non_zero_size;
use slint_shell::{Graphics, RendererKind, RENDERER_ENV_VAR};

#[test]
fn renderer_names_parse() {
    assert_eq!(RendererKind::from_name("software"), Ok(RendererKind::Software));
    assert_eq!(RendererKind::from_name("sw"), Ok(RendererKind::Software));
    assert_eq!(RendererKind::from_name("skia"), Ok(RendererKind::Skia(Graphics::OpenGL)));
    assert_eq!(RendererKind::from_name("skia-opengl"), Ok(RendererKind::Skia(Graphics::OpenGL)));
    assert_eq!(RendererKind::from_name("skia-wgpu"), Ok(RendererKind::Skia(Graphics::Wgpu)));
    assert_eq!(RendererKind::from_name("femtovg"), Ok(RendererKind::FemtoVG(Graphics::OpenGL)));
    assert_eq!(
        RendererKind::from_name("femtovg-opengl"),
        Ok(RendererKind::FemtoVG(Graphics::OpenGL))
    );
    assert_eq!(RendererKind::from_name("femtovg-wgpu"), Ok(RendererKind::FemtoVG(Graphics::Wgpu)));
}

#[test]
fn renderer_names_ignore_ascii_case() {
    assert_eq!(RendererKind::from_name("SoftWare"), Ok(RendererKind::Software));
    assert_eq!(RendererKind::from_name("SKIA-WGPU"), Ok(RendererKind::Skia(Graphics::Wgpu)));
    assert_eq!(RendererKind::from_name("FemtoVG"), Ok(RendererKind::FemtoVG(Graphics::OpenGL)));
}

#[test]
fn unknown_renderer_reports_lowercased_name() {
    assert_eq!(
        RendererKind::from_name("Vulkan"),
        Err("unknown renderer \"vulkan\", expected software, skia, skia-wgpu, femtovg or \
             femtovg-wgpu"
            .to_string())
    );
}

#[test]
fn unknown_renderer_quotes_with_escapes() {
    assert_eq!(
        RendererKind::from_name("a\"b"),
        Err("unknown renderer \"a\\\"b\", expected software, skia, skia-wgpu, femtovg or \
             femtovg-wgpu"
            .to_string())
    );
}

#[test]
fn empty_and_padded_names_are_unknown() {
    assert!(RendererKind::from_name("").is_err());
    assert!(RendererKind::from_name(" skia").is_err());
    assert!(RendererKind::from_name("skia-gl").is_err());
}

#[test]
fn from_str_matches_from_name() {
    assert_eq!(RendererKind::from_str("SW"), Ok(RendererKind::Software));
    assert_eq!("femtovg-wgpu".parse::<RendererKind>(), Ok(RendererKind::FemtoVG(Graphics::Wgpu)));
    assert!("x".parse::<RendererKind>().is_err());
}

#[test]
fn from_env_defaults_when_unset() {
    assert_eq!(RendererKind::from_env(None), Ok(RendererKind::Software));
    assert_eq!(RendererKind::from_env(Some("Skia")), Ok(RendererKind::Skia(Graphics::OpenGL)));
    assert!(RendererKind::from_env(Some("nope")).is_err());
}

#[test]
fn defaults_and_env_var_name() {
    assert_eq!(RendererKind::default(), RendererKind::Software);
    assert_eq!(Graphics::default(), Graphics::OpenGL);
    assert_eq!(RENDERER_ENV_VAR, "SLINT_SHELL_RENDERER");
}

#[test]
fn non_zero_size_clamps_to_one() {
    assert_eq!(non_zero_size(0, 0), (1, 1));
    assert_eq!(non_zero_size(0, 7), (1, 7));
    assert_eq!(non_zero_size(640, 0), (640, 1));
    assert_eq!(non_zero_size(640, 480), (640, 480));
}

#[test]
fn unknown_renderer_text_wraps_quoted_name() {
    assert_eq!(
        slint_shell::renderer::unknown_renderer_text_for("'x'"),
        "unknown renderer 'x', expected software, skia, skia-wgpu, femtovg or femtovg-wgpu"
    );
}

#[test]
fn upper_lower_and_mixed_case_parse_alike() {
    for name in ["software", "Sw", "skia-OpenGL", "femtovg-wgpu", "Vulkan", " skia"] {
        let parsed = RendererKind::from_name(name);
        assert_eq!(parsed, RendererKind::from_name(&name.to_ascii_lowercase()));
        assert_eq!(parsed, RendererKind::from_name(&name.to_ascii_uppercase()));
    }
}
