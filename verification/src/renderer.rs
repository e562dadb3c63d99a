//! Choice of the Slint renderer, by name or from the environment.
use vstd::prelude::*;

verus! {

/// Underlying graphics API for the renderers that are not the software one.
#[derive(Clone, Copy, Debug, PartialEq, Eq, Structural)]
pub enum Graphics {
    OpenGL,
    Wgpu,
}

impl Default for Graphics {
    fn default() -> (g: Self)
        ensures
            g == Graphics::OpenGL,
    {
        Graphics::OpenGL
    }
}

/// The Slint renderers a window can be drawn with.
#[derive(Clone, Copy, Debug, PartialEq, Eq, Structural)]
pub enum RendererKind {
    Software,
    Skia(Graphics),
    FemtoVG(Graphics),
}

impl Default for RendererKind {
    fn default() -> (k: Self)
        ensures
            k == RendererKind::Software,
    {
        RendererKind::Software
    }
}

/// Environment variable read by [`RendererKind::from_env`] to pick a renderer without a rebuild.
pub const RENDERER_ENV_VAR: &'static str = "SLINT_SHELL_RENDERER";

/// A character with ASCII `A`..=`Z` mapped to `a`..=`z`; every other character unchanged.
pub open spec fn ascii_lower(c: char) -> char {
    if 'A' <= c && c <= 'Z' {
        ((c as u32) + 32) as char
    } else {
        c
    }
}

/// A text with its ASCII upper-case letters made lower-case.
pub open spec fn ascii_lowercase(text: Seq<char>) -> Seq<char> {
    text.map_values(|c: char| ascii_lower(c))
}

/// The renderer that a lower-case name stands for.
pub open spec fn renderer_named(name: Seq<char>) -> Option<RendererKind> {
    if name == "software"@ || name == "sw"@ {
        Some(RendererKind::Software)
    } else if name == "skia"@ || name == "skia-opengl"@ {
        Some(RendererKind::Skia(Graphics::OpenGL))
    } else if name == "skia-wgpu"@ {
        Some(RendererKind::Skia(Graphics::Wgpu))
    } else if name == "femtovg"@ || name == "femtovg-opengl"@ {
        Some(RendererKind::FemtoVG(Graphics::OpenGL))
    } else if name == "femtovg-wgpu"@ {
        Some(RendererKind::FemtoVG(Graphics::Wgpu))
    } else {
        None
    }
}

/// The text of `format!("{:?}", s)` for a string `s`: the string quoted and escaped
/// the way Rust's `Debug` formatting of `str` does it.
pub uninterp spec fn debug_quoted(text: Seq<char>) -> Seq<char>;

/// The unknown-renderer error around an already quoted name.
pub open spec fn unknown_renderer_text(quoted: Seq<char>) -> Seq<char> {
    "unknown renderer "@ + quoted + ", expected software, skia, skia-wgpu, femtovg or femtovg-wgpu"@
}

/// The error reported for an unknown (lower-cased) renderer name.
pub open spec fn unknown_renderer_message(name: Seq<char>) -> Seq<char> {
    unknown_renderer_text(debug_quoted(name))
}

/// What parsing the renderer name `name` yields: the renderer named by its lower-case
/// form, or the unknown-renderer message about that lower-case form.
pub open spec fn parsed_as(name: Seq<char>, r: Result<RendererKind, String>) -> bool {
    match renderer_named(ascii_lowercase(name)) {
        Some(kind) => r == Ok::<RendererKind, String>(kind),
        None => r is Err && r->Err_0@ == unknown_renderer_message(ascii_lowercase(name)),
    }
}

/// `str::to_ascii_lowercase`: documented to map ASCII `A`..=`Z` to `a`..=`z` and to
/// leave every other character as it is.
#[verifier::external_body]
fn lowercase_ascii(text: &str) -> (lower: String)
    ensures
        lower@ == ascii_lowercase(text@),
{
    text.to_ascii_lowercase()
}

/// `format!("{:?}", text)`, the `Debug` rendering of a string. The escaping rules are
/// left unstated: the result is only named, as `debug_quoted` of the text.
#[verifier::external_body]
fn debug_quote(text: &str) -> (quoted: String)
    ensures
        quoted@ == debug_quoted(text@),
{
    format!("{:?}", text)
}

/// Whether a string holds exactly the characters of `expected`.
fn is_text(text: &String, expected: &str) -> (b: bool)
    ensures
        b == (text@ == expected@),
{
    let owned = expected.to_owned();
    *text == owned
}

/// The unknown-renderer error around a name already quoted for display.
pub fn unknown_renderer_text_for(quoted: &str) -> (message: String)
    ensures
        message@ == unknown_renderer_text(quoted@),
{
    let mut message = "unknown renderer ".to_owned();
    message.append(quoted);
    message.append(", expected software, skia, skia-wgpu, femtovg or femtovg-wgpu");
    message
}

/// The unknown-renderer error for a lower-case name.
fn unknown_renderer_error(name: &str) -> (message: String)
    ensures
        message@ == unknown_renderer_message(name@),
{
    let quoted = debug_quote(name);
    unknown_renderer_text_for(quoted.as_str())
}

impl RendererKind {
    /// Parses a renderer name, ignoring ASCII case: `software` or `sw`, `skia` or
    /// `skia-opengl`, `skia-wgpu`, `femtovg` or `femtovg-opengl`, `femtovg-wgpu`.
    pub fn from_name(name: &str) -> (r: Result<RendererKind, String>)
        ensures
            parsed_as(name@, r),
    {
        let lower = lowercase_ascii(name);
        if is_text(&lower, "software") || is_text(&lower, "sw") {
            Ok(RendererKind::Software)
        } else if is_text(&lower, "skia") || is_text(&lower, "skia-opengl") {
            Ok(RendererKind::Skia(Graphics::OpenGL))
        } else if is_text(&lower, "skia-wgpu") {
            Ok(RendererKind::Skia(Graphics::Wgpu))
        } else if is_text(&lower, "femtovg") || is_text(&lower, "femtovg-opengl") {
            Ok(RendererKind::FemtoVG(Graphics::OpenGL))
        } else if is_text(&lower, "femtovg-wgpu") {
            Ok(RendererKind::FemtoVG(Graphics::Wgpu))
        } else {
            Err(unknown_renderer_error(lower.as_str()))
        }
    }

    /// The renderer chosen by the value of [`RENDERER_ENV_VAR`]: the default renderer
    /// when the variable is unset (or not valid unicode), else the renderer it names.
    pub fn from_env(value: Option<&str>) -> (r: Result<RendererKind, String>)
        ensures
            match value {
                None => r == Ok::<RendererKind, String>(RendererKind::Software),
                Some(name) => parsed_as(name@, r),
            },
    {
        match value {
            Some(name) => RendererKind::from_name(name),
            None => Ok(RendererKind::default()),
        }
    }
}

/// Clamps a surface size to at least one pixel a side, as the GPU renderers need.
pub fn non_zero_size(width: u32, height: u32) -> (s: (u32, u32))
    ensures
        s.0 == (if width == 0 {
            1
        } else {
            width
        }),
        s.1 == (if height == 0 {
            1
        } else {
            height
        }),
        s.0 >= 1 && s.1 >= 1,
{
    (if width == 0 {
        1
    } else {
        width
    }, if height == 0 {
        1
    } else {
        height
    })
}

impl std::str::FromStr for RendererKind {
    type Err = String;

    /// Parses a renderer name exactly as [`RendererKind::from_name`] does.
    fn from_str(name: &str) -> (r: Result<RendererKind, String>)
        ensures
            parsed_as(name@, r),
    {
        RendererKind::from_name(name)
    }
}

/// Lower-casing twice is lower-casing once.
pub proof fn law_lowercase_is_idempotent(text: Seq<char>)
    ensures
        ascii_lowercase(ascii_lowercase(text)) == ascii_lowercase(text),
{
    assert forall|i: int| 0 <= i < text.len() implies #[trigger] ascii_lower(ascii_lower(text[i]))
        == ascii_lower(text[i]) by {
        let c = text[i];
        if 'A' <= c && c <= 'Z' {
            assert(((c as u32) + 32) as char as u32 == (c as u32) + 32);
        }
    }
    assert(ascii_lowercase(ascii_lowercase(text)) =~= ascii_lowercase(text));
}

/// Renderer names are read without regard to ASCII case: a name and its lower-case
/// form parse to the same result.
pub proof fn law_name_case_is_ignored(name: Seq<char>, r: Result<RendererKind, String>)
    ensures
        parsed_as(name, r) == parsed_as(ascii_lowercase(name), r),
{
    law_lowercase_is_idempotent(name);
}

/// A character with ASCII `a`..=`z` mapped to `A`..=`Z`; every other character unchanged.
pub open spec fn ascii_upper(c: char) -> char {
    if 'a' <= c && c <= 'z' {
        ((c as u32) - 32) as char
    } else {
        c
    }
}

/// A text with its ASCII lower-case letters made upper-case.
pub open spec fn ascii_uppercase(text: Seq<char>) -> Seq<char> {
    text.map_values(|c: char| ascii_upper(c))
}

/// A parse result, with the error text taken by its characters.
pub open spec fn result_view(r: Result<RendererKind, String>) -> Result<RendererKind, Seq<char>> {
    match r {
        Ok(kind) => Ok(kind),
        Err(message) => Err(message@),
    }
}

/// Upper-casing a text and then lower-casing it is lower-casing it.
pub proof fn law_lowercase_of_uppercase(text: Seq<char>)
    ensures
        ascii_lowercase(ascii_uppercase(text)) == ascii_lowercase(text),
{
    assert forall|i: int| 0 <= i < text.len() implies #[trigger] ascii_lower(ascii_upper(text[i]))
        == ascii_lower(text[i]) by {
        let c = text[i];
        if 'a' <= c && c <= 'z' {
            assert(((c as u32) - 32) as char as u32 == (c as u32) - 32);
        }
        if 'A' <= c && c <= 'Z' {
            assert(((c as u32) + 32) as char as u32 == (c as u32) + 32);
        }
    }
    assert(ascii_lowercase(ascii_uppercase(text)) =~= ascii_lowercase(text));
}

/// Any two names with the same lower-case form parse alike: the same renderer, or
/// errors with the same text.
pub proof fn law_same_lowercase_parses_alike(
    first: Seq<char>,
    second: Seq<char>,
    first_result: Result<RendererKind, String>,
    second_result: Result<RendererKind, String>,
)
    requires
        ascii_lowercase(first) == ascii_lowercase(second),
        parsed_as(first, first_result),
        parsed_as(second, second_result),
    ensures
        result_view(first_result) == result_view(second_result),
{
}

/// A name, its lower-case form and its upper-case form all parse alike.
pub proof fn law_name_case_forms_parse_alike(name: Seq<char>)
    ensures
        ascii_lowercase(ascii_lowercase(name)) == ascii_lowercase(name),
        ascii_lowercase(ascii_uppercase(name)) == ascii_lowercase(name),
        forall|r: Result<RendererKind, String>|
            #![trigger parsed_as(ascii_uppercase(name), r)]
            parsed_as(name, r) == parsed_as(ascii_uppercase(name), r),
        forall|r: Result<RendererKind, String>|
            #![trigger parsed_as(ascii_lowercase(name), r)]
            parsed_as(name, r) == parsed_as(ascii_lowercase(name), r),
{
    law_lowercase_is_idempotent(name);
    law_lowercase_of_uppercase(name);
}

/// A name is accepted exactly when its lower-case form is one of the eight documented
/// names; nothing is trimmed or otherwise normalised.
pub proof fn law_accepted_names(name: Seq<char>, r: Result<RendererKind, String>)
    requires
        parsed_as(name, r),
    ensures
        r is Ok <==> {
            let lower = ascii_lowercase(name);
            ||| lower == "software"@
            ||| lower == "sw"@
            ||| lower == "skia"@
            ||| lower == "skia-opengl"@
            ||| lower == "skia-wgpu"@
            ||| lower == "femtovg"@
            ||| lower == "femtovg-opengl"@
            ||| lower == "femtovg-wgpu"@
        },
{
}

/// The name under which each renderer is documented.
pub open spec fn canonical_name(kind: RendererKind) -> Seq<char> {
    match kind {
        RendererKind::Software => "software"@,
        RendererKind::Skia(Graphics::OpenGL) => "skia"@,
        RendererKind::Skia(Graphics::Wgpu) => "skia-wgpu"@,
        RendererKind::FemtoVG(Graphics::OpenGL) => "femtovg"@,
        RendererKind::FemtoVG(Graphics::Wgpu) => "femtovg-wgpu"@,
    }
}

/// Every renderer can be chosen by name: its documented name parses to it.
pub proof fn law_every_renderer_has_a_name(kind: RendererKind)
    ensures
        renderer_named(ascii_lowercase(canonical_name(kind))) == Some(kind),
{
    reveal_strlit("software");
    reveal_strlit("sw");
    reveal_strlit("skia");
    reveal_strlit("skia-opengl");
    reveal_strlit("skia-wgpu");
    reveal_strlit("femtovg");
    reveal_strlit("femtovg-opengl");
    reveal_strlit("femtovg-wgpu");
    let name = canonical_name(kind);
    assert(ascii_lowercase(name) =~= name);
    assert("software"@.len() == 8 && "sw"@.len() == 2 && "skia"@.len() == 4);
    assert("skia-opengl"@.len() == 11 && "skia-wgpu"@.len() == 9 && "femtovg"@.len() == 7);
    assert("femtovg-opengl"@.len() == 14 && "femtovg-wgpu"@.len() == 12);
}

} // verus!
