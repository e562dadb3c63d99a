//! Translation of keyboard events: a keysym becomes a named Slint key or text.
use vstd::prelude::*;

use crate::keysym;

verus! {

/// The keys that Slint knows by name.
#[derive(Clone, Copy, Debug, PartialEq, Eq, Structural)]
pub enum NamedKey {
    Backspace,
    Tab,
    Return,
    Escape,
    Delete,
    Shift,
    ShiftR,
    Control,
    ControlR,
    Alt,
    AltGr,
    CapsLock,
    Meta,
    MetaR,
    Space,
    UpArrow,
    DownArrow,
    LeftArrow,
    RightArrow,
    Insert,
    Home,
    End,
    PageUp,
    PageDown,
    ScrollLock,
    Pause,
    SysReq,
    Menu,
    F1,
    F2,
    F3,
    F4,
    F5,
    F6,
    F7,
    F8,
    F9,
    F10,
    F11,
    F12,
    F13,
    F14,
    F15,
    F16,
    F17,
    F18,
    F19,
    F20,
    F21,
    F22,
    F23,
    F24,
}

/// Whether the keysym `raw` is one of those that stand for `key`; keypad keys stand
/// for the same key as their main-block counterparts.
pub open spec fn keysym_denotes(raw: u32, key: NamedKey) -> bool {
    match key {
        NamedKey::Backspace => raw == keysym::BACKSPACE,
        NamedKey::Tab => raw == keysym::TAB,
        NamedKey::Return => raw == keysym::RETURN || raw == keysym::KP_ENTER,
        NamedKey::Escape => raw == keysym::ESCAPE,
        NamedKey::Delete => raw == keysym::DELETE || raw == keysym::KP_DELETE,
        NamedKey::Shift => raw == keysym::SHIFT_L,
        NamedKey::ShiftR => raw == keysym::SHIFT_R,
        NamedKey::Control => raw == keysym::CONTROL_L,
        NamedKey::ControlR => raw == keysym::CONTROL_R,
        NamedKey::Alt => raw == keysym::ALT_L,
        NamedKey::AltGr => raw == keysym::MODE_SWITCH || raw == keysym::ISO_LEVEL3_SHIFT,
        NamedKey::CapsLock => raw == keysym::CAPS_LOCK,
        NamedKey::Meta => raw == keysym::META_L || raw == keysym::SUPER_L,
        NamedKey::MetaR => raw == keysym::META_R || raw == keysym::SUPER_R,
        NamedKey::Space => raw == keysym::SPACE || raw == keysym::KP_SPACE,
        NamedKey::UpArrow => raw == keysym::UP || raw == keysym::KP_UP,
        NamedKey::DownArrow => raw == keysym::DOWN || raw == keysym::KP_DOWN,
        NamedKey::LeftArrow => raw == keysym::LEFT || raw == keysym::KP_LEFT,
        NamedKey::RightArrow => raw == keysym::RIGHT || raw == keysym::KP_RIGHT,
        NamedKey::Insert => raw == keysym::INSERT || raw == keysym::KP_INSERT,
        NamedKey::Home => raw == keysym::HOME || raw == keysym::KP_HOME,
        NamedKey::End => raw == keysym::END || raw == keysym::KP_END,
        NamedKey::PageUp => raw == keysym::PAGE_UP || raw == keysym::KP_PAGE_UP,
        NamedKey::PageDown => raw == keysym::PAGE_DOWN || raw == keysym::KP_PAGE_DOWN,
        NamedKey::ScrollLock => raw == keysym::SCROLL_LOCK,
        NamedKey::Pause => raw == keysym::PAUSE,
        NamedKey::SysReq => raw == keysym::SYS_REQ,
        NamedKey::Menu => raw == keysym::MENU,
        NamedKey::F1 => raw == keysym::F1,
        NamedKey::F2 => raw == keysym::F2,
        NamedKey::F3 => raw == keysym::F3,
        NamedKey::F4 => raw == keysym::F4,
        NamedKey::F5 => raw == keysym::F5,
        NamedKey::F6 => raw == keysym::F6,
        NamedKey::F7 => raw == keysym::F7,
        NamedKey::F8 => raw == keysym::F8,
        NamedKey::F9 => raw == keysym::F9,
        NamedKey::F10 => raw == keysym::F10,
        NamedKey::F11 => raw == keysym::F11,
        NamedKey::F12 => raw == keysym::F12,
        NamedKey::F13 => raw == keysym::F13,
        NamedKey::F14 => raw == keysym::F14,
        NamedKey::F15 => raw == keysym::F15,
        NamedKey::F16 => raw == keysym::F16,
        NamedKey::F17 => raw == keysym::F17,
        NamedKey::F18 => raw == keysym::F18,
        NamedKey::F19 => raw == keysym::F19,
        NamedKey::F20 => raw == keysym::F20,
        NamedKey::F21 => raw == keysym::F21,
        NamedKey::F22 => raw == keysym::F22,
        NamedKey::F23 => raw == keysym::F23,
        NamedKey::F24 => raw == keysym::F24,
    }
}

/// The named key a keysym stands for, if any.
pub fn named_key(raw: u32) -> (k: Option<NamedKey>)
    ensures
        match k {
            Some(key) => keysym_denotes(raw, key),
            None => forall|key: NamedKey| !keysym_denotes(raw, key),
        },
{
    match raw {
        keysym::BACKSPACE => Some(NamedKey::Backspace),
        keysym::TAB => Some(NamedKey::Tab),
        keysym::RETURN | keysym::KP_ENTER => Some(NamedKey::Return),
        keysym::ESCAPE => Some(NamedKey::Escape),
        keysym::DELETE | keysym::KP_DELETE => Some(NamedKey::Delete),
        keysym::SHIFT_L => Some(NamedKey::Shift),
        keysym::SHIFT_R => Some(NamedKey::ShiftR),
        keysym::CONTROL_L => Some(NamedKey::Control),
        keysym::CONTROL_R => Some(NamedKey::ControlR),
        keysym::ALT_L => Some(NamedKey::Alt),
        keysym::MODE_SWITCH | keysym::ISO_LEVEL3_SHIFT => Some(NamedKey::AltGr),
        keysym::CAPS_LOCK => Some(NamedKey::CapsLock),
        keysym::META_L | keysym::SUPER_L => Some(NamedKey::Meta),
        keysym::META_R | keysym::SUPER_R => Some(NamedKey::MetaR),
        keysym::SPACE | keysym::KP_SPACE => Some(NamedKey::Space),
        keysym::UP | keysym::KP_UP => Some(NamedKey::UpArrow),
        keysym::DOWN | keysym::KP_DOWN => Some(NamedKey::DownArrow),
        keysym::LEFT | keysym::KP_LEFT => Some(NamedKey::LeftArrow),
        keysym::RIGHT | keysym::KP_RIGHT => Some(NamedKey::RightArrow),
        keysym::INSERT | keysym::KP_INSERT => Some(NamedKey::Insert),
        keysym::HOME | keysym::KP_HOME => Some(NamedKey::Home),
        keysym::END | keysym::KP_END => Some(NamedKey::End),
        keysym::PAGE_UP | keysym::KP_PAGE_UP => Some(NamedKey::PageUp),
        keysym::PAGE_DOWN | keysym::KP_PAGE_DOWN => Some(NamedKey::PageDown),
        keysym::SCROLL_LOCK => Some(NamedKey::ScrollLock),
        keysym::PAUSE => Some(NamedKey::Pause),
        keysym::SYS_REQ => Some(NamedKey::SysReq),
        keysym::MENU => Some(NamedKey::Menu),
        keysym::F1 => Some(NamedKey::F1),
        keysym::F2 => Some(NamedKey::F2),
        keysym::F3 => Some(NamedKey::F3),
        keysym::F4 => Some(NamedKey::F4),
        keysym::F5 => Some(NamedKey::F5),
        keysym::F6 => Some(NamedKey::F6),
        keysym::F7 => Some(NamedKey::F7),
        keysym::F8 => Some(NamedKey::F8),
        keysym::F9 => Some(NamedKey::F9),
        keysym::F10 => Some(NamedKey::F10),
        keysym::F11 => Some(NamedKey::F11),
        keysym::F12 => Some(NamedKey::F12),
        keysym::F13 => Some(NamedKey::F13),
        keysym::F14 => Some(NamedKey::F14),
        keysym::F15 => Some(NamedKey::F15),
        keysym::F16 => Some(NamedKey::F16),
        keysym::F17 => Some(NamedKey::F17),
        keysym::F18 => Some(NamedKey::F18),
        keysym::F19 => Some(NamedKey::F19),
        keysym::F20 => Some(NamedKey::F20),
        keysym::F21 => Some(NamedKey::F21),
        keysym::F22 => Some(NamedKey::F22),
        keysym::F23 => Some(NamedKey::F23),
        keysym::F24 => Some(NamedKey::F24),
        _ => None,
    }
}

/// What a key event carries to the window: a named key, or the text it produced.
#[derive(Clone, Debug, PartialEq, Eq)]
pub enum KeyText {
    Named(NamedKey),
    Text(String),
}

/// The key or text of an event with keysym `raw` and composed text `utf8`: a named key
/// wins; otherwise the text, unless it is absent or empty.
pub fn key_text(raw: u32, utf8: Option<&str>) -> (t: Option<KeyText>)
    ensures
        match t {
            Some(KeyText::Named(key)) => keysym_denotes(raw, key),
            Some(KeyText::Text(text)) => (forall|key: NamedKey| !keysym_denotes(raw, key)) && (
            utf8 matches Some(u) && u@.len() > 0 && text@ == u@),
            None => (forall|key: NamedKey| !keysym_denotes(raw, key)) && (utf8 matches Some(u)
                ==> u@.len() == 0),
        },
{
    if let Some(key) = named_key(raw) {
        return Some(KeyText::Named(key));
    }
    match utf8 {
        Some(text) => {
            if text.is_empty() {
                None
            } else {
                Some(KeyText::Text(text.to_owned()))
            }
        },
        None => None,
    }
}

/// A keysym stands for at most one named key.
pub proof fn law_keysym_denotes_one_key(raw: u32, first: NamedKey, second: NamedKey)
    requires
        keysym_denotes(raw, first),
        keysym_denotes(raw, second),
    ensures
        first == second,
{
}

/// The X11 keysym table (keysymdef.h), written out by value: each listed keysym stands
/// for the listed Slint key, keypad keys for the same key as their main-block twins.
pub proof fn law_keysym_table()
    ensures
        keysym_denotes(0xff08u32, NamedKey::Backspace),
        keysym_denotes(0xff09u32, NamedKey::Tab),
        keysym_denotes(0xff0du32, NamedKey::Return),
        keysym_denotes(0xff8du32, NamedKey::Return),
        keysym_denotes(0xff1bu32, NamedKey::Escape),
        keysym_denotes(0xffffu32, NamedKey::Delete),
        keysym_denotes(0xff9fu32, NamedKey::Delete),
        keysym_denotes(0xffe1u32, NamedKey::Shift),
        keysym_denotes(0xffe2u32, NamedKey::ShiftR),
        keysym_denotes(0xffe3u32, NamedKey::Control),
        keysym_denotes(0xffe4u32, NamedKey::ControlR),
        keysym_denotes(0xffe9u32, NamedKey::Alt),
        keysym_denotes(0xff7eu32, NamedKey::AltGr),
        keysym_denotes(0xfe03u32, NamedKey::AltGr),
        keysym_denotes(0xffe5u32, NamedKey::CapsLock),
        keysym_denotes(0xffe7u32, NamedKey::Meta),
        keysym_denotes(0xffebu32, NamedKey::Meta),
        keysym_denotes(0xffe8u32, NamedKey::MetaR),
        keysym_denotes(0xffecu32, NamedKey::MetaR),
        keysym_denotes(0x20u32, NamedKey::Space),
        keysym_denotes(0xff80u32, NamedKey::Space),
        keysym_denotes(0xff52u32, NamedKey::UpArrow),
        keysym_denotes(0xff97u32, NamedKey::UpArrow),
        keysym_denotes(0xff54u32, NamedKey::DownArrow),
        keysym_denotes(0xff99u32, NamedKey::DownArrow),
        keysym_denotes(0xff51u32, NamedKey::LeftArrow),
        keysym_denotes(0xff96u32, NamedKey::LeftArrow),
        keysym_denotes(0xff53u32, NamedKey::RightArrow),
        keysym_denotes(0xff98u32, NamedKey::RightArrow),
        keysym_denotes(0xff63u32, NamedKey::Insert),
        keysym_denotes(0xff9eu32, NamedKey::Insert),
        keysym_denotes(0xff50u32, NamedKey::Home),
        keysym_denotes(0xff95u32, NamedKey::Home),
        keysym_denotes(0xff57u32, NamedKey::End),
        keysym_denotes(0xff9cu32, NamedKey::End),
        keysym_denotes(0xff55u32, NamedKey::PageUp),
        keysym_denotes(0xff9au32, NamedKey::PageUp),
        keysym_denotes(0xff56u32, NamedKey::PageDown),
        keysym_denotes(0xff9bu32, NamedKey::PageDown),
        keysym_denotes(0xff14u32, NamedKey::ScrollLock),
        keysym_denotes(0xff13u32, NamedKey::Pause),
        keysym_denotes(0xff15u32, NamedKey::SysReq),
        keysym_denotes(0xff67u32, NamedKey::Menu),
{
}

/// The cursor block of keysyms, Left, Up, Right, Down (0xff51..0xff54), and its keypad
/// twin (0xff96..0xff99) stand for the arrow keys in that order.
pub proof fn law_arrow_keys_in_keysym_order(i: int)
    requires
        0 <= i < 4,
    ensures
        keysym_denotes((0xff51 + i) as u32, seq![
            NamedKey::LeftArrow,
            NamedKey::UpArrow,
            NamedKey::RightArrow,
            NamedKey::DownArrow,
        ][i]),
        keysym_denotes((0xff96 + i) as u32, seq![
            NamedKey::LeftArrow,
            NamedKey::UpArrow,
            NamedKey::RightArrow,
            NamedKey::DownArrow,
        ][i]),
{
}

/// Function key `n` (1 to 24) is keysym `0xffbe + n - 1`.
pub proof fn law_function_keys_in_keysym_order(n: int)
    requires
        1 <= n <= 24,
    ensures
        keysym_denotes((0xffbe + n - 1) as u32, seq![
            NamedKey::F1, NamedKey::F2, NamedKey::F3, NamedKey::F4, NamedKey::F5, NamedKey::F6,
            NamedKey::F7, NamedKey::F8, NamedKey::F9, NamedKey::F10, NamedKey::F11, NamedKey::F12,
            NamedKey::F13, NamedKey::F14, NamedKey::F15, NamedKey::F16, NamedKey::F17, NamedKey::F18,
            NamedKey::F19, NamedKey::F20, NamedKey::F21, NamedKey::F22, NamedKey::F23, NamedKey::F24,
        ][n - 1]),
{
}

} // verus!
