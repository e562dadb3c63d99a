use slint_shell::keyboard::{key_text, named_key, KeyText, NamedKey};
use slint_shell::keysym;
use xkeysym::key;

#[test]
fn keysym_values_match_xkeysym() {
    let pairs: [(u32, u32); 67] = [
        (keysym::BACKSPACE, key::BackSpace),
        (keysym::TAB, key::Tab),
        (keysym::RETURN, key::Return),
        (keysym::PAUSE, key::Pause),
        (keysym::SCROLL_LOCK, key::Scroll_Lock),
        (keysym::SYS_REQ, key::Sys_Req),
        (keysym::ESCAPE, key::Escape),
        (keysym::DELETE, key::Delete),
        (keysym::HOME, key::Home),
        (keysym::LEFT, key::Left),
        (keysym::UP, key::Up),
        (keysym::RIGHT, key::Right),
        (keysym::DOWN, key::Down),
        (keysym::PAGE_UP, key::Page_Up),
        (keysym::PAGE_DOWN, key::Page_Down),
        (keysym::END, key::End),
        (keysym::INSERT, key::Insert),
        (keysym::MENU, key::Menu),
        (keysym::MODE_SWITCH, key::Mode_switch),
        (keysym::KP_SPACE, key::KP_Space),
        (keysym::KP_ENTER, key::KP_Enter),
        (keysym::KP_HOME, key::KP_Home),
        (keysym::KP_LEFT, key::KP_Left),
        (keysym::KP_UP, key::KP_Up),
        (keysym::KP_RIGHT, key::KP_Right),
        (keysym::KP_DOWN, key::KP_Down),
        (keysym::KP_PAGE_UP, key::KP_Page_Up),
        (keysym::KP_PAGE_DOWN, key::KP_Page_Down),
        (keysym::KP_END, key::KP_End),
        (keysym::KP_INSERT, key::KP_Insert),
        (keysym::KP_DELETE, key::KP_Delete),
        (keysym::F1, key::F1),
        (keysym::F2, key::F2),
        (keysym::F3, key::F3),
        (keysym::F4, key::F4),
        (keysym::F5, key::F5),
        (keysym::F6, key::F6),
        (keysym::F7, key::F7),
        (keysym::F8, key::F8),
        (keysym::F9, key::F9),
        (keysym::F10, key::F10),
        (keysym::F11, key::F11),
        (keysym::F12, key::F12),
        (keysym::F13, key::F13),
        (keysym::F14, key::F14),
        (keysym::F15, key::F15),
        (keysym::F16, key::F16),
        (keysym::F17, key::F17),
        (keysym::F18, key::F18),
        (keysym::F19, key::F19),
        (keysym::F20, key::F20),
        (keysym::F21, key::F21),
        (keysym::F22, key::F22),
        (keysym::F23, key::F23),
        (keysym::F24, key::F24),
        (keysym::SHIFT_L, key::Shift_L),
        (keysym::SHIFT_R, key::Shift_R),
        (keysym::CONTROL_L, key::Control_L),
        (keysym::CONTROL_R, key::Control_R),
        (keysym::CAPS_LOCK, key::Caps_Lock),
        (keysym::META_L, key::Meta_L),
        (keysym::META_R, key::Meta_R),
        (keysym::ALT_L, key::Alt_L),
        (keysym::SUPER_L, key::Super_L),
        (keysym::SUPER_R, key::Super_R),
        (keysym::ISO_LEVEL3_SHIFT, key::ISO_Level3_Shift),
        (keysym::SPACE, key::space),
    ];
    for (ours, theirs) in pairs {
        assert_eq!(ours, theirs);
    }
}

#[test]
fn named_keys_and_keypad_aliases() {
    assert_eq!(named_key(xkeysym::key::BackSpace), Some(NamedKey::Backspace));
    assert_eq!(named_key(xkeysym::key::Return), Some(NamedKey::Return));
    assert_eq!(named_key(xkeysym::key::KP_Enter), Some(NamedKey::Return));
    assert_eq!(named_key(xkeysym::key::KP_Up), Some(NamedKey::UpArrow));
    assert_eq!(named_key(xkeysym::key::Super_L), Some(NamedKey::Meta));
    assert_eq!(named_key(xkeysym::key::Super_R), Some(NamedKey::MetaR));
    assert_eq!(named_key(xkeysym::key::ISO_Level3_Shift), Some(NamedKey::AltGr));
    assert_eq!(named_key(xkeysym::key::Mode_switch), Some(NamedKey::AltGr));
    assert_eq!(named_key(xkeysym::key::F24), Some(NamedKey::F24));
    assert_eq!(named_key(xkeysym::key::space), Some(NamedKey::Space));
}

#[test]
fn unnamed_keysyms() {
    assert_eq!(named_key(xkeysym::key::a), None);
    assert_eq!(named_key(xkeysym::key::F25), None);
    assert_eq!(named_key(xkeysym::key::Alt_R), None);
    assert_eq!(named_key(0), None);
}

#[test]
fn named_key_wins_over_text() {
    assert_eq!(key_text(xkeysym::key::Tab, Some("\t")), Some(KeyText::Named(NamedKey::Tab)));
    assert_eq!(key_text(xkeysym::key::space, Some(" ")), Some(KeyText::Named(NamedKey::Space)));
}

#[test]
fn text_is_used_when_not_empty() {
    assert_eq!(key_text(xkeysym::key::a, Some("a")), Some(KeyText::Text("a".to_string())));
    assert_eq!(key_text(xkeysym::key::eacute, Some("é")), Some(KeyText::Text("é".to_string())));
    assert_eq!(key_text(xkeysym::key::a, Some("")), None);
    assert_eq!(key_text(xkeysym::key::a, None), None);
}
