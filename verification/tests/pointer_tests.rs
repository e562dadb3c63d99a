use slint_shell::pointer::{
    button_from_code, frame_actions, pointer_action, FrameEvent, PointerAction, PointerButton,
    PointerInput,
};

#[test]
fn evdev_button_codes() {
    assert_eq!(button_from_code(0x110), Some(PointerButton::Left));
    assert_eq!(button_from_code(0x111), Some(PointerButton::Right));
    assert_eq!(button_from_code(0x112), Some(PointerButton::Middle));
    assert_eq!(button_from_code(0x113), Some(PointerButton::Back));
    assert_eq!(button_from_code(0x114), Some(PointerButton::Forward));
    assert_eq!(button_from_code(0x115), None);
    assert_eq!(button_from_code(0x10f), None);
}

#[test]
fn pointer_kinds_map_to_actions() {
    assert_eq!(pointer_action(PointerInput::Enter), Some(PointerAction::Moved));
    assert_eq!(pointer_action(PointerInput::Motion), Some(PointerAction::Moved));
    assert_eq!(pointer_action(PointerInput::Leave), Some(PointerAction::Exited));
    assert_eq!(pointer_action(PointerInput::Axis), Some(PointerAction::Scrolled));
    assert_eq!(
        pointer_action(PointerInput::Press(0x110)),
        Some(PointerAction::Pressed(PointerButton::Left))
    );
    assert_eq!(
        pointer_action(PointerInput::Release(0x111)),
        Some(PointerAction::Released(PointerButton::Right))
    );
    assert_eq!(pointer_action(PointerInput::Press(0x200)), None);
}

#[test]
fn frame_skips_foreign_surfaces_and_unknown_buttons() {
    let events = vec![
        FrameEvent { on_surface: true, input: PointerInput::Enter },
        FrameEvent { on_surface: false, input: PointerInput::Motion },
        FrameEvent { on_surface: true, input: PointerInput::Press(0x2a0) },
        FrameEvent { on_surface: true, input: PointerInput::Press(0x112) },
        FrameEvent { on_surface: true, input: PointerInput::Leave },
    ];
    assert_eq!(
        frame_actions(&events),
        vec![
            (0, PointerAction::Moved),
            (3, PointerAction::Pressed(PointerButton::Middle)),
            (4, PointerAction::Exited),
        ]
    );
    assert_eq!(frame_actions(&Vec::new()), vec![]);
}
