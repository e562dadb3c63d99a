//! Translation of Wayland pointer frames into Slint pointer events.
//!
//! Positions and scroll amounts are carried alongside by the caller; this module
//! decides which events reach the window and as what.
use vstd::prelude::*;

verus! {

/// The mouse buttons Slint distinguishes.
#[derive(Clone, Copy, Debug, PartialEq, Eq, Structural)]
pub enum PointerButton {
    Left,
    Right,
    Middle,
    Back,
    Forward,
}

/// The evdev code (linux/input-event-codes.h) of a button.
pub open spec fn button_code(button: PointerButton) -> u32 {
    match button {
        PointerButton::Left => 0x110,
        PointerButton::Right => 0x111,
        PointerButton::Middle => 0x112,
        PointerButton::Back => 0x113,
        PointerButton::Forward => 0x114,
    }
}

/// The button an evdev button code stands for; other codes are ignored.
pub fn button_from_code(code: u32) -> (b: Option<PointerButton>)
    ensures
        b == code_button(code),
        match b {
            Some(button) => button_code(button) == code,
            None => forall|button: PointerButton| button_code(button) != code,
        },
{
    match code {
        0x110 => Some(PointerButton::Left),
        0x111 => Some(PointerButton::Right),
        0x112 => Some(PointerButton::Middle),
        0x113 => Some(PointerButton::Back),
        0x114 => Some(PointerButton::Forward),
        _ => None,
    }
}

/// The kind of a Wayland pointer event, with the button code of presses and releases.
#[derive(Clone, Copy, Debug, PartialEq, Eq, Structural)]
pub enum PointerInput {
    Enter,
    Leave,
    Motion,
    Press(u32),
    Release(u32),
    Axis,
}

/// The Slint event a pointer event becomes.
#[derive(Clone, Copy, Debug, PartialEq, Eq, Structural)]
pub enum PointerAction {
    /// The pointer moved to the event's position.
    Moved,
    /// The pointer left the surface.
    Exited,
    Pressed(PointerButton),
    Released(PointerButton),
    /// A scroll by the event's axis amounts.
    Scrolled,
}

/// The button that a code names, as a spec value.
pub open spec fn code_button(code: u32) -> Option<PointerButton> {
    if code == 0x110 {
        Some(PointerButton::Left)
    } else if code == 0x111 {
        Some(PointerButton::Right)
    } else if code == 0x112 {
        Some(PointerButton::Middle)
    } else if code == 0x113 {
        Some(PointerButton::Back)
    } else if code == 0x114 {
        Some(PointerButton::Forward)
    } else {
        None
    }
}

/// The Slint event for a pointer event: entering and moving are moves, presses and
/// releases of unknown buttons are dropped.
pub open spec fn action_for(input: PointerInput) -> Option<PointerAction> {
    match input {
        PointerInput::Enter => Some(PointerAction::Moved),
        PointerInput::Leave => Some(PointerAction::Exited),
        PointerInput::Motion => Some(PointerAction::Moved),
        PointerInput::Press(code) => match code_button(code) {
            Some(button) => Some(PointerAction::Pressed(button)),
            None => None,
        },
        PointerInput::Release(code) => match code_button(code) {
            Some(button) => Some(PointerAction::Released(button)),
            None => None,
        },
        PointerInput::Axis => Some(PointerAction::Scrolled),
    }
}

/// The Slint event a pointer event becomes, if any.
pub fn pointer_action(input: PointerInput) -> (a: Option<PointerAction>)
    ensures
        a == action_for(input),
{
    match input {
        PointerInput::Enter => Some(PointerAction::Moved),
        PointerInput::Leave => Some(PointerAction::Exited),
        PointerInput::Motion => Some(PointerAction::Moved),
        PointerInput::Press(code) => match button_from_code(code) {
            Some(button) => Some(PointerAction::Pressed(button)),
            None => None,
        },
        PointerInput::Release(code) => match button_from_code(code) {
            Some(button) => Some(PointerAction::Released(button)),
            None => None,
        },
        PointerInput::Axis => Some(PointerAction::Scrolled),
    }
}

/// One event of a pointer frame: whether it happened on this window's surface, and its kind.
#[derive(Clone, Copy, Debug, PartialEq, Eq, Structural)]
pub struct FrameEvent {
    pub on_surface: bool,
    pub input: PointerInput,
}

/// The events of a frame that reach the window, in order, each with the index of the
/// Wayland event it comes from.
pub open spec fn frame_actions_of(events: Seq<FrameEvent>) -> Seq<(usize, PointerAction)>
    decreases events.len(),
{
    if events.len() == 0 {
        Seq::empty()
    } else {
        let rest = frame_actions_of(events.drop_last());
        let last = events.last();
        if last.on_surface && action_for(last.input) is Some {
            rest.push(((events.len() - 1) as usize, action_for(last.input)->Some_0))
        } else {
            rest
        }
    }
}

/// Translates a pointer frame: events on other surfaces and unknown buttons are skipped.
pub fn frame_actions(events: &Vec<FrameEvent>) -> (actions: Vec<(usize, PointerAction)>)
    ensures
        actions@ == frame_actions_of(events@),
{
    let mut actions: Vec<(usize, PointerAction)> = Vec::new();
    let mut i: usize = 0;
    while i < events.len()
        invariant
            i <= events@.len(),
            actions@ == frame_actions_of(events@.take(i as int)),
        decreases events@.len() - i,
    {
        let event = events[i];
        assert(events@.take(i as int + 1).drop_last() =~= events@.take(i as int));
        if event.on_surface {
            if let Some(action) = pointer_action(event.input) {
                actions.push((i, action));
            }
        }
        i = i + 1;
    }
    assert(events@.take(events@.len() as int) =~= events@);
    actions
}

/// Every event kept refers to an event of the frame on this window's surface, and
/// kept events stay in the order the compositor sent them.
pub proof fn law_frame_actions_come_from_surface_events(events: Seq<FrameEvent>)
    requires
        events.len() <= usize::MAX,
    ensures
        forall|k: int|
            0 <= k < frame_actions_of(events).len() ==> {
                let (index, action) = #[trigger] frame_actions_of(events)[k];
                &&& index < events.len()
                &&& events[index as int].on_surface
                &&& action_for(events[index as int].input) == Some(action)
            },
        forall|k: int, l: int|
            0 <= k < l < frame_actions_of(events).len() ==> (#[trigger] frame_actions_of(
                events,
            )[k]).0 < (#[trigger] frame_actions_of(events)[l]).0,
    decreases events.len(),
{
    if events.len() > 0 {
        let prefix = events.drop_last();
        law_frame_actions_come_from_surface_events(prefix);
        let rest = frame_actions_of(prefix);
        let all = frame_actions_of(events);
        let last = events.last();
        if last.on_surface && action_for(last.input) is Some {
            assert(all == rest.push(((events.len() - 1) as usize, action_for(last.input)->Some_0)));
            assert forall|k: int| 0 <= k < all.len() implies {
                let (index, action) = #[trigger] all[k];
                &&& index < events.len()
                &&& events[index as int].on_surface
                &&& action_for(events[index as int].input) == Some(action)
            } by {
                if k < rest.len() {
                    assert(all[k] == rest[k]);
                    assert(prefix[rest[k].0 as int] == events[rest[k].0 as int]);
                }
            }
            assert forall|k: int, l: int| 0 <= k < l < all.len() implies (#[trigger] all[k]).0 < (
            #[trigger] all[l]).0 by {
                assert(all[k] == rest[k]);
                if l < rest.len() {
                    assert(all[l] == rest[l]);
                }
            }
        } else {
            assert(all == rest);
            assert forall|k: int| 0 <= k < all.len() implies {
                let (index, action) = #[trigger] all[k];
                &&& index < events.len()
                &&& events[index as int].on_surface
                &&& action_for(events[index as int].input) == Some(action)
            } by {
                assert(prefix[rest[k].0 as int] == events[rest[k].0 as int]);
            }
        }
    }
}

/// Codes of distinct buttons are distinct, and exactly the five button codes are read.
pub proof fn law_button_codes_round_trip(button: PointerButton, code: u32)
    ensures
        code_button(button_code(button)) == Some(button),
        code_button(code) matches Some(b) ==> button_code(b) == code,
{
}

/// No event is lost: every event on this window's surface that has a Slint meaning
/// appears in the translated frame, at its index.
pub proof fn law_frame_actions_keep_every_surface_event(events: Seq<FrameEvent>, i: int)
    requires
        events.len() <= usize::MAX,
        0 <= i < events.len(),
        events[i].on_surface,
        action_for(events[i].input) is Some,
    ensures
        exists|k: int|
            0 <= k < frame_actions_of(events).len() && #[trigger] frame_actions_of(events)[k] == (
            i as usize,
            action_for(events[i].input)->Some_0,
        ),
    decreases events.len(),
{
    let prefix = events.drop_last();
    let rest = frame_actions_of(prefix);
    let all = frame_actions_of(events);
    if i == events.len() - 1 {
        assert(all == rest.push(((events.len() - 1) as usize, action_for(events.last().input)->Some_0)));
        assert(all[rest.len() as int] == (i as usize, action_for(events[i].input)->Some_0));
    } else {
        assert(prefix[i] == events[i]);
        law_frame_actions_keep_every_surface_event(prefix, i);
        let k = choose|k: int|
            0 <= k < rest.len() && #[trigger] rest[k] == (i as usize, action_for(prefix[i].input)->Some_0);
        let last = events.last();
        if last.on_surface && action_for(last.input) is Some {
            assert(all == rest.push(((events.len() - 1) as usize, action_for(last.input)->Some_0)));
        } else {
            assert(all == rest);
        }
        assert(all[k] == rest[k]);
    }
}

/// The evdev buttons (linux/input-event-codes.h: BTN_LEFT 0x110, BTN_RIGHT 0x111,
/// BTN_MIDDLE 0x112, BTN_SIDE 0x113, BTN_EXTRA 0x114) are pressed and released as the
/// Slint buttons Left, Right, Middle, Back and Forward; presses and releases of a code
/// are translated alike; moves, exits and scrolls are kept.
pub proof fn law_pointer_event_meanings(code: u32)
    ensures
        action_for(PointerInput::Press(0x110)) == Some(PointerAction::Pressed(PointerButton::Left)),
        action_for(PointerInput::Release(0x110)) == Some(PointerAction::Released(PointerButton::Left)),
        action_for(PointerInput::Press(0x111)) == Some(PointerAction::Pressed(PointerButton::Right)),
        action_for(PointerInput::Release(0x111)) == Some(PointerAction::Released(PointerButton::Right)),
        action_for(PointerInput::Press(0x112)) == Some(PointerAction::Pressed(PointerButton::Middle)),
        action_for(PointerInput::Release(0x112)) == Some(
            PointerAction::Released(PointerButton::Middle),
        ),
        action_for(PointerInput::Press(0x113)) == Some(PointerAction::Pressed(PointerButton::Back)),
        action_for(PointerInput::Release(0x113)) == Some(PointerAction::Released(PointerButton::Back)),
        action_for(PointerInput::Press(0x114)) == Some(PointerAction::Pressed(PointerButton::Forward)),
        action_for(PointerInput::Release(0x114)) == Some(
            PointerAction::Released(PointerButton::Forward),
        ),
        (code < 0x110 || code > 0x114) ==> action_for(PointerInput::Press(code)) is None
            && action_for(PointerInput::Release(code)) is None,
        action_for(PointerInput::Press(code)) is Some <==> action_for(PointerInput::Release(code)) is Some,
        action_for(PointerInput::Enter) == Some(PointerAction::Moved),
        action_for(PointerInput::Motion) == Some(PointerAction::Moved),
        action_for(PointerInput::Leave) == Some(PointerAction::Exited),
        action_for(PointerInput::Axis) == Some(PointerAction::Scrolled),
{
}

} // verus!
