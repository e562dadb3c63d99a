//! X11 keysym values (keysymdef.h) of the keys that have a name in Slint.
use vstd::prelude::*;

verus! {

pub const BACKSPACE: u32 = 0xff08;
pub const TAB: u32 = 0xff09;
pub const RETURN: u32 = 0xff0d;
pub const PAUSE: u32 = 0xff13;
pub const SCROLL_LOCK: u32 = 0xff14;
pub const SYS_REQ: u32 = 0xff15;
pub const ESCAPE: u32 = 0xff1b;
pub const DELETE: u32 = 0xffff;
pub const HOME: u32 = 0xff50;
pub const LEFT: u32 = 0xff51;
pub const UP: u32 = 0xff52;
pub const RIGHT: u32 = 0xff53;
pub const DOWN: u32 = 0xff54;
pub const PAGE_UP: u32 = 0xff55;
pub const PAGE_DOWN: u32 = 0xff56;
pub const END: u32 = 0xff57;
pub const INSERT: u32 = 0xff63;
pub const MENU: u32 = 0xff67;
pub const MODE_SWITCH: u32 = 0xff7e;
pub const KP_SPACE: u32 = 0xff80;
pub const KP_ENTER: u32 = 0xff8d;
pub const KP_HOME: u32 = 0xff95;
pub const KP_LEFT: u32 = 0xff96;
pub const KP_UP: u32 = 0xff97;
pub const KP_RIGHT: u32 = 0xff98;
pub const KP_DOWN: u32 = 0xff99;
pub const KP_PAGE_UP: u32 = 0xff9a;
pub const KP_PAGE_DOWN: u32 = 0xff9b;
pub const KP_END: u32 = 0xff9c;
pub const KP_INSERT: u32 = 0xff9e;
pub const KP_DELETE: u32 = 0xff9f;
pub const F1: u32 = 0xffbe;
pub const F2: u32 = 0xffbf;
pub const F3: u32 = 0xffc0;
pub const F4: u32 = 0xffc1;
pub const F5: u32 = 0xffc2;
pub const F6: u32 = 0xffc3;
pub const F7: u32 = 0xffc4;
pub const F8: u32 = 0xffc5;
pub const F9: u32 = 0xffc6;
pub const F10: u32 = 0xffc7;
pub const F11: u32 = 0xffc8;
pub const F12: u32 = 0xffc9;
pub const F13: u32 = 0xffca;
pub const F14: u32 = 0xffcb;
pub const F15: u32 = 0xffcc;
pub const F16: u32 = 0xffcd;
pub const F17: u32 = 0xffce;
pub const F18: u32 = 0xffcf;
pub const F19: u32 = 0xffd0;
pub const F20: u32 = 0xffd1;
pub const F21: u32 = 0xffd2;
pub const F22: u32 = 0xffd3;
pub const F23: u32 = 0xffd4;
pub const F24: u32 = 0xffd5;
pub const SHIFT_L: u32 = 0xffe1;
pub const SHIFT_R: u32 = 0xffe2;
pub const CONTROL_L: u32 = 0xffe3;
pub const CONTROL_R: u32 = 0xffe4;
pub const CAPS_LOCK: u32 = 0xffe5;
pub const META_L: u32 = 0xffe7;
pub const META_R: u32 = 0xffe8;
pub const ALT_L: u32 = 0xffe9;
pub const SUPER_L: u32 = 0xffeb;
pub const SUPER_R: u32 = 0xffec;
pub const ISO_LEVEL3_SHIFT: u32 = 0xfe03;
pub const SPACE: u32 = 0x20;

} // verus!
