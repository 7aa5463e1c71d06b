use vstd::prelude::*;

use crate::catalog::{Namespace, KMB, KMK, KSK, MOUSE_BUTTON_COUNT};
use crate::input::{Action, InputState};

verus! {

/// Raw key code of the `A` key; `B` through `Z` follow it.
pub const RAW_KEY_A: i32 = 65;

/// Raw key code of the `Z` key.
pub const RAW_KEY_Z: i32 = 90;

/// Raw key code of the `0` key of the digit row; `1` through `9` follow it.
pub const RAW_KEY_0: i32 = 48;

/// Raw key code of the `9` key of the digit row.
pub const RAW_KEY_9: i32 = 57;

/// Raw key code of keypad `0`; keypad `1` through `9` follow it.
pub const RAW_KEY_KP_0: i32 = 320;

/// Raw key code of keypad `9`.
pub const RAW_KEY_KP_9: i32 = 329;

/// Raw key code of the escape key, reserved for asking the application to quit.
pub const RAW_KEY_ESCAPE: i32 = 256;

pub const RAW_KEY_LEFT_SHIFT: i32 = 340;

pub const RAW_KEY_LEFT_CONTROL: i32 = 341;

pub const RAW_KEY_RIGHT_SHIFT: i32 = 344;

pub const RAW_KEY_RIGHT_CONTROL: i32 = 345;

/// One event of the window system, reduced to what the translator reads.
///
/// Key codes and button numbers follow the window system's own numbering.
#[derive(Clone, Copy, Debug, PartialEq, Eq, Structural)]
pub enum RawEvent {
    Key { code: i32, action: Action },
    MouseButton { button: i32, action: Action },
    /// Any event that is neither a key nor a mouse button.
    Other,
}

/// An event on a key of the catalog.
#[derive(Clone, Copy, Debug, PartialEq, Eq, Structural)]
pub struct KeyEvent {
    pub ns: Namespace,
    pub id: usize,
    pub action: Action,
}

/// The catalog key that raw key code `code` stands for, if any.
pub open spec fn key_target(code: int) -> Option<(Namespace, int)> {
    if RAW_KEY_A <= code <= RAW_KEY_Z {
        Some((Namespace::Standard, KSK::A.spec_id() + (code - RAW_KEY_A)))
    } else if RAW_KEY_0 <= code <= RAW_KEY_9 {
        Some((Namespace::Standard, KSK::ZERO.spec_id() + (code - RAW_KEY_0)))
    } else if RAW_KEY_KP_0 <= code <= RAW_KEY_KP_9 {
        Some((Namespace::Standard, KSK::NUMPAD_ZERO.spec_id() + (code - RAW_KEY_KP_0)))
    } else if code == RAW_KEY_LEFT_SHIFT {
        Some((Namespace::Modifier, KMK::LShift.spec_id() as int))
    } else if code == RAW_KEY_RIGHT_SHIFT {
        Some((Namespace::Modifier, KMK::RShift.spec_id() as int))
    } else if code == RAW_KEY_LEFT_CONTROL {
        Some((Namespace::Modifier, KMK::LControl.spec_id() as int))
    } else if code == RAW_KEY_RIGHT_CONTROL {
        Some((Namespace::Modifier, KMK::RControl.spec_id() as int))
    } else {
        None
    }
}

/// The catalog mouse button that raw button number `button` stands for, if any.
pub open spec fn button_target(button: int) -> Option<int> {
    if 0 <= button < MOUSE_BUTTON_COUNT {
        Some(KMB::M1.spec_id() + button)
    } else {
        None
    }
}

/// The catalog event that a raw event stands for; `None` for unrecognised input.
pub open spec fn spec_translate(raw: RawEvent) -> Option<KeyEvent> {
    match raw {
        RawEvent::Key { code, action } => match key_target(code as int) {
            Some(t) => Some(KeyEvent { ns: t.0, id: t.1 as usize, action }),
            None => None,
        },
        RawEvent::MouseButton { button, action } => match button_target(button as int) {
            Some(id) => Some(KeyEvent { ns: Namespace::Mouse, id: id as usize, action }),
            None => None,
        },
        RawEvent::Other => None,
    }
}

/// Whether a raw event is a press of the reserved quit key.
pub open spec fn spec_is_quit_request(raw: RawEvent) -> bool {
    raw == (RawEvent::Key { code: RAW_KEY_ESCAPE, action: Action::Press })
}

/// Maps a raw event to the catalog key and action it stands for.
///
/// Unrecognised input, the quit key included, gives `None`.
pub fn translate(raw: &RawEvent) -> (r: Option<KeyEvent>)
    ensures
        r == spec_translate(*raw),
        r matches Some(e) ==> e.id < e.ns.spec_key_count(),
{
    match *raw {
        RawEvent::Key { code, action } => {
            if RAW_KEY_A <= code && code <= RAW_KEY_Z {
                let id = KSK::A.id() as usize + (code - RAW_KEY_A) as usize;
                Some(KeyEvent { ns: Namespace::Standard, id, action })
            } else if RAW_KEY_0 <= code && code <= RAW_KEY_9 {
                let id = KSK::ZERO.id() as usize + (code - RAW_KEY_0) as usize;
                Some(KeyEvent { ns: Namespace::Standard, id, action })
            } else if RAW_KEY_KP_0 <= code && code <= RAW_KEY_KP_9 {
                let id = KSK::NUMPAD_ZERO.id() as usize + (code - RAW_KEY_KP_0) as usize;
                Some(KeyEvent { ns: Namespace::Standard, id, action })
            } else if code == RAW_KEY_LEFT_SHIFT {
                Some(KeyEvent { ns: Namespace::Modifier, id: KMK::LShift.id() as usize, action })
            } else if code == RAW_KEY_RIGHT_SHIFT {
                Some(KeyEvent { ns: Namespace::Modifier, id: KMK::RShift.id() as usize, action })
            } else if code == RAW_KEY_LEFT_CONTROL {
                Some(KeyEvent { ns: Namespace::Modifier, id: KMK::LControl.id() as usize, action })
            } else if code == RAW_KEY_RIGHT_CONTROL {
                Some(KeyEvent { ns: Namespace::Modifier, id: KMK::RControl.id() as usize, action })
            } else {
                None
            }
        },
        RawEvent::MouseButton { button, action } => {
            if 0 <= button && (button as usize) < MOUSE_BUTTON_COUNT {
                let id = KMB::M1.id() as usize + button as usize;
                Some(KeyEvent { ns: Namespace::Mouse, id, action })
            } else {
                None
            }
        },
        RawEvent::Other => None,
    }
}

/// Whether a raw event is a press of the reserved quit key.
pub fn is_quit_request(raw: &RawEvent) -> (r: bool)
    ensures
        r == spec_is_quit_request(*raw),
{
    match *raw {
        RawEvent::Key { code, action } => code == RAW_KEY_ESCAPE && matches!(action, Action::Press),
        _ => false,
    }
}

/// Processes one raw event: updates the key it stands for, if any, and reports
/// whether it asks the application to quit.
pub fn handle_event(state: &mut InputState, raw: &RawEvent) -> (quit: bool)
    requires
        old(state).wf(),
    ensures
        final(state).wf(),
        quit == spec_is_quit_request(*raw),
        final(state)@ == match spec_translate(*raw) {
            Some(e) => old(state)@.apply(e.ns, e.id as int, e.action),
            None => old(state)@,
        },
{
    match translate(raw) {
        Some(e) => state.apply(e.ns, e.id, e.action),
        None => {},
    }
    is_quit_request(raw)
}

} // verus!
