use vstd::prelude::*;

use crate::event::{
    is_extended, HookKeyState, HookMessage, RawKeyEvent, Transition, SCAN_LEFT_SHIFT,
    SCAN_RIGHT_SHIFT, VK_CONTROL, VK_LCONTROL, VK_LMENU, VK_LSHIFT, VK_MENU, VK_RCONTROL, VK_RMENU,
    VK_RSHIFT, VK_SHIFT,
};
use crate::labels::{key_labels, resolve_labels};

verus! {

/// The hand-specific virtual key of a modifier reported without a hand:
/// Shift by its scan code, Control and Alt by the extended bit.
/// Every other key is left as it is.
pub open spec fn disambiguated_vk(vk: u32, scan: u32, extended: bool) -> u32 {
    if vk == VK_SHIFT {
        if scan == SCAN_LEFT_SHIFT {
            VK_LSHIFT
        } else if scan == SCAN_RIGHT_SHIFT {
            VK_RSHIFT
        } else {
            VK_SHIFT
        }
    } else if vk == VK_CONTROL {
        if extended {
            VK_RCONTROL
        } else {
            VK_LCONTROL
        }
    } else if vk == VK_MENU {
        if extended {
            VK_RMENU
        } else {
            VK_LMENU
        }
    } else {
        vk
    }
}

/// The labels an event resolves to.
pub open spec fn event_labels(ev: RawKeyEvent) -> Seq<Seq<char>> {
    let ext = is_extended(ev.flags);
    key_labels(disambiguated_vk(ev.vk_code, ev.scan_code, ext), ext)
}

/// The message state of a transition, if it is a press or a release.
pub open spec fn state_of(t: Transition) -> Option<HookKeyState> {
    match t {
        Transition::Press => Some(HookKeyState::Down),
        Transition::Release => Some(HookKeyState::Up),
        Transition::Other(_) => None,
    }
}

/// Whether an event yields a message: it is physical input, it has labels
/// and it is a press or a release.
pub open spec fn yields_message(ev: RawKeyEvent) -> bool {
    !ev.injected && event_labels(ev).len() > 0 && state_of(ev.transition) is Some
}

/// Resolves the hand of Shift, Control and Alt.
pub fn disambiguate_vk(vk: u32, scan: u32, extended: bool) -> (r: u32)
    ensures
        r == disambiguated_vk(vk, scan, extended),
{
    if vk == VK_SHIFT {
        if scan == SCAN_LEFT_SHIFT {
            VK_LSHIFT
        } else if scan == SCAN_RIGHT_SHIFT {
            VK_RSHIFT
        } else {
            VK_SHIFT
        }
    } else if vk == VK_CONTROL {
        if extended {
            VK_RCONTROL
        } else {
            VK_LCONTROL
        }
    } else if vk == VK_MENU {
        if extended {
            VK_RMENU
        } else {
            VK_LMENU
        }
    } else {
        vk
    }
}

/// Whether an event is rejected before labelling: synthesised input is.
pub fn should_skip_keyboard_event(ev: &RawKeyEvent) -> (r: bool)
    ensures
        r == ev.injected,
{
    ev.injected
}

/// The labels of an event, after left/right disambiguation.
pub fn build_key_labels(ev: &RawKeyEvent) -> (r: Vec<String>)
    ensures
        r@.map_values(|l: String| l@) == event_labels(*ev),
{
    let ext = ev.extended();
    let vk = disambiguate_vk(ev.vk_code, ev.scan_code, ext);
    resolve_labels(vk, ext)
}

/// The message state of a transition.
pub fn key_state(t: Transition) -> (r: Option<HookKeyState>)
    ensures
        r == state_of(t),
{
    match t {
        Transition::Press => Some(HookKeyState::Down),
        Transition::Release => Some(HookKeyState::Up),
        Transition::Other(_) => None,
    }
}

/// Turns a raw event into at most one message. Injected events, events
/// without labels and transitions that are neither press nor release give
/// none; otherwise the message holds every label and the event's own codes.
pub fn normalize(ev: &RawKeyEvent) -> (r: Option<HookMessage>)
    ensures
        r is Some <==> yields_message(*ev),
        r matches Some(m) ==> {
            &&& m.wf()
            &&& m.label_seqs() == event_labels(*ev)
            &&& Some(m.state) == state_of(ev.transition)
            &&& m.vk_code == ev.vk_code
            &&& m.scan_code == ev.scan_code
            &&& m.flags == ev.flags
        },
{
    if should_skip_keyboard_event(ev) {
        return None;
    }
    let labels = build_key_labels(ev);
    if labels.len() == 0 {
        return None;
    }
    let state = match key_state(ev.transition) {
        Some(s) => s,
        None => return None,
    };
    Some(HookMessage { labels, state, vk_code: ev.vk_code, scan_code: ev.scan_code, flags: ev.flags })
}

} // verus!
