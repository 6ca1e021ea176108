use dmnote_keys::event::{HookKeyState, RawKeyEvent, Transition};
use dmnote_keys::labels::resolve_labels;
use dmnote_keys::normalize::{build_key_labels, disambiguate_vk, normalize, should_skip_keyboard_event};

fn key(vk: u32, scan: u32, flags: u32, transition: Transition, injected: bool) -> RawKeyEvent {
    RawKeyEvent { vk_code: vk, scan_code: scan, flags, transition, injected }
}

#[test]
fn shift_resolved_by_scan_code() {
    let left = key(0x10, 42, 0, Transition::Press, false);
    let right = key(0x10, 54, 0, Transition::Press, false);
    assert_eq!(build_key_labels(&left), vec!["LeftShift".to_string()]);
    assert_eq!(build_key_labels(&right), vec!["RightShift".to_string()]);
}

#[test]
fn shift_with_other_scan_code_stays_generic() {
    assert_eq!(disambiguate_vk(0x10, 7, false), 0x10);
    let ev = key(0x10, 7, 0, Transition::Press, false);
    assert_eq!(build_key_labels(&ev), vec!["Shift".to_string()]);
}

#[test]
fn control_resolved_by_extended_flag() {
    let right = key(0x11, 29, 1, Transition::Press, false);
    let left = key(0x11, 29, 0, Transition::Press, false);
    assert_eq!(build_key_labels(&right), vec!["RightControl".to_string()]);
    assert_eq!(build_key_labels(&left), vec!["LeftControl".to_string()]);
}

#[test]
fn alt_resolved_by_extended_flag() {
    let right = key(0x12, 56, 1, Transition::Press, false);
    let left = key(0x12, 56, 0, Transition::Press, false);
    assert_eq!(build_key_labels(&right), vec!["RightAlt".to_string()]);
    assert_eq!(build_key_labels(&left), vec!["LeftAlt".to_string()]);
}

#[test]
fn enter_and_numpad_enter_differ() {
    assert_eq!(resolve_labels(0x0D, false), vec!["Enter".to_string()]);
    assert_eq!(resolve_labels(0x0D, true), vec!["NumpadEnter".to_string()]);
}

#[test]
fn navigation_key_from_numpad_has_two_labels() {
    assert_eq!(resolve_labels(0x24, false), vec!["Numpad7".to_string(), "Home".to_string()]);
    assert_eq!(resolve_labels(0x24, true), vec!["Home".to_string()]);
    assert_eq!(resolve_labels(0x2E, false), vec!["Decimal".to_string(), "Delete".to_string()]);
}

#[test]
fn unknown_key_has_no_labels() {
    assert!(resolve_labels(0xFF, false).is_empty());
    let ev = key(0xFF, 0, 0, Transition::Press, false);
    assert!(normalize(&ev).is_none());
}

#[test]
fn injected_event_is_skipped() {
    let ev = key(0x41, 0x1E, 0, Transition::Press, true);
    assert!(should_skip_keyboard_event(&ev));
    assert!(normalize(&ev).is_none());
}

#[test]
fn other_transition_is_dropped() {
    let ev = key(0x41, 0x1E, 0, Transition::Other(0x105), false);
    assert!(normalize(&ev).is_none());
}

#[test]
fn dropped_event_is_dropped_twice() {
    let ev = key(0x41, 0x1E, 0, Transition::Press, true);
    assert!(normalize(&ev).is_none());
    assert!(normalize(&ev).is_none());
    let unknown = key(0xFF, 0, 0, Transition::Release, false);
    assert!(normalize(&unknown).is_none());
    assert!(normalize(&unknown).is_none());
}

#[test]
fn message_keeps_original_codes() {
    let ev = key(0x10, 54, 0, Transition::Release, false);
    let msg = normalize(&ev).unwrap();
    assert_eq!(msg.labels, vec!["RightShift".to_string()]);
    assert_eq!(msg.state, HookKeyState::Up);
    assert_eq!(msg.vk_code, 0x10);
    assert_eq!(msg.scan_code, 54);
    assert_eq!(msg.flags, 0);
}
