use dmnote_keys::daemon::{channel_name, SinkKind, Transport};
use dmnote_keys::event::{HookKeyState, HookMessage, RawKeyEvent, Transition};
use dmnote_keys::wire::{encode_event, encode_message};

fn message(label: &str, state: HookKeyState) -> HookMessage {
    HookMessage { labels: vec![label.to_string()], state, vk_code: 0, scan_code: 0, flags: 0 }
}

#[test]
fn down_a_encodes_exactly() {
    assert_eq!(encode_message(&message("A", HookKeyState::Down)), "D:A\n");
}

#[test]
fn up_enter_encodes_exactly() {
    assert_eq!(encode_message(&message("Enter", HookKeyState::Up)), "U:Enter\n");
}

#[test]
fn only_first_label_is_sent() {
    let msg = HookMessage {
        labels: vec!["Numpad7".to_string(), "Home".to_string()],
        state: HookKeyState::Down,
        vk_code: 0x24,
        scan_code: 0x47,
        flags: 0,
    };
    assert_eq!(encode_message(&msg), "D:Numpad7\n");
}

#[test]
fn letter_press_reaches_sink() {
    let ev = RawKeyEvent { vk_code: 0x41, scan_code: 0x1E, flags: 0, transition: Transition::Press, injected: false };
    assert_eq!(encode_event(&ev), Some("D:A\n".to_string()));
}

#[test]
fn right_shift_press_reaches_sink() {
    let ev = RawKeyEvent { vk_code: 0x10, scan_code: 54, flags: 0, transition: Transition::Press, injected: false };
    assert_eq!(encode_event(&ev), Some("D:RightShift\n".to_string()));
}

#[test]
fn injected_event_writes_nothing() {
    let ev = RawKeyEvent { vk_code: 0x41, scan_code: 0x1E, flags: 0, transition: Transition::Press, injected: true };
    assert_eq!(encode_event(&ev), None);
    assert!(Transport::connect(true).frame(&ev).is_none());
    assert!(Transport::connect(false).frame(&ev).is_none());
}

#[test]
fn fallback_sink_gets_identical_bytes() {
    let pipe = Transport::connect(true);
    let stdout = Transport::connect(false);
    assert_eq!(pipe.sink, SinkKind::NamedChannel);
    assert_eq!(stdout.sink, SinkKind::Stdout);
    let evs = [
        RawKeyEvent { vk_code: 0x41, scan_code: 0x1E, flags: 0, transition: Transition::Press, injected: false },
        RawKeyEvent { vk_code: 0x0D, scan_code: 0x1C, flags: 1, transition: Transition::Release, injected: false },
        RawKeyEvent { vk_code: 0x11, scan_code: 29, flags: 1, transition: Transition::Press, injected: false },
    ];
    for ev in evs.iter() {
        let a = pipe.frame(ev).unwrap();
        let b = stdout.frame(ev).unwrap();
        assert_eq!(a.sink, SinkKind::NamedChannel);
        assert_eq!(b.sink, SinkKind::Stdout);
        assert_eq!(a.line.as_bytes(), b.line.as_bytes());
    }
    assert_eq!(stdout.frame(&evs[1]).unwrap().line, "U:NumpadEnter\n");
}

#[test]
fn channel_is_versioned() {
    assert_eq!(channel_name(), "dmnote_keys_v1");
}
