use dmnote_keys::commands::{bridge_target_window, JsLoadResponse, JsSetContentResponse};
use dmnote_keys::daemon::{
    after_write, run, Backend, HookReceive, HookStep, LoopAction, StartError, Transport, WindowMessage,
};
use dmnote_keys::event::{RawKeyEvent, Transition};
use dmnote_keys::raw_input::{decode_raw_input, from_raw_keyboard, payload_size_valid, RawInputPayload};

fn keyboard_buffer(header_size: usize, make: u16, flags: u16, vkey: u16) -> Vec<u8> {
    let mut b = vec![0u8; header_size + 16];
    b[0] = 1;
    b[header_size..header_size + 2].copy_from_slice(&make.to_le_bytes());
    b[header_size + 2..header_size + 4].copy_from_slice(&flags.to_le_bytes());
    b[header_size + 6..header_size + 8].copy_from_slice(&vkey.to_le_bytes());
    b
}

#[test]
fn raw_input_backend_selected_where_supported() {
    assert_eq!(run(true), Ok(Backend::RawInput));
    assert_eq!(run(false), Err(StartError::RawInputUnavailable));
}

#[test]
fn write_failure_policy_per_backend() {
    assert_eq!(after_write(Backend::Hook, true), LoopAction::Continue);
    assert_eq!(after_write(Backend::Hook, false), LoopAction::Fail);
    assert_eq!(after_write(Backend::RawInput, false), LoopAction::Continue);
}

#[test]
fn size_queries_checked() {
    assert!(payload_size_valid(0, 48, 48));
    assert!(!payload_size_valid(u32::MAX, 48, 48));
    assert!(!payload_size_valid(0, 0, 0));
    assert!(!payload_size_valid(0, 48, u32::MAX));
}

#[test]
fn keyboard_payload_decoded() {
    let b = keyboard_buffer(24, 0x1D, 0x02 | 0x01, 0x11);
    let expected = RawKeyEvent { vk_code: 0x11, scan_code: 0x1D, flags: 1, transition: Transition::Release, injected: false };
    assert_eq!(decode_raw_input(&b, 24), RawInputPayload::Keyboard(expected));
    assert_eq!(from_raw_keyboard(0x11, 0x1D, 0x03), expected);
}

#[test]
fn other_device_passed_on() {
    let mut b = keyboard_buffer(24, 0, 0, 0);
    b[0] = 0;
    assert_eq!(decode_raw_input(&b, 24), RawInputPayload::OtherDevice);
}

#[test]
fn short_payload_rejected() {
    let b = keyboard_buffer(24, 0x1E, 0, 0x41);
    assert_eq!(decode_raw_input(&b[..30].to_vec(), 24), RawInputPayload::Malformed);
    assert_eq!(decode_raw_input(&vec![1, 0], 24), RawInputPayload::Malformed);
}

#[test]
fn hook_loop_steps() {
    let t = Transport::connect(true);
    let ev = RawKeyEvent { vk_code: 0x41, scan_code: 0x1E, flags: 0, transition: Transition::Press, injected: false };
    match t.hook_step(HookReceive::Key(ev)) {
        HookStep::Deliver(d) => assert_eq!(d.line, "D:A\n"),
        _ => panic!("expected a record"),
    }
    assert!(matches!(t.hook_step(HookReceive::OtherInput), HookStep::Skip));
    assert!(matches!(t.hook_step(HookReceive::Closed), HookStep::Finish));
}

#[test]
fn window_loop_steps() {
    let t = Transport::connect(false);
    let b = keyboard_buffer(24, 54, 0, 0x10);
    let payload = decode_raw_input(&b, 24);
    let step = t.window_step(WindowMessage::Input { size_ok: true, payload });
    assert_eq!(step.deliver.unwrap().line, "D:RightShift\n");
    assert!(step.dispatch && !step.stop);
    let failed = t.window_step(WindowMessage::Input { size_ok: false, payload });
    assert!(failed.deliver.is_none() && !failed.dispatch);
    let other = t.window_step(WindowMessage::Input { size_ok: true, payload: RawInputPayload::OtherDevice });
    assert!(other.deliver.is_none() && other.dispatch);
    let quit = t.window_step(WindowMessage::Quit);
    assert!(quit.stop && quit.dispatch);
}

#[test]
fn script_load_responses() {
    let none = JsLoadResponse::from_outcome(None, None);
    assert!(!none.success && none.path.is_none());
    let ok = JsLoadResponse::from_outcome(Some("a.js".to_string()), Some(Ok("x()".to_string())));
    assert!(ok.success);
    assert_eq!(ok.content, Some("x()".to_string()));
    let err = JsLoadResponse::from_outcome(Some("a.js".to_string()), Some(Err("denied".to_string())));
    assert!(!err.success);
    assert_eq!(err.error, Some("denied".to_string()));
    assert_eq!(err.path, Some("a.js".to_string()));
    assert!(JsSetContentResponse::stored().success);
}

#[test]
fn bridge_targets_resolved() {
    assert_eq!(bridge_target_window(&"main".to_string()), Some("main"));
    assert_eq!(bridge_target_window(&"overlay".to_string()), Some("overlay"));
    assert_eq!(bridge_target_window(&"settings".to_string()), None);
}
