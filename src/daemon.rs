use vstd::prelude::*;

use crate::event::RawKeyEvent;
use crate::raw_input::RawInputPayload;
use crate::wire::{encode_event, event_output};
use crate::normalize::yields_message;

verus! {

/// Whether the daemon captures through raw input rather than a keyboard hook.
pub const USE_RAW_INPUT_BACKEND: bool = true;

/// The capture backend the daemon runs.
#[derive(Clone, Copy, Debug, PartialEq, Eq, Structural)]
pub enum Backend {
    /// A process-wide low-level keyboard hook.
    Hook,
    /// A hidden window registered for raw keyboard input.
    RawInput,
}

/// Why the daemon could not start capturing.
#[derive(Clone, Copy, Debug, PartialEq, Eq, Structural)]
pub enum StartError {
    /// The raw input backend was chosen on a platform that lacks it.
    RawInputUnavailable,
}

/// Where encoded records go.
#[derive(Clone, Copy, Debug, PartialEq, Eq, Structural)]
pub enum SinkKind {
    NamedChannel,
    Stdout,
}

/// What the loop does after a write.
#[derive(Clone, Copy, Debug, PartialEq, Eq, Structural)]
pub enum LoopAction {
    Continue,
    Fail,
}

/// One outcome of the hook backend's blocking receive.
#[derive(Clone, Copy, Debug, PartialEq, Eq, Structural)]
pub enum HookReceive {
    Key(RawKeyEvent),
    /// An input event that is not a keyboard event.
    OtherInput,
    /// The hook's channel closed.
    Closed,
}

/// One message taken from the raw input window's queue.
#[derive(Clone, Copy, Debug, PartialEq, Eq, Structural)]
pub enum WindowMessage {
    /// A raw input notification; `size_ok` tells whether both size queries
    /// succeeded with a non-empty payload.
    Input { size_ok: bool, payload: RawInputPayload },
    Quit,
    Other,
}

/// A record to write and the sink it goes to.
pub struct Delivery {
    pub sink: SinkKind,
    pub line: String,
}

/// The decision for one hook receive.
pub enum HookStep {
    Deliver(Delivery),
    Skip,
    Finish,
}

/// The decision for one window message.
pub struct WindowStep {
    /// A record to write before the message is dispatched.
    pub deliver: Option<Delivery>,
    /// Whether the message goes on to default dispatch.
    pub dispatch: bool,
    /// Whether the loop ends after this message.
    pub stop: bool,
}

/// The transport, fixed once at startup.
pub struct Transport {
    pub sink: SinkKind,
}

/// The sink chosen at startup: the named channel if connecting to it
/// succeeded, standard output for the rest of the run otherwise.
pub open spec fn chosen_sink(connected: bool) -> SinkKind {
    if connected {
        SinkKind::NamedChannel
    } else {
        SinkKind::Stdout
    }
}

/// Whether a window message goes on to default dispatch: all do but a raw
/// input notification whose size queries failed.
pub open spec fn window_dispatches(msg: WindowMessage) -> bool {
    match msg {
        WindowMessage::Input { size_ok, .. } => size_ok,
        _ => true,
    }
}

/// The keyboard event of a window message that produces a record, if any.
pub open spec fn window_record(msg: WindowMessage) -> Option<RawKeyEvent> {
    match msg {
        WindowMessage::Input { size_ok, payload: RawInputPayload::Keyboard(ev) } => {
            if size_ok && yields_message(ev) {
                Some(ev)
            } else {
                None
            }
        },
        _ => None,
    }
}

/// Whether a failed write ends the daemon on a backend: it does on the hook
/// path and is ignored on the raw input path.
pub open spec fn write_failure_fatal(backend: Backend) -> bool {
    backend == Backend::Hook
}

/// The name of the channel the host listens on.
pub fn channel_name() -> (r: &'static str)
    ensures
        r@ == "dmnote_keys_v1"@,
{
    "dmnote_keys_v1"
}

/// Selects the capture backend. The raw input backend needs platform
/// support; without it starting fails.
pub fn run(raw_input_supported: bool) -> (r: Result<Backend, StartError>)
    ensures
        USE_RAW_INPUT_BACKEND && raw_input_supported ==> r == Ok::<Backend, StartError>(
            Backend::RawInput,
        ),
        USE_RAW_INPUT_BACKEND && !raw_input_supported ==> r == Err::<Backend, StartError>(
            StartError::RawInputUnavailable,
        ),
        !USE_RAW_INPUT_BACKEND ==> r == Ok::<Backend, StartError>(Backend::Hook),
{
    if USE_RAW_INPUT_BACKEND {
        if raw_input_supported {
            Ok(Backend::RawInput)
        } else {
            Err(StartError::RawInputUnavailable)
        }
    } else {
        Ok(Backend::Hook)
    }
}

/// What the loop does after writing a record.
pub fn after_write(backend: Backend, write_ok: bool) -> (r: LoopAction)
    ensures
        r == (if !write_ok && write_failure_fatal(backend) {
            LoopAction::Fail
        } else {
            LoopAction::Continue
        }),
{
    match backend {
        Backend::Hook => if write_ok {
            LoopAction::Continue
        } else {
            LoopAction::Fail
        },
        Backend::RawInput => LoopAction::Continue,
    }
}

impl Transport {
    /// Fixes the sink from the outcome of the one connection attempt.
    pub fn connect(connected: bool) -> (r: Transport)
        ensures
            r.sink == chosen_sink(connected),
    {
        if connected {
            Transport { sink: SinkKind::NamedChannel }
        } else {
            Transport { sink: SinkKind::Stdout }
        }
    }

    /// The record for an event, addressed to this transport's sink.
    pub fn frame(&self, ev: &RawKeyEvent) -> (r: Option<Delivery>)
        ensures
            r is Some <==> yields_message(*ev),
            r matches Some(d) ==> d.sink == self.sink && d.line@ == event_output(*ev),
    {
        match encode_event(ev) {
            Some(line) => Some(Delivery { sink: self.sink, line }),
            None => None,
        }
    }

    /// Decides one step of the hook loop: key events are framed, other
    /// input is skipped, and a closed channel ends the loop.
    pub fn hook_step(&self, rcv: HookReceive) -> (r: HookStep)
        ensures
            rcv is Closed <==> r is Finish,
            rcv is OtherInput ==> r is Skip,
            rcv matches HookReceive::Key(ev) ==> {
                &&& (r is Skip <==> !yields_message(ev))
                &&& (r matches HookStep::Deliver(d) ==> d.sink == self.sink && d.line@
                    == event_output(ev))
            },
    {
        match rcv {
            HookReceive::Key(ev) => match self.frame(&ev) {
                Some(d) => HookStep::Deliver(d),
                None => HookStep::Skip,
            },
            HookReceive::OtherInput => HookStep::Skip,
            HookReceive::Closed => HookStep::Finish,
        }
    }

    /// Decides one step of the raw input message loop. A notification whose
    /// size queries failed is dropped without dispatch; every other message is
    /// dispatched, a keyboard one after its record; the loop stops on quit.
    pub fn window_step(&self, msg: WindowMessage) -> (r: WindowStep)
        ensures
            r.stop <==> msg is Quit,
            r.dispatch == window_dispatches(msg),
            r.deliver is Some <==> window_record(msg) is Some,
            r.deliver matches Some(d) ==> d.sink == self.sink && d.line@ == event_output(
                window_record(msg).unwrap(),
            ),
    {
        match msg {
            WindowMessage::Input { size_ok, payload } => {
                if !size_ok {
                    return WindowStep { deliver: None, dispatch: false, stop: false };
                }
                let deliver = match payload {
                    RawInputPayload::Keyboard(ev) => self.frame(&ev),
                    _ => None,
                };
                WindowStep { deliver, dispatch: true, stop: false }
            },
            WindowMessage::Quit => WindowStep { deliver: None, dispatch: true, stop: true },
            WindowMessage::Other => WindowStep { deliver: None, dispatch: true, stop: false },
        }
    }
}

} // verus!
