use vstd::prelude::*;
use vstd::string::*;

use crate::event::{HookKeyState, HookMessage, RawKeyEvent};
use crate::normalize::{event_labels, normalize, state_of, yields_message};

verus! {

/// The one-character prefix of a state on the wire.
pub open spec fn state_prefix(state: HookKeyState) -> char {
    match state {
        HookKeyState::Down => 'D',
        HookKeyState::Up => 'U',
    }
}

/// One wire record: the state prefix, a colon, the label and a newline.
pub open spec fn wire_line(state: HookKeyState, label: Seq<char>) -> Seq<char> {
    seq![state_prefix(state), ':'] + label + seq!['\n']
}

/// The first label of a sequence, or the empty label if there is none.
pub open spec fn first_label(labels: Seq<Seq<char>>) -> Seq<char> {
    if labels.len() > 0 {
        labels[0]
    } else {
        Seq::empty()
    }
}

/// What the daemon sends for one raw event: a record with its state and its
/// first label, or nothing when the event yields no message.
pub open spec fn event_output(ev: RawKeyEvent) -> Seq<char> {
    if yields_message(ev) {
        wire_line(state_of(ev.transition).unwrap(), first_label(event_labels(ev)))
    } else {
        Seq::empty()
    }
}

/// Encodes a message as one wire record, carrying its first label only.
pub fn encode_message(msg: &HookMessage) -> (r: String)
    ensures
        r@ == wire_line(msg.state, first_label(msg.label_seqs())),
{
    let mut line = match msg.state {
        HookKeyState::Down => {
            proof {
                reveal_strlit("D:");
            }
            String::from_str("D:")
        },
        HookKeyState::Up => {
            proof {
                reveal_strlit("U:");
            }
            String::from_str("U:")
        },
    };
    if msg.labels.len() > 0 {
        line.append(msg.labels[0].as_str());
    }
    proof {
        reveal_strlit("\n");
    }
    line.append("\n");
    assert(line@ =~= wire_line(msg.state, first_label(msg.label_seqs())));
    line
}

/// Normalizes a raw event and encodes the message, if any, as a wire record.
pub fn encode_event(ev: &RawKeyEvent) -> (r: Option<String>)
    ensures
        r is Some <==> yields_message(*ev),
        r matches Some(s) ==> s@ == event_output(*ev) && s@.len() > 0,
{
    match normalize(ev) {
        Some(msg) => {
            let line = encode_message(&msg);
            Some(line)
        },
        None => None,
    }
}

} // verus!
